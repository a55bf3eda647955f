//! Counting the votes that retract a post. Each post has its own set of
//! voters; a user counts once, and the vote that completes the quorum
//! deletes the post and closes the count. A count is also closed when the
//! post's time for votes is over. On a closed post the button does nothing.

use std::collections::{HashMap, HashSet};
use vstd::prelude::*;
use crate::constants::DELETE_QUORUM;
use crate::layout::{delete_button_label, delete_label};

verus! {

broadcast use {vstd::std_specs::hash::group_hash_axioms, vstd::set::group_set_axioms};

/// What a vote led to.
#[derive(Debug)]
pub enum VoteOutcome {
    /// The count of this post is closed: nothing changes, and the click is
    /// only acknowledged.
    Closed,
    /// The user had voted on this post before: nothing changes, and the
    /// click is only acknowledged.
    Repeated,
    /// The vote counts and the quorum is not reached: the button gets the
    /// new label.
    Counted { votes: usize, label: String },
    /// The vote counts and completes the quorum: the button gets the new
    /// label, then the post is deleted.
    Retracted { votes: usize, label: String },
}

/// A `VoteOutcome` as plain values.
pub enum VoteOutcomeView {
    Closed,
    Repeated,
    Counted { votes: usize, label: Seq<char> },
    Retracted { votes: usize, label: Seq<char> },
}

impl View for VoteOutcome {
    type V = VoteOutcomeView;

    open spec fn view(&self) -> VoteOutcomeView {
        match self {
            VoteOutcome::Closed => VoteOutcomeView::Closed,
            VoteOutcome::Repeated => VoteOutcomeView::Repeated,
            VoteOutcome::Counted { votes, label } => VoteOutcomeView::Counted {
                votes: *votes,
                label: label@,
            },
            VoteOutcome::Retracted { votes, label } => VoteOutcomeView::Retracted {
                votes: *votes,
                label: label@,
            },
        }
    }
}

/// What a book of votes holds, as plain values: the voters of each post
/// that is open to votes, and the posts whose count is closed.
pub struct Ballots {
    pub votes: Map<u64, Set<u64>>,
    pub closed: Set<u64>,
}

/// The voters recorded for a post, none where the post is unknown.
pub open spec fn voters_of(votes: Map<u64, Set<u64>>, message: u64) -> Set<u64> {
    if votes.contains_key(message) {
        votes[message]
    } else {
        Set::empty()
    }
}

/// True if each post has a finite set of voters that is under the quorum.
pub open spec fn under_quorum(votes: Map<u64, Set<u64>>) -> bool {
    forall|message: u64| #[trigger]
        votes.contains_key(message) ==> votes[message].finite() && votes[message].len()
            < DELETE_QUORUM
}

/// What the vote of `user` on `message` leads to.
pub open spec fn outcome_of_vote(book: Ballots, message: u64, user: u64) -> VoteOutcomeView {
    let voters = voters_of(book.votes, message);
    let votes = voters.insert(user).len() as usize;
    if book.closed.contains(message) {
        VoteOutcomeView::Closed
    } else if voters.contains(user) {
        VoteOutcomeView::Repeated
    } else if votes >= DELETE_QUORUM {
        VoteOutcomeView::Retracted { votes, label: delete_label(votes as nat, DELETE_QUORUM as nat) }
    } else {
        VoteOutcomeView::Counted { votes, label: delete_label(votes as nat, DELETE_QUORUM as nat) }
    }
}

/// The book after `user` has voted on `message`: unchanged where the
/// post's count is closed or the user has voted on it before; with the
/// post's voters forgotten and its count closed where the vote completes
/// the quorum; and with the user added to the post's voters otherwise.
pub open spec fn book_after_vote(book: Ballots, message: u64, user: u64) -> Ballots {
    let voters = voters_of(book.votes, message);
    match outcome_of_vote(book, message, user) {
        VoteOutcomeView::Closed => book,
        VoteOutcomeView::Repeated => book,
        VoteOutcomeView::Retracted { votes, label } => Ballots {
            votes: book.votes.remove(message),
            closed: book.closed.insert(message),
        },
        VoteOutcomeView::Counted { votes, label } => Ballots {
            votes: book.votes.insert(message, voters.insert(user)),
            closed: book.closed,
        },
    }
}

/// The book after the count of `message` was closed: its voters are
/// forgotten, and no vote on it counts any more.
pub open spec fn book_after_discard(book: Ballots, message: u64) -> Ballots {
    Ballots { votes: book.votes.remove(message), closed: book.closed.insert(message) }
}

/// The voters of every post that is open to votes, and the posts whose
/// count is closed.
pub struct VoteBook {
    authors: HashMap<u64, HashSet<u64>>,
    closed: HashSet<u64>,
}

impl View for VoteBook {
    type V = Ballots;

    closed spec fn view(&self) -> Ballots {
        Ballots {
            votes: Map::new(
                |message: u64| self.authors@.contains_key(message),
                |message: u64| self.authors@[message]@,
            ),
            closed: self.closed@,
        }
    }
}

impl VoteBook {
    /// A book without posts.
    pub fn new() -> (book: Self)
        ensures
            book@.votes == Map::<u64, Set<u64>>::empty(),
            book@.closed == Set::<u64>::empty(),
            under_quorum(book@.votes),
    {
        let book = VoteBook { authors: HashMap::new(), closed: HashSet::new() };
        assert(book@.votes =~= Map::<u64, Set<u64>>::empty());
        book
    }

    /// The number of voters recorded for `message`.
    pub fn count(&self, message: u64) -> (votes: usize)
        ensures
            self@.votes.contains_key(message) ==> votes == self@.votes[message].len(),
            !self@.votes.contains_key(message) ==> votes == 0,
    {
        match self.authors.get(&message) {
            Some(voters) => {
                assert(self@.votes.contains_key(message));
                voters.len()
            },
            None => 0,
        }
    }

    /// True if the count of `message` is closed.
    pub fn is_closed(&self, message: u64) -> (closed: bool)
        ensures
            closed == self@.closed.contains(message),
    {
        self.closed.contains(&message)
    }

    /// Records the vote of `user` on `message` and says what follows. On a
    /// post whose count is closed the vote changes nothing.
    pub fn on_vote(&mut self, message: u64, user: u64) -> (outcome: VoteOutcome)
        ensures
            final(self)@ == book_after_vote(old(self)@, message, user),
            outcome@ == outcome_of_vote(old(self)@, message, user),
            under_quorum(old(self)@.votes) ==> under_quorum(final(self)@.votes),
    {
        let ghost before = self@;
        if self.closed.contains(&message) {
            return VoteOutcome::Closed;
        }
        let mut voters = match self.authors.remove(&message) {
            Some(voters) => voters,
            None => HashSet::new(),
        };
        assert(voters@ == voters_of(before.votes, message));
        if voters.contains(&user) {
            self.authors.insert(message, voters);
            assert(self@.votes =~= before.votes);
            return VoteOutcome::Repeated;
        }
        voters.insert(user);
        let votes = voters.len();
        let label = delete_button_label(votes, DELETE_QUORUM);
        if votes >= DELETE_QUORUM {
            self.closed.insert(message);
            assert(self@.votes =~= before.votes.remove(message));
            VoteOutcome::Retracted { votes, label }
        } else {
            self.authors.insert(message, voters);
            assert(self@.votes =~= before.votes.insert(
                message,
                voters_of(before.votes, message).insert(user),
            ));
            VoteOutcome::Counted { votes, label }
        }
    }

    /// Closes the count of `message`, as when its time for votes is over:
    /// its voters are forgotten, and a later vote on it changes nothing.
    /// The post itself stays.
    pub fn discard(&mut self, message: u64)
        ensures
            final(self)@ == book_after_discard(old(self)@, message),
            under_quorum(old(self)@.votes) ==> under_quorum(final(self)@.votes),
    {
        let ghost before = self@;
        let _ = self.authors.remove(&message);
        self.closed.insert(message);
        assert(self@.votes =~= before.votes.remove(message));
    }
}

/// The book after the users of `users` have voted on `message`, one after
/// another.
pub open spec fn book_after_votes(book: Ballots, message: u64, users: Seq<u64>) -> Ballots
    decreases users.len(),
{
    if users.len() == 0 {
        book
    } else {
        book_after_vote(book_after_votes(book, message, users.drop_last()), message, users.last())
    }
}

/// A vote retracts the post exactly if the post's count is open and the
/// vote comes from a user who has not voted on it and who is the last one
/// missing for the quorum. A vote on one post leaves the voters of every
/// other post as they are, and closes no other post.
pub proof fn retraction_takes_quorum(book: Ballots, message: u64, user: u64)
    requires
        under_quorum(book.votes),
    ensures
        outcome_of_vote(book, message, user) is Retracted <==> !book.closed.contains(message)
            && !voters_of(book.votes, message).contains(user) && voters_of(
            book.votes,
            message,
        ).len() + 1 == DELETE_QUORUM,
        outcome_of_vote(book, message, user) is Repeated <==> !book.closed.contains(message)
            && voters_of(book.votes, message).contains(user),
        outcome_of_vote(book, message, user) is Repeated ==> book_after_vote(book, message, user)
            == book,
        forall|other: u64|
            other != message ==> voters_of(book_after_vote(book, message, user).votes, other)
                == voters_of(book.votes, other) && book_after_vote(
                book,
                message,
                user,
            ).closed.contains(other) == book.closed.contains(other),
        under_quorum(book_after_vote(book, message, user).votes),
{
    assert(voters_of(book.votes, message).finite() && voters_of(book.votes, message).len()
        < DELETE_QUORUM) by {
        if book.votes.contains_key(message) {
            assert(book.votes[message].finite());
        }
    }
}

/// A vote on a post whose count is closed is only acknowledged: it changes
/// nothing, whoever gives it. The count of a post is closed by the vote
/// that retracts it and when it is discarded, and it stays closed under
/// every vote and every discard, so that a post is retracted at most once
/// and no vote counts once the time for votes is over.
pub proof fn closed_post_takes_no_votes(book: Ballots, message: u64, user: u64, other: u64)
    ensures
        book.closed.contains(message) ==> outcome_of_vote(book, message, user) is Closed
            && book_after_vote(book, message, user) == book,
        outcome_of_vote(book, message, user) is Retracted ==> book_after_vote(
            book,
            message,
            user,
        ).closed.contains(message),
        book_after_discard(book, message).closed.contains(message),
        !book_after_discard(book, message).votes.contains_key(message),
        book.closed.contains(other) ==> book_after_vote(book, message, user).closed.contains(other)
            && book_after_discard(book, message).closed.contains(other),
{
}

/// Votes from a group of users that is smaller than the quorum never
/// retract a post, in whatever order and however often they vote: no vote
/// of theirs has the outcome `Retracted`, and the voters recorded for the
/// post stay within the group.
pub proof fn few_voters_never_retract(
    book: Ballots,
    message: u64,
    users: Seq<u64>,
    group: Set<u64>,
    i: int,
)
    requires
        group.finite(),
        group.len() < DELETE_QUORUM,
        voters_of(book.votes, message).subset_of(group),
        forall|j: int| 0 <= j < users.len() ==> group.contains(#[trigger] users[j]),
        0 <= i < users.len(),
    ensures
        !(outcome_of_vote(book_after_votes(book, message, users.take(i)), message, users[i])
            is Retracted),
        voters_of(book_after_votes(book, message, users.take(i + 1)).votes, message).subset_of(
            group,
        ),
        voters_of(book_after_votes(book, message, users.take(i + 1)).votes, message).len()
            <= group.len(),
    decreases i,
{
    let earlier = book_after_votes(book, message, users.take(i));
    if i > 0 {
        few_voters_never_retract(book, message, users, group, i - 1);
    } else {
        assert(users.take(0).len() == 0);
    }
    assert(users.take(i + 1).drop_last() =~= users.take(i));
    assert(users.take(i + 1).last() == users[i]);
    let voters = voters_of(earlier.votes, message);
    assert(voters.subset_of(group));
    assert(voters.insert(users[i]).subset_of(group));
    vstd::set_lib::lemma_len_subset(voters.insert(users[i]), group);
    vstd::set_lib::lemma_len_subset(voters, group);
    assert(voters.finite());
}

} // verus!
