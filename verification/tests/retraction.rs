use postbot::constants::DELETE_QUORUM;
use postbot::retraction::{VoteBook, VoteOutcome};

const A: u64 = 11;
const B: u64 = 22;
const C: u64 = 33;
const D: u64 = 44;

#[test]
fn quorum_is_four() {
    assert_eq!(DELETE_QUORUM, 4);
}

#[test]
fn repeated_vote_does_not_count_and_fourth_voter_deletes() {
    let mut book = VoteBook::new();
    let message = 900;
    let mut deletes = 0;
    let mut outcomes = Vec::new();
    for user in [A, B, C, A, D] {
        let outcome = book.on_vote(message, user);
        if matches!(outcome, VoteOutcome::Retracted { .. }) {
            deletes += 1;
        }
        outcomes.push(outcome);
    }
    assert_eq!(deletes, 1);
    assert!(matches!(&outcomes[0], VoteOutcome::Counted { votes: 1, label } if label == "Delete (1/4)"));
    assert!(matches!(&outcomes[1], VoteOutcome::Counted { votes: 2, label } if label == "Delete (2/4)"));
    assert!(matches!(&outcomes[2], VoteOutcome::Counted { votes: 3, label } if label == "Delete (3/4)"));
    assert!(matches!(&outcomes[3], VoteOutcome::Repeated));
    assert!(matches!(&outcomes[4], VoteOutcome::Retracted { votes: 4, label } if label == "Delete (4/4)"));
    assert_eq!(book.count(message), 0);
}

#[test]
fn three_voters_never_delete_however_often_they_vote() {
    let mut book = VoteBook::new();
    let message = 5;
    for round in 0..50 {
        for user in [A, B, C, C, B, A] {
            let outcome = book.on_vote(message, user);
            assert!(!matches!(outcome, VoteOutcome::Retracted { .. }), "round {round}");
            assert!(book.count(message) <= 3);
        }
    }
    assert_eq!(book.count(message), 3);
}

#[test]
fn votes_on_one_post_do_not_count_for_another() {
    let mut book = VoteBook::new();
    book.on_vote(1, A);
    book.on_vote(1, B);
    book.on_vote(2, A);
    assert_eq!(book.count(1), 2);
    assert_eq!(book.count(2), 1);
    assert_eq!(book.count(3), 0);
    book.on_vote(1, C);
    assert!(matches!(book.on_vote(1, D), VoteOutcome::Retracted { votes: 4, .. }));
    assert_eq!(book.count(1), 0);
    assert_eq!(book.count(2), 1);
}

#[test]
fn retracted_post_takes_no_more_votes() {
    let mut book = VoteBook::new();
    let mut deletes = 0;
    for user in [A, B, C, D, A, B, C, D, 55, 66, 77, 88] {
        if matches!(book.on_vote(7, user), VoteOutcome::Retracted { .. }) {
            deletes += 1;
        }
    }
    assert_eq!(deletes, 1);
    assert!(book.is_closed(7));
    assert!(matches!(book.on_vote(7, 99), VoteOutcome::Closed));
    assert_eq!(book.count(7), 0);
}

#[test]
fn votes_after_the_window_do_nothing() {
    let mut book = VoteBook::new();
    book.on_vote(7, A);
    book.on_vote(7, B);
    assert!(!book.is_closed(7));
    book.discard(7);
    assert!(book.is_closed(7));
    for user in [A, B, C, D, 55, 66] {
        assert!(matches!(book.on_vote(7, user), VoteOutcome::Closed));
        assert_eq!(book.count(7), 0);
    }
    assert!(matches!(book.on_vote(8, A), VoteOutcome::Counted { votes: 1, .. }));
}

#[test]
fn post_without_votes_can_be_closed() {
    let mut book = VoteBook::new();
    book.discard(3);
    assert!(book.is_closed(3));
    assert!(!book.is_closed(4));
    assert!(matches!(book.on_vote(3, A), VoteOutcome::Closed));
    book.discard(3);
    assert!(book.is_closed(3));
}

#[test]
fn discard_forgets_the_votes_of_a_post() {
    let mut book = VoteBook::new();
    book.on_vote(7, A);
    book.on_vote(7, B);
    book.on_vote(8, A);
    book.discard(7);
    assert_eq!(book.count(7), 0);
    assert_eq!(book.count(8), 1);
    book.discard(99);
    assert_eq!(book.count(8), 1);
}

#[test]
fn new_book_is_empty() {
    let book = VoteBook::new();
    assert_eq!(book.count(0), 0);
    assert_eq!(book.count(u64::MAX), 0);
}
