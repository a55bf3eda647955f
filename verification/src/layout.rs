//! What a post looks like in a channel: the button under it and the embed.

use vstd::prelude::*;
use vstd::string::StringExecFns;
use crate::text::{
    append_decimal, append_signed, decimal, join, joined, signed_decimal, views,
};

verus! {

/// The button under a post, by which users vote to delete it.
#[derive(Debug)]
pub struct DeleteButton {
    /// Identifier by which clicks on the button are recognised.
    pub custom_id: String,
    /// The emoji shown on the button.
    pub emoji: String,
    /// The text shown on the button.
    pub label: String,
}

/// The text on the delete button: votes given and votes needed.
pub open spec fn delete_label(current: nat, needed: nat) -> Seq<char> {
    "Delete ("@ + decimal(current) + "/"@ + decimal(needed) + ")"@
}

/// The text on the delete button after `current` of `needed` votes.
pub fn delete_button_label(current: usize, needed: usize) -> (label: String)
    ensures
        label@ == delete_label(current as nat, needed as nat),
{
    let mut label = String::from_str("Delete (");
    append_decimal(&mut label, current as u64);
    label.append("/");
    append_decimal(&mut label, needed as u64);
    label.append(")");
    label
}

/// The delete button after `current` of `needed` votes.
pub fn post_buttons(current: usize, needed: usize) -> (button: DeleteButton)
    ensures
        button.custom_id@ == "delete-post"@,
        button.emoji@ == "❌"@,
        button.label@ == delete_label(current as nat, needed as nat),
{
    DeleteButton {
        custom_id: String::from_str("delete-post"),
        emoji: String::from_str("❌"),
        label: delete_button_label(current, needed),
    }
}

/// What the embed of a post is made from.
#[derive(Debug)]
pub struct PostSummary {
    pub id: u64,
    pub description: String,
    /// Where the post's file lies, if that is known.
    pub url: Option<String>,
    pub artists: Vec<String>,
    pub score_up: i64,
    pub score_down: i64,
}

/// The embed of a post.
#[derive(Debug)]
pub struct EmbedContent {
    pub colour: u32,
    pub title: String,
    pub description: String,
    pub url: String,
    pub image: String,
    /// The value of the field "Artist(s)".
    pub artists: String,
    pub footer: String,
}

/// The colour of every embed.
pub const EMBED_COLOUR: u32 = 0x203f6c;

/// The title of the embed of post `id`.
pub open spec fn embed_title(id: u64) -> Seq<char> {
    "#"@ + decimal(id as nat)
}

/// The footer of an embed: the votes for the post, the votes against it
/// and their sum.
pub open spec fn embed_footer(up: i64, down: i64) -> Seq<char> {
    "up: "@ + signed_decimal(up as int) + ", down: "@ + signed_decimal(down as int) + ", total: "@
        + signed_decimal(up + down)
}

/// The message of the error for a post without a file.
pub open spec fn no_url_message() -> Seq<char> {
    "No url on post object"@
}

/// Lays out a post as an embed. Fails exactly if the post has no url, and
/// then before the scores are looked at. For a post with a url the sum of
/// the two scores has to fit.
pub fn embed_from_post(post: &PostSummary) -> (embed: Result<EmbedContent, String>)
    requires
        post.url is Some ==> i64::MIN <= post.score_up + post.score_down <= i64::MAX,
    ensures
        post.url is None ==> embed is Err && embed->Err_0@ == no_url_message(),
        post.url is Some ==> embed is Ok && ({
            let made = embed->Ok_0;
            &&& made.colour == EMBED_COLOUR
            &&& made.title@ == embed_title(post.id)
            &&& made.description@ == post.description@
            &&& made.url@ == post.url->Some_0@
            &&& made.image@ == post.url->Some_0@
            &&& made.artists@ == joined(views(post.artists@), ", "@)
            &&& made.footer@ == embed_footer(post.score_up, post.score_down)
        }),
{
    let url = match &post.url {
        Some(url) => url,
        None => { return Err(String::from_str("No url on post object")); },
    };
    let mut title = String::from_str("#");
    append_decimal(&mut title, post.id);
    let mut footer = String::from_str("up: ");
    append_signed(&mut footer, post.score_up);
    footer.append(", down: ");
    append_signed(&mut footer, post.score_down);
    footer.append(", total: ");
    append_signed(&mut footer, post.score_up + post.score_down);
    assert(footer@ =~= embed_footer(post.score_up, post.score_down));
    Ok(
        EmbedContent {
            colour: EMBED_COLOUR,
            title,
            description: post.description.clone(),
            url: url.clone(),
            image: url.clone(),
            artists: join(&post.artists, ", "),
            footer,
        },
    )
}

} // verus!
