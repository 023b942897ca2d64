//! Chat lines, and the filter that picks out the ones worth answering.

use crate::text::{
    chars_equal, chars_of, ends_with, normalize, normalized, str_ends_with, str_equal,
};
use vstd::prelude::*;

verus! {

/// The phrase that asks for a reply, and the reply itself.
pub const TRIGGER: &'static str = "!play";

/// The tail by which, by convention, an automated account's name is known.
pub const BOT_SUFFIX: &'static str = "bot";

/// One line of chat as it came in.
#[derive(Debug)]
pub struct ChatMessage {
    /// The name of the account that wrote the line.
    pub sender: String,
    /// The channel the line was written in.
    pub channel: String,
    /// The line itself, as written.
    pub text: String,
}

/// A [`ChatMessage`] as three sequences of characters.
pub struct ChatMessageView {
    pub sender: Seq<char>,
    pub channel: Seq<char>,
    pub text: Seq<char>,
}

impl View for ChatMessage {
    type V = ChatMessageView;

    open spec fn view(&self) -> ChatMessageView {
        ChatMessageView { sender: self.sender@, channel: self.channel@, text: self.text@ }
    }
}

/// Whether `name` looks like the name of an automated account: it ends in
/// [`BOT_SUFFIX`], letter for letter. This is a convention, not a registry.
pub open spec fn names_bot(name: Seq<char>) -> bool {
    ends_with(name, BOT_SUFFIX@)
}

/// Whether `text` is the trigger phrase once it has been trimmed and folded
/// to lower case: the whole line, nothing before or after it.
pub open spec fn asks_to_play(text: Seq<char>) -> bool {
    normalized(text) == TRIGGER@
}

/// Whether `message` is to be answered by the account named `own`: it was
/// not written by that account, nor by an account whose name marks it as
/// automated, and it is the trigger phrase.
pub open spec fn triggers(message: ChatMessageView, own: Seq<char>) -> bool {
    &&& message.sender != own
    &&& !names_bot(message.sender)
    &&& asks_to_play(message.text)
}

/// Computes [`names_bot`].
pub fn is_bot_name(name: &str) -> (r: bool)
    ensures
        r == names_bot(name@),
{
    str_ends_with(name, BOT_SUFFIX)
}

/// Computes [`asks_to_play`].
pub fn is_play_request(text: &str) -> (r: bool)
    ensures
        r == asks_to_play(text@),
{
    chars_equal(&normalize(text), &chars_of(TRIGGER))
}

/// Decides whether `message` is a trigger for the account `own_username`.
///
/// The checks run in a fixed order and stop at the first that fails: the
/// sender is not the account itself; the sender's name does not mark it as
/// automated; the line is the trigger phrase.
pub fn is_trigger(message: &ChatMessage, own_username: &str) -> (r: bool)
    ensures
        r == triggers(message@, own_username@),
        message.sender@ == own_username@ ==> !r,
        names_bot(message.sender@) ==> !r,
{
    if str_equal(message.sender.as_str(), own_username) {
        return false;
    }
    if is_bot_name(message.sender.as_str()) {
        return false;
    }
    is_play_request(message.text.as_str())
}

} // verus!
