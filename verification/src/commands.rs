//! Decisions of the thin chat commands and of the completion feature's
//! message filter. The host performs the replies and transport calls these
//! decisions ask for.

use vstd::prelude::*;

verus! {

/// The one text channel the completion feature answers in.
pub const COMPLETION_CHANNEL: u64 = 983513540306534400;

/// Relies on str::starts_with: true exactly where `prefix` is a prefix of
/// `s`.
#[verifier::external_body]
fn starts_with(s: &str, prefix: &str) -> (r: bool)
    ensures
        r == (prefix@.len() <= s@.len() && s@.subrange(0, prefix@.len() as int) == prefix@),
{
    s.starts_with(prefix)
}

/// Whether a chat message is answered by the completion feature: not from
/// a bot, not a bang-prefixed command, and in the completion channel.
pub open spec fn respond_spec(author_is_bot: bool, content: Seq<char>, channel: u64) -> bool {
    !author_is_bot && !(content.len() >= 1 && content.subrange(0, 1) == "!"@) && channel
        == COMPLETION_CHANNEL
}

/// The completion feature's message filter.
pub fn should_respond(author_is_bot: bool, content: &str, channel: u64) -> (r: bool)
    ensures
        r == respond_spec(author_is_bot, content@, channel),
{
    proof {
        reveal_strlit("!");
    }
    let is_command = starts_with(content, "!");
    !author_is_bot && !is_command && channel == COMPLETION_CHANNEL
}

/// Reply of the chat join command.
#[derive(Clone, Copy, Debug, PartialEq, Eq)]
pub enum JoinReply {
    /// Connect to the requester's channel.
    Connect { channel: u64 },
    /// The requester is in no voice channel; tell them to join one first.
    NotInVoice,
}

/// Decision of the join command, from the requester's current channel.
pub fn join_request(requester_channel: Option<u64>) -> (r: JoinReply)
    ensures
        r == (match requester_channel {
            Option::Some(c) => JoinReply::Connect { channel: c },
            Option::None => JoinReply::NotInVoice,
        }),
{
    match requester_channel {
        Some(c) => JoinReply::Connect { channel: c },
        None => JoinReply::NotInVoice,
    }
}

/// Reply of the chat leave command.
#[derive(Clone, Copy, Debug, PartialEq, Eq)]
pub enum LeaveReply {
    /// Release the voice connection and confirm.
    Disconnect,
    /// No connection is held; say so.
    NotConnected,
}

/// Decision of the leave command, from whether a connection is held.
pub fn leave_request(has_connection: bool) -> (r: LeaveReply)
    ensures
        r == (if has_connection {
            LeaveReply::Disconnect
        } else {
            LeaveReply::NotConnected
        }),
{
    if has_connection {
        LeaveReply::Disconnect
    } else {
        LeaveReply::NotConnected
    }
}

} // verus!
