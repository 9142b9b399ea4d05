//! Voice presence tracker: normalizes raw per-user voice-channel membership
//! changes into canonical transitions of the one tracked user.

use vstd::prelude::*;

verus! {

/// A classified change in the tracked user's voice-channel membership.
#[derive(Clone, Copy, Debug, PartialEq, Eq)]
pub enum VoiceTransition {
    /// The user entered `channel` while previously in no channel.
    Joined { channel: u64 },
    /// The user left voice entirely.
    Left,
    /// The user switched from channel `from` to a different channel `to`.
    Moved { from: u64, to: u64 },
}

/// Classification of a raw membership change `(previous, new)`. Changes that
/// change nothing — equal channels on both sides, or no channel on either
/// side — classify as `None` and are ignored without any effect.
pub open spec fn classify_transition(previous: Option<u64>, new: Option<u64>) -> Option<
    VoiceTransition,
> {
    match (previous, new) {
        (Option::None, Option::Some(c)) => Option::Some(VoiceTransition::Joined { channel: c }),
        (Option::Some(_), Option::None) => Option::Some(VoiceTransition::Left),
        (Option::Some(a), Option::Some(b)) => if a == b {
            Option::None
        } else {
            Option::Some(VoiceTransition::Moved { from: a, to: b })
        },
        (Option::None, Option::None) => Option::None,
    }
}

/// Raw notifications concern every user in the guild; only those of the
/// tracked user are classified, all others are dropped.
pub open spec fn classify_for_user(
    tracked_user: u64,
    user: u64,
    previous: Option<u64>,
    new: Option<u64>,
) -> Option<VoiceTransition> {
    if user == tracked_user {
        classify_transition(previous, new)
    } else {
        Option::None
    }
}

/// Normalizes one raw voice-state notification into a transition of the
/// tracked user, or `None` where nothing is to be done. Pure classification:
/// no failure mode, no retries.
pub fn classify(tracked_user: u64, user: u64, previous: Option<u64>, new: Option<u64>) -> (r:
    Option<VoiceTransition>)
    ensures
        r == classify_for_user(tracked_user, user, previous, new),
{
    if user != tracked_user {
        return None;
    }
    match (previous, new) {
        (None, Some(c)) => Some(VoiceTransition::Joined { channel: c }),
        (Some(_), None) => Some(VoiceTransition::Left),
        (Some(a), Some(b)) => if a == b {
            None
        } else {
            Some(VoiceTransition::Moved { from: a, to: b })
        },
        (None, None) => None,
    }
}

} // verus!
