//! Presence publisher: records the last activity and status handed to the
//! gateway. Publishing is fire-and-forget from the state machine's point of
//! view: presence is idempotent and the last write wins, so a failed call
//! is simply superseded by the next successful one.

use vstd::prelude::*;

verus! {

/// Online status as published to the gateway.
#[derive(Clone, Copy, Debug, PartialEq, Eq)]
pub enum OnlineStatus {
    Online,
    Invisible,
}

/// The last presence handed to the gateway.
pub struct PresencePublisher {
    /// Activity text, such as a listening line; `None` clears the activity.
    pub activity: Option<String>,
    /// Published online status.
    pub status: OnlineStatus,
}

impl PresencePublisher {
    /// A fresh publisher: online with no activity.
    pub fn new() -> (p: PresencePublisher)
        ensures
            p.activity is None,
            p.status == OnlineStatus::Online,
    {
        PresencePublisher { activity: None, status: OnlineStatus::Online }
    }

    /// Publishes an activity and a status. Last write wins: the published
    /// value depends only on the arguments, never on what was published
    /// before.
    pub fn publish(&mut self, activity: Option<String>, status: OnlineStatus)
        ensures
            final(self).activity == activity,
            final(self).status == status,
    {
        self.activity = activity;
        self.status = status;
    }
}

} // verus!
