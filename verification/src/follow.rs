//! Follow state machine: the orchestration core. It consumes classified
//! voice transitions and playback events, mutates the follow state, and
//! issues intents (commands) to the voice transport, the playback session
//! and the presence gateway. The host process performs those intents; on a
//! transport failure it keeps the previous core value, so no partial state
//! transition is committed.

use vstd::prelude::*;
use crate::transition::{classify, classify_for_user, VoiceTransition};

verus! {

/// Opaque reference to a track in the streaming service's catalogue,
/// resolved into artist and track names only when presence text is shown.
#[derive(Clone, Copy, Debug, PartialEq, Eq)]
pub struct TrackRef {
    pub id: u128,
}

/// What the external playback session is doing, as far as the core has
/// observed through playback events.
#[derive(Clone, Copy, Debug, PartialEq, Eq)]
pub enum PlaybackState {
    Stopped,
    Starting,
    Playing { track: TrackRef },
    Paused,
}

/// A lifecycle notification from the streaming session.
#[derive(Clone, Copy, Debug, PartialEq, Eq)]
pub enum PlaybackEvent {
    Started,
    Playing { track: TrackRef },
    Paused,
    Stopped,
}

/// An intent issued by the state machine to an external collaborator, in
/// the order the commands must be performed.
#[derive(Clone, Copy, Debug, PartialEq, Eq)]
pub enum Command {
    /// Permit this process to act as an output device of the playback session.
    EnableCast,
    /// Withdraw that permission.
    DisableCast,
    /// Open the voice connection into `channel`.
    Join { channel: u64 },
    /// Attach the continuous audio source to the just-opened connection.
    AttachSource,
    /// Move the open voice connection to `channel`.
    MoveTo { channel: u64 },
    /// Release the voice connection.
    Leave,
    /// Publish an invisible/offline presence.
    PublishInvisible,
    /// Publish an online presence with no activity.
    PublishClear,
    /// Resolve the track's metadata and publish a listening presence.
    PublishListening { track: TrackRef },
}

/// The core's authoritative view of connection, cast capability and
/// playback status.
#[derive(Clone, Copy, Debug, PartialEq, Eq)]
pub struct FollowState {
    /// Channel the bot's own voice connection is in, if any.
    pub connected_channel: Option<u64>,
    /// Whether the cast capability of the playback session is enabled.
    pub cast_enabled: bool,
    /// Last observed playback status.
    pub playback: PlaybackState,
}

/// The follow state machine: the follow state together with the identity of
/// the tracked user and the channel that user occupies per the latest
/// observed transition.
#[derive(Clone, Copy, Debug, PartialEq, Eq)]
pub struct FollowCore {
    /// The one user the bot follows; set at startup, never reassigned.
    pub tracked_user: u64,
    /// Channel the tracked user occupies, per the latest observed transition.
    pub user_channel: Option<u64>,
    /// The follow state proper.
    pub state: FollowState,
}

/// The core's value at process start: disconnected, cast disabled,
/// playback stopped, user location unknown.
pub open spec fn init_core(tracked_user: u64) -> FollowCore {
    FollowCore {
        tracked_user,
        user_channel: Option::None,
        state: FollowState {
            connected_channel: Option::None,
            cast_enabled: false,
            playback: PlaybackState::Stopped,
        },
    }
}

/// Invariant: the cast capability mirrors the tracked user's occupancy of
/// some voice channel, as derived from the latest observed transition.
pub open spec fn cast_matches_occupancy(s: FollowCore) -> bool {
    s.state.cast_enabled <==> s.user_channel is Some
}

/// Invariant: a voice connection is held only while playback is live; once
/// playback is stopped the connection has been released.
pub open spec fn connected_only_while_active(s: FollowCore) -> bool {
    s.state.playback is Stopped ==> s.state.connected_channel is None
}

/// Model of one classified voice transition: the successor core and the
/// commands issued, in order.
///
/// - `Joined`: enable the cast capability only; capability and connection
///   are decoupled, so no connection is opened here.
/// - `Left`: disable the cast capability, publish an invisible presence,
///   and release the connection if one is open.
/// - `Moved`: follow with the open connection if there is one; a move while
///   idle changes nothing but the recorded location.
pub open spec fn voice_step(s: FollowCore, t: VoiceTransition) -> (FollowCore, Seq<Command>) {
    match t {
        VoiceTransition::Joined { channel } => (
            FollowCore {
                tracked_user: s.tracked_user,
                user_channel: Option::Some(channel),
                state: FollowState {
                    connected_channel: s.state.connected_channel,
                    cast_enabled: true,
                    playback: s.state.playback,
                },
            },
            seq![Command::EnableCast],
        ),
        VoiceTransition::Left => (
            FollowCore {
                tracked_user: s.tracked_user,
                user_channel: Option::None,
                state: FollowState {
                    connected_channel: Option::None,
                    cast_enabled: false,
                    playback: s.state.playback,
                },
            },
            if s.state.connected_channel is Some {
                seq![Command::DisableCast, Command::PublishInvisible, Command::Leave]
            } else {
                seq![Command::DisableCast, Command::PublishInvisible]
            },
        ),
        VoiceTransition::Moved { from, to } => if s.state.connected_channel is Some {
            (
                FollowCore {
                    tracked_user: s.tracked_user,
                    user_channel: Option::Some(to),
                    state: FollowState {
                        connected_channel: Option::Some(to),
                        cast_enabled: s.state.cast_enabled,
                        playback: s.state.playback,
                    },
                },
                seq![Command::MoveTo { channel: to }],
            )
        } else {
            (
                FollowCore {
                    tracked_user: s.tracked_user,
                    user_channel: Option::Some(to),
                    state: s.state,
                },
                Seq::<Command>::empty(),
            )
        },
    }
}

/// Model of one raw voice-state notification: classification followed by
/// `voice_step`; notifications of other users and no-op transitions leave
/// the core unchanged and issue nothing.
pub open spec fn voice_event_step(
    s: FollowCore,
    user: u64,
    previous: Option<u64>,
    new: Option<u64>,
) -> (FollowCore, Seq<Command>) {
    match classify_for_user(s.tracked_user, user, previous, new) {
        Option::Some(t) => voice_step(s, t),
        Option::None => (s, Seq::<Command>::empty()),
    }
}

/// Model of one playback event.
///
/// - `Started`: join the tracked user's current channel and attach the
///   audio source, if that channel is known; otherwise defer — the next
///   transition together with a later event resolves it.
/// - `Playing`: record the track and publish a listening presence.
/// - `Paused`: clear the presence, keep the connection.
/// - `Stopped`: clear the presence and release the connection if one is open.
pub open spec fn playback_step(s: FollowCore, e: PlaybackEvent) -> (FollowCore, Seq<Command>) {
    match e {
        PlaybackEvent::Started => match s.user_channel {
            Option::Some(c) => (
                FollowCore {
                    tracked_user: s.tracked_user,
                    user_channel: s.user_channel,
                    state: FollowState {
                        connected_channel: Option::Some(c),
                        cast_enabled: s.state.cast_enabled,
                        playback: PlaybackState::Starting,
                    },
                },
                seq![Command::Join { channel: c }, Command::AttachSource],
            ),
            Option::None => (s, Seq::<Command>::empty()),
        },
        PlaybackEvent::Playing { track } => (
            FollowCore {
                tracked_user: s.tracked_user,
                user_channel: s.user_channel,
                state: FollowState {
                    connected_channel: s.state.connected_channel,
                    cast_enabled: s.state.cast_enabled,
                    playback: PlaybackState::Playing { track },
                },
            },
            seq![Command::PublishListening { track }],
        ),
        PlaybackEvent::Paused => (
            FollowCore {
                tracked_user: s.tracked_user,
                user_channel: s.user_channel,
                state: FollowState {
                    connected_channel: s.state.connected_channel,
                    cast_enabled: s.state.cast_enabled,
                    playback: PlaybackState::Paused,
                },
            },
            seq![Command::PublishClear],
        ),
        PlaybackEvent::Stopped => (
            FollowCore {
                tracked_user: s.tracked_user,
                user_channel: s.user_channel,
                state: FollowState {
                    connected_channel: Option::None,
                    cast_enabled: s.state.cast_enabled,
                    playback: PlaybackState::Stopped,
                },
            },
            if s.state.connected_channel is Some {
                seq![Command::PublishClear, Command::Leave]
            } else {
                seq![Command::PublishClear]
            },
        ),
    }
}

/// Model of the one-time startup inspection: equivalent in effect to a
/// `Joined` transition where the tracked user already occupies a channel;
/// never opens a connection.
pub open spec fn startup_step(s: FollowCore, current_channel: Option<u64>) -> (
    FollowCore,
    Seq<Command>,
) {
    match current_channel {
        Option::Some(c) => voice_step(s, VoiceTransition::Joined { channel: c }),
        Option::None => (s, Seq::<Command>::empty()),
    }
}

/// Model of shutdown: release any open connection and withdraw the cast
/// capability, leaving no dangling external connection.
pub open spec fn shutdown_step(s: FollowCore) -> (FollowCore, Seq<Command>) {
    (
        FollowCore {
            tracked_user: s.tracked_user,
            user_channel: s.user_channel,
            state: FollowState {
                connected_channel: Option::None,
                cast_enabled: false,
                playback: s.state.playback,
            },
        },
        if s.state.connected_channel is Some {
            seq![Command::Leave, Command::DisableCast]
        } else {
            seq![Command::DisableCast]
        },
    )
}

impl FollowCore {
    /// A fresh core following `tracked_user`.
    pub fn new(tracked_user: u64) -> (core: FollowCore)
        ensures
            core == init_core(tracked_user),
    {
        FollowCore {
            tracked_user,
            user_channel: None,
            state: FollowState {
                connected_channel: None,
                cast_enabled: false,
                playback: PlaybackState::Stopped,
            },
        }
    }

    /// Applies one raw voice-state notification and returns the commands to
    /// perform, in order.
    pub fn on_voice_state(&mut self, user: u64, previous: Option<u64>, new: Option<u64>) -> (cmds:
        Vec<Command>)
        ensures
            *final(self) == voice_event_step(*old(self), user, previous, new).0,
            cmds@ == voice_event_step(*old(self), user, previous, new).1,
    {
        let mut cmds: Vec<Command> = Vec::new();
        match classify(self.tracked_user, user, previous, new) {
            None => {},
            Some(VoiceTransition::Joined { channel }) => {
                self.user_channel = Some(channel);
                self.state.cast_enabled = true;
                cmds.push(Command::EnableCast);
            },
            Some(VoiceTransition::Left) => {
                self.user_channel = None;
                self.state.cast_enabled = false;
                cmds.push(Command::DisableCast);
                cmds.push(Command::PublishInvisible);
                if self.state.connected_channel.is_some() {
                    cmds.push(Command::Leave);
                }
                self.state.connected_channel = None;
            },
            Some(VoiceTransition::Moved { from: _, to }) => {
                self.user_channel = Some(to);
                if self.state.connected_channel.is_some() {
                    self.state.connected_channel = Some(to);
                    cmds.push(Command::MoveTo { channel: to });
                }
            },
        }
        proof {
            assert(cmds@ =~= voice_event_step(*old(self), user, previous, new).1);
        }
        cmds
    }

    /// Applies one playback event and returns the commands to perform, in
    /// order.
    pub fn on_playback(&mut self, event: PlaybackEvent) -> (cmds: Vec<Command>)
        ensures
            *final(self) == playback_step(*old(self), event).0,
            cmds@ == playback_step(*old(self), event).1,
    {
        let mut cmds: Vec<Command> = Vec::new();
        match event {
            PlaybackEvent::Started => {
                match self.user_channel {
                    Some(c) => {
                        self.state.connected_channel = Some(c);
                        self.state.playback = PlaybackState::Starting;
                        cmds.push(Command::Join { channel: c });
                        cmds.push(Command::AttachSource);
                    },
                    None => {},
                }
            },
            PlaybackEvent::Playing { track } => {
                self.state.playback = PlaybackState::Playing { track };
                cmds.push(Command::PublishListening { track });
            },
            PlaybackEvent::Paused => {
                self.state.playback = PlaybackState::Paused;
                cmds.push(Command::PublishClear);
            },
            PlaybackEvent::Stopped => {
                cmds.push(Command::PublishClear);
                if self.state.connected_channel.is_some() {
                    cmds.push(Command::Leave);
                }
                self.state.connected_channel = None;
                self.state.playback = PlaybackState::Stopped;
            },
        }
        proof {
            assert(cmds@ =~= playback_step(*old(self), event).1);
        }
        cmds
    }

    /// Applies the one-time startup inspection of the tracked user's current
    /// channel. Enables the cast capability where the user is present; never
    /// opens a connection.
    pub fn on_startup(&mut self, current_channel: Option<u64>) -> (cmds: Vec<Command>)
        ensures
            *final(self) == startup_step(*old(self), current_channel).0,
            cmds@ == startup_step(*old(self), current_channel).1,
    {
        let mut cmds: Vec<Command> = Vec::new();
        match current_channel {
            Some(c) => {
                self.user_channel = Some(c);
                self.state.cast_enabled = true;
                cmds.push(Command::EnableCast);
            },
            None => {},
        }
        proof {
            assert(cmds@ =~= startup_step(*old(self), current_channel).1);
        }
        cmds
    }

    /// Applies the shutdown signal: the returned commands release any open
    /// connection and withdraw the cast capability.
    pub fn on_shutdown(&mut self) -> (cmds: Vec<Command>)
        ensures
            *final(self) == shutdown_step(*old(self)).0,
            cmds@ == shutdown_step(*old(self)).1,
    {
        let mut cmds: Vec<Command> = Vec::new();
        if self.state.connected_channel.is_some() {
            cmds.push(Command::Leave);
        }
        cmds.push(Command::DisableCast);
        self.state.connected_channel = None;
        self.state.cast_enabled = false;
        proof {
            assert(cmds@ =~= shutdown_step(*old(self)).1);
        }
        cmds
    }
}

} // verus!
