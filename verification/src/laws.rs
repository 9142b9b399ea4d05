//! Laws of the orchestration core, proved over the model functions that the
//! handlers' contracts are stated against.

use vstd::prelude::*;
use crate::connection::{conn_step, ConnOp};
use crate::follow::{
    cast_matches_occupancy, connected_only_while_active, init_core, playback_step, shutdown_step,
    startup_step, voice_event_step, Command, FollowCore, PlaybackEvent,
};
use crate::transition::{classify_for_user, VoiceTransition};

verus! {

/// One raw voice-state notification as delivered by the gateway.
#[derive(Clone, Copy, Debug, PartialEq, Eq)]
pub struct VoiceNotification {
    pub user: u64,
    pub previous: Option<u64>,
    pub new: Option<u64>,
}

/// A notification is consistent with the core where its previous channel
/// matches the core's view of the tracked user's location — always so for
/// a gateway that delivers the tracked user's transitions in order.
pub open spec fn notification_consistent(s: FollowCore, user: u64, previous: Option<u64>) -> bool {
    user == s.tracked_user ==> previous == s.user_channel
}

/// A stream of notifications is consistent where each one is consistent
/// with the core reached by applying those before it.
pub open spec fn stream_consistent(s: FollowCore, evs: Seq<VoiceNotification>) -> bool
    decreases evs.len(),
{
    evs.len() == 0 || {
        notification_consistent(s, evs[0].user, evs[0].previous) && stream_consistent(
            voice_event_step(s, evs[0].user, evs[0].previous, evs[0].new).0,
            evs.skip(1),
        )
    }
}

/// The core reached by applying a stream of notifications in order.
pub open spec fn apply_notifications(s: FollowCore, evs: Seq<VoiceNotification>) -> FollowCore
    decreases evs.len(),
{
    if evs.len() == 0 {
        s
    } else {
        apply_notifications(
            voice_event_step(s, evs[0].user, evs[0].previous, evs[0].new).0,
            evs.skip(1),
        )
    }
}

/// The initial core satisfies both invariants.
pub proof fn lemma_init_well_formed(tracked_user: u64)
    ensures
        cast_matches_occupancy(init_core(tracked_user)),
        connected_only_while_active(init_core(tracked_user)),
{
}

/// Law: after one consistent voice notification, the cast capability still
/// equals "the tracked user currently occupies a channel".
pub proof fn lemma_cast_matches_occupancy_voice(
    s: FollowCore,
    user: u64,
    previous: Option<u64>,
    new: Option<u64>,
)
    requires
        cast_matches_occupancy(s),
        notification_consistent(s, user, previous),
    ensures
        cast_matches_occupancy(voice_event_step(s, user, previous, new).0),
{
}

/// Playback events touch neither the capability nor the user's location.
pub proof fn lemma_cast_matches_occupancy_playback(s: FollowCore, e: PlaybackEvent)
    requires
        cast_matches_occupancy(s),
    ensures
        cast_matches_occupancy(playback_step(s, e).0),
{
}

/// The startup inspection, equivalent in effect to a `Joined` transition,
/// also preserves the capability-occupancy match.
pub proof fn lemma_cast_matches_occupancy_startup(s: FollowCore, current_channel: Option<u64>)
    requires
        cast_matches_occupancy(s),
    ensures
        cast_matches_occupancy(startup_step(s, current_channel).0),
{
}

/// Law: over any consistent stream of voice notifications, the cast
/// capability equals occupancy after every prefix.
pub proof fn lemma_cast_matches_occupancy_stream(s: FollowCore, evs: Seq<VoiceNotification>)
    requires
        cast_matches_occupancy(s),
        stream_consistent(s, evs),
    ensures
        forall|i: int|
            0 <= i <= evs.len() ==> cast_matches_occupancy(
                apply_notifications(s, #[trigger] evs.take(i)),
            ),
    decreases evs.len(),
{
    if evs.len() == 0 {
        assert(forall|i: int| 0 <= i <= evs.len() ==> evs.take(i) =~= Seq::<VoiceNotification>::empty());
    } else {
        let s1 = voice_event_step(s, evs[0].user, evs[0].previous, evs[0].new).0;
        lemma_cast_matches_occupancy_voice(s, evs[0].user, evs[0].previous, evs[0].new);
        lemma_cast_matches_occupancy_stream(s1, evs.skip(1));
        assert forall|i: int| 0 <= i <= evs.len() implies cast_matches_occupancy(
            apply_notifications(s, #[trigger] evs.take(i)),
        ) by {
            if i == 0 {
                assert(evs.take(0) =~= Seq::<VoiceNotification>::empty());
            } else {
                let p = evs.take(i);
                assert(p[0] == evs[0]);
                assert(p.skip(1) =~= evs.skip(1).take(i - 1));
                assert(apply_notifications(s, p) == apply_notifications(s1, evs.skip(1).take(i - 1)));
            }
        }
    }
}

/// Law: a transition classified as nothing — equal channels, no channel on
/// either side, or another user — changes nothing and issues no external
/// call, delivered once or delivered again.
pub proof fn lemma_noop_idempotent(s: FollowCore, user: u64, previous: Option<u64>, new: Option<u64>)
    requires
        classify_for_user(s.tracked_user, user, previous, new) is None,
    ensures
        voice_event_step(s, user, previous, new).0 == s,
        voice_event_step(s, user, previous, new).1 =~= Seq::<Command>::empty(),
        voice_event_step(voice_event_step(s, user, previous, new).0, user, previous, new).0 == s,
        voice_event_step(voice_event_step(s, user, previous, new).0, user, previous, new).1
            =~= Seq::<Command>::empty(),
{
}

/// Law: `Started` followed immediately by `Stopped`, with no intervening
/// `Playing`, returns the core to its pre-`Started` value. Before the
/// `Started` event playback is stopped, and hence no connection is held.
pub proof fn lemma_start_stop_round_trip(s: FollowCore)
    requires
        s.state.playback is Stopped,
        connected_only_while_active(s),
    ensures
        playback_step(playback_step(s, PlaybackEvent::Started).0, PlaybackEvent::Stopped).0 == s,
{
}

/// Law: every handler keeps the connection invariant — a connection is held
/// only while playback is live.
pub proof fn lemma_connection_invariant_voice(
    s: FollowCore,
    user: u64,
    previous: Option<u64>,
    new: Option<u64>,
)
    requires
        connected_only_while_active(s),
    ensures
        connected_only_while_active(voice_event_step(s, user, previous, new).0),
{
}

/// Playback events keep the connection invariant as well.
pub proof fn lemma_connection_invariant_playback(s: FollowCore, e: PlaybackEvent)
    requires
        connected_only_while_active(s),
    ensures
        connected_only_while_active(playback_step(s, e).0),
{
}

/// So do the startup inspection and the shutdown signal.
pub proof fn lemma_connection_invariant_startup_shutdown(s: FollowCore, current_channel: Option<u64>)
    requires
        connected_only_while_active(s),
    ensures
        connected_only_while_active(startup_step(s, current_channel).0),
        connected_only_while_active(shutdown_step(s).0),
{
}

/// The connection a manager holds after performing one command; commands
/// that do not concern the transport leave it alone.
pub open spec fn conn_after_command(connected: Option<u64>, c: Command) -> Option<u64> {
    match c {
        Command::Join { channel } => conn_step(connected, ConnOp::Join { channel }).0,
        Command::MoveTo { channel } => conn_step(connected, ConnOp::MoveTo { channel }).0,
        Command::Leave => conn_step(connected, ConnOp::Leave).0,
        _ => connected,
    }
}

/// The connection a manager holds after performing a command sequence in
/// order.
pub open spec fn conn_after_commands(connected: Option<u64>, cmds: Seq<Command>) -> Option<u64>
    decreases cmds.len(),
{
    if cmds.len() == 0 {
        connected
    } else {
        conn_after_command(conn_after_commands(connected, cmds.drop_last()), cmds.last())
    }
}

proof fn lemma_conn_after_one(connected: Option<u64>, a: Command)
    ensures
        conn_after_commands(connected, seq![a]) == conn_after_command(connected, a),
{
    assert(seq![a].drop_last() =~= Seq::<Command>::empty());
    assert(conn_after_commands(connected, Seq::<Command>::empty()) == connected);
}

proof fn lemma_conn_after_two(connected: Option<u64>, a: Command, b: Command)
    ensures
        conn_after_commands(connected, seq![a, b]) == conn_after_command(
            conn_after_command(connected, a),
            b,
        ),
{
    assert(seq![a, b].drop_last() =~= seq![a]);
    lemma_conn_after_one(connected, a);
}

proof fn lemma_conn_after_three(connected: Option<u64>, a: Command, b: Command, c: Command)
    ensures
        conn_after_commands(connected, seq![a, b, c]) == conn_after_command(
            conn_after_command(conn_after_command(connected, a), b),
            c,
        ),
{
    assert(seq![a, b, c].drop_last() =~= seq![a, b]);
    lemma_conn_after_two(connected, a, b);
}

/// Law: a manager whose connection matches the core's connected channel
/// still matches it after performing a voice notification's commands — the
/// transport connection follows the core, and no voice session is leaked.
pub proof fn lemma_manager_follows_core_voice(
    s: FollowCore,
    user: u64,
    previous: Option<u64>,
    new: Option<u64>,
    connected: Option<u64>,
)
    requires
        connected == s.state.connected_channel,
    ensures
        conn_after_commands(connected, voice_event_step(s, user, previous, new).1)
            == voice_event_step(s, user, previous, new).0.state.connected_channel,
{
    match classify_for_user(s.tracked_user, user, previous, new) {
        Option::None => {},
        Option::Some(t) => match t {
            VoiceTransition::Joined { channel } => {
                lemma_conn_after_one(connected, Command::EnableCast);
            },
            VoiceTransition::Left => {
                if s.state.connected_channel is Some {
                    lemma_conn_after_three(
                        connected,
                        Command::DisableCast,
                        Command::PublishInvisible,
                        Command::Leave,
                    );
                } else {
                    lemma_conn_after_two(connected, Command::DisableCast, Command::PublishInvisible);
                }
            },
            VoiceTransition::Moved { from, to } => {
                if s.state.connected_channel is Some {
                    lemma_conn_after_one(connected, Command::MoveTo { channel: to });
                }
            },
        },
    }
}

/// The manager follows the core across playback events as well.
pub proof fn lemma_manager_follows_core_playback(
    s: FollowCore,
    e: PlaybackEvent,
    connected: Option<u64>,
)
    requires
        connected == s.state.connected_channel,
    ensures
        conn_after_commands(connected, playback_step(s, e).1) == playback_step(
            s,
            e,
        ).0.state.connected_channel,
{
    match e {
        PlaybackEvent::Started => {
            if s.user_channel is Some {
                let c = s.user_channel->0;
                lemma_conn_after_two(connected, Command::Join { channel: c }, Command::AttachSource);
            }
        },
        PlaybackEvent::Playing { track } => {
            lemma_conn_after_one(connected, Command::PublishListening { track });
        },
        PlaybackEvent::Paused => {
            lemma_conn_after_one(connected, Command::PublishClear);
        },
        PlaybackEvent::Stopped => {
            if s.state.connected_channel is Some {
                lemma_conn_after_two(connected, Command::PublishClear, Command::Leave);
            } else {
                lemma_conn_after_one(connected, Command::PublishClear);
            }
        },
    }
}

/// And across the startup inspection and the shutdown signal.
pub proof fn lemma_manager_follows_core_startup_shutdown(
    s: FollowCore,
    current_channel: Option<u64>,
    connected: Option<u64>,
)
    requires
        connected == s.state.connected_channel,
    ensures
        conn_after_commands(connected, startup_step(s, current_channel).1) == startup_step(
            s,
            current_channel,
        ).0.state.connected_channel,
        conn_after_commands(connected, shutdown_step(s).1)
            == shutdown_step(s).0.state.connected_channel,
{
    if current_channel is Some {
        lemma_conn_after_one(connected, Command::EnableCast);
    }
    if s.state.connected_channel is Some {
        lemma_conn_after_two(connected, Command::Leave, Command::DisableCast);
    } else {
        lemma_conn_after_one(connected, Command::DisableCast);
    }
}

} // verus!
