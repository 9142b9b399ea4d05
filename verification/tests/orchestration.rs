use followcast::connection::ConnectionManager;
use followcast::follow::{Command, FollowCore, PlaybackEvent, PlaybackState, TrackRef};
use followcast::transition::{classify, VoiceTransition};

const USER: u64 = 111;
const OTHER: u64 = 222;
const C1: u64 = 1001;
const C2: u64 = 1002;

fn core_with_user_in(channel: u64) -> FollowCore {
    let mut core = FollowCore::new(USER);
    let cmds = core.on_startup(Some(channel));
    assert_eq!(cmds, vec![Command::EnableCast]);
    core
}

fn connected_core(channel: u64) -> FollowCore {
    let mut core = core_with_user_in(channel);
    let cmds = core.on_playback(PlaybackEvent::Started);
    assert_eq!(
        cmds,
        vec![Command::Join { channel }, Command::AttachSource]
    );
    core
}

#[test]
fn scenario_startup_enables_cast_only() {
    let mut core = FollowCore::new(USER);
    let cmds = core.on_startup(Some(C1));
    assert_eq!(cmds, vec![Command::EnableCast]);
    assert!(core.state.cast_enabled);
    assert_eq!(core.state.connected_channel, None);
    assert_eq!(core.state.playback, PlaybackState::Stopped);
}

#[test]
fn scenario_startup_without_user_changes_nothing() {
    let mut core = FollowCore::new(USER);
    let before = core;
    let cmds = core.on_startup(None);
    assert!(cmds.is_empty());
    assert_eq!(core, before);
}

#[test]
fn scenario_started_joins_users_channel() {
    let mut core = core_with_user_in(C1);
    let cmds = core.on_playback(PlaybackEvent::Started);
    assert_eq!(
        cmds,
        vec![Command::Join { channel: C1 }, Command::AttachSource]
    );
    assert_eq!(core.state.connected_channel, Some(C1));
    assert_eq!(core.state.playback, PlaybackState::Starting);
}

#[test]
fn scenario_started_without_known_channel_defers() {
    let mut core = FollowCore::new(USER);
    let before = core;
    let cmds = core.on_playback(PlaybackEvent::Started);
    assert!(cmds.is_empty());
    assert_eq!(core, before);
}

#[test]
fn scenario_move_follows_while_connected() {
    let mut core = connected_core(C1);
    let cmds = core.on_voice_state(USER, Some(C1), Some(C2));
    assert_eq!(cmds, vec![Command::MoveTo { channel: C2 }]);
    assert_eq!(core.state.connected_channel, Some(C2));
    assert_eq!(core.user_channel, Some(C2));
}

#[test]
fn scenario_move_while_idle_issues_nothing() {
    let mut core = core_with_user_in(C1);
    let cmds = core.on_voice_state(USER, Some(C1), Some(C2));
    assert!(cmds.is_empty());
    assert_eq!(core.state.connected_channel, None);
    assert_eq!(core.user_channel, Some(C2));
    assert!(core.state.cast_enabled);
}

#[test]
fn scenario_leave_disables_cast_and_disconnects() {
    let mut core = connected_core(C1);
    let cmds = core.on_voice_state(USER, Some(C1), None);
    assert_eq!(
        cmds,
        vec![
            Command::DisableCast,
            Command::PublishInvisible,
            Command::Leave
        ]
    );
    assert_eq!(
        cmds.iter().filter(|c| **c == Command::DisableCast).count(),
        1
    );
    assert_eq!(cmds.iter().filter(|c| **c == Command::Leave).count(), 1);
    assert!(!core.state.cast_enabled);
    assert_eq!(core.state.connected_channel, None);
    assert_eq!(core.user_channel, None);
}

#[test]
fn scenario_leave_while_disconnected_keeps_connection_commands_out() {
    let mut core = core_with_user_in(C1);
    let cmds = core.on_voice_state(USER, Some(C1), None);
    assert_eq!(cmds, vec![Command::DisableCast, Command::PublishInvisible]);
    assert!(!core.state.cast_enabled);
}

#[test]
fn scenario_paused_clears_presence_but_keeps_connection() {
    let mut core = connected_core(C2);
    let cmds = core.on_playback(PlaybackEvent::Paused);
    assert_eq!(cmds, vec![Command::PublishClear]);
    assert!(!cmds.contains(&Command::Leave));
    assert_eq!(core.state.connected_channel, Some(C2));
    assert_eq!(core.state.playback, PlaybackState::Paused);
}

#[test]
fn playing_publishes_listening_presence() {
    let mut core = connected_core(C1);
    let track = TrackRef { id: 12345 };
    let cmds = core.on_playback(PlaybackEvent::Playing { track });
    assert_eq!(cmds, vec![Command::PublishListening { track }]);
    assert_eq!(core.state.playback, PlaybackState::Playing { track });
    assert_eq!(core.state.connected_channel, Some(C1));
}

#[test]
fn stopped_clears_presence_and_releases_connection() {
    let mut core = connected_core(C1);
    let cmds = core.on_playback(PlaybackEvent::Stopped);
    assert_eq!(cmds, vec![Command::PublishClear, Command::Leave]);
    assert_eq!(core.state.connected_channel, None);
    assert_eq!(core.state.playback, PlaybackState::Stopped);
}

#[test]
fn stopped_while_disconnected_only_clears_presence() {
    let mut core = core_with_user_in(C1);
    let cmds = core.on_playback(PlaybackEvent::Stopped);
    assert_eq!(cmds, vec![Command::PublishClear]);
    assert_eq!(core.state.connected_channel, None);
}

#[test]
fn cast_flag_matches_occupancy_along_a_stream() {
    let mut core = FollowCore::new(USER);
    let stream: Vec<(Option<u64>, Option<u64>)> = vec![
        (None, Some(C1)),
        (Some(C1), Some(C1)),
        (Some(C1), Some(C2)),
        (Some(C2), None),
        (None, None),
        (None, Some(C2)),
    ];
    for (previous, new) in stream {
        core.on_voice_state(USER, previous, new);
        assert_eq!(core.state.cast_enabled, core.user_channel.is_some());
    }
}

#[test]
fn noop_transition_twice_issues_nothing() {
    let mut core = connected_core(C1);
    let before = core;
    let first = core.on_voice_state(USER, Some(C1), Some(C1));
    let second = core.on_voice_state(USER, Some(C1), Some(C1));
    assert!(first.is_empty());
    assert!(second.is_empty());
    assert_eq!(core, before);
}

#[test]
fn other_users_are_ignored() {
    let mut core = connected_core(C1);
    let before = core;
    let cmds = core.on_voice_state(OTHER, Some(C1), None);
    assert!(cmds.is_empty());
    assert_eq!(core, before);
}

#[test]
fn start_then_stop_round_trips_the_state() {
    let mut core = core_with_user_in(C1);
    let before = core;
    core.on_playback(PlaybackEvent::Started);
    core.on_playback(PlaybackEvent::Stopped);
    assert_eq!(core, before);
}

#[test]
fn shutdown_releases_connection_and_cast() {
    let mut core = connected_core(C1);
    let cmds = core.on_shutdown();
    assert_eq!(cmds, vec![Command::Leave, Command::DisableCast]);
    assert_eq!(core.state.connected_channel, None);
    assert!(!core.state.cast_enabled);
}

#[test]
fn shutdown_while_disconnected_only_disables_cast() {
    let mut core = core_with_user_in(C1);
    let cmds = core.on_shutdown();
    assert_eq!(cmds, vec![Command::DisableCast]);
}

fn route(manager: &mut ConnectionManager, cmds: Vec<Command>) {
    for cmd in cmds {
        match cmd {
            Command::Join { channel } => {
                manager.join(channel);
            }
            Command::MoveTo { channel } => {
                manager.move_to(channel);
            }
            Command::Leave => {
                manager.leave();
            }
            _ => {}
        }
    }
}

#[test]
fn manager_connection_follows_the_core() {
    let mut core = FollowCore::new(USER);
    let mut manager = ConnectionManager::new();

    let cmds = core.on_startup(Some(C1));
    route(&mut manager, cmds);
    assert_eq!(manager.connected, core.state.connected_channel);

    let cmds = core.on_playback(PlaybackEvent::Started);
    route(&mut manager, cmds);
    assert_eq!(manager.connected, Some(C1));
    assert_eq!(manager.connected, core.state.connected_channel);

    let cmds = core.on_voice_state(USER, Some(C1), Some(C2));
    route(&mut manager, cmds);
    assert_eq!(manager.connected, Some(C2));
    assert_eq!(manager.connected, core.state.connected_channel);

    let cmds = core.on_playback(PlaybackEvent::Paused);
    route(&mut manager, cmds);
    assert_eq!(manager.connected, core.state.connected_channel);

    let cmds = core.on_playback(PlaybackEvent::Stopped);
    route(&mut manager, cmds);
    assert_eq!(manager.connected, None);
    assert_eq!(manager.connected, core.state.connected_channel);

    let cmds = core.on_voice_state(USER, Some(C2), None);
    route(&mut manager, cmds);
    assert_eq!(manager.connected, core.state.connected_channel);
}

#[test]
fn classify_joined_left_moved() {
    assert_eq!(
        classify(USER, USER, None, Some(C1)),
        Some(VoiceTransition::Joined { channel: C1 })
    );
    assert_eq!(
        classify(USER, USER, Some(C1), None),
        Some(VoiceTransition::Left)
    );
    assert_eq!(
        classify(USER, USER, Some(C1), Some(C2)),
        Some(VoiceTransition::Moved { from: C1, to: C2 })
    );
}

#[test]
fn classify_noop_and_other_user() {
    assert_eq!(classify(USER, USER, Some(C1), Some(C1)), None);
    assert_eq!(classify(USER, USER, None, None), None);
    assert_eq!(classify(USER, OTHER, None, Some(C1)), None);
}
