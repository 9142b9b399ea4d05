use followcast::commands::{
    join_request, leave_request, should_respond, JoinReply, LeaveReply, COMPLETION_CHANNEL,
};
use followcast::config::Config as FullConfig;
use followcast::connection::{ConnAction, ConnectionManager};
use followcast::log_config::Config as LogConfig;
use followcast::logging::{suppress_noisy_targets, LogLevel};
use followcast::presence::{OnlineStatus, PresencePublisher};

const C1: u64 = 1001;
const C2: u64 = 1002;

#[test]
fn join_acquires_a_connection() {
    let mut manager = ConnectionManager::new();
    let acts = manager.join(C1);
    assert_eq!(acts, vec![ConnAction::Acquire { channel: C1 }]);
    assert_eq!(manager.connected, Some(C1));
}

#[test]
fn join_over_a_connection_releases_the_old_one_first() {
    let mut manager = ConnectionManager::new();
    manager.join(C1);
    let acts = manager.join(C2);
    assert_eq!(
        acts,
        vec![ConnAction::Release, ConnAction::Acquire { channel: C2 }]
    );
    assert_eq!(manager.connected, Some(C2));
}

#[test]
fn move_switches_the_held_connection() {
    let mut manager = ConnectionManager::new();
    manager.join(C1);
    let acts = manager.move_to(C2);
    assert_eq!(acts, vec![ConnAction::Switch { channel: C2 }]);
    assert_eq!(manager.connected, Some(C2));
}

#[test]
fn move_without_a_connection_does_nothing() {
    let mut manager = ConnectionManager::new();
    let acts = manager.move_to(C2);
    assert!(acts.is_empty());
    assert_eq!(manager.connected, None);
}

#[test]
fn leave_is_idempotent() {
    let mut manager = ConnectionManager::new();
    manager.join(C1);
    let first = manager.leave();
    let second = manager.leave();
    assert_eq!(first, vec![ConnAction::Release]);
    assert!(second.is_empty());
    assert_eq!(manager.connected, None);
}

#[test]
fn a_run_never_acquires_twice_without_a_release() {
    let mut manager = ConnectionManager::new();
    let mut trace: Vec<ConnAction> = Vec::new();
    trace.extend(manager.join(C1));
    trace.extend(manager.move_to(C2));
    trace.extend(manager.join(C1));
    trace.extend(manager.leave());
    trace.extend(manager.leave());
    trace.extend(manager.join(C2));
    let mut outstanding: i64 = 0;
    for act in trace {
        match act {
            ConnAction::Acquire { .. } => outstanding += 1,
            ConnAction::Release => outstanding -= 1,
            ConnAction::Switch { .. } => {}
        }
        assert!((0..=1).contains(&outstanding));
    }
}

#[test]
fn publish_is_last_write_wins() {
    let mut publisher = PresencePublisher::new();
    assert_eq!(publisher.activity, None);
    assert_eq!(publisher.status, OnlineStatus::Online);
    publisher.publish(Some("Artist: Track".to_string()), OnlineStatus::Online);
    assert_eq!(publisher.activity.as_deref(), Some("Artist: Track"));
    publisher.publish(None, OnlineStatus::Invisible);
    assert_eq!(publisher.activity, None);
    assert_eq!(publisher.status, OnlineStatus::Invisible);
}

#[test]
fn join_command_decision() {
    assert_eq!(join_request(Some(C1)), JoinReply::Connect { channel: C1 });
    assert_eq!(join_request(None), JoinReply::NotInVoice);
}

#[test]
fn leave_command_decision() {
    assert_eq!(leave_request(true), LeaveReply::Disconnect);
    assert_eq!(leave_request(false), LeaveReply::NotConnected);
}

#[test]
fn completion_filter_accepts_plain_chat_in_its_channel() {
    assert!(should_respond(false, "hello there", COMPLETION_CHANNEL));
}

#[test]
fn completion_filter_rejects_bots_commands_and_other_channels() {
    assert!(!should_respond(true, "hello", COMPLETION_CHANNEL));
    assert!(!should_respond(false, "!join", COMPLETION_CHANNEL));
    assert!(!should_respond(false, "hello", COMPLETION_CHANNEL + 1));
    assert!(should_respond(false, "", COMPLETION_CHANNEL));
}

#[test]
fn full_config_defaults() {
    let config = FullConfig::default();
    assert_eq!(config.discord_token, "");
    assert_eq!(config.log_level, LogLevel::Debug);
    assert!(config.log_timestamps);
    assert!(config.log_colored);
}

#[test]
fn log_config_defaults() {
    let config = LogConfig::default();
    assert_eq!(config.log_level, LogLevel::Debug);
    assert!(config.log_timestamps);
    assert!(config.log_colored);
}

#[test]
fn only_trace_level_lets_noisy_targets_through() {
    assert!(suppress_noisy_targets(LogLevel::Error));
    assert!(suppress_noisy_targets(LogLevel::Warn));
    assert!(suppress_noisy_targets(LogLevel::Info));
    assert!(suppress_noisy_targets(LogLevel::Debug));
    assert!(!suppress_noisy_targets(LogLevel::Trace));
    assert_eq!(LogLevel::default(), LogLevel::Debug);
}
