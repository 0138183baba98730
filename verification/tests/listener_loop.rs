//! Tests of the accept loop's decisions.

use line_relay::listener::{
    accept_action, completion_level, spawned_handlers, AcceptAction, AcceptEvent, LogLevel,
};

#[test]
fn accepted_connection_spawns_a_handler() {
    assert_eq!(accept_action(&AcceptEvent::Accepted), AcceptAction::Spawn);
}

#[test]
fn failed_accept_is_logged_and_the_loop_continues() {
    assert_eq!(
        accept_action(&AcceptEvent::Failed),
        AcceptAction::LogAndContinue
    );
}

#[test]
fn handler_completion_log_levels() {
    assert_eq!(completion_level(true), LogLevel::Info);
    assert_eq!(completion_level(false), LogLevel::Warn);
}

#[test]
fn failures_never_end_the_accept_loop() {
    // Failures in the middle of the run are survived: each accepted
    // connection still gets its handler.
    let events = vec![
        AcceptEvent::Accepted,
        AcceptEvent::Failed,
        AcceptEvent::Failed,
        AcceptEvent::Accepted,
        AcceptEvent::Accepted,
    ];
    assert_eq!(spawned_handlers(&events), 3);
}

#[test]
fn all_failures_spawn_nothing() {
    let events = vec![AcceptEvent::Failed, AcceptEvent::Failed];
    assert_eq!(spawned_handlers(&events), 0);
}
