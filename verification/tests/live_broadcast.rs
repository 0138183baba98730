//! Tests of the server state against the real broadcast channel: what
//! the library publishes through its sender really reaches live
//! subscriptions, with the same fan-out, order and lag behaviour the
//! model states.

use line_relay::config::{Config, LimitsConfig, LoggingConfig};
use line_relay::state::State;
use tokio::sync::broadcast::error::RecvError;

fn config_with_limit(limit: usize) -> Config {
    Config {
        motd: None,
        limits: LimitsConfig {
            max_in_flight_msgs: limit,
        },
        logging: LoggingConfig::default(),
        listeners: Vec::new(),
    }
}

fn runtime() -> tokio::runtime::Runtime {
    tokio::runtime::Builder::new_current_thread()
        .build()
        .expect("runtime")
}

#[test]
fn publish_line_reaches_a_live_subscription() {
    let state = State::new(config_with_limit(8));
    // Before anyone subscribes, the line goes nowhere and that is fine.
    assert_eq!(state.publish_line(String::from("early\n")), None);
    let mut rx = state.subscribe();
    assert_eq!(state.publish_line(String::from("hello\n")), Some(1));
    let rt = runtime();
    let got = rt.block_on(async { rx.recv().await }).expect("message");
    assert_eq!(got, "hello\n");
}

#[test]
fn fan_out_reaches_every_subscription_in_order() {
    let state = State::new(config_with_limit(8));
    let mut rx1 = state.subscribe();
    let mut rx2 = state.subscribe();
    assert_eq!(state.publish_line(String::from("a\n")), Some(2));
    assert_eq!(state.publish_line(String::from("b\n")), Some(2));
    let rt = runtime();
    rt.block_on(async {
        assert_eq!(rx1.recv().await.unwrap(), "a\n");
        assert_eq!(rx1.recv().await.unwrap(), "b\n");
        assert_eq!(rx2.recv().await.unwrap(), "a\n");
        assert_eq!(rx2.recv().await.unwrap(), "b\n");
    });
}

#[test]
fn slow_subscription_lags_like_the_model() {
    // Capacity two, three lines: the first is overwritten, the
    // subscription reports one missed message and resumes with the
    // survivors, exactly as the verified model does.
    let state = State::new(config_with_limit(2));
    let mut rx = state.subscribe();
    state.publish_line(String::from("one\n"));
    state.publish_line(String::from("two\n"));
    state.publish_line(String::from("three\n"));
    let rt = runtime();
    rt.block_on(async {
        match rx.recv().await {
            Err(RecvError::Lagged(n)) => assert_eq!(n, 1),
            other => panic!("expected a lag, got {:?}", other),
        }
        assert_eq!(rx.recv().await.unwrap(), "two\n");
        assert_eq!(rx.recv().await.unwrap(), "three\n");
    });
}

#[test]
fn config_is_kept_by_the_state() {
    let state = State::new(config_with_limit(8));
    assert_eq!(state.config().limits.max_in_flight_msgs, 8);
}
