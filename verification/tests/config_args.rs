//! Tests of the plain configuration and argument types and their
//! defaults.

use line_relay::args::{parse, Args};
use line_relay::config::{Config, LimitsConfig, ListenerConfig, LoggingConfig};

#[test]
fn limits_default_retains_1024_messages() {
    let limits = LimitsConfig::default();
    assert_eq!(limits.max_in_flight_msgs, 1024);
}

#[test]
fn logging_default_filter_is_info() {
    let logging = LoggingConfig::default();
    assert_eq!(logging.filter, "info");
}

#[test]
fn listener_default_name_is_unnamed() {
    assert_eq!(ListenerConfig::default_name(), "unnamed");
}

#[test]
fn args_default_config_path() {
    let a: Args = parse(None);
    assert_eq!(a.config, "config.lua");
}

#[test]
fn args_explicit_config_path() {
    let a = parse(Some(String::from("relay.lua")));
    assert_eq!(a.config, "relay.lua");
}

#[test]
fn config_holds_its_parts() {
    let cfg = Config {
        motd: Some(String::from("hi")),
        limits: LimitsConfig::default(),
        logging: LoggingConfig::default(),
        listeners: vec![ListenerConfig {
            name: ListenerConfig::default_name(),
            bind: String::from("127.0.0.1:7000"),
        }],
    };
    assert_eq!(cfg.listeners.len(), 1);
    assert_eq!(cfg.listeners[0].name, "unnamed");
    assert_eq!(cfg.motd.as_deref(), Some("hi"));
}
