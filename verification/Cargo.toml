[package]
name = "line_relay"
version = "0.1.0"
edition = "2021"
publish = false

[dependencies]
tokio = { version = "=1.53.2", features = ["sync", "rt-multi-thread", "net", "io-util", "macros", "fs"] }
clap = { version = "*", features = ["derive"] }
mlua = { version = "=0.12.2", features = ["lua54", "vendored", "async", "serialize"] }
serde = { version = "*", features = ["derive"] }
eyre = "*"
color-eyre = "*"
tracing = "*"
tracing-error = "*"
tracing-subscriber = { version = "*", features = ["env-filter"] }
futures = "*"
deadpool-postgres = { version = "*", features = ["serde"] }
