//! A line-oriented broadcast relay library.
//!
//! Every line a connected client sends is forwarded verbatim to every
//! connected client. The crate holds the relay's logic: the bounded
//! broadcast channel with per-subscription lag handling, the
//! per-connection session (greeting, send-loop and receive-loop
//! decisions), the listener's accept-loop decisions, and the plain
//! configuration and argument types. The surrounding binary performs the
//! socket and timer work and feeds events to the session functions here.

pub mod args;
pub mod channel;
pub mod config;
pub mod connection;
pub mod listener;
pub mod state;
