//! Global server state: the configuration and the shared broadcast
//! sender every connection publishes to.
//!
//! The sender is the channel implementation the running relay uses;
//! its behaviour is taken on trust from its own crate, stated on the
//! trusted items below. The verified model of the channel's semantics
//! lives in [`crate::channel`].

use vstd::prelude::*;

use crate::channel::PublishError;
use crate::config::Config;

verus! {

/// The sending half of tokio's broadcast channel, declared so it can
/// stand in fields and signatures; opaque to verification.
#[verifier::external_type_specification]
#[verifier::external_body]
#[verifier::reject_recursive_types(T)]
pub struct ExSender<T>(tokio::sync::broadcast::Sender<T>);

/// The receiving half of tokio's broadcast channel, declared so it can
/// be handed to the surrounding binary; opaque to verification.
#[verifier::external_type_specification]
#[verifier::external_body]
#[verifier::reject_recursive_types(T)]
pub struct ExReceiver<T>(tokio::sync::broadcast::Receiver<T>);

/// Relies on tokio::sync::broadcast::channel, which panics only on a
/// capacity of zero or one above `usize::MAX / 2`. The receiver made
/// along with the sender is dropped here: the channel starts with no
/// subscription.
#[verifier::external_body]
fn new_broadcast_sender(capacity: usize) -> tokio::sync::broadcast::Sender<String>
    requires
        1 <= capacity <= usize::MAX / 2,
{
    let (tx, _rx) = tokio::sync::broadcast::channel(capacity);
    tx
}

/// Relies on tokio::sync::broadcast::Sender::send: it succeeds exactly
/// when at least one subscription is live, returning how many there
/// are, and reports an error — converted here to the library's
/// no-subscribers report — when there is none.
#[verifier::external_body]
fn send_line(
    tx: &tokio::sync::broadcast::Sender<String>,
    line: String,
) -> (r: Result<usize, PublishError>)
    ensures
        r matches Ok(n) ==> n >= 1,
{
    match tx.send(line) {
        Ok(n) => Ok(n),
        Err(_) => Err(PublishError::NoSubscribers),
    }
}

/// Relies on tokio::sync::broadcast::Sender::subscribe: the new
/// subscription observes only what is sent after this call.
#[verifier::external_body]
fn subscribe_to(
    tx: &tokio::sync::broadcast::Sender<String>,
) -> tokio::sync::broadcast::Receiver<String> {
    tx.subscribe()
}

/// Global server state: the configuration and the sending end of the
/// channel that broadcasts to all clients. The sender is public so the
/// surrounding binary can send serverwide messages.
pub struct State {
    /// Server configuration; read it through [`State::config`].
    pub config: Config,
    /// The sending end of the broadcast channel.
    pub global_tx: tokio::sync::broadcast::Sender<String>,
}

impl State {
    /// Create the state for a validated configuration: a fresh
    /// broadcast channel bounded by the configured in-flight limit.
    pub fn new(config: Config) -> (s: State)
        requires
            config.wf(),
        ensures
            s.config == config,
    {
        let global_tx = new_broadcast_sender(config.limits.max_in_flight_msgs);
        State { config, global_tx }
    }

    /// The server configuration, immutably.
    pub fn config(&self) -> (c: &Config)
        ensures
            *c == self.config,
    {
        &self.config
    }

    /// A fresh, independent subscription for one new connection.
    pub fn subscribe(&self) -> tokio::sync::broadcast::Receiver<String> {
        subscribe_to(&self.global_tx)
    }

    /// Publish one client line to every live subscription, discarding
    /// the no-subscribers report: a line sent while nobody listens is
    /// dropped without any failure. Returns how many subscriptions the
    /// line went to, when it went anywhere.
    pub fn publish_line(&self, line: String) -> (delivered: Option<usize>)
        ensures
            delivered matches Some(n) ==> n >= 1,
    {
        match send_line(&self.global_tx, line) {
            Ok(n) => Some(n),
            Err(_) => None,
        }
    }
}

} // verus!
