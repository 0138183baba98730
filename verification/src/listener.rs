//! The listener: what the accept loop decides.
//!
//! The binary binds the address and accepts sockets; the functions here
//! decide what each accept result leads to. A single failed accept is
//! logged and never ends the loop; every accepted socket gets its own
//! spawned handler; a handler's completion is logged at a level that
//! reflects how the session ended, and is never the listener's own
//! failure.

use vstd::prelude::*;

verus! {

/// The result of one accept attempt.
#[derive(Clone, Copy, Debug, PartialEq, Eq)]
pub enum AcceptEvent {
    /// A connection was accepted.
    Accepted,
    /// The accept attempt failed.
    Failed,
}

/// What the accept loop does with one attempt's result.
#[derive(Clone, Copy, Debug, PartialEq, Eq)]
pub enum AcceptAction {
    /// Spawn a handler for the accepted connection, then keep
    /// accepting.
    Spawn,
    /// Log the failure, then keep accepting: one transient failure must
    /// not bring the listener down.
    LogAndContinue,
}

/// The accept loop's one decision. Neither outcome ends the loop.
pub fn accept_action(ev: &AcceptEvent) -> (a: AcceptAction)
    ensures
        a == (match ev {
            AcceptEvent::Accepted => AcceptAction::Spawn,
            AcceptEvent::Failed => AcceptAction::LogAndContinue,
        }),
{
    match ev {
        AcceptEvent::Accepted => AcceptAction::Spawn,
        AcceptEvent::Failed => AcceptAction::LogAndContinue,
    }
}

/// How loudly a finished handler is logged.
#[derive(Clone, Copy, Debug, PartialEq, Eq)]
pub enum LogLevel {
    /// A clean disconnect.
    Info,
    /// A session that ended with an error.
    Warn,
}

/// A finished handler is logged, never escalated: at info level for a
/// clean disconnect, at warn level for a session error.
pub fn completion_level(clean: bool) -> (l: LogLevel)
    ensures
        l == (if clean {
            LogLevel::Info
        } else {
            LogLevel::Warn
        }),
{
    if clean {
        LogLevel::Info
    } else {
        LogLevel::Warn
    }
}

/// How many of a run of accept attempts succeeded.
pub open spec fn accepted_count(events: Seq<AcceptEvent>) -> int
    decreases events.len(),
{
    if events.len() == 0 {
        0
    } else {
        (match events[0] {
            AcceptEvent::Accepted => 1int,
            AcceptEvent::Failed => 0int,
        }) + accepted_count(events.drop_first())
    }
}

/// Run the accept loop's decision over a whole run of attempts: every
/// accepted connection gets a handler, and the loop outlives every
/// failure — it stops only because the run of attempts does.
pub fn spawned_handlers(events: &Vec<AcceptEvent>) -> (n: usize)
    ensures
        n as int == accepted_count(events@),
{
    let mut n: usize = 0;
    let mut i: usize = 0;
    proof {
        assert(events@.skip(0) =~= events@);
    }
    while i < events.len()
        invariant
            i <= events@.len(),
            n <= i,
            accepted_count(events@) == n + accepted_count(events@.skip(i as int)),
        decreases events@.len() - i,
    {
        proof {
            assert(events@.skip(i as int)[0] == events@[i as int]);
            assert(events@.skip(i as int).drop_first() =~= events@.skip(i as int + 1));
        }
        match accept_action(&events[i]) {
            AcceptAction::Spawn => {
                n = n + 1;
            },
            AcceptAction::LogAndContinue => {},
        }
        i = i + 1;
    }
    proof {
        assert(events@.skip(events@.len() as int) =~= Seq::<AcceptEvent>::empty());
    }
    n
}

} // verus!
