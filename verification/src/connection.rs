//! One client session: the greeting and the two per-connection duties.
//!
//! A connection runs a send-loop (deliver broadcast messages to the
//! client) and a receive-loop (publish the client's lines to the
//! channel). The functions here make every decision of those loops;
//! the binary only moves bytes between them and the socket. A session
//! is driven by events: each `Wake` is one receive attempt of the
//! send-loop, each `Read` is one line-read result of the receive-loop.
//! The receive-loop's end decides the session's outcome; the send-loop
//! is cancelled with it.

use vstd::prelude::*;

use crate::channel::{Channel, ChannelView, RecvOutcome, Subscription};

verus! {

/// Why a session ended with a failure.
#[derive(Clone, Copy, Debug, PartialEq, Eq)]
pub enum ConnectionError {
    /// Reading a line from the client's socket failed with a true I/O
    /// error (a clean end of stream is a success, not this).
    ReadFailed,
}

/// The result of one attempt to read a line from the client.
#[derive(Debug, PartialEq)]
pub enum ReadEvent {
    /// A full newline-terminated line (or a final unterminated one at
    /// end of stream), verbatim.
    Line(String),
    /// The client closed its write side: a clean disconnect.
    Eof,
    /// The read failed with an I/O error.
    Failed,
}

/// What the send-loop does with one receive outcome.
#[derive(Debug, PartialEq)]
pub enum SendAction {
    /// Write this message to the client and flush.
    Deliver(String),
    /// Log a warning with the missed-message count and keep receiving.
    WarnLag(usize),
    /// The channel has shut down: end the send-loop, successfully.
    Finish,
    /// Nothing to deliver yet: suspend until the channel has news.
    Wait,
}

/// The send-loop's one decision: deliver messages, warn and continue on
/// lag, end cleanly when the channel is closed, otherwise wait.
pub fn send_action(out: RecvOutcome) -> (a: SendAction)
    ensures
        match out {
            RecvOutcome::Message(m) => a == SendAction::Deliver(m),
            RecvOutcome::Lagged(n) => a == SendAction::WarnLag(n),
            RecvOutcome::Closed => a == SendAction::Finish,
            RecvOutcome::Pending => a == SendAction::Wait,
        },
{
    match out {
        RecvOutcome::Message(m) => SendAction::Deliver(m),
        RecvOutcome::Lagged(n) => SendAction::WarnLag(n),
        RecvOutcome::Closed => SendAction::Finish,
        RecvOutcome::Pending => SendAction::Wait,
    }
}

/// Publish one client line to the channel, discarding the
/// no-subscribers report: a line sent while nobody listens is dropped
/// without any failure. This is the receive-loop's only publish site.
pub fn publish_client_line(ch: &mut Channel, line: String) -> (delivered: bool)
    requires
        old(ch).inv(),
        !old(ch)@.closed,
        old(ch)@.log.len() < usize::MAX,
    ensures
        final(ch).inv(),
        final(ch)@.capacity == old(ch)@.capacity,
        final(ch)@.receivers == old(ch)@.receivers,
        final(ch)@.closed == old(ch)@.closed,
        delivered <==> old(ch)@.receivers > 0,
        delivered ==> final(ch)@.log == old(ch)@.log.push(line@),
        !delivered ==> final(ch)@ == old(ch)@,
{
    match ch.publish(line) {
        Ok(_) => true,
        Err(_) => false,
    }
}

/// The greeting actually written for a configured message of the day:
/// the text itself, completed with a carriage-return/line-feed pair
/// when it does not already end in a line feed.
pub open spec fn greeted(m: Seq<char>) -> Seq<char> {
    if m.len() > 0 && m.last() == '\n' {
        m
    } else {
        m + "\r\n"@
    }
}

/// Build the one-time greeting line from the configured message of the
/// day, byte-for-byte the configured text plus a trailing terminator if
/// it had none.
pub fn greeting_line(motd: &String) -> (r: String)
    ensures
        r@ == greeted(motd@),
{
    let n = motd.as_str().unicode_len();
    if n > 0 && motd.as_str().get_char(n - 1) == '\n' {
        motd.clone()
    } else {
        motd.clone().concat("\r\n")
    }
}

/// One step of a session, as seen by its handler.
#[derive(Debug, PartialEq)]
pub enum SessionEvent {
    /// The receive-loop finished one read attempt on the socket.
    Read(ReadEvent),
    /// The send-loop woke and makes one receive attempt on its
    /// subscription.
    Wake,
}

/// Everything a finished (or still running) session shows to the
/// outside.
#[derive(Debug)]
pub struct SessionLog {
    /// What was written to the client, in order: the greeting first if
    /// one is configured, then every delivered broadcast message.
    pub written: Vec<String>,
    /// The missed-message count of every lag warning, in order.
    pub lags: Vec<usize>,
    /// The session's outcome, decided by the receive-loop alone:
    /// `None` while no read attempt has ended the session.
    pub verdict: Option<Result<(), ConnectionError>>,
}

/// The lines a session publishes: every line read from the client
/// before the first session-ending event, in order.
pub open spec fn lines_published(events: Seq<SessionEvent>) -> Seq<Seq<char>>
    decreases events.len(),
{
    if events.len() == 0 {
        Seq::empty()
    } else {
        match events[0] {
            SessionEvent::Read(ReadEvent::Line(l)) => seq![l@] + lines_published(
                events.drop_first(),
            ),
            SessionEvent::Read(ReadEvent::Eof) => Seq::empty(),
            SessionEvent::Read(ReadEvent::Failed) => Seq::empty(),
            SessionEvent::Wake => lines_published(events.drop_first()),
        }
    }
}

/// The outcome the first session-ending event dictates: success for a
/// clean end of stream, a read failure otherwise; none while the
/// session is still running.
pub open spec fn session_verdict(events: Seq<SessionEvent>) -> Option<Result<(), ConnectionError>>
    decreases events.len(),
{
    if events.len() == 0 {
        None
    } else {
        match events[0] {
            SessionEvent::Read(ReadEvent::Eof) => Some(Ok(())),
            SessionEvent::Read(ReadEvent::Failed) => Some(Err(ConnectionError::ReadFailed)),
            SessionEvent::Read(ReadEvent::Line(l)) => session_verdict(events.drop_first()),
            SessionEvent::Wake => session_verdict(events.drop_first()),
        }
    }
}

/// A clean disconnect — the client closing its write side, observed as
/// an end-of-stream read — ends the session at that very read attempt,
/// successfully, whatever events would have come after.
pub proof fn lemma_clean_disconnect_ends_session(events: Seq<SessionEvent>)
    requires
        events.len() > 0,
        events[0] == SessionEvent::Read(ReadEvent::Eof),
    ensures
        session_verdict(events) == Some(Ok::<(), ConnectionError>(())),
{
}

/// What a configured greeting contributes to the client's byte stream:
/// one message, or nothing.
pub open spec fn greeting_seq(g: Option<String>) -> Seq<Seq<char>> {
    match g {
        Some(s) => seq![s@],
        None => Seq::<Seq<char>>::empty(),
    }
}

/// Appending to a sequence and then dropping a fixed prefix is the
/// same as dropping the prefix first and appending after.
proof fn lemma_push_skip<A>(s: Seq<A>, x: A, k: int)
    requires
        0 <= k <= s.len(),
    ensures
        s.push(x).skip(k) == s.skip(k).push(x),
{
    assert(s.push(x).skip(k) =~= s.skip(k).push(x));
}

/// One client session: its private subscription into the broadcast
/// channel and its ready-to-write greeting.
pub struct Connection {
    /// The session's own reader of the broadcast channel.
    pub sub: Subscription,
    /// The greeting to write before any broadcast traffic, already
    /// terminator-completed; none when no message of the day is
    /// configured.
    pub greeting: Option<String>,
}

impl Connection {
    /// Set a session up: subscribe to the channel at its current
    /// position and prepare the greeting from the configured message of
    /// the day.
    pub fn new(ch: &mut Channel, motd: &Option<String>) -> (c: Connection)
        requires
            old(ch).inv(),
            old(ch)@.receivers < usize::MAX,
        ensures
            final(ch).inv(),
            final(ch)@ == (ChannelView { receivers: old(ch)@.receivers + 1, ..old(ch)@ }),
            c.sub.wf(*final(ch)),
            c.sub@.pos == old(ch)@.log.len(),
            c.sub@.start == old(ch)@.log.len(),
            c.sub@.seen == Seq::<Seq<char>>::empty(),
            match motd {
                Some(m) => c.greeting matches Some(g) && g@ == greeted(m@),
                None => c.greeting is None,
            },
    {
        let greeting = match motd {
            Some(m) => Some(greeting_line(m)),
            None => None,
        };
        Connection { sub: ch.subscribe(), greeting }
    }

    /// Run one session over a script of events. The greeting, if any,
    /// is written before everything else. Each `Wake` receives once
    /// from the subscription and delivers, warns about a lag, or waits.
    /// Each line read from the client is published to the channel, with
    /// the no-subscribers report discarded. The first read attempt that
    /// does not produce a line ends the session — a clean end of stream
    /// as a success, an I/O error as a failure — and nothing after it is
    /// processed: the send-loop dies with the receive-loop.
    pub fn handle(&mut self, ch: &mut Channel, events: Vec<SessionEvent>) -> (r: SessionLog)
        requires
            old(ch).inv(),
            !old(ch)@.closed,
            old(ch)@.receivers >= 1,
            old(self).sub.wf(*old(ch)),
            old(ch)@.log.len() + events@.len() <= usize::MAX,
        ensures
            final(ch).inv(),
            final(ch)@.capacity == old(ch)@.capacity,
            final(ch)@.receivers == old(ch)@.receivers,
            final(ch)@.closed == old(ch)@.closed,
            final(ch)@.log == old(ch)@.log + lines_published(events@),
            final(self).greeting == old(self).greeting,
            final(self).sub.wf(*final(ch)),
            final(self).sub@.start == old(self).sub@.start,
            r.verdict == session_verdict(events@),
            r.written.deep_view() == greeting_seq(old(self).greeting)
                + final(self).sub@.seen.skip(old(self).sub@.seen.len() as int),
            forall|k: int| 0 <= k < r.lags@.len() ==> #[trigger] r.lags@[k] >= 1,
    {
        let ghost seen0 = self.sub@.seen.len() as int;
        let mut written: Vec<String> = Vec::new();
        let mut lags: Vec<usize> = Vec::new();
        let mut verdict: Option<Result<(), ConnectionError>> = None;
        let mut done: bool = false;
        if let Some(g) = &self.greeting {
            written.push(g.clone());
        }
        proof {
            assert(written.deep_view() =~= greeting_seq(self.greeting)
                + self.sub@.seen.skip(seen0));
            assert(events@.skip(0) =~= events@);
        }
        let n = events.len();
        let mut i: usize = 0;
        while i < n && !done
            invariant
                n == events@.len(),
                i <= n,
                ch.inv(),
                !ch@.closed,
                ch@.capacity == old(ch)@.capacity,
                ch@.receivers == old(ch)@.receivers,
                old(ch)@.receivers >= 1,
                ch@.log.len() <= old(ch)@.log.len() + i,
                old(ch)@.log.len() + events@.len() <= usize::MAX,
                self.sub.wf(*ch),
                self.sub@.start == old(self).sub@.start,
                self.greeting == old(self).greeting,
                0 <= seen0 <= self.sub@.seen.len(),
                done <==> verdict is Some,
                !done ==> ch@.log + lines_published(events@.skip(i as int))
                    == old(ch)@.log + lines_published(events@),
                !done ==> session_verdict(events@.skip(i as int)) == session_verdict(events@),
                done ==> ch@.log == old(ch)@.log + lines_published(events@),
                done ==> verdict == session_verdict(events@),
                written.deep_view() == greeting_seq(self.greeting)
                    + self.sub@.seen.skip(seen0),
                forall|k: int| 0 <= k < lags@.len() ==> #[trigger] lags@[k] >= 1,
            decreases n - i,
        {
            proof {
                assert(events@.skip(i as int)[0] == events@[i as int]);
                assert(events@.skip(i as int).drop_first() =~= events@.skip(i as int + 1));
            }
            match &events[i] {
                SessionEvent::Wake => {
                    let ghost seen_pre = self.sub@.seen;
                    let ghost seen_pre_skip = self.sub@.seen.skip(seen0);
                    let out = self.sub.receive(ch);
                    match send_action(out) {
                        SendAction::Deliver(m) => {
                            let ghost dv = written.deep_view();
                            let ghost m_view = m@;
                            written.push(m);
                            proof {
                                assert(self.sub@.seen == seen_pre.push(m_view));
                                lemma_push_skip(seen_pre, m_view, seen0);
                                assert(written.deep_view() =~= dv.push(m_view));
                                assert(greeting_seq(self.greeting) + self.sub@.seen.skip(seen0)
                                    =~= (greeting_seq(self.greeting) + seen_pre_skip).push(
                                    m_view,
                                ));
                            }
                        },
                        SendAction::WarnLag(l) => {
                            lags.push(l);
                        },
                        SendAction::Finish => {
                            // The channel stays open for the whole
                            // session, so the subscription can never
                            // observe it closed here.
                            proof {
                                assert(false);
                            }
                        },
                        SendAction::Wait => {},
                    }
                },
                SessionEvent::Read(ReadEvent::Line(l)) => {
                    let ghost log0 = ch@.log;
                    let delivered = publish_client_line(ch, l.clone());
                    proof {
                        assert(delivered);
                        assert(ch@.log =~= log0 + seq![l@]);
                        assert((old(ch)@.log + lines_published(events@)) =~= (log0 + seq![l@])
                            + lines_published(events@.skip(i as int + 1)));
                    }
                },
                SessionEvent::Read(ReadEvent::Eof) => {
                    verdict = Some(Ok(()));
                    done = true;
                    proof {
                        assert(ch@.log =~= ch@.log + lines_published(events@.skip(i as int)));
                    }
                },
                SessionEvent::Read(ReadEvent::Failed) => {
                    verdict = Some(Err(ConnectionError::ReadFailed));
                    done = true;
                    proof {
                        assert(ch@.log =~= ch@.log + lines_published(events@.skip(i as int)));
                    }
                },
            }
            i = i + 1;
        }
        proof {
            if !done {
                assert(events@.skip(n as int) =~= Seq::<SessionEvent>::empty());
                assert(ch@.log =~= ch@.log + lines_published(events@.skip(n as int)));
            }
        }
        SessionLog { written, lags, verdict }
    }
}

} // verus!
