//! Tests of one client session: the greeting, the relay of lines
//! between socket and channel, and how a session ends.

use line_relay::channel::Channel;
use line_relay::connection::{
    greeting_line, publish_client_line, send_action, Connection, ConnectionError, ReadEvent,
    SendAction, SessionEvent,
};
use line_relay::channel::RecvOutcome;

fn msg(s: &str) -> String {
    String::from(s)
}

fn line(s: &str) -> SessionEvent {
    SessionEvent::Read(ReadEvent::Line(String::from(s)))
}

#[test]
fn greeting_gets_terminator_when_missing() {
    assert_eq!(greeting_line(&msg("welcome")), msg("welcome\r\n"));
}

#[test]
fn greeting_kept_verbatim_when_terminated() {
    assert_eq!(greeting_line(&msg("welcome\n")), msg("welcome\n"));
    assert_eq!(greeting_line(&msg("welcome\r\n")), msg("welcome\r\n"));
}

#[test]
fn greeting_written_before_any_broadcast_traffic() {
    let mut ch = Channel::new(8);
    let mut conn = Connection::new(&mut ch, &Some(msg("hello there")));
    let log = conn.handle(
        &mut ch,
        vec![
            SessionEvent::Wake,
            line("first\n"),
            SessionEvent::Wake,
            SessionEvent::Read(ReadEvent::Eof),
        ],
    );
    // The greeting comes first, byte-for-byte the configured text plus
    // the added terminator; the client's own line echoes after it.
    assert_eq!(log.written, vec![msg("hello there\r\n"), msg("first\n")]);
    assert_eq!(log.verdict, Some(Ok(())));
}

#[test]
fn relay_between_two_clients() {
    let mut ch = Channel::new(16);
    let mut a = Connection::new(&mut ch, &None);
    let mut b = Connection::new(&mut ch, &None);
    // Client A sends one line and hangs up. A's own send-loop wakes
    // once in between: in this broadcast-to-all relay A is a subscriber
    // of the same channel and hears itself.
    let log_a = a.handle(
        &mut ch,
        vec![
            line("hello\n"),
            SessionEvent::Wake,
            SessionEvent::Read(ReadEvent::Eof),
        ],
    );
    assert_eq!(log_a.written, vec![msg("hello\n")]);
    assert_eq!(log_a.verdict, Some(Ok(())));
    // Client B's send-loop delivers exactly the same bytes, once.
    let log_b = b.handle(
        &mut ch,
        vec![
            SessionEvent::Wake,
            SessionEvent::Wake,
            SessionEvent::Read(ReadEvent::Eof),
        ],
    );
    assert_eq!(log_b.written, vec![msg("hello\n")]);
    assert_eq!(log_b.lags, Vec::<usize>::new());
    assert_eq!(log_b.verdict, Some(Ok(())));
}

#[test]
fn clean_disconnect_ends_session_at_once() {
    let mut ch = Channel::new(8);
    let mut watcher = Connection::new(&mut ch, &None);
    let mut conn = Connection::new(&mut ch, &None);
    // End of stream ends the session successfully on that very read;
    // nothing scripted after it is processed.
    let log = conn.handle(
        &mut ch,
        vec![
            SessionEvent::Read(ReadEvent::Eof),
            line("never sent\n"),
            SessionEvent::Wake,
        ],
    );
    assert_eq!(log.verdict, Some(Ok(())));
    assert_eq!(log.written, Vec::<String>::new());
    // The line after the disconnect never reached the channel.
    let w = watcher.handle(&mut ch, vec![SessionEvent::Wake]);
    assert_eq!(w.written, Vec::<String>::new());
    assert_eq!(w.verdict, None);
}

#[test]
fn read_error_ends_session_with_failure() {
    let mut ch = Channel::new(8);
    let mut conn = Connection::new(&mut ch, &None);
    let log = conn.handle(&mut ch, vec![SessionEvent::Read(ReadEvent::Failed)]);
    assert_eq!(log.verdict, Some(Err(ConnectionError::ReadFailed)));
}

#[test]
fn publish_before_anyone_listens_is_harmless() {
    let mut ch = Channel::new(8);
    // A client line published while no subscription exists is dropped
    // silently.
    assert!(!publish_client_line(&mut ch, msg("early\n")));
    // Once someone subscribes, lines flow again.
    let mut sub = ch.subscribe();
    assert!(publish_client_line(&mut ch, msg("late\n")));
    assert_eq!(sub.receive(&ch), RecvOutcome::Message(msg("late\n")));
}

#[test]
fn send_loop_decisions() {
    assert_eq!(
        send_action(RecvOutcome::Message(msg("x\n"))),
        SendAction::Deliver(msg("x\n"))
    );
    assert_eq!(send_action(RecvOutcome::Lagged(3)), SendAction::WarnLag(3));
    assert_eq!(send_action(RecvOutcome::Closed), SendAction::Finish);
    assert_eq!(send_action(RecvOutcome::Pending), SendAction::Wait);
}

#[test]
fn stalled_session_logs_lag_and_resumes() {
    let mut ch = Channel::new(2);
    let mut b = Connection::new(&mut ch, &None);
    let mut a = Connection::new(&mut ch, &None);
    // A floods while B's send-loop never wakes.
    let _ = a.handle(
        &mut ch,
        vec![
            line("one\n"),
            line("two\n"),
            line("three\n"),
            SessionEvent::Read(ReadEvent::Eof),
        ],
    );
    // When B's send-loop resumes it warns about the one lost line and
    // delivers the survivors in order.
    let log_b = b.handle(
        &mut ch,
        vec![
            SessionEvent::Wake,
            SessionEvent::Wake,
            SessionEvent::Wake,
            SessionEvent::Read(ReadEvent::Eof),
        ],
    );
    assert_eq!(log_b.lags, vec![1]);
    assert_eq!(log_b.written, vec![msg("two\n"), msg("three\n")]);
}
