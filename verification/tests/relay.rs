use hoorayhug_lb::latency::{LatencyWatch, ReadResult};
use hoorayhug_lb::session::{
    feedback, Ending, Feedback, Phase, RelayMode, RelaySession, SessionOptions,
};
use hoorayhug_lb::Token;

fn bytes(n: usize) -> ReadResult {
    ReadResult::Ready { filled_before: 4, filled_after: 4 + n }
}

#[test]
fn first_byte_is_recorded_once() {
    let mut w = LatencyWatch::new(100);
    assert_eq!(w.max_latency_ms, 100);
    w.on_read(ReadResult::Pending, 5);
    w.on_read(ReadResult::Failed, 6);
    w.on_read(bytes(0), 7);
    assert_eq!(w.first_byte_us, None);
    w.on_read(bytes(3), 8);
    assert_eq!(w.first_byte_us, Some(8));
    w.on_read(bytes(3), 9);
    assert_eq!(w.first_byte_us, Some(8));
}

#[test]
fn immediate_first_byte_counts() {
    let mut w = LatencyWatch::new(100);
    w.on_read(bytes(1), 0);
    w.on_read(bytes(1), 50);
    assert_eq!(w.first_byte_us, Some(0));
    assert!(!w.on_deadline());
    assert!(!w.exceeded);
}

#[test]
fn recorded_time_wraps_around() {
    let mut w = LatencyWatch::new(100);
    w.on_read(bytes(1), 0x3_0000_0000_0000_0005);
    assert_eq!(w.first_byte_us, Some(5));
}

#[test]
fn deadline_without_bytes_is_marked() {
    let mut w = LatencyWatch::new(100);
    assert!(!w.exceeded);
    assert!(w.on_deadline());
    assert!(w.exceeded);
    // A late byte is recorded, and the mark stays.
    w.on_read(bytes(1), 200_000);
    assert_eq!(w.first_byte_us, Some(200_000));
    assert!(w.exceeded);
}

fn options() -> SessionOptions {
    SessionOptions { hook: false, proxy: false, transport: false, max_latency_ms: None }
}

#[test]
fn plain_session() {
    let mut s = RelaySession::new(options());
    assert_eq!(s.phase(), Phase::Connect);
    s.connected(None);
    assert_eq!(s.phase(), Phase::Relay(RelayMode::Plain));
    s.relay_done(true, false);
    assert_eq!(s.phase(), Phase::Finished(Ending::Relayed(None)));
}

#[test]
fn session_with_all_steps() {
    let mut s = RelaySession::new(SessionOptions {
        hook: true,
        proxy: true,
        transport: false,
        max_latency_ms: Some(20),
    });
    assert_eq!(s.phase(), Phase::Hook);
    s.hook_done();
    assert_eq!(s.phase(), Phase::Connect);
    s.connected(Some(Token(2)));
    assert_eq!(s.phase(), Phase::Proxy);
    s.proxy_done();
    assert_eq!(s.phase(), Phase::Relay(RelayMode::Timed(20)));
    s.relay_done(true, false);
    assert_eq!(
        s.phase(),
        Phase::Finished(Ending::Relayed(Some(Feedback::Success(Token(2)))))
    );
}

#[test]
fn slow_relay_is_reported_as_failure() {
    let mut s = RelaySession::new(SessionOptions { max_latency_ms: Some(20), ..options() });
    s.connected(Some(Token(1)));
    s.relay_done(true, true);
    assert_eq!(
        s.phase(),
        Phase::Finished(Ending::Relayed(Some(Feedback::Failure(Token(1)))))
    );
}

#[test]
fn transport_is_not_timed() {
    let mut s = RelaySession::new(SessionOptions {
        transport: true,
        max_latency_ms: Some(20),
        ..options()
    });
    s.connected(Some(Token(1)));
    assert_eq!(s.phase(), Phase::Relay(RelayMode::Transport));
    s.relay_done(true, true);
    assert_eq!(
        s.phase(),
        Phase::Finished(Ending::Relayed(Some(Feedback::Success(Token(1)))))
    );
}

#[test]
fn failed_relay_does_not_fail_the_session() {
    let mut s = RelaySession::new(options());
    s.connected(Some(Token(1)));
    s.relay_done(false, false);
    assert_eq!(
        s.phase(),
        Phase::Finished(Ending::Relayed(Some(Feedback::Failure(Token(1)))))
    );
}

#[test]
fn failed_steps_fail_the_session() {
    let all = SessionOptions { hook: true, proxy: true, ..options() };
    let mut s = RelaySession::new(all);
    s.step_failed();
    assert_eq!(s.phase(), Phase::Finished(Ending::Failed));

    let mut s = RelaySession::new(all);
    s.hook_done();
    s.step_failed();
    assert_eq!(s.phase(), Phase::Finished(Ending::Failed));

    let mut s = RelaySession::new(all);
    s.hook_done();
    s.connected(Some(Token(0)));
    s.step_failed();
    assert_eq!(s.phase(), Phase::Finished(Ending::Failed));
}

#[test]
fn feedback_table() {
    assert_eq!(feedback(None, true, false), None);
    assert_eq!(feedback(None, false, true), None);
    assert_eq!(feedback(Some(Token(3)), true, false), Some(Feedback::Success(Token(3))));
    assert_eq!(feedback(Some(Token(3)), true, true), Some(Feedback::Failure(Token(3))));
    assert_eq!(feedback(Some(Token(3)), false, false), Some(Feedback::Failure(Token(3))));
}
