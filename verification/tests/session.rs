use manx::connect::{advance, first_stage};
use manx::display::{DisplayItem, DisplayKind};
use manx::error::{ErrorKind, SessionError};
use manx::frame::{CloseReason, Frame};
use manx::session::{Effect, Event, Outcome, Pending, Phase, Session};
use manx::transport::{plan_for, Channel, ConnectPlan};
use url::Url;

fn open(show_ping_pong: bool) -> Session {
    let mut s = Session::new(show_ping_pong);
    assert_eq!(s.step(Event::Connected), Effect::Nothing);
    s
}

fn open_with(show_ping_pong: bool, limit: usize) -> Session {
    let mut s = Session::with_capacity(show_ping_pong, limit);
    assert_eq!(s.step(Event::Connected), Effect::Nothing);
    s
}

fn drain_sent(s: &mut Session) -> Vec<Frame> {
    let mut out = Vec::new();
    while let Effect::Send(f) = s.step(Event::WriterReady) {
        out.push(f);
    }
    out
}

fn drain_shown(s: &mut Session) -> Vec<String> {
    let mut out = Vec::new();
    while let Effect::Show(item) = s.step(Event::DisplayReady) {
        out.push(item.render());
    }
    out
}

#[test]
fn session_starts_connecting_with_empty_queues() {
    let s = Session::new(true);
    assert_eq!(s.phase(), Phase::Connecting);
    assert!(s.shows_ping_pong());
    assert!(!s.is_open());
    assert!(!s.is_over());
    assert_eq!(s.outbound_len(), 0);
    assert_eq!(s.inbound_len(), 0);
    assert_eq!(s.outcome(), &None);
    assert_eq!(s.exit_code(), None);
}

#[test]
fn connecting_opens_the_session() {
    let s = open(false);
    assert_eq!(s.phase(), Phase::Open);
    assert!(s.is_open());
}

#[test]
fn scenario_resolution_failure_never_opens() {
    let plan = plan_for(&Url::parse("ws://host:80").unwrap(), None).unwrap();
    assert_eq!(plan, ConnectPlan { host: "host".to_string(), port: 80, channel: Channel::Plain });
    let mut s = Session::new(false);
    let err = advance(first_stage(), false, Err("cannot resolve address".to_string())).unwrap_err();
    assert_eq!(err.kind, ErrorKind::Resolution);
    assert_eq!(s.step(Event::ConnectFailed(err)), Effect::Nothing);
    assert_eq!(s.phase(), Phase::Closed);
    assert_eq!(s.exit_code(), Some(1));
    let outcome = s.outcome().as_ref().unwrap();
    assert!(outcome.is_failure());
    assert_eq!(outcome.report(), Some("\u{1b}[31mcannot resolve address\u{1b}[0m".to_string()));
    assert_eq!(s.step(Event::Connected), Effect::Nothing);
    assert_eq!(s.phase(), Phase::Closed);
    assert_eq!(s.step(Event::Typed("hello".to_string())), Effect::Nothing);
    assert_eq!(s.step(Event::WriterReady), Effect::Nothing);
    assert_eq!(s.outbound_len(), 0);
}

#[test]
fn scenario_typed_line_is_sent_once_and_echo_is_shown() {
    let mut s = open(false);
    assert_eq!(s.step(Event::Typed("hello".to_string())), Effect::Nothing);
    assert_eq!(s.outbound_len(), 1);
    assert_eq!(s.step(Event::WriterReady), Effect::Send(Frame::Text("hello".to_string())));
    assert_eq!(s.step(Event::WriterReady), Effect::Nothing);
    assert_eq!(s.step(Event::Received(Frame::Text("hello".to_string()))), Effect::Nothing);
    assert_eq!(drain_shown(&mut s), vec!["<< hello".to_string()]);
    assert_eq!(s.step(Event::DisplayReady), Effect::Nothing);
}

#[test]
fn scenario_ping_with_notices_on() {
    let mut s = open(true);
    assert_eq!(s.step(Event::Received(Frame::Ping(vec![1, 2, 3]))), Effect::Nothing);
    assert_eq!(drain_sent(&mut s), vec![Frame::Pong(vec![1, 2, 3])]);
    assert_eq!(
        s.step(Event::DisplayReady),
        Effect::Show(DisplayItem { text: "-- received ping".to_string(), kind: DisplayKind::Status })
    );
    assert_eq!(s.step(Event::DisplayReady), Effect::Nothing);
}

#[test]
fn scenario_ping_with_notices_off() {
    let mut s = open(false);
    assert_eq!(s.step(Event::Received(Frame::Ping(vec![1, 2, 3]))), Effect::Nothing);
    assert_eq!(drain_sent(&mut s), vec![Frame::Pong(vec![1, 2, 3])]);
    assert_eq!(s.inbound_len(), 0);
    assert_eq!(s.step(Event::DisplayReady), Effect::Nothing);
}

#[test]
fn pong_is_shown_only_with_notices_on() {
    let mut s = open(false);
    assert_eq!(s.step(Event::Received(Frame::Pong(vec![1]))), Effect::Nothing);
    assert_eq!(s.inbound_len(), 0);
    assert_eq!(s.outbound_len(), 0);
    let mut s = open(true);
    assert_eq!(s.step(Event::Received(Frame::Pong(vec![1]))), Effect::Nothing);
    assert_eq!(drain_shown(&mut s), vec!["<< \u{1b}[32m-- received pong\u{1b}[0m".to_string()]);
    assert_eq!(s.outbound_len(), 0);
}

#[test]
fn typed_lines_are_sent_in_the_order_typed() {
    let mut s = open(false);
    let lines = ["one", "two", "three", "four", "five"];
    for l in lines {
        assert_eq!(s.step(Event::Typed(l.to_string())), Effect::Nothing);
    }
    let expected: Vec<Frame> = lines.iter().map(|l| Frame::Text(l.to_string())).collect();
    assert_eq!(drain_sent(&mut s), expected);
}

#[test]
fn pongs_and_lines_leave_in_arrival_order() {
    let mut s = open(false);
    s.step(Event::Typed("a".to_string()));
    s.step(Event::Received(Frame::Ping(vec![1])));
    s.step(Event::Typed("b".to_string()));
    s.step(Event::Received(Frame::Ping(vec![2])));
    s.step(Event::Received(Frame::Ping(vec![3])));
    assert_eq!(
        drain_sent(&mut s),
        vec![
            Frame::Text("a".to_string()),
            Frame::Pong(vec![1]),
            Frame::Text("b".to_string()),
            Frame::Pong(vec![2]),
            Frame::Pong(vec![3]),
        ]
    );
}

#[test]
fn inbound_frames_are_shown_in_the_order_received() {
    let mut s = open(true);
    s.step(Event::Received(Frame::Text("first".to_string())));
    s.step(Event::Received(Frame::Binary(b"second".to_vec())));
    s.step(Event::Received(Frame::Pong(Vec::new())));
    s.step(Event::Received(Frame::Text("last".to_string())));
    assert_eq!(
        drain_shown(&mut s),
        vec![
            "<< first".to_string(),
            "<< second".to_string(),
            "<< \u{1b}[32m-- received pong\u{1b}[0m".to_string(),
            "<< last".to_string(),
        ]
    );
}

#[test]
fn lines_typed_while_connecting_wait_for_the_connection() {
    let mut s = Session::new(false);
    assert_eq!(s.step(Event::Typed("early".to_string())), Effect::Nothing);
    assert_eq!(s.step(Event::WriterReady), Effect::Nothing);
    assert_eq!(s.outbound_len(), 1);
    s.step(Event::Connected);
    assert_eq!(s.step(Event::WriterReady), Effect::Send(Frame::Text("early".to_string())));
}

#[test]
fn full_outbound_queue_makes_the_typist_wait() {
    let mut s = open(false);
    for i in 0..10 {
        assert_eq!(s.step(Event::Typed(format!("line {}", i))), Effect::Nothing);
    }
    assert_eq!(s.outbound_len(), 10);
    assert_eq!(
        s.step(Event::Typed("late".to_string())),
        Effect::Retry(Event::Typed("late".to_string()))
    );
    assert_eq!(s.outbound_len(), 10);
    assert_eq!(s.step(Event::WriterReady), Effect::Send(Frame::Text("line 0".to_string())));
    assert_eq!(s.step(Event::Typed("late".to_string())), Effect::Nothing);
    let sent = drain_sent(&mut s);
    assert_eq!(sent.len(), 10);
    assert_eq!(sent[9], Frame::Text("late".to_string()));
}

#[test]
fn full_outbound_queue_makes_the_pong_wait() {
    let mut s = open_with(true, 1);
    s.step(Event::Typed("x".to_string()));
    let effect = s.step(Event::Received(Frame::Ping(vec![5])));
    let notice = DisplayItem { text: "-- received ping".to_string(), kind: DisplayKind::Status };
    assert_eq!(
        effect,
        Effect::Retry(Event::Deliver(Pending { pong: Some(vec![5]), show: Some(notice) }))
    );
    assert_eq!(s.inbound_len(), 0);
    assert_eq!(s.step(Event::WriterReady), Effect::Send(Frame::Text("x".to_string())));
    let again = match effect {
        Effect::Retry(event) => event,
        _ => unreachable!(),
    };
    assert_eq!(s.step(again), Effect::Nothing);
    assert_eq!(drain_sent(&mut s), vec![Frame::Pong(vec![5])]);
    assert_eq!(s.inbound_len(), 1);
}

#[test]
fn full_display_queue_makes_the_line_wait_after_the_pong() {
    let mut s = open_with(true, 1);
    s.step(Event::Received(Frame::Text("shown first".to_string())));
    let effect = s.step(Event::Received(Frame::Ping(vec![8])));
    let notice = DisplayItem { text: "-- received ping".to_string(), kind: DisplayKind::Status };
    assert_eq!(effect, Effect::Retry(Event::Deliver(Pending { pong: None, show: Some(notice) })));
    assert_eq!(s.outbound_len(), 1);
    assert_eq!(drain_shown(&mut s), vec!["<< shown first".to_string()]);
    let again = match effect {
        Effect::Retry(event) => event,
        _ => unreachable!(),
    };
    assert_eq!(s.step(again), Effect::Nothing);
    assert_eq!(s.inbound_len(), 1);
    assert_eq!(drain_sent(&mut s), vec![Frame::Pong(vec![8])]);
}

#[test]
fn full_display_queue_makes_text_wait() {
    let mut s = open_with(false, 2);
    s.step(Event::Received(Frame::Text("1".to_string())));
    s.step(Event::Received(Frame::Text("2".to_string())));
    let item = DisplayItem { text: "3".to_string(), kind: DisplayKind::Data };
    assert_eq!(
        s.step(Event::Received(Frame::Text("3".to_string()))),
        Effect::Retry(Event::Deliver(Pending { pong: None, show: Some(item) }))
    );
    assert_eq!(s.inbound_len(), 2);
}

#[test]
fn close_ends_the_session_gracefully() {
    let mut s = open(true);
    s.step(Event::Typed("unsent".to_string()));
    s.step(Event::Received(Frame::Text("unshown".to_string())));
    let reason = CloseReason { code: 1000, text: "done".to_string() };
    assert_eq!(s.step(Event::Received(Frame::Close(Some(reason)))), Effect::Nothing);
    assert_eq!(s.phase(), Phase::Closing);
    assert!(s.is_over());
    assert_eq!(s.exit_code(), Some(0));
    assert_eq!(
        s.outcome(),
        &Some(Outcome::PeerClosed(Some(CloseReason { code: 1000, text: "done".to_string() })))
    );
    let outcome = s.outcome().as_ref().unwrap();
    assert!(!outcome.is_failure());
    assert_eq!(outcome.report(), Some("connection closed".to_string()));
    assert_eq!(s.step(Event::WriterReady), Effect::Nothing);
    assert_eq!(s.step(Event::DisplayReady), Effect::Nothing);
    assert_eq!(s.step(Event::Received(Frame::Ping(vec![1]))), Effect::Nothing);
    assert_eq!(s.step(Event::Received(Frame::Text("late".to_string()))), Effect::Nothing);
    assert_eq!(s.step(Event::Typed("late".to_string())), Effect::Nothing);
    assert_eq!(s.step(Event::WriterReady), Effect::Nothing);
    assert_eq!(s.step(Event::DisplayReady), Effect::Nothing);
    assert_eq!(s.exit_code(), Some(0));
    assert_eq!(s.step(Event::Unwound), Effect::Nothing);
    assert_eq!(s.phase(), Phase::Closed);
    assert_eq!(s.exit_code(), Some(0));
}

#[test]
fn invalid_binary_ends_the_session_with_a_decode_error() {
    let mut s = open(false);
    s.step(Event::Received(Frame::Text("before".to_string())));
    assert_eq!(s.step(Event::Received(Frame::Binary(vec![b'a', 0xff, b'b']))), Effect::Nothing);
    assert_eq!(s.phase(), Phase::Closing);
    assert_eq!(s.exit_code(), Some(1));
    assert_eq!(s.inbound_len(), 1);
    match s.outcome() {
        Some(Outcome::Failed(e)) => assert_eq!(e.kind, ErrorKind::Decode),
        other => panic!("unexpected outcome {:?}", other),
    }
    assert_eq!(s.step(Event::DisplayReady), Effect::Nothing);
}

#[test]
fn read_failure_ends_the_session_with_exit_code_one() {
    let mut s = open(false);
    assert_eq!(s.step(Event::ReceiveFailed("reset by peer".to_string())), Effect::Nothing);
    assert_eq!(s.phase(), Phase::Closing);
    assert_eq!(s.exit_code(), Some(1));
    let outcome = s.outcome().as_ref().unwrap();
    assert_eq!(
        outcome.report(),
        Some("\u{1b}[31mConnection Closed: reset by peer\u{1b}[0m".to_string())
    );
}

#[test]
fn write_failure_ends_the_session_with_exit_code_one() {
    let mut s = open(false);
    assert_eq!(s.step(Event::SendFailed("broken pipe".to_string())), Effect::Nothing);
    assert_eq!(s.phase(), Phase::Closing);
    assert_eq!(
        s.outcome(),
        &Some(Outcome::Failed(SessionError {
            kind: ErrorKind::Transport,
            detail: "broken pipe".to_string()
        }))
    );
    assert_eq!(s.exit_code(), Some(1));
}

#[test]
fn first_terminal_condition_is_the_one_reported() {
    let mut s = open(false);
    s.step(Event::Received(Frame::Close(None)));
    s.step(Event::SendFailed("late failure".to_string()));
    s.step(Event::ReceiveFailed("late failure".to_string()));
    s.step(Event::InputEnded);
    s.step(Event::Interrupted);
    assert_eq!(s.outcome(), &Some(Outcome::PeerClosed(None)));
    assert_eq!(s.exit_code(), Some(0));
    assert_eq!(s.phase(), Phase::Closed);
}

#[test]
fn interrupt_closes_at_once() {
    let mut s = open(false);
    assert_eq!(s.step(Event::Interrupted), Effect::Nothing);
    assert_eq!(s.phase(), Phase::Closed);
    assert_eq!(s.outcome(), &Some(Outcome::Interrupted));
    assert_eq!(s.exit_code(), Some(0));
    assert_eq!(s.outcome().as_ref().unwrap().report(), None);
    let mut s = Session::new(false);
    s.step(Event::Interrupted);
    assert_eq!(s.phase(), Phase::Closed);
}

#[test]
fn end_of_input_starts_closing() {
    let mut s = open(false);
    assert_eq!(s.step(Event::InputEnded), Effect::Nothing);
    assert_eq!(s.phase(), Phase::Closing);
    assert_eq!(s.outcome(), &Some(Outcome::InputEnded));
    assert_eq!(s.exit_code(), Some(0));
    assert_eq!(s.outcome().as_ref().unwrap().report(), None);
}

#[test]
fn events_out_of_season_change_nothing() {
    let mut s = Session::new(false);
    assert_eq!(s.step(Event::Received(Frame::Text("x".to_string()))), Effect::Nothing);
    assert_eq!(s.step(Event::ReceiveFailed("x".to_string())), Effect::Nothing);
    assert_eq!(s.step(Event::SendFailed("x".to_string())), Effect::Nothing);
    assert_eq!(s.step(Event::Unwound), Effect::Nothing);
    assert_eq!(
        s.step(Event::Deliver(Pending { pong: Some(vec![1]), show: None })),
        Effect::Nothing
    );
    assert_eq!(s.phase(), Phase::Connecting);
    assert_eq!(s.inbound_len(), 0);
    assert_eq!(s.outbound_len(), 0);
    let mut s = open(false);
    let err = SessionError::new(ErrorKind::Connect, "refused".to_string());
    assert_eq!(s.step(Event::ConnectFailed(err)), Effect::Nothing);
    assert_eq!(s.step(Event::Connected), Effect::Nothing);
    assert_eq!(s.step(Event::Unwound), Effect::Nothing);
    assert_eq!(s.phase(), Phase::Open);
    assert_eq!(s.exit_code(), None);
}

#[test]
fn outcomes_give_their_exit_codes() {
    assert_eq!(Outcome::PeerClosed(None).exit_code(), 0);
    assert_eq!(Outcome::Interrupted.exit_code(), 0);
    assert_eq!(Outcome::InputEnded.exit_code(), 0);
    for kind in [
        ErrorKind::Resolution,
        ErrorKind::Connect,
        ErrorKind::Config,
        ErrorKind::Tls,
        ErrorKind::Handshake,
        ErrorKind::UnsupportedScheme,
        ErrorKind::Decode,
        ErrorKind::Transport,
    ] {
        assert_eq!(Outcome::Failed(SessionError::new(kind, "x".to_string())).exit_code(), 1);
    }
}
