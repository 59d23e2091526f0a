use elmkc::codec::encode;
use elmkc::json::Json;
use elmkc::protocol::{InboundData, MessageAuth, OutboundMessage};
use elmkc::socket::{Connection, Event, Input, SendError, Settings, Supervisor, Work};

fn google() -> MessageAuth {
    MessageAuth::Google { token: "T".to_string() }
}

fn supervisor(settings: Settings) -> Supervisor {
    Supervisor::new(google(), "chat.example".to_string(), settings)
}

fn connect(s: &mut Supervisor) -> Connection {
    match s.step(Input::HandshakeSucceeded).event {
        Some(Event::Connected(c)) => c,
        other => panic!("unexpected {:?}", other),
    }
}

fn join_frame() -> Json {
    Json::Object(vec![
        ("type".to_string(), Json::Str("join".to_string())),
        (
            "data".to_string(),
            Json::Object(vec![("name".to_string(), Json::Str("ann".to_string()))]),
        ),
    ])
}

#[test]
fn standard_settings() {
    let s = Settings::standard();
    assert_eq!(s.retry_delay_ms, 1000);
    assert_eq!(s.queue_capacity, 100);
}

#[test]
fn disconnected_supervisor_asks_for_handshake() {
    let mut s = supervisor(Settings::standard());
    assert!(!s.is_connected());
    match s.next_work(true) {
        Work::Handshake(url) => assert_eq!(url, "wss://chat.example:2002/"),
        other => panic!("unexpected {:?}", other),
    }
    assert_eq!(s.endpoint(), "wss://chat.example:2002/");
}

#[test]
fn failures_then_success() {
    let mut s = supervisor(Settings::standard());
    let mut disconnections = 0;
    for _ in 0..3 {
        let r = s.step(Input::HandshakeFailed);
        assert_eq!(r.delay_ms, 1000);
        match r.event {
            Some(Event::Disconnected) => disconnections += 1,
            other => panic!("unexpected {:?}", other),
        }
    }
    assert_eq!(disconnections, 3);
    let r = s.step(Input::HandshakeSucceeded);
    assert_eq!(r.delay_ms, 0);
    assert!(matches!(r.event, Some(Event::Connected(_))));
    assert!(s.is_connected());
}

#[test]
fn greeting_is_written_first() {
    let mut s = supervisor(Settings::standard());
    let c = connect(&mut s);
    let m = OutboundMessage::message(&google(), "early", None);
    assert_eq!(c.send(&mut s, m), Ok(()));
    assert_eq!(s.pending(), 2);
    let hello = encode(&OutboundMessage::hello(&google()));
    match s.next_work(true) {
        Work::Send(text) => assert_eq!(text, hello),
        other => panic!("unexpected {:?}", other),
    }
    assert!(matches!(s.step(Input::WriteSucceeded).event, None));
    match s.next_work(false) {
        Work::Send(text) => assert!(text.contains("\"early\"")),
        other => panic!("unexpected {:?}", other),
    }
    assert!(matches!(s.next_work(false), Work::Listen));
}

#[test]
fn reads_and_writes_take_turns() {
    let mut s = supervisor(Settings::standard());
    let c = connect(&mut s);
    for text in ["a", "b"] {
        c.send(&mut s, OutboundMessage::message(&google(), text, None)).unwrap();
    }
    assert!(matches!(s.next_work(true), Work::Send(_)));
    s.step(Input::WriteSucceeded);
    assert!(matches!(s.next_work(true), Work::Receive));
    match s.step(Input::Frame(join_frame())).event {
        Some(Event::Received(m)) => {
            assert!(matches!(m.data(), InboundData::Join { name } if name == "ann"))
        }
        other => panic!("unexpected {:?}", other),
    }
    assert!(matches!(s.next_work(true), Work::Send(_)));
    s.step(Input::WriteSucceeded);
    assert!(matches!(s.next_work(true), Work::Receive));
    s.step(Input::OtherFrame);
    assert!(matches!(s.next_work(true), Work::Send(_)));
    assert!(matches!(s.next_work(true), Work::Receive));
    assert!(matches!(s.next_work(false), Work::Listen));
}

#[test]
fn teardown_is_announced_once() {
    let mut s = supervisor(Settings::standard());
    let c = connect(&mut s);
    assert!(matches!(s.step(Input::WriteFailed).event, Some(Event::Disconnected)));
    assert!(s.step(Input::WriteFailed).event.is_none());
    assert!(s.step(Input::WriteFailed).event.is_none());
    assert!(s.step(Input::ReadFailed).event.is_none());
    assert_eq!(s.pending(), 0);
    let m = OutboundMessage::message(&google(), "late", None);
    assert_eq!(c.send(&mut s, m), Err(SendError::Stale));
}

#[test]
fn read_failure_disconnects() {
    let mut s = supervisor(Settings::standard());
    connect(&mut s);
    assert!(matches!(s.step(Input::ReadFailed).event, Some(Event::Disconnected)));
    assert!(!s.is_connected());
    assert!(matches!(s.next_work(false), Work::Handshake(_)));
}

#[test]
fn old_handle_is_refused_on_new_connection() {
    let mut s = supervisor(Settings::standard());
    let first = connect(&mut s);
    s.step(Input::ReadFailed);
    let second = connect(&mut s);
    assert_ne!(first.id(), second.id());
    let m = OutboundMessage::message(&google(), "x", None);
    assert_eq!(first.send(&mut s, m.clone()), Err(SendError::Stale));
    assert_eq!(second.send(&mut s, m), Ok(()));
}

#[test]
fn full_queue_refuses() {
    let mut s = supervisor(Settings { retry_delay_ms: 5, queue_capacity: 2 });
    let c = connect(&mut s);
    let m = OutboundMessage::message(&google(), "x", None);
    assert_eq!(c.send(&mut s, m.clone()), Ok(()));
    assert_eq!(c.send(&mut s, m), Err(SendError::Full));
    assert_eq!(s.pending(), 2);
    assert_eq!(s.step(Input::HandshakeFailed).delay_ms, 0);
}

#[test]
fn malformed_frame_is_ignored() {
    let mut s = supervisor(Settings::standard());
    connect(&mut s);
    assert!(s.step(Input::Frame(Json::Array(vec![]))).event.is_none());
    assert!(s.is_connected());
}

#[test]
fn retry_delay_follows_settings() {
    let mut s = supervisor(Settings { retry_delay_ms: 250, queue_capacity: 1 });
    assert_eq!(s.step(Input::HandshakeFailed).delay_ms, 250);
}
