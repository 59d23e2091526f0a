use elmkc::chat::{parse_color, system_lines, ChatLog, LogEntry, Rgb};
use elmkc::config::Configuration;
use elmkc::protocol::{InboundData, UserStatus};

fn chat(id: usize, message: &str, color: &str) -> InboundData {
    InboundData::Chat {
        auth: 0,
        author: "bread".to_string(),
        author_color: color.to_string(),
        author_id: 1,
        author_level: 0,
        donate_value: String::new(),
        id,
        message: message.to_string(),
        reply: 0,
        time: 1000,
    }
}

#[test]
fn colors() {
    assert_eq!(parse_color("ff0000"), Some(Rgb { red: 255, green: 0, blue: 0 }));
    assert_eq!(parse_color("0A1b2C"), Some(Rgb { red: 10, green: 27, blue: 44 }));
    assert_eq!(parse_color("fff"), None);
    assert_eq!(parse_color("ff00zz"), None);
    assert_eq!(parse_color("ff00001"), None);
    assert_eq!(parse_color(""), None);
}

#[test]
fn chat_lines_are_decoded() {
    let mut log = ChatLog::new();
    assert!(log.apply(&chat(1, "fish &amp; chips &lt;3", "00ff00")));
    match &log.entries()[0] {
        LogEntry::Normal { author, color, content, id, time } => {
            assert_eq!(author, "bread");
            assert_eq!(*color, Some(Rgb { red: 0, green: 255, blue: 0 }));
            assert_eq!(content, "fish & chips <3");
            assert_eq!(*id, 1);
            assert_eq!(*time, 1000);
        }
        other => panic!("unexpected {:?}", other),
    }
    assert!(log.apply(&chat(2, "x", "bad")));
    assert!(matches!(&log.entries()[1], LogEntry::Normal { color: None, .. }));
}

#[test]
fn delete_removes_named_messages() {
    let mut log = ChatLog::new();
    log.apply(&chat(1, "a", "000000"));
    log.apply(&InboundData::Join { name: "ann".to_string() });
    log.apply(&chat(2, "b", "000000"));
    log.apply(&chat(3, "c", "000000"));
    assert!(log.apply(&InboundData::Delete { messages: vec![1, 3, 9] }));
    let entries = log.entries();
    assert_eq!(entries.len(), 2);
    assert!(matches!(&entries[0], LogEntry::Join(n) if n == "ann"));
    assert!(matches!(&entries[1], LogEntry::Normal { id: 2, .. }));
}

#[test]
fn joins_parts_and_server_messages() {
    let mut log = ChatLog::new();
    assert!(log.apply(&InboundData::Join { name: "ann".to_string() }));
    assert!(log.apply(&InboundData::Part { name: "ann".to_string() }));
    assert!(log.apply(&InboundData::ServerMsg { message: "hello".to_string() }));
    assert!(!log.apply(&InboundData::Status { status: UserStatus::Banned }));
    assert!(!log.apply(&InboundData::AuthLevel { value: 2 }));
    let entries = log.entries();
    assert_eq!(entries.len(), 3);
    assert!(matches!(&entries[1], LogEntry::Leave(n) if n == "ann"));
    assert!(matches!(&entries[2], LogEntry::System(m) if m == "hello"));
}

#[test]
fn title_follows_username() {
    let mut log = ChatLog::new();
    assert_eq!(log.title("server.mattkc.com"), "server.mattkc.com - ElmKC");
    assert!(!log.apply(&InboundData::GetUserConf { color: "ffffff".to_string(), name: "bread".to_string() }));
    assert_eq!(log.username().map(|s| s.as_str()), Some("bread"));
    assert_eq!(log.title("server.mattkc.com"), "bread@server.mattkc.com - ElmKC");
    assert!(log.entries().is_empty());
}

#[test]
fn default_configuration() {
    let c = Configuration::default();
    assert_eq!(c.server(), "server.mattkc.com");
    assert_eq!(c.token(), "Your token here");
    assert_eq!(c.text_size, 16);
    let made = Configuration::new("h".to_string(), 12, "k".to_string());
    assert_eq!(made.server(), "h");
    assert_eq!(made.token(), "k");
    assert_eq!(made.text_size, 12);
}

#[test]
fn server_message_lines() {
    assert_eq!(system_lines("a<br>b"), vec!["a", "b"]);
    assert_eq!(system_lines(""), vec![""]);
    assert_eq!(system_lines("<br>"), vec!["", ""]);
    assert_eq!(system_lines("x<b<br>r><br><br>"), vec!["x<b", "r>", "", ""]);
    for text in ["é<br>ü<br", "no breaks", "<br><br>a<BR>b"] {
        let expected: Vec<String> = text.split("<br>").map(|t| t.to_string()).collect();
        assert_eq!(system_lines(text), expected);
    }
}

#[test]
fn chat_entry_keeps_given_content() {
    match LogEntry::chat("ann", "0000ff", "a &amp; b".to_string(), 4, 99) {
        LogEntry::Normal { author, color, content, id, time } => {
            assert_eq!(author, "ann");
            assert_eq!(color, Some(Rgb { red: 0, green: 0, blue: 255 }));
            assert_eq!(content, "a &amp; b");
            assert_eq!(id, 4);
            assert_eq!(time, 99);
        }
        other => panic!("unexpected {:?}", other),
    }
}
