use elmkc::chat::{parse_color, Rgb};
use elmkc::codec::{decode, encode, frame, DecodeError};
use elmkc::json::{push_decimal, push_signed_decimal, Json};
use elmkc::protocol::{InboundData, MessageAuth, OutboundData, OutboundMessage, UserStatus};

fn to_json(v: serde_json::Value) -> Json {
    match v {
        serde_json::Value::Null => Json::Null,
        serde_json::Value::Bool(b) => Json::Bool(b),
        serde_json::Value::Number(n) => match (n.as_u64(), n.as_i64()) {
            (Some(u), _) => Json::Unsigned(u),
            (None, Some(i)) => Json::Negative(i),
            _ => Json::Fraction,
        },
        serde_json::Value::String(s) => Json::Str(s),
        serde_json::Value::Array(items) => Json::Array(items.into_iter().map(to_json).collect()),
        serde_json::Value::Object(map) => {
            Json::Object(map.into_iter().map(|(k, v)| (k, to_json(v))).collect())
        }
    }
}

fn parse(text: &str) -> Json {
    to_json(serde_json::from_str(text).unwrap())
}

fn decoded(text: &str) -> InboundData {
    decode(&parse(text)).unwrap().data().clone()
}

fn google(token: &str) -> MessageAuth {
    MessageAuth::Google { token: token.to_string() }
}

#[test]
fn decodes_accepted() {
    match decoded(r#"{"type":"accepted","data":{"message":"ok"}}"#) {
        InboundData::Accepted { message } => assert_eq!(message, "ok"),
        other => panic!("unexpected {:?}", other),
    }
}

#[test]
fn decodes_auth_level() {
    match decoded(r#"{"type":"authlevel","data":{"value":3}}"#) {
        InboundData::AuthLevel { value } => assert_eq!(value, 3),
        other => panic!("unexpected {:?}", other),
    }
}

#[test]
fn decodes_chat_field_for_field() {
    let text = r#"{"type":"chat","data":{"auth":1,"author":"bread","author_color":"ff0000",
        "author_id":42,"author_level":2,"donate_value":"0","id":7,"message":"hi &amp; bye",
        "reply":0,"time":1690000000000}}"#;
    match decoded(text) {
        InboundData::Chat {
            auth,
            author,
            author_color,
            author_id,
            author_level,
            donate_value,
            id,
            message,
            reply,
            time,
        } => {
            assert_eq!(auth, 1);
            assert_eq!(author, "bread");
            assert_eq!(author_color, "ff0000");
            assert_eq!(author_id, 42);
            assert_eq!(author_level, 2);
            assert_eq!(donate_value, "0");
            assert_eq!(id, 7);
            assert_eq!(message, "hi &amp; bye");
            assert_eq!(reply, 0);
            assert_eq!(time, 1690000000000);
            assert_eq!(parse_color(&author_color), Some(Rgb { red: 255, green: 0, blue: 0 }));
        }
        other => panic!("unexpected {:?}", other),
    }
}

#[test]
fn decodes_delete() {
    match decoded(r#"{"type":"delete","data":{"messages":[3,5,8]}}"#) {
        InboundData::Delete { messages } => assert_eq!(messages, vec![3, 5, 8]),
        other => panic!("unexpected {:?}", other),
    }
}

#[test]
fn decodes_get_user_conf() {
    match decoded(r#"{"type":"getuserconf","data":{"color":"00ff00","name":"bread"}}"#) {
        InboundData::GetUserConf { color, name } => {
            assert_eq!(color, "00ff00");
            assert_eq!(name, "bread");
        }
        other => panic!("unexpected {:?}", other),
    }
}

#[test]
fn decodes_join_and_part() {
    match decoded(r#"{"type":"join","data":{"name":"ann"}}"#) {
        InboundData::Join { name } => assert_eq!(name, "ann"),
        other => panic!("unexpected {:?}", other),
    }
    match decoded(r#"{"type":"part","data":{"name":"ann"}}"#) {
        InboundData::Part { name } => assert_eq!(name, "ann"),
        other => panic!("unexpected {:?}", other),
    }
}

#[test]
fn decodes_server_msg() {
    match decoded(r#"{"type":"servermsg","data":{"message":"a<br>b"}}"#) {
        InboundData::ServerMsg { message } => assert_eq!(message, "a<br>b"),
        other => panic!("unexpected {:?}", other),
    }
}

#[test]
fn decodes_every_status() {
    let names = [
        ("authenticated", UserStatus::Authenticated),
        ("banned", UserStatus::Banned),
        ("nameexists", UserStatus::NameExists),
        ("nameinvalid", UserStatus::NameInvalid),
        ("namelength", UserStatus::NameLength),
        ("nametimeout", UserStatus::NameTimeout),
        ("rename", UserStatus::Rename),
        ("setuserconf", UserStatus::SetUserConf),
        ("unauthenticated", UserStatus::Unauthenticated),
    ];
    for (name, expected) in names {
        let text = format!(r#"{{"type":"status","data":{{"status":"{}"}}}}"#, name);
        match decoded(&text) {
            InboundData::Status { status } => assert_eq!(status, expected),
            other => panic!("unexpected {:?}", other),
        }
    }
}

#[test]
fn ignores_extra_entries() {
    match decoded(r#"{"extra":1,"type":"join","data":{"name":"ann","colour":"x"}}"#) {
        InboundData::Join { name } => assert_eq!(name, "ann"),
        other => panic!("unexpected {:?}", other),
    }
}

#[test]
fn decode_errors() {
    let cases = [
        (r#"[1,2]"#, DecodeError::NotAnObject),
        (r#"{"data":{}}"#, DecodeError::MissingType),
        (r#"{"type":5,"data":{}}"#, DecodeError::MissingType),
        (r#"{"type":"typing","data":{}}"#, DecodeError::UnknownType),
        (r#"{"type":"Join","data":{"name":"a"}}"#, DecodeError::UnknownType),
        (r#"{"type":"join"}"#, DecodeError::MissingData),
        (r#"{"type":"join","data":{}}"#, DecodeError::InvalidData),
        (r#"{"type":"join","data":{"name":3}}"#, DecodeError::InvalidData),
        (r#"{"type":"authlevel","data":{"value":-1}}"#, DecodeError::InvalidData),
        (r#"{"type":"authlevel","data":{"value":1.5}}"#, DecodeError::InvalidData),
        (r#"{"type":"delete","data":{"messages":[1,"2"]}}"#, DecodeError::InvalidData),
        (r#"{"type":"status","data":{"status":"Banned"}}"#, DecodeError::InvalidData),
        (r#"{"type":"join","data":"ann"}"#, DecodeError::InvalidData),
    ];
    for (text, expected) in cases {
        assert_eq!(decode(&parse(text)).unwrap_err(), expected, "{}", text);
    }
}

#[test]
fn encodes_message_flat() {
    let text = encode(&OutboundMessage::message(&google("T"), "hi", None));
    assert_eq!(text, r#"{"auth":"google","token":"T","type":"message","data":{"reply":0,"text":"hi"}}"#);
    let value: serde_json::Value = serde_json::from_str(&text).unwrap();
    let object = value.as_object().unwrap();
    assert_eq!(object.len(), 4);
    assert_eq!(object["auth"], "google");
    assert_eq!(object["token"], "T");
    assert_eq!(object["type"], "message");
    assert_eq!(object["data"]["reply"], 0);
    assert_eq!(object["data"]["text"], "hi");
}

#[test]
fn encodes_hello() {
    let text = encode(&OutboundMessage::hello(&google("abc")));
    assert_eq!(text, r#"{"auth":"google","token":"abc","type":"hello","data":{"last_message":-1}}"#);
}

#[test]
fn encodes_reply_and_escapes_text() {
    let text = encode(&OutboundMessage::message(&google("t\"k"), "say \"hi\"\n", Some(1234)));
    assert_eq!(
        text,
        r#"{"auth":"google","token":"t\"k","type":"message","data":{"reply":1234,"text":"say \"hi\"\n"}}"#
    );
    let value: serde_json::Value = serde_json::from_str(&text).unwrap();
    assert_eq!(value["data"]["text"], "say \"hi\"\n");
    assert_eq!(value["token"], "t\"k");
}

#[test]
fn writes_decimals() {
    for (n, expected) in [(0usize, "0"), (7, "7"), (10, "10"), (1234567890, "1234567890")] {
        let mut out = String::from("x");
        push_decimal(&mut out, n);
        assert_eq!(out, format!("x{}", expected));
    }
    let mut out = String::new();
    push_decimal(&mut out, usize::MAX);
    assert_eq!(out, usize::MAX.to_string());
    for n in [-1isize, 0, 42, isize::MIN, isize::MAX] {
        let mut out = String::new();
        push_signed_decimal(&mut out, n);
        assert_eq!(out, n.to_string());
    }
}

#[test]
fn frames_around_given_literals() {
    let m = OutboundMessage::message(&google("ignored"), "ignored", Some(5));
    assert_eq!(
        frame(&m, "\"TOK\"", "\"TXT\""),
        r#"{"auth":"google","token":"TOK","type":"message","data":{"reply":5,"text":"TXT"}}"#
    );
    let h = OutboundMessage::hello(&google("ignored"));
    assert_eq!(
        frame(&h, "null", "\"unused\""),
        r#"{"auth":"google","token":null,"type":"hello","data":{"last_message":-1}}"#
    );
}

#[test]
fn message_constructor_fields() {
    let m = OutboundMessage::message(&google("T"), "hi", Some(9));
    assert!(matches!(m.auth(), MessageAuth::Google { token } if token == "T"));
    assert!(matches!(m.data(), OutboundData::Message { reply: 9, text } if text == "hi"));
    let n = OutboundMessage::message(&google("T"), "hi", None);
    assert!(matches!(n.data(), OutboundData::Message { reply: 0, .. }));
    let h = OutboundMessage::hello(&google("T"));
    assert!(matches!(h.data(), OutboundData::Hello { last_message: -1 }));
}
