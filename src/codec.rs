//! Frame codec: outbound frames to JSON text, parsed JSON documents to
//! inbound frames. Both directions are pure.

use vstd::prelude::*;
use crate::json::{
    decimal, field_of, find_field, json_quoted, push_decimal, push_signed_decimal, quote,
    signed_decimal, Json,
};
use crate::protocol::{
    InboundData, InboundDataView, InboundMessage, MessageAuth, MessageAuthView, OutboundData,
    OutboundDataView, OutboundMessage, OutboundMessageView, UserStatus,
};

verus! {

// ---------------------------------------------------------------- encoding

/// The credential's token.
pub open spec fn token_of(a: MessageAuthView) -> Seq<char> {
    match a {
        MessageAuthView::Google { token } => token,
    }
}

/// The user's text that a payload carries; a greeting carries none.
pub open spec fn text_of_payload(d: OutboundDataView) -> Seq<char> {
    match d {
        OutboundDataView::Hello { .. } => seq![],
        OutboundDataView::Message { text, .. } => text,
    }
}

/// The text of an outbound frame, given the JSON literals of its token and
/// of its text: one flat object holding the credential's entries (its
/// provider under `auth`, then its token) and the payload's entries (its tag
/// under `type`, its fields under `data`) side by side.
pub open spec fn framed(m: OutboundMessageView, token_literal: Seq<char>, text_literal: Seq<char>) -> Seq<char> {
    let auth = match m.auth {
        MessageAuthView::Google { .. } => "\"auth\":\"google\",\"token\":"@ + token_literal,
    };
    let data = match m.data {
        OutboundDataView::Hello { last_message } => "\"type\":\"hello\",\"data\":{\"last_message\":"@
            + signed_decimal(last_message as int) + "}"@,
        OutboundDataView::Message { reply, .. } => "\"type\":\"message\",\"data\":{\"reply\":"@
            + decimal(reply as nat) + ",\"text\":"@ + text_literal + "}"@,
    };
    "{"@ + auth + ","@ + data + "}"@
}

/// The text of an outbound frame.
pub open spec fn encoded(m: OutboundMessageView) -> Seq<char> {
    framed(m, json_quoted(token_of(m.auth)), json_quoted(text_of_payload(m.data)))
}

/// Lays out an outbound frame around the JSON literals of its token and of
/// its text (the latter unused by a greeting).
pub fn frame(message: &OutboundMessage, token_literal: &str, text_literal: &str) -> (r: String)
    ensures
        r@ == framed(message@, token_literal@, text_literal@),
{
    let mut out = String::new();
    out.append("{");
    match message.auth() {
        MessageAuth::Google { .. } => {
            out.append("\"auth\":\"google\",\"token\":");
            out.append(token_literal);
        },
    }
    out.append(",");
    match message.data() {
        OutboundData::Hello { last_message } => {
            out.append("\"type\":\"hello\",\"data\":{\"last_message\":");
            push_signed_decimal(&mut out, *last_message);
            out.append("}");
        },
        OutboundData::Message { reply, .. } => {
            out.append("\"type\":\"message\",\"data\":{\"reply\":");
            push_decimal(&mut out, *reply);
            out.append(",\"text\":");
            out.append(text_literal);
            out.append("}");
        },
    }
    out.append("}");
    assert(out@ =~= framed(message@, token_literal@, text_literal@));
    out
}

/// Writes an outbound frame as JSON text.
pub fn encode(message: &OutboundMessage) -> (r: String)
    ensures
        r@ == encoded(message@),
{
    let token_literal = match message.auth() {
        MessageAuth::Google { token } => quote(token.as_str()),
    };
    let text_literal = match message.data() {
        OutboundData::Hello { .. } => String::new(),
        OutboundData::Message { text, .. } => quote(text.as_str()),
    };
    let r = frame(message, token_literal.as_str(), text_literal.as_str());
    assert(r@ =~= encoded(message@));
    r
}

// ---------------------------------------------------------------- decoding

/// Why a parsed document is not an inbound frame.
#[derive(Clone, Copy, Debug, PartialEq, Eq, Structural)]
pub enum DecodeError {
    /// The document is not an object.
    NotAnObject,
    /// The object has no `type` entry holding a string.
    MissingType,
    /// The `type` entry names no frame that this client knows.
    UnknownType,
    /// The object has no `data` entry.
    MissingData,
    /// The `data` entry lacks a field of the frame, or holds one of the wrong kind.
    InvalidData,
}

pub open spec fn text_of(v: Option<Json>) -> Option<Seq<char>> {
    match v {
        Some(Json::Str(s)) => Some(s@),
        _ => None,
    }
}

/// A JSON number that fits an index or counter of the protocol.
pub open spec fn is_index(j: Json) -> bool {
    j is Unsigned && j->Unsigned_0 <= usize::MAX
}

pub open spec fn index_of(v: Option<Json>) -> Option<usize> {
    match v {
        Some(j) => if is_index(j) {
            Some(j->Unsigned_0 as usize)
        } else {
            None
        },
        None => None,
    }
}

pub open spec fn indices_of(v: Option<Json>) -> Option<Seq<usize>> {
    match v {
        Some(Json::Array(items)) => if forall|i: int| 0 <= i < items@.len() ==> is_index(#[trigger] items@[i]) {
            Some(Seq::new(items@.len(), |i: int| items@[i]->Unsigned_0 as usize))
        } else {
            None
        },
        _ => None,
    }
}

/// The status that a lowercase name stands for.
pub open spec fn status_named(s: Seq<char>) -> Option<UserStatus> {
    if s == "authenticated"@ {
        Some(UserStatus::Authenticated)
    } else if s == "banned"@ {
        Some(UserStatus::Banned)
    } else if s == "nameexists"@ {
        Some(UserStatus::NameExists)
    } else if s == "nameinvalid"@ {
        Some(UserStatus::NameInvalid)
    } else if s == "namelength"@ {
        Some(UserStatus::NameLength)
    } else if s == "nametimeout"@ {
        Some(UserStatus::NameTimeout)
    } else if s == "rename"@ {
        Some(UserStatus::Rename)
    } else if s == "setuserconf"@ {
        Some(UserStatus::SetUserConf)
    } else if s == "unauthenticated"@ {
        Some(UserStatus::Unauthenticated)
    } else {
        None
    }
}

pub open spec fn status_of(v: Option<Json>) -> Option<UserStatus> {
    match text_of(v) {
        Some(s) => status_named(s),
        None => None,
    }
}

/// The `type` tags of the inbound frames, in lowercase.
pub open spec fn tag_known(t: Seq<char>) -> bool {
    t == "accepted"@ || t == "authlevel"@ || t == "chat"@ || t == "delete"@ || t == "getuserconf"@
        || t == "join"@ || t == "part"@ || t == "servermsg"@ || t == "status"@
}

/// The payload that `data` holds for the frame tagged `t`: each field of the
/// frame is read by name, and other entries are ignored.
pub open spec fn payload_view(t: Seq<char>, d: Json) -> Option<InboundDataView> {
    match d {
        Json::Object(fs) => {
            let fs = fs@;
            if t == "accepted"@ {
                match text_of(field_of(fs, "message"@)) {
                    Some(message) => Some(InboundDataView::Accepted { message }),
                    None => None,
                }
            } else if t == "authlevel"@ {
                match index_of(field_of(fs, "value"@)) {
                    Some(value) => Some(InboundDataView::AuthLevel { value }),
                    None => None,
                }
            } else if t == "chat"@ {
                let auth = index_of(field_of(fs, "auth"@));
                let author = text_of(field_of(fs, "author"@));
                let author_color = text_of(field_of(fs, "author_color"@));
                let author_id = index_of(field_of(fs, "author_id"@));
                let author_level = index_of(field_of(fs, "author_level"@));
                let donate_value = text_of(field_of(fs, "donate_value"@));
                let id = index_of(field_of(fs, "id"@));
                let message = text_of(field_of(fs, "message"@));
                let reply = index_of(field_of(fs, "reply"@));
                let time = index_of(field_of(fs, "time"@));
                if auth is Some && author is Some && author_color is Some && author_id is Some
                    && author_level is Some && donate_value is Some && id is Some && message is Some
                    && reply is Some && time is Some {
                    Some(
                        InboundDataView::Chat {
                            auth: auth->Some_0,
                            author: author->Some_0,
                            author_color: author_color->Some_0,
                            author_id: author_id->Some_0,
                            author_level: author_level->Some_0,
                            donate_value: donate_value->Some_0,
                            id: id->Some_0,
                            message: message->Some_0,
                            reply: reply->Some_0,
                            time: time->Some_0,
                        },
                    )
                } else {
                    None
                }
            } else if t == "delete"@ {
                match indices_of(field_of(fs, "messages"@)) {
                    Some(messages) => Some(InboundDataView::Delete { messages }),
                    None => None,
                }
            } else if t == "getuserconf"@ {
                match (text_of(field_of(fs, "color"@)), text_of(field_of(fs, "name"@))) {
                    (Some(color), Some(name)) => Some(InboundDataView::GetUserConf { color, name }),
                    _ => None,
                }
            } else if t == "join"@ {
                match text_of(field_of(fs, "name"@)) {
                    Some(name) => Some(InboundDataView::Join { name }),
                    None => None,
                }
            } else if t == "part"@ {
                match text_of(field_of(fs, "name"@)) {
                    Some(name) => Some(InboundDataView::Part { name }),
                    None => None,
                }
            } else if t == "servermsg"@ {
                match text_of(field_of(fs, "message"@)) {
                    Some(message) => Some(InboundDataView::ServerMsg { message }),
                    None => None,
                }
            } else if t == "status"@ {
                match status_of(field_of(fs, "status"@)) {
                    Some(status) => Some(InboundDataView::Status { status }),
                    None => None,
                }
            } else {
                None
            }
        },
        _ => None,
    }
}

/// The inbound frame that a parsed document denotes: an object whose `type`
/// entry names the frame and whose `data` entry holds its fields. Entries
/// beside these two are ignored.
pub open spec fn frame_view(j: Json) -> Result<InboundDataView, DecodeError> {
    match j {
        Json::Object(es) => match text_of(field_of(es@, "type"@)) {
            None => Err(DecodeError::MissingType),
            Some(t) => if !tag_known(t) {
                Err(DecodeError::UnknownType)
            } else {
                match field_of(es@, "data"@) {
                    None => Err(DecodeError::MissingData),
                    Some(d) => match payload_view(t, d) {
                        Some(v) => Ok(v),
                        None => Err(DecodeError::InvalidData),
                    },
                }
            },
        },
        _ => Err(DecodeError::NotAnObject),
    }
}

fn same_text(s: &String, lit: &str) -> (r: bool)
    ensures
        r == (s@ == lit@),
{
    let t = lit.to_string();
    *s == t
}

fn text_field(fs: &Vec<(String, Json)>, key: &str) -> (r: Option<String>)
    ensures
        match r {
            Some(s) => text_of(field_of(fs@, key@)) == Some(s@),
            None => text_of(field_of(fs@, key@)) is None,
        },
{
    match find_field(fs, key) {
        Some(Json::Str(s)) => Some(s.clone()),
        _ => None,
    }
}

fn index_value(j: &Json) -> (r: Option<usize>)
    ensures
        match r {
            Some(n) => is_index(*j) && n == j->Unsigned_0 as usize,
            None => !is_index(*j),
        },
{
    match j {
        Json::Unsigned(n) => if *n <= usize::MAX as u64 {
            Some(*n as usize)
        } else {
            None
        },
        _ => None,
    }
}

fn index_field(fs: &Vec<(String, Json)>, key: &str) -> (r: Option<usize>)
    ensures
        r == index_of(field_of(fs@, key@)),
{
    match find_field(fs, key) {
        Some(j) => index_value(j),
        None => None,
    }
}

fn indices_field(fs: &Vec<(String, Json)>, key: &str) -> (r: Option<Vec<usize>>)
    ensures
        match r {
            Some(v) => indices_of(field_of(fs@, key@)) == Some(v@),
            None => indices_of(field_of(fs@, key@)) is None,
        },
{
    match find_field(fs, key) {
        Some(Json::Array(items)) => {
            let mut out: Vec<usize> = Vec::new();
            let mut i: usize = 0;
            while i < items.len()
                invariant
                    field_of(fs@, key@) == Some(Json::Array(*items)),
                    i <= items@.len(),
                    out@.len() == i,
                    forall|k: int| 0 <= k < i ==> is_index(#[trigger] items@[k]),
                    forall|k: int| 0 <= k < i ==> out@[k] == items@[k]->Unsigned_0 as usize,
                decreases items@.len() - i,
            {
                match index_value(&items[i]) {
                    Some(n) => out.push(n),
                    None => {
                        assert(!is_index(items@[i as int]));
                        return None;
                    },
                }
                i = i + 1;
            }
            assert(out@ =~= Seq::new(items@.len(), |k: int| items@[k]->Unsigned_0 as usize));
            Some(out)
        },
        _ => None,
    }
}

fn status_field(fs: &Vec<(String, Json)>, key: &str) -> (r: Option<UserStatus>)
    ensures
        r == status_of(field_of(fs@, key@)),
{
    match text_field(fs, key) {
        Some(s) => {
            if same_text(&s, "authenticated") {
                Some(UserStatus::Authenticated)
            } else if same_text(&s, "banned") {
                Some(UserStatus::Banned)
            } else if same_text(&s, "nameexists") {
                Some(UserStatus::NameExists)
            } else if same_text(&s, "nameinvalid") {
                Some(UserStatus::NameInvalid)
            } else if same_text(&s, "namelength") {
                Some(UserStatus::NameLength)
            } else if same_text(&s, "nametimeout") {
                Some(UserStatus::NameTimeout)
            } else if same_text(&s, "rename") {
                Some(UserStatus::Rename)
            } else if same_text(&s, "setuserconf") {
                Some(UserStatus::SetUserConf)
            } else if same_text(&s, "unauthenticated") {
                Some(UserStatus::Unauthenticated)
            } else {
                None
            }
        },
        None => None,
    }
}

fn decode_payload(tag: &String, d: &Json) -> (r: Option<InboundData>)
    ensures
        match r {
            Some(x) => payload_view(tag@, *d) == Some(x@),
            None => payload_view(tag@, *d) is None,
        },
{
    let fs = match d {
        Json::Object(fs) => fs,
        _ => return None,
    };
    if same_text(tag, "accepted") {
        match text_field(fs, "message") {
            Some(message) => Some(InboundData::Accepted { message }),
            None => None,
        }
    } else if same_text(tag, "authlevel") {
        match index_field(fs, "value") {
            Some(value) => Some(InboundData::AuthLevel { value }),
            None => None,
        }
    } else if same_text(tag, "chat") {
        let auth = index_field(fs, "auth");
        let author = text_field(fs, "author");
        let author_color = text_field(fs, "author_color");
        let author_id = index_field(fs, "author_id");
        let author_level = index_field(fs, "author_level");
        let donate_value = text_field(fs, "donate_value");
        let id = index_field(fs, "id");
        let message = text_field(fs, "message");
        let reply = index_field(fs, "reply");
        let time = index_field(fs, "time");
        match (auth, author, author_color, author_id, author_level, donate_value, id, message, reply, time) {
            (
                Some(auth),
                Some(author),
                Some(author_color),
                Some(author_id),
                Some(author_level),
                Some(donate_value),
                Some(id),
                Some(message),
                Some(reply),
                Some(time),
            ) => Some(
                InboundData::Chat {
                    auth,
                    author,
                    author_color,
                    author_id,
                    author_level,
                    donate_value,
                    id,
                    message,
                    reply,
                    time,
                },
            ),
            _ => None,
        }
    } else if same_text(tag, "delete") {
        match indices_field(fs, "messages") {
            Some(messages) => Some(InboundData::Delete { messages }),
            None => None,
        }
    } else if same_text(tag, "getuserconf") {
        match (text_field(fs, "color"), text_field(fs, "name")) {
            (Some(color), Some(name)) => Some(InboundData::GetUserConf { color, name }),
            _ => None,
        }
    } else if same_text(tag, "join") {
        match text_field(fs, "name") {
            Some(name) => Some(InboundData::Join { name }),
            None => None,
        }
    } else if same_text(tag, "part") {
        match text_field(fs, "name") {
            Some(name) => Some(InboundData::Part { name }),
            None => None,
        }
    } else if same_text(tag, "servermsg") {
        match text_field(fs, "message") {
            Some(message) => Some(InboundData::ServerMsg { message }),
            None => None,
        }
    } else if same_text(tag, "status") {
        match status_field(fs, "status") {
            Some(status) => Some(InboundData::Status { status }),
            None => None,
        }
    } else {
        None
    }
}

fn known_tag(tag: &String) -> (r: bool)
    ensures
        r == tag_known(tag@),
{
    same_text(tag, "accepted") || same_text(tag, "authlevel") || same_text(tag, "chat")
        || same_text(tag, "delete") || same_text(tag, "getuserconf") || same_text(tag, "join")
        || same_text(tag, "part") || same_text(tag, "servermsg") || same_text(tag, "status")
}

/// Reads an inbound frame out of a parsed document.
pub fn decode(document: &Json) -> (r: Result<InboundMessage, DecodeError>)
    ensures
        match r {
            Ok(m) => frame_view(*document) == Ok::<InboundDataView, DecodeError>(m@),
            Err(e) => frame_view(*document) == Err::<InboundDataView, DecodeError>(e),
        },
{
    let entries = match document {
        Json::Object(es) => es,
        _ => return Err(DecodeError::NotAnObject),
    };
    let tag = match text_field(entries, "type") {
        Some(t) => t,
        None => return Err(DecodeError::MissingType),
    };
    if !known_tag(&tag) {
        return Err(DecodeError::UnknownType);
    }
    let data = match find_field(entries, "data") {
        Some(d) => d,
        None => return Err(DecodeError::MissingData),
    };
    match decode_payload(&tag, data) {
        Some(payload) => Ok(InboundMessage::new(payload)),
        None => Err(DecodeError::InvalidData),
    }
}

} // verus!
