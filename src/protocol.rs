//! Wire schema: what the server sends, what the client sends, and the
//! credential attached to every outbound frame.

use vstd::prelude::*;

verus! {

/// Result of an authentication or naming attempt, as reported by the server.
#[derive(Clone, Copy, Debug, PartialEq, Eq, Structural)]
pub enum UserStatus {
    Authenticated,
    Banned,
    NameExists,
    NameInvalid,
    NameLength,
    NameTimeout,
    Rename,
    SetUserConf,
    Unauthenticated,
}

/// Payload of one inbound frame, selected by its `type` tag.
#[derive(Clone, Debug)]
pub enum InboundData {
    Accepted { message: String },
    AuthLevel { value: usize },
    Chat {
        auth: usize,
        author: String,
        author_color: String,
        author_id: usize,
        author_level: usize,
        donate_value: String,
        id: usize,
        message: String,
        reply: usize,
        time: usize,
    },
    Delete { messages: Vec<usize> },
    GetUserConf { color: String, name: String },
    Join { name: String },
    Part { name: String },
    ServerMsg { message: String },
    Status { status: UserStatus },
}

/// Mathematical value of an [`InboundData`]: strings as character sequences.
pub enum InboundDataView {
    Accepted { message: Seq<char> },
    AuthLevel { value: usize },
    Chat {
        auth: usize,
        author: Seq<char>,
        author_color: Seq<char>,
        author_id: usize,
        author_level: usize,
        donate_value: Seq<char>,
        id: usize,
        message: Seq<char>,
        reply: usize,
        time: usize,
    },
    Delete { messages: Seq<usize> },
    GetUserConf { color: Seq<char>, name: Seq<char> },
    Join { name: Seq<char> },
    Part { name: Seq<char> },
    ServerMsg { message: Seq<char> },
    Status { status: UserStatus },
}

impl View for InboundData {
    type V = InboundDataView;

    open spec fn view(&self) -> InboundDataView {
        match self {
            InboundData::Accepted { message } => InboundDataView::Accepted { message: message@ },
            InboundData::AuthLevel { value } => InboundDataView::AuthLevel { value: *value },
            InboundData::Chat {
                auth,
                author,
                author_color,
                author_id,
                author_level,
                donate_value,
                id,
                message,
                reply,
                time,
            } => InboundDataView::Chat {
                auth: *auth,
                author: author@,
                author_color: author_color@,
                author_id: *author_id,
                author_level: *author_level,
                donate_value: donate_value@,
                id: *id,
                message: message@,
                reply: *reply,
                time: *time,
            },
            InboundData::Delete { messages } => InboundDataView::Delete { messages: messages@ },
            InboundData::GetUserConf { color, name } => InboundDataView::GetUserConf {
                color: color@,
                name: name@,
            },
            InboundData::Join { name } => InboundDataView::Join { name: name@ },
            InboundData::Part { name } => InboundDataView::Part { name: name@ },
            InboundData::ServerMsg { message } => InboundDataView::ServerMsg { message: message@ },
            InboundData::Status { status } => InboundDataView::Status { status: *status },
        }
    }
}

/// One decoded inbound frame.
#[derive(Clone, Debug)]
pub struct InboundMessage {
    data: InboundData,
}

impl View for InboundMessage {
    type V = InboundDataView;

    closed spec fn view(&self) -> InboundDataView {
        self.data@
    }
}

impl InboundMessage {
    pub fn new(data: InboundData) -> (r: Self)
        ensures
            r@ == data@,
    {
        InboundMessage { data }
    }

    pub fn data(&self) -> (r: &InboundData)
        ensures
            r@ == self@,
    {
        &self.data
    }
}

/// How the client authenticates; flattened into every outbound frame.
#[derive(Clone, Debug)]
pub enum MessageAuth {
    Google { token: String },
}

/// Mathematical value of a [`MessageAuth`].
pub enum MessageAuthView {
    Google { token: Seq<char> },
}

impl View for MessageAuth {
    type V = MessageAuthView;

    open spec fn view(&self) -> MessageAuthView {
        match self {
            MessageAuth::Google { token } => MessageAuthView::Google { token: token@ },
        }
    }
}

impl MessageAuth {
    /// A copy whose value is known to equal the original.
    pub fn duplicate(&self) -> (r: Self)
        ensures
            r@ == self@,
    {
        match self {
            MessageAuth::Google { token } => MessageAuth::Google { token: token.clone() },
        }
    }
}

/// Payload of one outbound frame, selected by its `type` tag.
#[derive(Clone, Debug)]
pub enum OutboundData {
    Hello { last_message: isize },
    Message { reply: usize, text: String },
}

/// Mathematical value of an [`OutboundData`].
pub enum OutboundDataView {
    Hello { last_message: isize },
    Message { reply: usize, text: Seq<char> },
}

impl View for OutboundData {
    type V = OutboundDataView;

    open spec fn view(&self) -> OutboundDataView {
        match self {
            OutboundData::Hello { last_message } => OutboundDataView::Hello {
                last_message: *last_message,
            },
            OutboundData::Message { reply, text } => OutboundDataView::Message {
                reply: *reply,
                text: text@,
            },
        }
    }
}

/// One outbound frame: a payload together with the sender's credential.
#[derive(Clone, Debug)]
pub struct OutboundMessage {
    auth: MessageAuth,
    data: OutboundData,
}

/// Mathematical value of an [`OutboundMessage`].
pub struct OutboundMessageView {
    pub auth: MessageAuthView,
    pub data: OutboundDataView,
}

impl View for OutboundMessage {
    type V = OutboundMessageView;

    closed spec fn view(&self) -> OutboundMessageView {
        OutboundMessageView { auth: self.auth@, data: self.data@ }
    }
}

/// The greeting sent first on every connection: it asks for no backlog.
pub open spec fn hello_view(auth: MessageAuthView) -> OutboundMessageView {
    OutboundMessageView { auth, data: OutboundDataView::Hello { last_message: -1isize } }
}

impl OutboundMessage {
    pub fn hello(auth: &MessageAuth) -> (r: Self)
        ensures
            r@ == hello_view(auth@),
    {
        OutboundMessage { auth: auth.duplicate(), data: OutboundData::Hello { last_message: -1 } }
    }

    /// A chat message; a missing reply target is sent as 0.
    pub fn message(auth: &MessageAuth, content: &str, reply: Option<usize>) -> (r: Self)
        ensures
            r@.auth == auth@,
            r@.data == (OutboundDataView::Message {
                reply: match reply {
                    Some(id) => id,
                    None => 0,
                },
                text: content@,
            }),
    {
        let reply_id: usize = match reply {
            Some(id) => id,
            None => 0,
        };
        OutboundMessage {
            auth: auth.duplicate(),
            data: OutboundData::Message { reply: reply_id, text: content.to_string() },
        }
    }

    pub fn auth(&self) -> (r: &MessageAuth)
        ensures
            r@ == self@.auth,
    {
        &self.auth
    }

    pub fn data(&self) -> (r: &OutboundData)
        ensures
            r@ == self@.data,
    {
        &self.data
    }
}

} // verus!
