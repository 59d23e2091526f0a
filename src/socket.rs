//! Connection supervisor: the decisions of the connection's lifecycle as a
//! state machine. The caller owns the socket and the timer; it asks the
//! supervisor what to do next, does it, and reports what happened.

use vstd::prelude::*;
use crate::codec::{decode, encode, encoded, frame_view};
use crate::json::Json;
use crate::protocol::{
    hello_view, InboundDataView, InboundMessage, MessageAuth, MessageAuthView, OutboundMessage,
    OutboundMessageView,
};

verus! {

/// Delay before another handshake after a failed one, in milliseconds.
pub const RETRY_DELAY_MS: u64 = 1000;

/// How many outbound frames may wait for the socket.
pub const QUEUE_CAPACITY: usize = 100;

/// The supervisor's tunable limits.
#[derive(Clone, Copy, Debug, PartialEq, Eq, Structural)]
pub struct Settings {
    pub retry_delay_ms: u64,
    pub queue_capacity: usize,
}

impl Settings {
    pub fn standard() -> (r: Settings)
        ensures
            r.retry_delay_ms == RETRY_DELAY_MS,
            r.queue_capacity == QUEUE_CAPACITY,
    {
        Settings { retry_delay_ms: RETRY_DELAY_MS, queue_capacity: QUEUE_CAPACITY }
    }
}

/// Handle on one established connection, through which frames are submitted.
/// It goes stale when that connection ends.
#[derive(Clone, Copy, Debug, PartialEq, Eq, Structural)]
pub struct Connection {
    id: u64,
}

impl View for Connection {
    type V = u64;

    closed spec fn view(&self) -> u64 {
        self.id
    }
}

impl Connection {
    pub fn id(&self) -> (r: u64)
        ensures
            r == self@,
    {
        self.id
    }

    /// Queues a frame on this connection. It is refused when the connection
    /// has ended, and when the queue is full.
    pub fn send(&self, supervisor: &mut Supervisor, payload: OutboundMessage) -> (r: Result<(), SendError>)
        ensures
            final(supervisor)@ == submitted(old(supervisor)@, self@, payload@),
            r == submit_result(old(supervisor)@, self@),
    {
        supervisor.submit(self.id, payload)
    }
}

/// Why a frame was not queued.
#[derive(Clone, Copy, Debug, PartialEq, Eq, Structural)]
pub enum SendError {
    /// The connection that the handle names has ended.
    Stale,
    /// The queue holds as many frames as it may.
    Full,
}

/// What the supervisor tells the rest of the application.
#[derive(Clone, Debug)]
pub enum Event {
    Connected(Connection),
    Disconnected,
    Received(InboundMessage),
}

/// Mathematical value of an [`Event`]; a connection is named by its id.
pub enum EventView {
    Connected(u64),
    Disconnected,
    Received(InboundDataView),
}

impl View for Event {
    type V = EventView;

    open spec fn view(&self) -> EventView {
        match self {
            Event::Connected(c) => EventView::Connected(c@),
            Event::Disconnected => EventView::Disconnected,
            Event::Received(m) => EventView::Received(m@),
        }
    }
}

pub open spec fn event_view(e: Option<Event>) -> Option<EventView> {
    match e {
        Some(ev) => Some(ev@),
        None => None,
    }
}

/// What happened to the work that the supervisor asked for.
#[derive(Debug)]
pub enum Input {
    HandshakeSucceeded,
    HandshakeFailed,
    /// A text frame arrived and parsed as a JSON document.
    Frame(Json),
    /// A frame arrived that carries no document (binary, ping, or text that
    /// is not JSON).
    OtherFrame,
    ReadFailed,
    WriteSucceeded,
    WriteFailed,
}

/// The supervisor's answer to an [`Input`]: an event to publish, after
/// waiting `delay_ms` milliseconds.
#[derive(Debug)]
pub struct Reaction {
    pub event: Option<Event>,
    pub delay_ms: u64,
}

/// The next piece of work for the caller.
#[derive(Debug)]
pub enum Work {
    /// Open the socket at this address.
    Handshake(String),
    /// Write this text frame.
    Send(String),
    /// A frame is waiting on the socket: read it.
    Receive,
    /// Nothing is queued: wait for a frame on the socket or for a submission.
    Listen,
}

/// The work that the supervisor hands out, before it is written as text.
pub enum WorkView {
    Handshake(Seq<char>),
    Send(OutboundMessageView),
    Receive,
    Listen,
}

/// The supervisor's state as plain values.
pub struct SupervisorView {
    pub auth: MessageAuthView,
    pub server: Seq<char>,
    pub settings: Settings,
    /// The live connection's id, if any.
    pub link: Option<u64>,
    /// Frames waiting for the socket, oldest first.
    pub queue: Seq<OutboundMessageView>,
    /// The id that the next connection gets.
    pub next_id: u64,
    /// Whether the last piece of work on this connection was a write.
    pub wrote_last: bool,
}

/// Owner of the connection's lifecycle: whether a connection is live, the
/// frames waiting for it, and whose turn it is between reads and writes.
pub struct Supervisor {
    auth: MessageAuth,
    server: String,
    settings: Settings,
    link: Option<u64>,
    queue: Vec<OutboundMessage>,
    next_id: u64,
    wrote_last: bool,
}

impl View for Supervisor {
    type V = SupervisorView;

    closed spec fn view(&self) -> SupervisorView {
        SupervisorView {
            auth: self.auth@,
            server: self.server@,
            settings: self.settings,
            link: self.link,
            queue: self.queue@.map_values(|m: OutboundMessage| m@),
            next_id: self.next_id,
            wrote_last: self.wrote_last,
        }
    }
}

/// No frame waits while there is no connection.
pub open spec fn view_wf(s: SupervisorView) -> bool {
    s.link is None ==> s.queue.len() == 0
}

/// The address of the chat service on `server`.
pub open spec fn endpoint_text(server: Seq<char>) -> Seq<char> {
    "wss://"@ + server + ":2002/"@
}

pub open spec fn disconnected(s: SupervisorView) -> SupervisorView {
    SupervisorView { link: None, queue: Seq::empty(), wrote_last: false, ..s }
}

pub open spec fn successor(id: u64) -> u64 {
    if id == u64::MAX {
        0
    } else {
        (id + 1) as u64
    }
}

/// The state after an [`Input`].
pub open spec fn step_state(s: SupervisorView, input: Input) -> SupervisorView {
    match input {
        Input::HandshakeSucceeded => SupervisorView {
            link: Some(s.next_id),
            queue: seq![hello_view(s.auth)],
            next_id: successor(s.next_id),
            wrote_last: false,
            ..s
        },
        Input::HandshakeFailed => if s.link is None {
            disconnected(s)
        } else {
            s
        },
        Input::ReadFailed | Input::WriteFailed => disconnected(s),
        _ => s,
    }
}

/// The event published after an [`Input`]. A failure is announced once: on
/// a supervisor that is already disconnected it announces nothing.
pub open spec fn step_event(s: SupervisorView, input: Input) -> Option<EventView> {
    match input {
        Input::HandshakeSucceeded => Some(EventView::Connected(s.next_id)),
        Input::HandshakeFailed => if s.link is None {
            Some(EventView::Disconnected)
        } else {
            None
        },
        Input::Frame(j) => if s.link is Some {
            match frame_view(j) {
                Ok(v) => Some(EventView::Received(v)),
                Err(_) => None,
            }
        } else {
            None
        },
        Input::ReadFailed | Input::WriteFailed => if s.link is Some {
            Some(EventView::Disconnected)
        } else {
            None
        },
        _ => None,
    }
}

/// The wait before the event: the retry delay after a failed handshake.
pub open spec fn step_delay(s: SupervisorView, input: Input) -> u64 {
    match input {
        Input::HandshakeFailed => if s.link is None {
            s.settings.retry_delay_ms
        } else {
            0
        },
        _ => 0,
    }
}

/// Whether the next piece of work on a live connection is a write: a frame
/// is queued, and either nothing waits on the socket or the last piece of
/// work was a read.
pub open spec fn writes_next(s: SupervisorView, inbound_ready: bool) -> bool {
    s.queue.len() > 0 && (!inbound_ready || !s.wrote_last)
}

/// The next piece of work and the state once it is handed out.
pub open spec fn work_state(s: SupervisorView, inbound_ready: bool) -> SupervisorView {
    if s.link is None {
        s
    } else if writes_next(s, inbound_ready) {
        SupervisorView { queue: s.queue.drop_first(), wrote_last: true, ..s }
    } else if inbound_ready {
        SupervisorView { wrote_last: false, ..s }
    } else {
        s
    }
}

pub open spec fn work_view(s: SupervisorView, inbound_ready: bool) -> WorkView {
    if s.link is None {
        WorkView::Handshake(endpoint_text(s.server))
    } else if writes_next(s, inbound_ready) {
        WorkView::Send(s.queue[0])
    } else if inbound_ready {
        WorkView::Receive
    } else {
        WorkView::Listen
    }
}

/// Whether a frame handed to the connection `id` is queued.
pub open spec fn submit_result(s: SupervisorView, id: u64) -> Result<(), SendError> {
    if s.link != Some(id) {
        Err(SendError::Stale)
    } else if s.queue.len() >= s.settings.queue_capacity {
        Err(SendError::Full)
    } else {
        Ok(())
    }
}

pub open spec fn submitted(s: SupervisorView, id: u64, m: OutboundMessageView) -> SupervisorView {
    if submit_result(s, id) is Ok {
        SupervisorView { queue: s.queue.push(m), ..s }
    } else {
        s
    }
}

impl Supervisor {
    #[verifier::type_invariant]
    spec fn inv(&self) -> bool {
        view_wf(self@)
    }

    /// A supervisor with no connection yet.
    pub fn new(auth: MessageAuth, server: String, settings: Settings) -> (r: Supervisor)
        ensures
            r@.auth == auth@,
            r@.server == server@,
            r@.settings == settings,
            r@.link is None,
            r@.queue.len() == 0,
            r@.next_id == 0,
            !r@.wrote_last,
    {
        let r = Supervisor {
            auth,
            server,
            settings,
            link: None,
            queue: Vec::new(),
            next_id: 0,
            wrote_last: false,
        };
        assert(r@.queue =~= Seq::empty());
        r
    }

    /// Whether a connection is live.
    pub fn is_connected(&self) -> (r: bool)
        ensures
            r == self@.link is Some,
    {
        self.link.is_some()
    }

    /// How many frames wait for the socket.
    pub fn pending(&self) -> (r: usize)
        ensures
            r == self@.queue.len(),
    {
        self.queue.len()
    }

    /// The address that handshakes go to.
    pub fn endpoint(&self) -> (r: String)
        ensures
            r@ == endpoint_text(self@.server),
    {
        let mut out = String::new();
        out.append("wss://");
        out.append(self.server.as_str());
        out.append(":2002/");
        assert(out@ =~= endpoint_text(self@.server));
        out
    }

    fn submit(&mut self, id: u64, payload: OutboundMessage) -> (r: Result<(), SendError>)
        ensures
            final(self)@ == submitted(old(self)@, id, payload@),
            r == submit_result(old(self)@, id),
    {
        proof {
            use_type_invariant(&*self);
        }
        if self.link != Some(id) {
            return Err(SendError::Stale);
        }
        if self.queue.len() >= self.settings.queue_capacity {
            return Err(SendError::Full);
        }
        let mut queue = Vec::new();
        std::mem::swap(&mut self.queue, &mut queue);
        queue.push(payload);
        self.queue = queue;
        assert(self@.queue =~= old(self)@.queue.push(payload@));
        Ok(())
    }

    /// Hands out the next piece of work. `inbound_ready` says whether a frame
    /// already waits on the socket. When a frame is queued as well, reads and
    /// writes take turns.
    pub fn next_work(&mut self, inbound_ready: bool) -> (r: Work)
        ensures
            final(self)@ == work_state(old(self)@, inbound_ready),
            match (r, work_view(old(self)@, inbound_ready)) {
                (Work::Handshake(url), WorkView::Handshake(u)) => url@ == u,
                (Work::Send(text), WorkView::Send(m)) => text@ == encoded(m),
                (Work::Receive, WorkView::Receive) => true,
                (Work::Listen, WorkView::Listen) => true,
                _ => false,
            },
    {
        proof {
            use_type_invariant(&*self);
        }
        if self.link.is_none() {
            return Work::Handshake(self.endpoint());
        }
        if self.queue.len() > 0 && (!inbound_ready || !self.wrote_last) {
            let mut queue = Vec::new();
            std::mem::swap(&mut self.queue, &mut queue);
            let front = queue.remove(0);
            self.queue = queue;
            self.wrote_last = true;
            assert(self@.queue =~= old(self)@.queue.drop_first());
            return Work::Send(encode(&front));
        }
        if inbound_ready {
            self.wrote_last = false;
            Work::Receive
        } else {
            Work::Listen
        }
    }

    /// Takes in what happened to the last piece of work.
    pub fn step(&mut self, input: Input) -> (r: Reaction)
        ensures
            final(self)@ == step_state(old(self)@, input),
            event_view(r.event) == step_event(old(self)@, input),
            r.delay_ms == step_delay(old(self)@, input),
    {
        proof {
            use_type_invariant(&*self);
        }
        match input {
            Input::HandshakeSucceeded => {
                let id = self.next_id;
                self.next_id = if id == u64::MAX {
                    0
                } else {
                    id + 1
                };
                self.link = Some(id);
                self.wrote_last = false;
                let hello = OutboundMessage::hello(&self.auth);
                self.queue = vec![hello];
                assert(self@.queue =~= seq![hello_view(old(self)@.auth)]);
                Reaction { event: Some(Event::Connected(Connection { id })), delay_ms: 0 }
            },
            Input::HandshakeFailed => {
                if self.link.is_none() {
                    self.drop_link();
                    Reaction { event: Some(Event::Disconnected), delay_ms: self.settings.retry_delay_ms }
                } else {
                    Reaction { event: None, delay_ms: 0 }
                }
            },
            Input::Frame(j) => {
                if self.link.is_some() {
                    match decode(&j) {
                        Ok(m) => Reaction { event: Some(Event::Received(m)), delay_ms: 0 },
                        Err(_) => Reaction { event: None, delay_ms: 0 },
                    }
                } else {
                    Reaction { event: None, delay_ms: 0 }
                }
            },
            Input::ReadFailed | Input::WriteFailed => {
                let was_live = self.link.is_some();
                self.drop_link();
                if was_live {
                    Reaction { event: Some(Event::Disconnected), delay_ms: 0 }
                } else {
                    Reaction { event: None, delay_ms: 0 }
                }
            },
            Input::OtherFrame | Input::WriteSucceeded => Reaction { event: None, delay_ms: 0 },
        }
    }

    fn drop_link(&mut self)
        ensures
            final(self)@ == disconnected(old(self)@),
    {
        self.queue = Vec::new();
        self.link = None;
        self.wrote_last = false;
        assert(self@.queue =~= Seq::empty());
        assert(self@ == disconnected(old(self)@));
    }
}

pub open spec fn handshake_input(ok: bool) -> Input {
    if ok {
        Input::HandshakeSucceeded
    } else {
        Input::HandshakeFailed
    }
}

/// The events and delays published over a run of handshakes with the given
/// outcomes.
pub open spec fn handshake_run(s: SupervisorView, outcomes: Seq<bool>) -> Seq<(Option<EventView>, u64)>
    decreases outcomes.len(),
{
    if outcomes.len() == 0 {
        seq![]
    } else {
        let i = handshake_input(outcomes[0]);
        seq![(step_event(s, i), step_delay(s, i))] + handshake_run(
            step_state(s, i),
            outcomes.drop_first(),
        )
    }
}

/// Starting disconnected, `n` failed handshakes followed by one that succeeds
/// publish exactly `n` disconnections, each after the retry delay, and then
/// one connection, with no delay.
pub proof fn reconnect_after_failures(s: SupervisorView, n: nat)
    requires
        s.link is None,
    ensures
        ({
            let run = handshake_run(s, Seq::new(n, |k: int| false).push(true));
            &&& run.len() == n + 1
            &&& forall|k: int| 0 <= k < n ==> #[trigger] run[k] == (
                Some(EventView::Disconnected),
                s.settings.retry_delay_ms,
            )
            &&& run[n as int] == (Some(EventView::Connected(s.next_id)), 0u64)
        }),
    decreases n,
{
    let outcomes = Seq::new(n, |k: int| false).push(true);
    if n == 0 {
        assert(outcomes.drop_first() =~= seq![]);
        assert(outcomes[0]);
        assert(handshake_run(step_state(s, Input::HandshakeSucceeded), seq![]) =~= seq![]);
        assert(handshake_run(s, outcomes) =~= seq![(Some(EventView::Connected(s.next_id)), 0u64)]);
    } else {
        let s1 = step_state(s, Input::HandshakeFailed);
        let rest = Seq::new((n - 1) as nat, |k: int| false).push(true);
        assert(outcomes.drop_first() =~= rest);
        reconnect_after_failures(s1, (n - 1) as nat);
        let run = handshake_run(s, outcomes);
        let tail = handshake_run(s1, rest);
        assert(!outcomes[0]);
        assert(s1.link is None && s1.next_id == s.next_id && s1.settings == s.settings);
        assert(run =~= seq![(Some(EventView::Disconnected), s.settings.retry_delay_ms)] + tail);
        assert(run[n as int] == tail[n - 1]);
        assert forall|k: int| 0 <= k < n implies #[trigger] run[k] == (
            Some(EventView::Disconnected),
            s.settings.retry_delay_ms,
        ) by {
            if k > 0 {
                assert(run[k] == tail[k - 1]);
            }
        }
    }
}

/// The state after submitting each of `msgs`, in order, to connection `id`.
pub open spec fn submit_all(s: SupervisorView, id: u64, msgs: Seq<OutboundMessageView>) -> SupervisorView
    decreases msgs.len(),
{
    if msgs.len() == 0 {
        s
    } else {
        submit_all(submitted(s, id, msgs[0]), id, msgs.drop_first())
    }
}

proof fn submit_all_keeps_front(s: SupervisorView, id: u64, msgs: Seq<OutboundMessageView>)
    requires
        s.queue.len() > 0,
    ensures
        submit_all(s, id, msgs).queue.len() > 0,
        submit_all(s, id, msgs).queue[0] == s.queue[0],
        submit_all(s, id, msgs).link == s.link,
        submit_all(s, id, msgs).wrote_last == s.wrote_last,
    decreases msgs.len(),
{
    if msgs.len() > 0 {
        submit_all_keeps_front(submitted(s, id, msgs[0]), id, msgs.drop_first());
    }
}

/// On a new connection the first frame handed to the socket is the greeting,
/// whatever the application submits on it before that.
pub proof fn greeting_goes_first(s: SupervisorView, msgs: Seq<OutboundMessageView>, inbound_ready: bool)
    ensures
        work_view(
            submit_all(step_state(s, Input::HandshakeSucceeded), s.next_id, msgs),
            inbound_ready,
        ) == WorkView::Send(hello_view(s.auth)),
{
    submit_all_keeps_front(step_state(s, Input::HandshakeSucceeded), s.next_id, msgs);
}

/// With a frame queued and a frame waiting on the socket, the next two pieces
/// of work are a write and a read, in one order or the other, when the first
/// of them succeeds: neither source waits behind the other.
pub proof fn reads_and_writes_alternate(s: SupervisorView, arrived: Input)
    requires
        s.link is Some,
        s.queue.len() > 0,
        arrived is Frame || arrived is OtherFrame,
    ensures
        ({
            let first = work_view(s, true);
            let after = work_state(s, true);
            let served = if first is Send {
                step_state(after, Input::WriteSucceeded)
            } else {
                step_state(after, arrived)
            };
            let second = work_view(served, true);
            (first is Send && second is Receive) || (first is Receive && second is Send)
        }),
{
}

/// A failed write on a live connection publishes one disconnection; further
/// failed writes publish nothing, and the old handle is refused.
pub proof fn teardown_announced_once(s: SupervisorView, id: u64)
    requires
        s.link is Some,
    ensures
        step_event(s, Input::WriteFailed) == Some(EventView::Disconnected),
        ({
            let s1 = step_state(s, Input::WriteFailed);
            let s2 = step_state(s1, Input::WriteFailed);
            &&& step_event(s1, Input::WriteFailed) is None
            &&& step_event(s2, Input::WriteFailed) is None
            &&& submit_result(s2, id) == Err::<(), SendError>(SendError::Stale)
        }),
{
}

} // verus!
