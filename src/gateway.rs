use vstd::prelude::*;
use vstd::string::*;

use crate::json_access::{json_member_str, json_member_text, json_member_u64, member_str, member_text, member_u64};
use crate::opcode::OpCode;
use crate::payload::{opt_view, FrameView, Payload};
use crate::payloads::{heartbeat, identify, resume, spec_heartbeat, spec_identify, spec_resume};
use crate::text::str_eq;

verus! {

/// Where a gateway connection stands.
#[derive(Debug, Clone, Copy, PartialEq, Eq, Structural)]
pub enum ConnState {
    /// No socket yet.
    Connecting,
    /// The socket is open; the server's hello is due.
    AwaitingHello,
    /// Identify was sent; the handshake-complete event is due.
    Identifying,
    /// Events flow.
    Live,
    /// Resume was sent on a new socket; replayed events are due.
    Resuming,
    /// The socket is being replaced.
    Reconnecting,
    /// Shut down for good.
    Terminated,
}

/// What happened on the connection.
#[derive(Debug, Clone)]
pub enum GatewayEvent {
    /// The socket opened.
    Opened,
    /// The socket closed or failed, or could not be opened.
    Closed,
    /// A frame arrived.
    Frame(Payload),
    /// The heartbeat interval elapsed.
    HeartbeatDue,
    /// The operator asked to stop.
    Shutdown,
}

/// What the connection asks its driver to do, in order.
#[derive(Debug, Clone)]
pub enum GatewayAction {
    /// Send this text frame.
    Send(String),
    /// (Re)start the heartbeat timer with this interval in ms.
    StartHeartbeat(u64),
    /// Hand this event to the router as a task of its own.
    Dispatch { tag: String, body: String },
    /// Drop the socket, wait `delay_secs`, and open `url`; `resume` says whether the
    /// session will be resumed.
    Reconnect { url: String, resume: bool, delay_secs: u64 },
    /// Close the socket and stop.
    Close,
}

pub enum EventView {
    Opened,
    Closed,
    Frame(FrameView),
    HeartbeatDue,
    Shutdown,
}

pub enum ActionView {
    Send(Seq<char>),
    StartHeartbeat(u64),
    Dispatch(Seq<char>, Seq<char>),
    Reconnect(Seq<char>, bool, u64),
    Close,
}

impl View for GatewayEvent {
    type V = EventView;

    open spec fn view(&self) -> EventView {
        match self {
            GatewayEvent::Opened => EventView::Opened,
            GatewayEvent::Closed => EventView::Closed,
            GatewayEvent::Frame(p) => EventView::Frame(p@),
            GatewayEvent::HeartbeatDue => EventView::HeartbeatDue,
            GatewayEvent::Shutdown => EventView::Shutdown,
        }
    }
}

impl View for GatewayAction {
    type V = ActionView;

    open spec fn view(&self) -> ActionView {
        match self {
            GatewayAction::Send(s) => ActionView::Send(s@),
            GatewayAction::StartHeartbeat(i) => ActionView::StartHeartbeat(*i),
            GatewayAction::Dispatch { tag, body } => ActionView::Dispatch(tag@, body@),
            GatewayAction::Reconnect { url, resume, delay_secs } => ActionView::Reconnect(url@, *resume, *delay_secs),
            GatewayAction::Close => ActionView::Close,
        }
    }
}

pub open spec fn actions_view(v: Seq<GatewayAction>) -> Seq<ActionView> {
    v.map_values(|a: GatewayAction| a@)
}

/// The state of one logical gateway connection: the session learned from the server and
/// the bookkeeping of the connection itself.
#[derive(Debug, Clone)]
pub struct Connection {
    pub token: String,
    pub intents: u32,
    pub state: ConnState,
    /// Assigned by the server on a completed handshake; needed to resume.
    pub session_id: Option<String>,
    /// Where to reconnect to when resuming.
    pub resume_url: Option<String>,
    /// The sequence number of the last dispatch received.
    pub sequence: u64,
    /// The bot's own user id, learned from the handshake.
    pub bot_id: Option<String>,
    /// Consecutive failed connection attempts.
    pub failures: u64,
    /// A heartbeat was sent and its acknowledgement has not come.
    pub awaiting_ack: bool,
}

pub struct ConnView {
    pub token: Seq<char>,
    pub intents: u32,
    pub state: ConnState,
    pub session_id: Option<Seq<char>>,
    pub resume_url: Option<Seq<char>>,
    pub sequence: u64,
    pub bot_id: Option<Seq<char>>,
    pub failures: u64,
    pub awaiting_ack: bool,
}

impl View for Connection {
    type V = ConnView;

    open spec fn view(&self) -> ConnView {
        ConnView {
            token: self.token@,
            intents: self.intents,
            state: self.state,
            session_id: opt_view(self.session_id),
            resume_url: opt_view(self.resume_url),
            sequence: self.sequence,
            bot_id: opt_view(self.bot_id),
            failures: self.failures,
            awaiting_ack: self.awaiting_ack,
        }
    }
}

pub open spec fn spec_gateway_url() -> Seq<char> {
    "wss://gateway.discord.gg/?v=10&encoding=json"@
}

pub open spec fn bump(n: u64) -> u64 {
    if n < u64::MAX { (n + 1) as u64 } else { n }
}

/// Replace the socket and resume the session where one is known: the session survives.
pub open spec fn spec_reconnect_resume(c: ConnView) -> (ConnView, Seq<ActionView>) {
    let f = bump(c.failures);
    (
        ConnView { state: ConnState::Reconnecting, failures: f, awaiting_ack: false, ..c },
        seq![ActionView::Reconnect(
            match c.resume_url { Some(u) => u, None => spec_gateway_url() },
            c.session_id is Some,
            f,
        )],
    )
}

/// Replace the socket and start a fresh session: the session is dropped.
pub open spec fn spec_reconnect_fresh(c: ConnView) -> (ConnView, Seq<ActionView>) {
    let f = bump(c.failures);
    (
        ConnView {
            state: ConnState::Reconnecting,
            session_id: None,
            resume_url: None,
            failures: f,
            awaiting_ack: false,
            ..c
        },
        seq![ActionView::Reconnect(spec_gateway_url(), false, f)],
    )
}

pub open spec fn ready_tag() -> Seq<char> {
    "READY"@
}

/// The bot's id in a handshake-complete body: `user.id`.
pub open spec fn spec_ready_user_id(body: Seq<char>) -> Option<Seq<char>> {
    match json_member_text(body, "user"@) {
        Some(u) => json_member_str(u, "id"@),
        None => None,
    }
}

/// A dispatch frame: record its sequence number, learn the session from the
/// handshake-complete event, go live, and hand the event on.
pub open spec fn spec_on_dispatch(c: ConnView, f: FrameView) -> (ConnView, Seq<ActionView>) {
    let seq = match f.seq { Some(s) => s, None => c.sequence };
    let tag = match f.tag { Some(t) => t, None => seq![] };
    let is_ready = tag == ready_tag();
    let c1 = ConnView {
        sequence: seq,
        session_id: if is_ready { json_member_str(f.body, "session_id"@) } else { c.session_id },
        resume_url: if is_ready { json_member_str(f.body, "resume_gateway_url"@) } else { c.resume_url },
        bot_id: if is_ready { spec_ready_user_id(f.body) } else { c.bot_id },
        state: if c.state == ConnState::Identifying || c.state == ConnState::Resuming {
            ConnState::Live
        } else {
            c.state
        },
        failures: if c.state == ConnState::Identifying || c.state == ConnState::Resuming {
            0
        } else {
            c.failures
        },
        ..c
    };
    (c1, seq![ActionView::Dispatch(tag, f.body)])
}

pub open spec fn spec_on_frame(c: ConnView, f: FrameView) -> (ConnView, Seq<ActionView>) {
    if f.op == OpCode::Hello {
        match json_member_u64(f.body, "heartbeat_interval"@) {
            Some(i) => if c.state == ConnState::AwaitingHello {
                (
                    ConnView { state: ConnState::Identifying, awaiting_ack: false, ..c },
                    seq![ActionView::StartHeartbeat(i), ActionView::Send(spec_identify(c.token, c.intents))],
                )
            } else if c.state == ConnState::Resuming || c.state == ConnState::Live {
                (ConnView { awaiting_ack: false, ..c }, seq![ActionView::StartHeartbeat(i)])
            } else {
                (c, seq![])
            },
            None => spec_reconnect_resume(c),
        }
    } else if c.state == ConnState::AwaitingHello {
        spec_reconnect_resume(c)
    } else if f.op == OpCode::HeartbeatACK {
        (ConnView { awaiting_ack: false, ..c }, seq![])
    } else if f.op == OpCode::Heartbeat {
        (c, seq![ActionView::Send(spec_heartbeat(c.sequence))])
    } else if f.op == OpCode::Reconnect {
        spec_reconnect_resume(c)
    } else if f.op == OpCode::InvalidSession {
        spec_reconnect_fresh(c)
    } else if f.op == OpCode::Dispatch {
        spec_on_dispatch(c, f)
    } else {
        (c, seq![])
    }
}

/// The connection's transition: its next state and the actions to perform.
pub open spec fn spec_next(c: ConnView, e: EventView) -> (ConnView, Seq<ActionView>) {
    match e {
        EventView::Shutdown => (ConnView { state: ConnState::Terminated, ..c }, seq![ActionView::Close]),
        _ => if c.state == ConnState::Terminated {
            (c, seq![])
        } else {
            match e {
                EventView::Opened => if c.state == ConnState::Connecting || c.state == ConnState::Reconnecting {
                    match c.session_id {
                        Some(sid) => (
                            ConnView { state: ConnState::Resuming, ..c },
                            seq![ActionView::Send(spec_resume(c.token, sid, c.sequence))],
                        ),
                        None => (ConnView { state: ConnState::AwaitingHello, ..c }, seq![]),
                    }
                } else {
                    (c, seq![])
                },
                EventView::Closed => spec_reconnect_resume(c),
                EventView::HeartbeatDue => if c.state == ConnState::Connecting || c.state
                    == ConnState::Reconnecting || c.state == ConnState::AwaitingHello {
                    (c, seq![])
                } else if c.awaiting_ack {
                    spec_reconnect_resume(c)
                } else {
                    (ConnView { awaiting_ack: true, ..c }, seq![ActionView::Send(spec_heartbeat(c.sequence))])
                },
                EventView::Frame(f) => if c.state == ConnState::Connecting || c.state == ConnState::Reconnecting {
                    (c, seq![])
                } else {
                    spec_on_frame(c, f)
                },
                EventView::Shutdown => (c, seq![]),
            }
        }
    }
}

fn clone_opt(o: &Option<String>) -> (r: Option<String>)
    ensures
        opt_view(r) == opt_view(*o),
{
    match o {
        Some(s) => Some(s.clone()),
        None => None,
    }
}

impl Connection {
    /// A connection that has not opened its socket yet, with an empty session.
    pub fn new(token: &str, intents: u32) -> (r: Connection)
        ensures
            r@.token == token@,
            r@.intents == intents,
            r@.state == ConnState::Connecting,
            r@.session_id is None,
            r@.resume_url is None,
            r@.sequence == 0,
            r@.bot_id is None,
            r@.failures == 0,
            !r@.awaiting_ack,
    {
        Connection {
            token: String::from_str(token),
            intents,
            state: ConnState::Connecting,
            session_id: None,
            resume_url: None,
            sequence: 0,
            bot_id: None,
            failures: 0,
            awaiting_ack: false,
        }
    }

    /// The seconds to wait before the next connection attempt: one more per consecutive
    /// failure, none after a success.
    pub fn backoff_secs(&self) -> (r: u64)
        ensures
            r == self.failures,
    {
        self.failures
    }

    fn reconnect_resume(&mut self) -> (r: Vec<GatewayAction>)
        ensures
            (final(self)@, actions_view(r@)) == spec_reconnect_resume(old(self)@),
    {
        if self.failures < u64::MAX {
            self.failures = self.failures + 1;
        }
        self.state = ConnState::Reconnecting;
        self.awaiting_ack = false;
        let url = match &self.resume_url {
            Some(u) => u.clone(),
            None => String::from_str("wss://gateway.discord.gg/?v=10&encoding=json"),
        };
        let mut v: Vec<GatewayAction> = Vec::new();
        v.push(GatewayAction::Reconnect { url, resume: self.session_id.is_some(), delay_secs: self.failures });
        assert(actions_view(v@) =~= spec_reconnect_resume(old(self)@).1);
        v
    }

    fn reconnect_fresh(&mut self) -> (r: Vec<GatewayAction>)
        ensures
            (final(self)@, actions_view(r@)) == spec_reconnect_fresh(old(self)@),
    {
        if self.failures < u64::MAX {
            self.failures = self.failures + 1;
        }
        self.state = ConnState::Reconnecting;
        self.awaiting_ack = false;
        self.session_id = None;
        self.resume_url = None;
        let mut v: Vec<GatewayAction> = Vec::new();
        v.push(GatewayAction::Reconnect {
            url: String::from_str("wss://gateway.discord.gg/?v=10&encoding=json"),
            resume: false,
            delay_secs: self.failures,
        });
        assert(actions_view(v@) =~= spec_reconnect_fresh(old(self)@).1);
        v
    }

    fn on_dispatch(&mut self, f: Payload) -> (r: Vec<GatewayAction>)
        requires
            f.operation_code == OpCode::Dispatch,
        ensures
            (final(self)@, actions_view(r@)) == spec_on_dispatch(old(self)@, f@),
    {
        if let Some(s) = f.sequence {
            self.sequence = s;
        }
        let tag = match f.event_tag {
            Some(t) => t,
            None => String::new(),
        };
        proof {
            reveal_strlit("READY");
            reveal_strlit("session_id");
            reveal_strlit("resume_gateway_url");
            reveal_strlit("user");
            reveal_strlit("id");
        }
        if str_eq(tag.as_str(), "READY") {
            self.session_id = member_str(f.data.as_str(), "session_id");
            self.resume_url = member_str(f.data.as_str(), "resume_gateway_url");
            self.bot_id = match member_text(f.data.as_str(), "user") {
                Some(u) => member_str(u.as_str(), "id"),
                None => None,
            };
        }
        if self.state == ConnState::Identifying || self.state == ConnState::Resuming {
            self.state = ConnState::Live;
            self.failures = 0;
        }
        let mut v: Vec<GatewayAction> = Vec::new();
        v.push(GatewayAction::Dispatch { tag, body: f.data });
        assert(actions_view(v@) =~= spec_on_dispatch(old(self)@, f@).1);
        v
    }

    fn on_frame(&mut self, f: Payload) -> (r: Vec<GatewayAction>)
        requires
            old(self).state != ConnState::Terminated,
            old(self).state != ConnState::Connecting,
            old(self).state != ConnState::Reconnecting,
        ensures
            (final(self)@, actions_view(r@)) == spec_on_frame(old(self)@, f@),
    {
        let mut v: Vec<GatewayAction> = Vec::new();
        proof {
            reveal_strlit("heartbeat_interval");
        }
        if f.operation_code == OpCode::Hello {
            match member_u64(f.data.as_str(), "heartbeat_interval") {
                Some(i) => {
                    if self.state == ConnState::AwaitingHello {
                        self.state = ConnState::Identifying;
                        self.awaiting_ack = false;
                        v.push(GatewayAction::StartHeartbeat(i));
                        v.push(GatewayAction::Send(identify(self.token.as_str(), self.intents)));
                    } else if self.state == ConnState::Resuming || self.state == ConnState::Live {
                        self.awaiting_ack = false;
                        v.push(GatewayAction::StartHeartbeat(i));
                    }
                    assert(actions_view(v@) =~= spec_on_frame(old(self)@, f@).1);
                    v
                },
                None => self.reconnect_resume(),
            }
        } else if self.state == ConnState::AwaitingHello {
            self.reconnect_resume()
        } else if f.operation_code == OpCode::HeartbeatACK {
            self.awaiting_ack = false;
            assert(actions_view(v@) =~= seq![]);
            v
        } else if f.operation_code == OpCode::Heartbeat {
            v.push(GatewayAction::Send(heartbeat(self.sequence)));
            assert(actions_view(v@) =~= spec_on_frame(old(self)@, f@).1);
            v
        } else if f.operation_code == OpCode::Reconnect {
            self.reconnect_resume()
        } else if f.operation_code == OpCode::InvalidSession {
            self.reconnect_fresh()
        } else if f.operation_code == OpCode::Dispatch {
            self.on_dispatch(f)
        } else {
            assert(actions_view(v@) =~= seq![]);
            v
        }
    }

    /// Advances the connection by one event and returns the actions to perform, in order.
    pub fn handle(&mut self, ev: GatewayEvent) -> (r: Vec<GatewayAction>)
        ensures
            (final(self)@, actions_view(r@)) == spec_next(old(self)@, ev@),
    {
        let mut v: Vec<GatewayAction> = Vec::new();
        assert(actions_view(v@) =~= seq![]);
        if let GatewayEvent::Shutdown = ev {
            self.state = ConnState::Terminated;
            v.push(GatewayAction::Close);
            assert(actions_view(v@) =~= seq![ActionView::Close]);
            return v;
        }
        if self.state == ConnState::Terminated {
            return v;
        }
        let idle = self.state == ConnState::Connecting || self.state == ConnState::Reconnecting;
        match ev {
            GatewayEvent::Opened => {
                if idle {
                    match &self.session_id {
                        Some(sid) => {
                            let frame = resume(self.token.as_str(), sid.as_str(), self.sequence);
                            self.state = ConnState::Resuming;
                            v.push(GatewayAction::Send(frame));
                            assert(actions_view(v@) =~= spec_next(old(self)@, ev@).1);
                        },
                        None => {
                            self.state = ConnState::AwaitingHello;
                        },
                    }
                }
                v
            },
            GatewayEvent::Closed => self.reconnect_resume(),
            GatewayEvent::HeartbeatDue => {
                if idle || self.state == ConnState::AwaitingHello {
                    v
                } else if self.awaiting_ack {
                    self.reconnect_resume()
                } else {
                    self.awaiting_ack = true;
                    v.push(GatewayAction::Send(heartbeat(self.sequence)));
                    assert(actions_view(v@) =~= spec_next(old(self)@, ev@).1);
                    v
                }
            },
            GatewayEvent::Frame(f) => {
                if idle {
                    v
                } else {
                    self.on_frame(f)
                }
            },
            GatewayEvent::Shutdown => v,
        }
    }
}

/// An invalid-session frame, once the handshake is under way, drops the session id and the
/// resume URL; the next socket then starts a fresh handshake instead of resuming.
pub proof fn lemma_invalid_session_starts_fresh(c: ConnView, f: FrameView)
    requires
        c.state == ConnState::Identifying || c.state == ConnState::Live || c.state == ConnState::Resuming,
        f.op == OpCode::InvalidSession,
    ensures
        ({
            let (c1, a1) = spec_next(c, EventView::Frame(f));
            let (c2, a2) = spec_next(c1, EventView::Opened);
            &&& c1.session_id is None
            &&& c1.resume_url is None
            &&& a1 == seq![ActionView::Reconnect(spec_gateway_url(), false, c1.failures)]
            &&& c2.state == ConnState::AwaitingHello
            &&& a2 == Seq::<ActionView>::empty()
        }),
{
}

/// A reconnect frame, or the socket closing, keeps the session; the next socket goes to the
/// resume URL (the default gateway when none is known) and its first frame is a resume.
pub proof fn lemma_reconnect_resumes(c: ConnView, e: EventView, sid: Seq<char>)
    requires
        c.state == ConnState::Identifying || c.state == ConnState::Live || c.state == ConnState::Resuming,
        c.session_id == Some(sid),
        e matches EventView::Frame(f) && f.op == OpCode::Reconnect || e is Closed,
    ensures
        ({
            let (c1, a1) = spec_next(c, e);
            let (c2, a2) = spec_next(c1, EventView::Opened);
            &&& c1.session_id == c.session_id
            &&& c1.resume_url == c.resume_url
            &&& a1 == seq![ActionView::Reconnect(
                match c.resume_url { Some(u) => u, None => spec_gateway_url() },
                true,
                c1.failures,
            )]
            &&& c2.state == ConnState::Resuming
            &&& a2 == seq![ActionView::Send(spec_resume(c.token, sid, c.sequence))]
        }),
{
}

/// Each failure in a row, whether a live socket closing or a connection attempt failing,
/// adds a second to the wait before the next attempt; going live resets it.
pub proof fn lemma_backoff(c: ConnView, f: FrameView)
    requires
        c.state != ConnState::Terminated,
        c.failures < u64::MAX,
    ensures
        spec_next(c, EventView::Closed).0.failures == c.failures + 1,
        spec_next(c, EventView::Closed).1 == seq![ActionView::Reconnect(
            match c.resume_url { Some(u) => u, None => spec_gateway_url() },
            c.session_id is Some,
            (c.failures + 1) as u64,
        )],
        (c.state == ConnState::Identifying || c.state == ConnState::Resuming) && f.op == OpCode::Dispatch
            ==> spec_next(c, EventView::Frame(f)).0.failures == 0,
{
}

} // verus!
