//! The Discord gateway connection's bookkeeping: the session to resume, the
//! last event sequence, and what each gateway opcode asks of the connection.
use crate::discord::intents::GatewayIntents;
use crate::discord::types::Message;
use crate::text::{opt_view, push_str, to_owned};
use vstd::prelude::*;

verus! {

broadcast use vstd::string::group_string_axioms;

/// The query every gateway URL carries.
pub const GATEWAY_QUERY: &'static str = "?v=10&encoding=json";
/// Where a fresh connection goes.
pub const DEFAULT_GATEWAY_URL: &'static str = "wss://gateway.discord.gg";
/// Sentinel for "no event sequence received yet".
pub const NO_SEQUENCE: u64 = 0xFFFF_FFFF_FFFF_FFFF;

/// Gateway opcodes the connection acts on.
pub const OP_DISPATCH: u8 = 0;
pub const OP_HEARTBEAT: u8 = 1;
pub const OP_RECONNECT: u8 = 7;
pub const OP_INVALID_SESSION: u8 = 9;
pub const OP_HELLO: u8 = 10;
pub const OP_HEARTBEAT_ACK: u8 = 11;

/// Discord Gateway connection manager
pub struct Gateway {
    token: String,
    intents: GatewayIntents,
}

impl View for Gateway {
    type V = (Seq<char>, GatewayIntents);

    closed spec fn view(&self) -> (Seq<char>, GatewayIntents) {
        (self.token@, self.intents)
    }
}

impl Gateway {
    /// Create a new gateway connection manager
    pub fn new(token: &str, intents: GatewayIntents) -> (r: Self)
        ensures
            r@ == (token@, intents),
    {
        Self { token: to_owned(token), intents }
    }

    /// The bot token the connection identifies with.
    pub fn token(&self) -> (r: &str)
        ensures
            r@ == self@.0,
    {
        self.token.as_str()
    }

    /// The intents the connection subscribes to.
    pub fn intents(&self) -> (r: GatewayIntents)
        ensures
            r == self@.1,
    {
        self.intents
    }

    /// The URL a fresh connection opens.
    pub fn connect_url(&self) -> (r: String)
        ensures
            r@ == DEFAULT_GATEWAY_URL@ + "/"@ + GATEWAY_QUERY@,
    {
        let mut url = to_owned(DEFAULT_GATEWAY_URL);
        push_str(&mut url, "/");
        push_str(&mut url, GATEWAY_QUERY);
        url
    }

    /// The URL a resumed session reopens: the session's own gateway.
    pub fn resume_url(&self, session: &Session) -> (r: String)
        ensures
            r@ == session.resume_gateway_url@ + "/"@ + GATEWAY_QUERY@,
    {
        let mut url = to_owned(session.resume_gateway_url.as_str());
        push_str(&mut url, "/");
        push_str(&mut url, GATEWAY_QUERY);
        url
    }
}

/// Everything needed to resume a dropped session
#[derive(Debug, Clone)]
pub struct Session {
    /// Session id issued in the `READY` payload
    pub id: String,
    /// Session-specific gateway URL Discord asks us to resume against
    pub resume_gateway_url: String,
    /// Last event sequence seen on this session
    pub sequence: u64,
}

/// Gateway errors
#[derive(Debug)]
pub enum GatewayError {
    Connection(String),
    Protocol(String),
    Closed,
}

impl GatewayError {
    /// The error's text.
    pub fn message(&self) -> (r: String)
        ensures
            r@ == match self {
                GatewayError::Connection(s) => "connection error: "@ + s@,
                GatewayError::Protocol(s) => "protocol error: "@ + s@,
                GatewayError::Closed => "connection closed"@,
            },
    {
        match self {
            GatewayError::Connection(s) => {
                let mut m = to_owned("connection error: ");
                push_str(&mut m, s.as_str());
                m
            },
            GatewayError::Protocol(s) => {
                let mut m = to_owned("protocol error: ");
                push_str(&mut m, s.as_str());
                m
            },
            GatewayError::Closed => to_owned("connection closed"),
        }
    }
}

/// The sequence a heartbeat or resume reports: none until one arrives.
pub open spec fn reported_sequence(stored: u64) -> Option<u64> {
    if stored == NO_SEQUENCE {
        None
    } else {
        Some(stored)
    }
}

/// The last event sequence seen, `None` before the first.
pub fn last_sequence(stored: u64) -> (r: Option<u64>)
    ensures
        r == reported_sequence(stored),
{
    if stored == NO_SEQUENCE {
        None
    } else {
        Some(stored)
    }
}

/// What the connection keeps between payloads.
#[derive(Debug)]
pub struct ConnectionState {
    /// The session to resume, once `READY` has named one.
    pub session: Option<Session>,
    /// The last sequence number seen ([`NO_SEQUENCE`] before any).
    pub sequence: u64,
    /// Whether the heartbeat task is running.
    pub heartbeating: bool,
    /// Whether the last scheduled heartbeat still awaits Discord's ack.
    pub awaiting_ack: bool,
}

/// What a due heartbeat calls for.
#[derive(Debug, Clone, Copy, PartialEq, Eq, Structural)]
pub enum HeartbeatTick {
    /// Send the heartbeat; its ack is now awaited.
    Send,
    /// The previous heartbeat was never acknowledged: the socket is a zombie
    /// (open, but no longer carrying events), so close it and reconnect.
    Close,
}

/// What a gateway payload asks of the connection.
#[derive(Debug)]
pub enum GatewayStep {
    /// A dispatch: read its event name and data.
    Dispatch,
    /// Discord asked for an immediate heartbeat.
    SendHeartbeat,
    /// Discord asked us to reconnect.
    Reconnect,
    /// The session was invalidated; `resumable` says whether a resume may work.
    InvalidSession { resumable: bool },
    /// The connection opened: start heartbeating every `start_heartbeat_ms`
    /// (when given), then resume `resume` or identify afresh.
    Hello { start_heartbeat_ms: Option<u64>, resume: Option<Session> },
    /// A heartbeat was acknowledged.
    Acknowledged,
    /// Nothing to do.
    Ignore,
}

/// A new connection: a resumed one starts from its session's sequence.
pub fn connection_state(resume: Option<Session>) -> (r: ConnectionState)
    ensures
        r.sequence == match resume {
            Some(s) => s.sequence,
            None => NO_SEQUENCE,
        },
        r.session == resume,
        !r.heartbeating,
        !r.awaiting_ack,
{
    let sequence = match &resume {
        Some(s) => s.sequence,
        None => NO_SEQUENCE,
    };
    ConnectionState { session: resume, sequence, heartbeating: false, awaiting_ack: false }
}

/// A copy of a session.
fn copy_session(s: &Session) -> (r: Session)
    ensures
        r == *s,
{
    Session { id: s.id.clone(), resume_gateway_url: s.resume_gateway_url.clone(), sequence: s.sequence }
}

/// Handle one payload with opcode `op` and sequence `s`: record the
/// sequence, and say what the payload asks. `resumable` is the payload's
/// boolean data (for `INVALID_SESSION`), `interval_ms` its
/// `heartbeat_interval` (for `HELLO`). A non-resumable invalidation forgets
/// the session.
pub fn on_payload(
    state: &mut ConnectionState,
    op: u8,
    s: Option<u64>,
    resumable: Option<bool>,
    interval_ms: Option<u64>,
) -> (r: GatewayStep)
    ensures
        final(state).sequence == match s {
            Some(n) => n,
            None => old(state).sequence,
        },
        op == OP_INVALID_SESSION ==> final(state).session == (if resumable == Some(true) {
            old(state).session
        } else {
            None::<Session>
        }) && r == (GatewayStep::InvalidSession { resumable: resumable == Some(true) }),
        op != OP_INVALID_SESSION ==> final(state).session == old(state).session,
        op == OP_HELLO ==> final(state).heartbeating == (old(state).heartbeating || interval_ms is Some) && r == (GatewayStep::Hello {
            start_heartbeat_ms: if old(state).heartbeating {
                None
            } else {
                interval_ms
            },
            resume: old(state).session,
        }),
        op != OP_HELLO ==> final(state).heartbeating == old(state).heartbeating,
        final(state).awaiting_ack == (old(state).awaiting_ack && op != OP_HEARTBEAT_ACK),
        op == OP_DISPATCH ==> r is Dispatch,
        op == OP_HEARTBEAT ==> r is SendHeartbeat,
        op == OP_RECONNECT ==> r is Reconnect,
        op == OP_HEARTBEAT_ACK ==> r is Acknowledged,
        !(op == OP_DISPATCH || op == OP_HEARTBEAT || op == OP_RECONNECT || op == OP_INVALID_SESSION
            || op == OP_HELLO || op == OP_HEARTBEAT_ACK) ==> r is Ignore,
{
    match s {
        Some(n) => {
            state.sequence = n;
        },
        None => {},
    }
    if op == OP_DISPATCH {
        GatewayStep::Dispatch
    } else if op == OP_HEARTBEAT {
        GatewayStep::SendHeartbeat
    } else if op == OP_RECONNECT {
        GatewayStep::Reconnect
    } else if op == OP_INVALID_SESSION {
        let keep = match resumable {
            Some(b) => b,
            None => false,
        };
        if !keep {
            state.session = None;
        }
        GatewayStep::InvalidSession { resumable: keep }
    } else if op == OP_HELLO {
        let start = if state.heartbeating {
            None
        } else {
            interval_ms
        };
        if start.is_some() {
            state.heartbeating = true;
        }
        let resume = match &state.session {
            Some(session) => Some(copy_session(session)),
            None => None,
        };
        GatewayStep::Hello { start_heartbeat_ms: start, resume }
    } else if op == OP_HEARTBEAT_ACK {
        state.awaiting_ack = false;
        GatewayStep::Acknowledged
    } else {
        GatewayStep::Ignore
    }
}

/// `READY` names the session to resume later, at the current sequence; it
/// resumes against Discord's own gateway URL, else the default one.
pub fn on_ready(state: &mut ConnectionState, session_id: String, resume_gateway_url: Option<String>)
    ensures
        final(state).sequence == old(state).sequence,
        final(state).heartbeating == old(state).heartbeating,
        final(state).awaiting_ack == old(state).awaiting_ack,
        final(state).session matches Some(s) && s.id == session_id && s.sequence == old(state).sequence
            && s.resume_gateway_url@ == match opt_view(resume_gateway_url) {
            Some(u) => u,
            None => DEFAULT_GATEWAY_URL@,
        },
{
    let url = match resume_gateway_url {
        Some(u) => u,
        None => to_owned(DEFAULT_GATEWAY_URL),
    };
    state.session = Some(Session { id: session_id, resume_gateway_url: url, sequence: state.sequence });
}

/// A heartbeat falls due: send it, unless the previous one was never
/// acknowledged, in which case the connection is a zombie and must close.
pub fn heartbeat_due(state: &mut ConnectionState) -> (r: HeartbeatTick)
    ensures
        r == (if old(state).awaiting_ack {
            HeartbeatTick::Close
        } else {
            HeartbeatTick::Send
        }),
        final(state).awaiting_ack,
        final(state).session == old(state).session,
        final(state).sequence == old(state).sequence,
        final(state).heartbeating == old(state).heartbeating,
{
    if state.awaiting_ack {
        HeartbeatTick::Close
    } else {
        state.awaiting_ack = true;
        HeartbeatTick::Send
    }
}

/// The session to hand to a resume: the stored one at the latest sequence.
pub fn current_session(state: &ConnectionState) -> (r: Option<Session>)
    ensures
        match state.session {
            Some(s) => r == Some(Session { sequence: state.sequence, ..s }),
            None => r is None,
        },
{
    match &state.session {
        Some(s) => Some(
            Session { id: s.id.clone(), resume_gateway_url: s.resume_gateway_url.clone(), sequence: state.sequence },
        ),
        None => None,
    }
}

/// How a gateway connection ends.
#[derive(Debug)]
pub enum ConnectionEnd {
    /// Connect again, resuming the session when there is one.
    Reconnect(Option<Session>),
    /// Discord refused the session: identifying again is up to the caller.
    Rejected,
}

/// Whether a step ends the connection: a reconnect request or a resumable
/// invalid session reconnects with the session so far, a non-resumable one is
/// a rejection, and every other step keeps the connection open.
pub fn step_end(state: &ConnectionState, step: &GatewayStep) -> (r: Option<ConnectionEnd>)
    ensures
        match step {
            GatewayStep::Reconnect | GatewayStep::InvalidSession { resumable: true } => r matches Some(
                ConnectionEnd::Reconnect(s),
            ) && s == lost_session(*state),
            GatewayStep::InvalidSession { resumable: false } => r matches Some(ConnectionEnd::Rejected),
            _ => r is None,
        },
{
    match step {
        GatewayStep::Reconnect | GatewayStep::InvalidSession { resumable: true } => Some(
            ConnectionEnd::Reconnect(current_session(state)),
        ),
        GatewayStep::InvalidSession { resumable: false } => Some(ConnectionEnd::Rejected),
        _ => None,
    }
}

/// The session a dropped connection resumes: the stored one at the latest
/// sequence.
pub open spec fn lost_session(state: ConnectionState) -> Option<Session> {
    match state.session {
        Some(s) => Some(Session { sequence: state.sequence, ..s }),
        None => None,
    }
}

/// A connection that failed (a lost socket, a frame that is not text or JSON,
/// a heartbeat that could not be sent or was not acknowledged) reconnects with
/// the session so far.
pub fn connection_lost(state: &ConnectionState) -> (r: ConnectionEnd)
    ensures
        r matches ConnectionEnd::Reconnect(s) && s == lost_session(*state),
{
    ConnectionEnd::Reconnect(current_session(state))
}

/// Dispatches the connection surfaces.
#[derive(Debug, Clone, Copy, PartialEq, Eq)]
pub enum DispatchKind {
    Ready,
    Resumed,
    InteractionCreate,
    MessageCreate,
    MessageUpdate,
    Other,
}

/// The kind of a dispatch, by its event name.
pub open spec fn dispatch_kind_of(name: Seq<char>) -> DispatchKind {
    if name == "READY"@ {
        DispatchKind::Ready
    } else if name == "RESUMED"@ {
        DispatchKind::Resumed
    } else if name == "INTERACTION_CREATE"@ {
        DispatchKind::InteractionCreate
    } else if name == "MESSAGE_CREATE"@ {
        DispatchKind::MessageCreate
    } else if name == "MESSAGE_UPDATE"@ {
        DispatchKind::MessageUpdate
    } else {
        DispatchKind::Other
    }
}

/// The kind of a dispatch event.
pub fn dispatch_kind(name: &str) -> (r: DispatchKind)
    ensures
        r == dispatch_kind_of(name@),
{
    if crate::text::str_eq(name, "READY") {
        DispatchKind::Ready
    } else if crate::text::str_eq(name, "RESUMED") {
        DispatchKind::Resumed
    } else if crate::text::str_eq(name, "INTERACTION_CREATE") {
        DispatchKind::InteractionCreate
    } else if crate::text::str_eq(name, "MESSAGE_CREATE") {
        DispatchKind::MessageCreate
    } else if crate::text::str_eq(name, "MESSAGE_UPDATE") {
        DispatchKind::MessageUpdate
    } else {
        DispatchKind::Other
    }
}

/// Each gateway event the bot acts on has a kind of its own: a dispatch is an
/// interaction exactly when it is named `INTERACTION_CREATE`, and likewise
/// for `READY`, `RESUMED`, `MESSAGE_CREATE` and `MESSAGE_UPDATE`; every other
/// name, and only those, is of no interest.
pub proof fn law_each_dispatch_name_has_its_own_kind(name: Seq<char>)
    ensures
        (dispatch_kind_of(name) == DispatchKind::Ready) == (name == "READY"@),
        (dispatch_kind_of(name) == DispatchKind::Resumed) == (name == "RESUMED"@),
        (dispatch_kind_of(name) == DispatchKind::InteractionCreate) == (name == "INTERACTION_CREATE"@),
        (dispatch_kind_of(name) == DispatchKind::MessageCreate) == (name == "MESSAGE_CREATE"@),
        (dispatch_kind_of(name) == DispatchKind::MessageUpdate) == (name == "MESSAGE_UPDATE"@),
        (dispatch_kind_of(name) == DispatchKind::Other) == !(name == "READY"@ || name == "RESUMED"@ || name
            == "INTERACTION_CREATE"@ || name == "MESSAGE_CREATE"@ || name == "MESSAGE_UPDATE"@),
{
    reveal_strlit("READY");
    reveal_strlit("RESUMED");
    reveal_strlit("INTERACTION_CREATE");
    reveal_strlit("MESSAGE_CREATE");
    reveal_strlit("MESSAGE_UPDATE");
    assert("READY"@ != "RESUMED"@ && "READY"@ != "INTERACTION_CREATE"@ && "READY"@ != "MESSAGE_CREATE"@
        && "READY"@ != "MESSAGE_UPDATE"@) by {
        assert("READY"@.len() != "RESUMED"@.len());
        assert("READY"@.len() != "INTERACTION_CREATE"@.len());
        assert("READY"@.len() != "MESSAGE_CREATE"@.len());
        assert("READY"@.len() != "MESSAGE_UPDATE"@.len());
    }
    assert("RESUMED"@ != "INTERACTION_CREATE"@ && "RESUMED"@ != "MESSAGE_CREATE"@ && "RESUMED"@
        != "MESSAGE_UPDATE"@) by {
        assert("RESUMED"@.len() != "INTERACTION_CREATE"@.len());
        assert("RESUMED"@.len() != "MESSAGE_CREATE"@.len());
        assert("RESUMED"@.len() != "MESSAGE_UPDATE"@.len());
    }
    assert("INTERACTION_CREATE"@ != "MESSAGE_CREATE"@ && "INTERACTION_CREATE"@ != "MESSAGE_UPDATE"@) by {
        assert("INTERACTION_CREATE"@.len() != "MESSAGE_CREATE"@.len());
        assert("INTERACTION_CREATE"@.len() != "MESSAGE_UPDATE"@.len());
    }
    assert("MESSAGE_CREATE"@ != "MESSAGE_UPDATE"@) by {
        assert("MESSAGE_CREATE"@[8] != "MESSAGE_UPDATE"@[8]);
    }
}

/// Bot and webhook chatter would loop back into the bot's own message
/// handlers, so only messages from people are delivered.
pub fn delivers_message(message: &Message) -> (r: bool)
    ensures
        r == !(message.author.bot == Some(true)),
{
    match message.author.bot {
        Some(b) => !b,
        None => true,
    }
}

} // verus!
