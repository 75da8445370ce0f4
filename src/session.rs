//! The connection lifecycle: connect, subscribe, keepalive, and reconnect.
use vstd::prelude::*;
use crate::decode::{decode_frame, frame_document, read_from, Inbound};
use crate::event::{classified, classify, NotificationData};

verus! {

#[verifier::external_type_specification]
#[verifier::external_body]
pub struct ExUrl(url::Url);

#[verifier::external_type_specification]
#[verifier::external_body]
pub struct ExParseError(url::ParseError);

/// Whether the text is a valid absolute URL.
pub uninterp spec fn url_parses(s: Seq<char>) -> bool;

/// Relies on url::Url::parse: succeeds exactly on valid absolute URLs.
#[verifier::external_body]
fn parse_url(text: &str) -> (r: Result<url::Url, url::ParseError>)
    ensures
        r.is_ok() == url_parses(text@),
{
    url::Url::parse(text)
}

/// The address of the event source, when it parses.
pub fn endpoint() -> (r: Option<url::Url>)
    ensures
        r.is_some() == url_parses(endpoint_text()),
{
    match parse_url("wss://faye.chalamministries.com:8999") {
        Ok(u) => Some(u),
        Err(_) => None,
    }
}

pub open spec fn endpoint_text() -> Seq<char> {
    "wss://faye.chalamministries.com:8999"@
}

pub open spec fn subscribe_text() -> Seq<char> {
    "{\"action\":\"subscribe\",\"channel\":\"/notifications\"}"@
}

/// The handshake sent right after connecting.
pub fn subscribe_message() -> (r: String)
    ensures
        r@ == subscribe_text(),
{
    String::from_str("{\"action\":\"subscribe\",\"channel\":\"/notifications\"}")
}

/// Pause before each reconnect attempt, in milliseconds.
pub const RETRY_DELAY_MS: u64 = 5000;

/// Silence after which a keepalive ping is sent, in milliseconds.
pub const IDLE_LIMIT_MS: u64 = 30000;

/// Pause between two turns of the read loop, in milliseconds.
pub const POLL_PAUSE_MS: u64 = 100;

#[derive(Clone, Copy, Debug, PartialEq, Eq, Structural)]
pub enum ConnectionState {
    Disconnected,
    Connecting,
    Connected,
}

/// What happened since the last step.
pub enum Input {
    /// The manager may try to connect (at start, and after each retry pause).
    Retry,
    /// The connection was opened.
    Opened,
    /// Opening the connection failed.
    ConnectFailed,
    /// Sending a frame failed.
    SendFailed,
    /// A text frame arrived.
    Text(String),
    /// A ping arrived.
    Ping,
    /// A pong arrived.
    Pong,
    /// A close frame arrived.
    Close,
    /// A frame of another kind arrived.
    OtherFrame,
    /// Reading failed.
    ReadError,
    /// Time for the idle check.
    Tick,
}

/// What the manager asks its runner to do.
pub enum Action {
    Nothing,
    Connect,
    SendSubscribe,
    SendPing,
    SendPong,
    /// Show the notification, and forward the event document to the primary surface.
    Deliver(NotificationData, Inbound),
    /// Sleep this many milliseconds, then hand back `Input::Retry`.
    Wait(u64),
}

/// The manager's state: the connection state, and when traffic was last seen.
pub struct Session {
    pub state: ConnectionState,
    pub last_message_ms: u64,
}

pub open spec fn is_idle(s: Session, now: u64) -> bool {
    now as int - s.last_message_ms as int > IDLE_LIMIT_MS as int
}

pub open spec fn disconnected(s: Session) -> Session {
    Session { state: ConnectionState::Disconnected, last_message_ms: s.last_message_ms }
}

pub open spec fn connected_at(now: u64) -> Session {
    Session { state: ConnectionState::Connected, last_message_ms: now }
}

/// The state after an input.
pub open spec fn next_session(s: Session, input: Input, now: u64) -> Session {
    match s.state {
        ConnectionState::Disconnected => match input {
            Input::Retry => Session {
                state: ConnectionState::Connecting,
                last_message_ms: s.last_message_ms,
            },
            _ => s,
        },
        ConnectionState::Connecting => match input {
            Input::Opened => connected_at(now),
            Input::ConnectFailed => disconnected(s),
            _ => s,
        },
        ConnectionState::Connected => match input {
            Input::Text(_) | Input::Ping | Input::Pong | Input::OtherFrame => connected_at(now),
            Input::Close | Input::ReadError | Input::SendFailed => disconnected(s),
            Input::Tick => if is_idle(s, now) {
                connected_at(now)
            } else {
                s
            },
            _ => s,
        },
    }
}

/// The action for an input, but for a text frame while connected.
pub open spec fn planned_action(s: Session, input: Input, now: u64) -> Action {
    match s.state {
        ConnectionState::Disconnected => match input {
            Input::Retry => Action::Connect,
            _ => Action::Nothing,
        },
        ConnectionState::Connecting => match input {
            Input::Opened => Action::SendSubscribe,
            Input::ConnectFailed => Action::Wait(RETRY_DELAY_MS),
            _ => Action::Nothing,
        },
        ConnectionState::Connected => match input {
            Input::Ping => Action::SendPong,
            Input::Close | Input::ReadError | Input::SendFailed => Action::Wait(RETRY_DELAY_MS),
            Input::Tick => if is_idle(s, now) {
                Action::SendPing
            } else {
                Action::Nothing
            },
            _ => Action::Nothing,
        },
    }
}

/// The action taken on a text frame while connected: nothing when the frame is
/// not JSON or has no `message` member, else the delivery of the event read from
/// that member, with the notification classified from it.
pub open spec fn text_reaction(text: Seq<char>, a: Action) -> bool {
    match frame_document(text) {
        None => a is Nothing,
        Some(doc) => match a {
            Action::Deliver(n, i) => i.document == doc && read_from(doc, i.event) && classified(
                i.event,
                n,
            ),
            _ => false,
        },
    }
}

/// The action fits the state and the input.
pub open spec fn reaction(s: Session, input: Input, now: u64, a: Action) -> bool {
    match input {
        Input::Text(t) => if s.state == ConnectionState::Connected {
            text_reaction(t@, a)
        } else {
            a is Nothing
        },
        _ => a == planned_action(s, input, now),
    }
}

impl Session {
    /// A manager that has not connected yet.
    pub fn new() -> (r: Session)
        ensures
            r.state == ConnectionState::Disconnected,
            r.last_message_ms == 0,
    {
        Session { state: ConnectionState::Disconnected, last_message_ms: 0 }
    }

    fn drop_connection(&mut self) -> (a: Action)
        ensures
            *final(self) == disconnected(*old(self)),
            a == Action::Wait(RETRY_DELAY_MS),
    {
        self.state = ConnectionState::Disconnected;
        Action::Wait(RETRY_DELAY_MS)
    }

    /// Takes one input at time `now` (milliseconds), and says what to do next.
    pub fn step(&mut self, input: Input, now: u64) -> (a: Action)
        ensures
            *final(self) == next_session(*old(self), input, now),
            reaction(*old(self), input, now, a),
    {
        match self.state {
            ConnectionState::Disconnected => match input {
                Input::Retry => {
                    self.state = ConnectionState::Connecting;
                    Action::Connect
                },
                _ => Action::Nothing,
            },
            ConnectionState::Connecting => match input {
                Input::Opened => {
                    self.state = ConnectionState::Connected;
                    self.last_message_ms = now;
                    Action::SendSubscribe
                },
                Input::ConnectFailed => self.drop_connection(),
                _ => Action::Nothing,
            },
            ConnectionState::Connected => match input {
                Input::Text(t) => {
                    self.last_message_ms = now;
                    match decode_frame(t.as_str()) {
                        Some(inbound) => {
                            let n = classify(&inbound.event);
                            Action::Deliver(n, inbound)
                        },
                        None => Action::Nothing,
                    }
                },
                Input::Ping => {
                    self.last_message_ms = now;
                    Action::SendPong
                },
                Input::Pong | Input::OtherFrame => {
                    self.last_message_ms = now;
                    Action::Nothing
                },
                Input::Close | Input::ReadError | Input::SendFailed => self.drop_connection(),
                Input::Tick => {
                    if now > self.last_message_ms && now - self.last_message_ms > IDLE_LIMIT_MS {
                        self.last_message_ms = now;
                        Action::SendPing
                    } else {
                        Action::Nothing
                    }
                },
                _ => Action::Nothing,
            },
        }
    }
}

/// The actions of a manager that starts disconnected, tries to connect, and
/// fails `n` times before its next try.
pub open spec fn failing_run(s: Session, n: nat, now: u64) -> Seq<Action>
    decreases n,
{
    let first = planned_action(s, Input::Retry, now);
    if n == 0 {
        seq![first]
    } else {
        let s1 = next_session(s, Input::Retry, now);
        let s2 = next_session(s1, Input::ConnectFailed, now);
        seq![first, planned_action(s1, Input::ConnectFailed, now)] + failing_run(
            s2,
            (n - 1) as nat,
            now,
        )
    }
}

/// After `n` failed connects the manager has tried `n + 1` times, a retry pause
/// between each two tries, and is trying again.
pub proof fn reconnects_forever(s: Session, n: nat, now: u64)
    requires
        s.state == ConnectionState::Disconnected,
    ensures
        failing_run(s, n, now).len() == 2 * n + 1,
        forall|i: int|
            0 <= i < 2 * n + 1 ==> #[trigger] failing_run(s, n, now)[i] == if i % 2 == 0 {
                Action::Connect
            } else {
                Action::Wait(RETRY_DELAY_MS)
            },
    decreases n,
{
    if n > 0 {
        let s1 = next_session(s, Input::Retry, now);
        let s2 = next_session(s1, Input::ConnectFailed, now);
        reconnects_forever(s2, (n - 1) as nat, now);
        let rest = failing_run(s2, (n - 1) as nat, now);
        let run = failing_run(s, n, now);
        assert forall|i: int| 2 <= i < 2 * n + 1 implies run[i] == rest[i - 2] by {}
        assert forall|i: int| 0 <= i < 2 * n + 1 implies #[trigger] run[i] == if i % 2 == 0 {
            Action::Connect
        } else {
            Action::Wait(RETRY_DELAY_MS)
        } by {
            if i >= 2 {
                assert(run[i] == rest[i - 2]);
                assert((i - 2) % 2 == i % 2);
            }
        }
    }
}

/// A connection silent past the idle limit sends one ping and restarts its idle
/// clock; no second ping follows before the limit has passed again.
pub proof fn keepalive_pings_once(s: Session, t1: u64, t2: u64)
    requires
        s.state == ConnectionState::Connected,
        is_idle(s, t1),
        t1 <= t2 <= t1 + IDLE_LIMIT_MS,
    ensures
        planned_action(s, Input::Tick, t1) == Action::SendPing,
        next_session(s, Input::Tick, t1) == connected_at(t1),
        planned_action(connected_at(t1), Input::Tick, t2) == Action::Nothing,
        next_session(connected_at(t1), Input::Tick, t2) == connected_at(t1),
{
}

/// A text frame that is not JSON, or has no `message` member, yields nothing,
/// and the connection stays as it was.
pub proof fn malformed_frame_is_dropped(s: Session, t: String, now: u64, a: Action)
    requires
        s.state == ConnectionState::Connected,
        frame_document(t@) is None,
        reaction(s, Input::Text(t), now, a),
    ensures
        a is Nothing,
        next_session(s, Input::Text(t), now).state == s.state,
{
}

} // verus!
