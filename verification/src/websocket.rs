//! The connection manager: handshake construction from the configured
//! endpoint, the connection-lifecycle state machine, and the steady-state
//! run-loop decisions.
//!
//! The transport exchange itself (opening the socket, writing and reading
//! frames, sleeping between retries) is the caller's concern; this module
//! decides what to send, when a connection may be used, and how the state
//! advances on each transport event.

use vstd::prelude::*;

verus! {

use vstd::string::StringExecFns;
use crate::config::Config;
use crate::frame::{Frame, FrameV};
use crate::str_eq;

/// Errors raised by the connection manager.
#[derive(Debug, Clone, PartialEq, Eq)]
pub enum WsError {
    /// Send or receive was attempted while no connection is established.
    ConnectionNotEstablished,
    /// The inbound stream ended without an error.
    NoMessage,
    /// A transport-level failure, carrying its message.
    Transport(String),
    /// The configured endpoint URL does not parse, or carries no host.
    InvalidEndpoint,
}

impl WsError {
    /// The human-readable description of this error.
    pub open spec fn message_spec(&self) -> Seq<char> {
        match self {
            WsError::ConnectionNotEstablished => "WebSocket connection not established"@,
            WsError::NoMessage => "No message received"@,
            WsError::Transport(m) => m@,
            WsError::InvalidEndpoint => "Invalid WebSocket URL"@,
        }
    }

    /// Renders the error as text, for logging.
    pub fn message(&self) -> (r: String)
        ensures
            r@ == self.message_spec(),
    {
        match self {
            WsError::ConnectionNotEstablished => "WebSocket connection not established".to_owned(),
            WsError::NoMessage => "No message received".to_owned(),
            WsError::Transport(m) => m.clone(),
            WsError::InvalidEndpoint => "Invalid WebSocket URL".to_owned(),
        }
    }
}

/// The lifecycle states of the managed transport connection. There is no
/// terminal state: `Errored` always loops back to `Connecting` on the next
/// attempt.
#[derive(Debug, Clone, Copy, PartialEq, Eq, Structural)]
pub enum ConnState {
    Disconnected,
    Connecting,
    Open,
    Errored,
}

/// The seconds slept after a failed connect attempt before retrying. The
/// delay is fixed: no backoff growth, no attempt cap.
pub const RETRY_DELAY_SECS: u64 = 5;

/// What an endpoint URL splits into: its lower-cased scheme, its host, and
/// its normalized serialization.
#[derive(Debug, Clone, PartialEq, Eq)]
pub struct UrlParts {
    pub scheme: String,
    pub host: String,
    pub text: String,
}

/// The split of an endpoint URL into scheme, host and normalized text:
/// `None` when the text does not parse as a URL or the URL carries no host.
/// The result is a function of the text alone.
pub uninterp spec fn url_parts_of(s: Seq<char>) -> Option<UrlParts>;

/// Relies on `url::Url::parse` and the parsed URL's `scheme`, `host_str` and
/// `as_str` accessors: parsing either fails or yields the lower-cased
/// scheme, the host (absent for host-less URLs), and the normalized
/// serialization, all functions of the URL text alone.
#[verifier::external_body]
fn parse_endpoint(s: &str) -> (r: Option<UrlParts>)
    ensures
        r == url_parts_of(s@),
{
    match url::Url::parse(s) {
        Ok(u) => match u.host_str() {
            Some(h) => Some(
                UrlParts {
                    scheme: u.scheme().to_owned(),
                    host: h.to_owned(),
                    text: u.as_str().to_owned(),
                },
            ),
            None => None,
        },
        Err(_) => None,
    }
}

/// Relies on `tungstenite::handshake::client::generate_key`: a freshly
/// generated handshake key, the base64 rendering of 16 random bytes and so
/// always 24 characters; nothing else is assumed of its value.
#[verifier::external_body]
pub fn fresh_key() -> (r: String)
    ensures
        r@.len() == 24,
{
    tungstenite::handshake::client::generate_key()
}

/// The upgrade request headers for a handshake: the protocol-required five
/// (key, version 13, host, connection upgrade, upgrade) in order, then the
/// API key and secret headers exactly when each is configured.
pub open spec fn handshake_headers(cfg: Config, key: Seq<char>, host: Seq<char>) -> Seq<
    (Seq<char>, Seq<char>),
> {
    seq![
        ("Sec-WebSocket-Key"@, key),
        ("Sec-WebSocket-Version"@, "13"@),
        ("host"@, host),
        ("Connection"@, "Upgrade"@),
        ("Upgrade"@, "websocket"@),
    ] + (match cfg.websocket_api_key {
        Some(k) => seq![("APCA-API-KEY-ID"@, k@)],
        None => Seq::empty(),
    }) + (match cfg.websocket_api_secret {
        Some(s) => seq![("APCA-API-SECRET-KEY"@, s@)],
        None => Seq::empty(),
    })
}

/// Everything the caller must perform to (re)establish the connection: the
/// request target and headers, whether to wrap the socket in an encrypted
/// channel, and the initial messages to replay, in order, immediately after
/// the handshake succeeds and before steady-state receive begins.
#[derive(Debug, PartialEq, Eq)]
pub struct Handshake {
    /// The normalized endpoint to request.
    pub uri: String,
    /// Whether the scheme selects the encrypted transport.
    pub use_tls: bool,
    /// The upgrade request headers, in order.
    pub headers: Vec<(String, String)>,
    /// The frames to transmit, in order, after every successful handshake.
    pub replay: Vec<Frame>,
}

/// What a well-formed handshake plan holds, given the configuration, the
/// generated key, the configured initial messages and the endpoint's parts.
pub open spec fn handshake_plan(
    h: Handshake,
    cfg: Config,
    key: Seq<char>,
    replay: Seq<FrameV>,
    p: UrlParts,
) -> bool {
    h.uri == p.text && h.use_tls == (p.scheme@ == "wss"@) && h.headers.deep_view()
        == handshake_headers(cfg, key, p.host@) && h.replay.deep_view() == replay
}

/// An event the steady-state driver reacts to.
#[derive(Debug, PartialEq, Eq)]
pub enum RunEvent {
    /// The transport yielded an inbound frame.
    FrameArrived(Frame),
    /// The handler refused a delivered frame; carries its message.
    HandlerFailed(String),
    /// A transport-level read failure; carries its message.
    ReadFailed(String),
    /// The inbound stream ended without an error.
    StreamEnded,
    /// A connect attempt completed the handshake and the initial replay.
    ConnectSucceeded,
    /// A connect attempt failed; carries its message.
    ConnectFailed(String),
}

/// What the steady-state driver must do next.
#[derive(Debug, PartialEq, Eq)]
pub enum RunAction {
    /// Hand this frame to the message handler.
    DeliverFrame(Frame),
    /// Await the next inbound frame.
    AwaitFrame,
    /// Attempt to (re)connect now.
    AttemptConnect,
    /// Sleep the fixed retry delay, then attempt to connect.
    SleepThenRetry,
}

/// The action the driver takes from a state between events: receive while
/// open, reconnect otherwise.
pub open spec fn next_action_spec(s: ConnState) -> RunAction {
    if s == ConnState::Open {
        RunAction::AwaitFrame
    } else {
        RunAction::AttemptConnect
    }
}

/// The run loop's transition: how the connection state advances on one
/// event and what the driver does next. Delivered-frame handling never
/// changes the state (a handler error is logged only); a read failure or
/// stream end while open moves to `Errored` and reconnects; connect results
/// resolve `Connecting`, a failure sleeping the fixed delay first. An event
/// that cannot occur in the current state leaves it unchanged.
pub open spec fn step_spec(s: ConnState, ev: RunEvent) -> (ConnState, RunAction) {
    match ev {
        RunEvent::FrameArrived(f) => if s == ConnState::Open {
            (s, RunAction::DeliverFrame(f))
        } else {
            (s, next_action_spec(s))
        },
        RunEvent::HandlerFailed(_) => (s, next_action_spec(s)),
        RunEvent::ReadFailed(_) => if s == ConnState::Open {
            (ConnState::Errored, RunAction::AttemptConnect)
        } else {
            (s, next_action_spec(s))
        },
        RunEvent::StreamEnded => if s == ConnState::Open {
            (ConnState::Errored, RunAction::AttemptConnect)
        } else {
            (s, next_action_spec(s))
        },
        RunEvent::ConnectSucceeded => if s == ConnState::Connecting {
            (ConnState::Open, RunAction::AwaitFrame)
        } else {
            (s, next_action_spec(s))
        },
        RunEvent::ConnectFailed(_) => if s == ConnState::Connecting {
            (ConnState::Errored, RunAction::SleepThenRetry)
        } else {
            (s, next_action_spec(s))
        },
    }
}

/// The connection manager: the configured endpoint and credentials, the
/// current lifecycle state, and the initial messages replayed after every
/// successful (re)connection.
pub struct WebSocketClient {
    /// The configuration the manager was constructed from.
    pub config: Config,
    /// The current lifecycle state; `Open` models an established socket.
    pub state: ConnState,
    /// The frames replayed, in order, after every successful (re)connection.
    pub initial_messages: Vec<Frame>,
}

impl WebSocketClient {
    /// The configured initial messages, in replay order.
    pub open spec fn initial_model(&self) -> Seq<FrameV> {
        self.initial_messages.deep_view()
    }

    /// Constructs a manager over the configured endpoint, disconnected,
    /// with the messages to replay on every successful (re)connection.
    pub fn new(config: Config, initial_messages: Vec<Frame>) -> (c: WebSocketClient)
        ensures
            c.config == config,
            c.state == ConnState::Disconnected,
            c.initial_model() == initial_messages.deep_view(),
    {
        WebSocketClient { config, state: ConnState::Disconnected, initial_messages }
    }

    /// Prepares a (re)connect attempt: splits the configured endpoint,
    /// builds the upgrade request with the protocol-required headers plus
    /// the configured authentication headers, and hands back the full plan,
    /// moving to `Connecting`. An endpoint that does not parse or has no
    /// host fails the attempt and moves to `Errored`.
    pub fn connect(&mut self, key: &str) -> (r: Result<Handshake, WsError>)
        ensures
            final(self).config == old(self).config,
            final(self).initial_model() == old(self).initial_model(),
            (match url_parts_of(old(self).config.websocket_url@) {
                None => r == Err::<Handshake, WsError>(WsError::InvalidEndpoint)
                    && final(self).state == ConnState::Errored,
                Some(p) => (r matches Ok(h) && handshake_plan(
                    h,
                    old(self).config,
                    key@,
                    old(self).initial_model(),
                    p,
                )) && final(self).state == ConnState::Connecting,
            }),
    {
        let parts = match parse_endpoint(self.config.websocket_url.as_str()) {
            None => {
                self.state = ConnState::Errored;
                return Err(WsError::InvalidEndpoint);
            },
            Some(p) => p,
        };
        let use_tls = str_eq(parts.scheme.as_str(), "wss");
        let mut headers: Vec<(String, String)> = Vec::new();
        headers.push(("Sec-WebSocket-Key".to_owned(), key.to_owned()));
        headers.push(("Sec-WebSocket-Version".to_owned(), "13".to_owned()));
        headers.push(("host".to_owned(), parts.host));
        headers.push(("Connection".to_owned(), "Upgrade".to_owned()));
        headers.push(("Upgrade".to_owned(), "websocket".to_owned()));
        match &self.config.websocket_api_key {
            Some(k) => headers.push(("APCA-API-KEY-ID".to_owned(), k.clone())),
            None => (),
        }
        match &self.config.websocket_api_secret {
            Some(s) => headers.push(("APCA-API-SECRET-KEY".to_owned(), s.clone())),
            None => (),
        }
        let replay = clone_frames(&self.initial_messages);
        self.state = ConnState::Connecting;
        let h = Handshake { uri: parts.text, use_tls, headers, replay };
        proof {
            let p = url_parts_of(old(self).config.websocket_url@)->Some_0;
            assert(h.headers.deep_view() =~= handshake_headers(
                old(self).config,
                key@,
                p.host@,
            ));
        }
        Ok(h)
    }

    /// Hands back the frame to write, valid only while `Open`; fails with
    /// `ConnectionNotEstablished` when no active connection exists.
    pub fn send_message(&self, message: Frame) -> (r: Result<Frame, WsError>)
        ensures
            self.state == ConnState::Open ==> r == Ok::<Frame, WsError>(message),
            self.state != ConnState::Open ==> r == Err::<Frame, WsError>(
                WsError::ConnectionNotEstablished,
            ),
    {
        if let ConnState::Open = self.state {
            Ok(message)
        } else {
            Err(WsError::ConnectionNotEstablished)
        }
    }

    /// Resolves one awaited receive, valid only while `Open`: the next
    /// inbound frame, a propagated transport error, or `NoMessage` when the
    /// stream ended; fails with `ConnectionNotEstablished` when no active
    /// connection exists.
    pub fn receive_message(&self, inbound: Option<Result<Frame, String>>) -> (r: Result<
        Frame,
        WsError,
    >)
        ensures
            self.state != ConnState::Open ==> r == Err::<Frame, WsError>(
                WsError::ConnectionNotEstablished,
            ),
            (match inbound {
                Some(Ok(f)) => self.state == ConnState::Open ==> r == Ok::<Frame, WsError>(f),
                Some(Err(e)) => self.state == ConnState::Open ==> (r matches Err(
                    WsError::Transport(m),
                ) && m == e),
                None => self.state == ConnState::Open ==> r == Err::<Frame, WsError>(
                    WsError::NoMessage,
                ),
            }),
    {
        if let ConnState::Open = self.state {
            match inbound {
                Some(Ok(f)) => Ok(f),
                Some(Err(e)) => Err(WsError::Transport(e)),
                None => Err(WsError::NoMessage),
            }
        } else {
            Err(WsError::ConnectionNotEstablished)
        }
    }

    /// Advances the steady-state driver by one event, per `step_spec`.
    pub fn run_step(&mut self, event: RunEvent) -> (action: RunAction)
        ensures
            final(self).config == old(self).config,
            final(self).initial_model() == old(self).initial_model(),
            final(self).state == step_spec(old(self).state, event).0,
            action == step_spec(old(self).state, event).1,
    {
        match event {
            RunEvent::FrameArrived(f) => {
                if let ConnState::Open = self.state {
                    RunAction::DeliverFrame(f)
                } else {
                    self.next_action()
                }
            },
            RunEvent::HandlerFailed(_) => self.next_action(),
            RunEvent::ReadFailed(_) => {
                if let ConnState::Open = self.state {
                    self.state = ConnState::Errored;
                    RunAction::AttemptConnect
                } else {
                    self.next_action()
                }
            },
            RunEvent::StreamEnded => {
                if let ConnState::Open = self.state {
                    self.state = ConnState::Errored;
                    RunAction::AttemptConnect
                } else {
                    self.next_action()
                }
            },
            RunEvent::ConnectSucceeded => {
                if let ConnState::Connecting = self.state {
                    self.state = ConnState::Open;
                    RunAction::AwaitFrame
                } else {
                    self.next_action()
                }
            },
            RunEvent::ConnectFailed(_) => {
                if let ConnState::Connecting = self.state {
                    self.state = ConnState::Errored;
                    RunAction::SleepThenRetry
                } else {
                    self.next_action()
                }
            },
        }
    }

    /// The action to take from the current state between events.
    pub fn next_action(&self) -> (action: RunAction)
        ensures
            action == next_action_spec(self.state),
    {
        if let ConnState::Open = self.state {
            RunAction::AwaitFrame
        } else {
            RunAction::AttemptConnect
        }
    }
}

/// Copies a frame list; the copy models the same frames in the same order.
fn clone_frames(v: &Vec<Frame>) -> (r: Vec<Frame>)
    ensures
        r.deep_view() == v.deep_view(),
{
    let mut r: Vec<Frame> = Vec::new();
    let mut i: usize = 0;
    while i < v.len()
        invariant
            i <= v.len(),
            r@.len() == i,
            r.deep_view() =~= v.deep_view().take(i as int),
        decreases v.len() - i,
    {
        let ghost prev: Seq<FrameV> = r.deep_view();
        let f = v[i].clone();
        r.push(f);
        proof {
            assert(r.deep_view() =~= prev.push(f@));
            assert(v.deep_view()[i as int] == v@[i as int]@);
            assert(prev.push(f@) =~= v.deep_view().take(i as int + 1));
        }
        i = i + 1;
    }
    proof {
        assert(v.deep_view().take(v.len() as int) =~= v.deep_view());
    }
    r
}

/// After a transport failure while open, the manager leaves `Open` for
/// `Errored` and reconnects; the plan of the next successful connect
/// replays every configured initial message in the original order, and only
/// after the handshake and the replay does the driver resume receiving.
pub proof fn lemma_reconnect_replays_initial_messages(
    ev: RunEvent,
    h: Handshake,
    cfg: Config,
    key: Seq<char>,
    msgs: Seq<FrameV>,
    p: UrlParts,
)
    requires
        ev matches RunEvent::ReadFailed(_) || ev is StreamEnded,
        handshake_plan(h, cfg, key, msgs, p),
    ensures
        step_spec(ConnState::Open, ev).0 != ConnState::Open,
        step_spec(ConnState::Open, ev).0 == ConnState::Errored,
        step_spec(ConnState::Open, ev).1 == RunAction::AttemptConnect,
        h.replay.deep_view() == msgs,
        step_spec(ConnState::Connecting, RunEvent::ConnectSucceeded).0 == ConnState::Open,
        step_spec(ConnState::Connecting, RunEvent::ConnectSucceeded).1 == RunAction::AwaitFrame,
{
}

} // verus!
