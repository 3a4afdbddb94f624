//! The way of one WebSocket connection through the proxy.
use crate::error::RuntimeError;
use crate::text::cat;
use vstd::prelude::*;

verus! {

/// How many connections the proxy serves at a time.
pub const MAX_PROXY_CONNECTIONS: usize = 32;

/// How long a handshake may take, in milliseconds.
pub const PROXY_HANDSHAKE_TIMEOUT_MS: u64 = 5000;

/// What the proxy's listener comes up with.
#[derive(Clone, Copy, Debug, PartialEq, Eq)]
pub enum ListenerEvent {
    Shutdown,
    AcceptFailed,
    Accepted { permit: bool },
}

/// What the proxy does about it.
#[derive(Clone, Copy, Debug, PartialEq, Eq)]
pub enum ListenerAction {
    Stop,
    PassOver,
    Serve,
}

/// The proxy serves a connection for which there is a permit, and goes on until
/// it is shut down.
pub fn run_proxy_step(event: ListenerEvent) -> (r: ListenerAction)
    ensures
        r == (match event {
            ListenerEvent::Shutdown => ListenerAction::Stop,
            ListenerEvent::AcceptFailed => ListenerAction::PassOver,
            ListenerEvent::Accepted { permit } => if permit {
                ListenerAction::Serve
            } else {
                ListenerAction::PassOver
            },
        }),
{
    match event {
        ListenerEvent::Shutdown => ListenerAction::Stop,
        ListenerEvent::AcceptFailed => ListenerAction::PassOver,
        ListenerEvent::Accepted { permit } => if permit {
            ListenerAction::Serve
        } else {
            ListenerAction::PassOver
        },
    }
}

/// What came of something that had a limited time.
#[derive(Debug)]
pub enum Timed<T> {
    TimedOut,
    Failed,
    Done(T),
}

/// The stages of a connection, in order.
#[derive(Debug)]
pub enum ConnectionStep {
    /// The app server's socket of that client is looked up.
    LookUpSocket(String),
    /// The app server's socket is connected to.
    ConnectSocket(Vec<u8>),
    /// The app server is asked for a WebSocket.
    AskAppServer,
    /// Messages are passed on in both directions.
    Relay,
    /// The connection is given up.
    GiveUp(String),
}

/// Whether a step gives the connection up for that reason.
pub open spec fn gives_up(step: ConnectionStep, reason: Seq<char>) -> bool {
    step matches ConnectionStep::GiveUp(message) && message@ == reason
}

/// The browser's handshake is over; it selects a client unless it failed.
pub fn browser_accepted(handshake: Timed<Option<String>>) -> (r: ConnectionStep)
    ensures
        match handshake {
            Timed::TimedOut => gives_up(r, "browser WebSocket handshake timed out"@),
            Timed::Failed => gives_up(r, "browser WebSocket handshake failed"@),
            Timed::Done(None) => gives_up(r, "proxy client id was not selected"@),
            Timed::Done(Some(client_id)) => r == ConnectionStep::LookUpSocket(client_id),
        },
{
    match handshake {
        Timed::TimedOut => ConnectionStep::GiveUp(
            "browser WebSocket handshake timed out".to_owned(),
        ),
        Timed::Failed => ConnectionStep::GiveUp("browser WebSocket handshake failed".to_owned()),
        Timed::Done(None) => ConnectionStep::GiveUp("proxy client id was not selected".to_owned()),
        Timed::Done(Some(client_id)) => ConnectionStep::LookUpSocket(client_id),
    }
}

/// The app server's socket was looked up.
pub fn socket_looked_up(socket: Result<Vec<u8>, RuntimeError>) -> (r: ConnectionStep)
    ensures
        match socket {
            Ok(path) => r == ConnectionStep::ConnectSocket(path),
            Err(error) => gives_up(r, error.message@),
        },
{
    match socket {
        Ok(path) => ConnectionStep::ConnectSocket(path),
        Err(error) => ConnectionStep::GiveUp(error.message),
    }
}

/// The app server's socket was connected to, or not. `path_text` is the path
/// as it is displayed.
pub fn socket_connected(connection: Timed<()>, path_text: &str) -> (r: ConnectionStep)
    ensures
        match connection {
            Timed::TimedOut => gives_up(r, "app-server Unix socket connection timed out"@),
            Timed::Failed => gives_up(r, "failed to connect "@ + path_text@),
            Timed::Done(_) => r == ConnectionStep::AskAppServer,
        },
{
    match connection {
        Timed::TimedOut => ConnectionStep::GiveUp(
            "app-server Unix socket connection timed out".to_owned(),
        ),
        Timed::Failed => ConnectionStep::GiveUp(cat("failed to connect ", path_text)),
        Timed::Done(_) => ConnectionStep::AskAppServer,
    }
}

/// The app server has answered, or not.
pub fn app_server_accepted(handshake: Timed<()>) -> (r: ConnectionStep)
    ensures
        match handshake {
            Timed::TimedOut => gives_up(r, "app-server WebSocket handshake timed out"@),
            Timed::Failed => gives_up(r, "app-server WebSocket handshake failed"@),
            Timed::Done(_) => r == ConnectionStep::Relay,
        },
{
    match handshake {
        Timed::TimedOut => ConnectionStep::GiveUp(
            "app-server WebSocket handshake timed out".to_owned(),
        ),
        Timed::Failed => ConnectionStep::GiveUp("app-server WebSocket handshake failed".to_owned()),
        Timed::Done(_) => ConnectionStep::Relay,
    }
}

/// The two ends of a connection.
#[derive(Clone, Copy, Debug, PartialEq, Eq)]
pub enum End {
    Browser,
    AppServer,
}

/// What comes from an end.
#[derive(Clone, Copy, Debug, PartialEq, Eq)]
pub enum Received {
    Message,
    Failed,
    Closed,
}

/// What is done about it.
#[derive(Clone, Copy, Debug, PartialEq, Eq)]
pub enum RelayAction {
    PassOnTo(End),
    Close,
    FailedToRead(End),
}

/// A message goes to the other end. Nothing more to come closes both ends, and
/// a failure to read ends the connection.
pub fn relay_step(from: End, received: Received) -> (r: RelayAction)
    ensures
        r == (match received {
            Received::Message => RelayAction::PassOnTo(
                match from {
                    End::Browser => End::AppServer,
                    End::AppServer => End::Browser,
                },
            ),
            Received::Failed => RelayAction::FailedToRead(from),
            Received::Closed => RelayAction::Close,
        }),
{
    match received {
        Received::Message => RelayAction::PassOnTo(
            match from {
                End::Browser => End::AppServer,
                End::AppServer => End::Browser,
            },
        ),
        Received::Failed => RelayAction::FailedToRead(from),
        Received::Closed => RelayAction::Close,
    }
}

/// What becomes of a connection after a message was passed on: it stays open
/// where the message was taken, and is closed where it was refused.
pub fn relay_after_send(sent: bool) -> (r: Option<RelayAction>)
    ensures
        r == (if sent {
            None
        } else {
            Some(RelayAction::Close)
        }),
{
    if sent {
        None
    } else {
        Some(RelayAction::Close)
    }
}

/// Why a connection ended whose end could not be read from.
pub fn read_failure(from: End) -> (r: String)
    ensures
        r@ == (match from {
            End::Browser => "browser WebSocket read failed"@,
            End::AppServer => "app-server WebSocket read failed"@,
        }),
{
    match from {
        End::Browser => "browser WebSocket read failed".to_owned(),
        End::AppServer => "app-server WebSocket read failed".to_owned(),
    }
}

} // verus!
