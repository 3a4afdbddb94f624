//! What holds of connections through the proxy: when one goes on, and whom its
//! messages reach.
use crate::connection::{
    app_server_accepted, browser_accepted, read_failure, relay_after_send, relay_step,
    run_proxy_step, socket_connected, socket_looked_up, ConnectionStep, End, ListenerAction,
    ListenerEvent, Received, RelayAction, Timed, MAX_PROXY_CONNECTIONS,
    PROXY_HANDSHAKE_TIMEOUT_MS,
};
use crate::error::RuntimeError;
use vstd::prelude::*;

verus! {

/// The proxy stops where it is shut down, and only there. It serves a
/// connection where it was accepted and there is a permit, and only there. A
/// failure to accept neither stops it nor has it serve anything.
pub proof fn the_proxy_stops_only_where_it_is_shut_down(event: ListenerEvent, r: ListenerAction)
    requires
        call_ensures(run_proxy_step, (event,), r),
    ensures
        r == ListenerAction::Stop <==> event is Shutdown,
        r == ListenerAction::Serve <==> (event matches ListenerEvent::Accepted { permit }
            && permit),
{
}

/// The proxy serves 32 connections at a time, and a handshake has five seconds.
pub proof fn connections_are_few_and_handshakes_short()
    ensures
        MAX_PROXY_CONNECTIONS == 32,
        PROXY_HANDSHAKE_TIMEOUT_MS == 5 * 1000,
{
}

/// A browser's connection goes on where its handshake was done in time and
/// selected a client, and then for that client. In each other case it is given
/// up for a reason of its own.
pub proof fn a_connection_goes_on_for_the_selected_client(
    handshake: Timed<Option<String>>,
    r: ConnectionStep,
)
    requires
        call_ensures(browser_accepted, (handshake,), r),
    ensures
        r is LookUpSocket <==> (handshake matches Timed::Done(client) && client is Some),
        r matches ConnectionStep::LookUpSocket(client) ==> handshake == Timed::Done(Some(client)),
        r matches ConnectionStep::GiveUp(reason) ==> {
            &&& handshake is TimedOut <==> reason@ == "browser WebSocket handshake timed out"@
            &&& handshake is Failed <==> reason@ == "browser WebSocket handshake failed"@
            &&& handshake is Done <==> reason@ == "proxy client id was not selected"@
        },
        r is LookUpSocket || r is GiveUp,
{
    reveal_strlit("browser WebSocket handshake timed out");
    reveal_strlit("browser WebSocket handshake failed");
    reveal_strlit("proxy client id was not selected");
    assert("browser WebSocket handshake timed out"@.len() == 37);
    assert("browser WebSocket handshake failed"@.len() == 34);
    assert("proxy client id was not selected"@.len() == 32);
}

/// A connection goes on to the socket that was found, and is given up for the
/// reason why none was.
pub proof fn a_connection_goes_on_to_the_socket_that_was_found(
    socket: Result<Vec<u8>, RuntimeError>,
    r: ConnectionStep,
)
    requires
        call_ensures(socket_looked_up, (socket,), r),
    ensures
        r is ConnectSocket <==> socket is Ok,
        r matches ConnectionStep::ConnectSocket(path) ==> socket->Ok_0 == path,
        socket matches Err(error) ==> (r matches ConnectionStep::GiveUp(reason) && reason@
            == error.message@),
{
}

/// A connection goes on where the app server's socket was connected to in time,
/// and then where the app server took the handshake in time; otherwise it is
/// given up for a reason that tells the stage and what went wrong.
pub proof fn a_connection_needs_its_app_server(
    connection: Timed<()>,
    path: &str,
    handshake: Timed<()>,
    connected: ConnectionStep,
    accepted: ConnectionStep,
)
    requires
        call_ensures(socket_connected, (connection, path), connected),
        call_ensures(app_server_accepted, (handshake,), accepted),
    ensures
        connected is AskAppServer <==> connection is Done,
        connected is GiveUp <==> !(connection is Done),
        connection is TimedOut ==> connected->GiveUp_0@
            == "app-server Unix socket connection timed out"@,
        connection is Failed ==> connected->GiveUp_0@ == "failed to connect "@ + path@,
        accepted is Relay <==> handshake is Done,
        accepted is GiveUp <==> !(handshake is Done),
        handshake is TimedOut ==> accepted->GiveUp_0@
            == "app-server WebSocket handshake timed out"@,
        handshake is Failed ==> accepted->GiveUp_0@ == "app-server WebSocket handshake failed"@,
{
}

/// A message never goes back to where it came from, and what the other end
/// sends goes the other way.
pub proof fn messages_go_to_the_other_end(
    from: End,
    received: Received,
    r: RelayAction,
    other: RelayAction,
    back: RelayAction,
)
    requires
        call_ensures(relay_step, (from, received), r),
        call_ensures(relay_step, (End::Browser, Received::Message), other),
        call_ensures(relay_step, (End::AppServer, Received::Message), back),
    ensures
        r is PassOnTo <==> received == Received::Message,
        r matches RelayAction::PassOnTo(to) ==> to != from,
        r matches RelayAction::FailedToRead(end) ==> end == from,
        r is FailedToRead <==> received == Received::Failed,
        r is Close <==> received == Received::Closed,
        other == RelayAction::PassOnTo(End::AppServer),
        back == RelayAction::PassOnTo(End::Browser),
{
}

/// A connection is closed after a message where the message was not taken, and
/// only there; and where an end could not be read from, the reason names that
/// end.
pub proof fn a_connection_ends_for_a_reason(
    sent: bool,
    after: Option<RelayAction>,
    browser: String,
    app_server: String,
)
    requires
        call_ensures(relay_after_send, (sent,), after),
        call_ensures(read_failure, (End::Browser,), browser),
        call_ensures(read_failure, (End::AppServer,), app_server),
    ensures
        after is None <==> sent,
        after matches Some(action) ==> action is Close,
        browser@ == "browser"@ + " WebSocket read failed"@,
        app_server@ == "app-server"@ + " WebSocket read failed"@,
{
    reveal_strlit("browser");
    reveal_strlit("app-server");
    reveal_strlit(" WebSocket read failed");
    reveal_strlit("browser WebSocket read failed");
    reveal_strlit("app-server WebSocket read failed");
    assert(browser@ =~= "browser"@ + " WebSocket read failed"@);
    assert(app_server@ =~= "app-server"@ + " WebSocket read failed"@);
}

} // verus!
