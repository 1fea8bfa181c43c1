//! What is promised of connections, and of the server as a whole.

use crate::config::VariableConfig;
use crate::connection;
use crate::connection::{AcceptOutcome, AcceptStep, StreamLimits};
use crate::server;
use crate::server::{Server, ServerAction, ServerEvent, ServerShutdownStep};
use vstd::prelude::*;

verus! {

/// The limits of a stream are those that are asked for, as long as messages of 100
/// bytes are allowed. A hundredth of that, rounded down, is written at once.
pub proof fn law_stream_limits_are_kept(
    max_message_size: usize,
    max_payload_size: usize,
    limits: StreamLimits,
)
    requires
        call_ensures(connection::stream_limits, (max_message_size, max_payload_size), limits),
    ensures
        max_message_size >= 100 ==> limits.max_message_size == max_message_size,
        max_message_size < 100 ==> limits.max_message_size == 100,
        limits.max_frame_size == max_payload_size,
        limits.max_write_buffer_size == limits.max_message_size,
        100 * limits.write_buffer_size <= limits.max_message_size < 100 * limits.write_buffer_size
            + 100,
        !limits.accept_unmasked_frames,
{
}

/// Streams are encrypted first, if they have to be, then they become WebSocket
/// streams, and then they get to the lobby. If anything goes wrong on the way, they
/// do not get any further.
pub proof fn law_streams_get_to_the_lobby(
    encrypted: bool,
    first: AcceptStep,
    step: AcceptStep,
    outcome: AcceptOutcome,
    next: AcceptStep,
)
    requires
        call_ensures(AcceptStep::first, (encrypted,), first),
        call_ensures(AcceptStep::next, (step, outcome), next),
    ensures
        encrypted ==> first == AcceptStep::AcceptTls,
        !encrypted ==> first == AcceptStep::AcceptWebSocket,
        next == AcceptStep::AcceptWebSocket <==> step == AcceptStep::AcceptTls && outcome
            == AcceptOutcome::Succeeded,
        next == AcceptStep::SendToLobby <==> step == AcceptStep::AcceptWebSocket && outcome
            == AcceptOutcome::Succeeded,
        next != AcceptStep::AcceptTls,
{
}

/// The server starts with the sizes of the configuration.
pub proof fn law_servers_start_with_the_configuration(config: VariableConfig, server: Server)
    requires
        call_ensures(Server::new, (config,), server),
    ensures
        server.max_message_size == config.max_message_size,
        server.max_payload_size == config.max_payload_size,
{
}

/// Clients are accepted with the sizes of the latest configuration, whatever
/// happened in between, and only a shutdown stops the server.
pub proof fn law_servers_accept_clients(
    server: &mut Server,
    event: ServerEvent,
    action: ServerAction,
)
    requires
        call_ensures(Server::on_event, (server, event), action),
    ensures
        event matches ServerEvent::ConfigChanged(config) ==> final(server).max_message_size
            == config.max_message_size && final(server).max_payload_size
            == config.max_payload_size,
        !(event is ConfigChanged) ==> *final(server) == *old(server),
        action is Stop <==> event is Shutdown,
        action is Accept <==> event is Incoming,
        action matches ServerAction::Accept { max_message_size, max_payload_size } ==> {
            &&& max_message_size == old(server).max_message_size
            &&& max_payload_size == old(server).max_payload_size
        },
{
}

/// The server comes to its end in order: it waits for the connections that are
/// being accepted, then for the lobby, and then for the configuration.
pub proof fn law_servers_end_in_order(steps: Vec<ServerShutdownStep>)
    requires
        call_ensures(server::shutdown_steps, (), steps),
    ensures
        steps@ == seq![
            ServerShutdownStep::AwaitConnections,
            ServerShutdownStep::AwaitLobby,
            ServerShutdownStep::AwaitConfig,
        ],
{
}

} // verus!
