//! The server, which listens for the connections of clients.

use crate::config::VariableConfig;
use vstd::prelude::*;

verus! {

/// The number of connections that can be in the buffer on the way to the lobby
/// task until senders need to wait for space.
pub const LOBBY_CONNECTION_CHANNEL_BUFFER_SIZE: usize = 20;

/// Something that the server has to react to.
#[derive(Debug, Clone, Copy, PartialEq, Eq, Structural)]
pub enum ServerEvent {
    /// A client wants to connect.
    Incoming,
    /// A client wanted to connect, but that failed.
    IncomingFailed,
    /// The configuration of the server has changed.
    ConfigChanged(VariableConfig),
    /// The server has been asked to shut down.
    Shutdown,
}

/// What the server does next.
#[derive(Debug, Clone, Copy, PartialEq, Eq, Structural)]
pub enum ServerAction {
    /// Wait for the next event.
    Wait,
    /// Accept the connection, with the given maximum sizes of messages and
    /// payloads, and wait for the next event.
    Accept { max_message_size: usize, max_payload_size: usize },
    /// Stop, and shut down.
    Stop,
}

/// The server. It keeps track of what the configuration says the maximum message
/// and payload sizes should be.
#[derive(Debug, Clone, Copy, PartialEq, Eq, Structural)]
pub struct Server {
    pub max_message_size: usize,
    pub max_payload_size: usize,
}

impl Server {
    /// The reaction to an event.
    pub open spec fn action_for(self, event: ServerEvent) -> ServerAction {
        match event {
            ServerEvent::Incoming => ServerAction::Accept {
                max_message_size: self.max_message_size,
                max_payload_size: self.max_payload_size,
            },
            ServerEvent::IncomingFailed => ServerAction::Wait,
            ServerEvent::ConfigChanged(_) => ServerAction::Wait,
            ServerEvent::Shutdown => ServerAction::Stop,
        }
    }

    /// The state after an event.
    pub open spec fn after(self, event: ServerEvent) -> Server {
        match event {
            ServerEvent::ConfigChanged(config) => Server {
                max_message_size: config.max_message_size,
                max_payload_size: config.max_payload_size,
            },
            _ => self,
        }
    }

    /// Start with the given configuration.
    pub fn new(config: VariableConfig) -> (server: Self)
        ensures
            server.max_message_size == config.max_message_size,
            server.max_payload_size == config.max_payload_size,
    {
        Server {
            max_message_size: config.max_message_size,
            max_payload_size: config.max_payload_size,
        }
    }

    /// React to an event.
    pub fn on_event(&mut self, event: ServerEvent) -> (action: ServerAction)
        ensures
            *final(self) == old(self).after(event),
            action == old(self).action_for(event),
    {
        match event {
            ServerEvent::Incoming => ServerAction::Accept {
                max_message_size: self.max_message_size,
                max_payload_size: self.max_payload_size,
            },
            // One failed connection does not affect the others.
            ServerEvent::IncomingFailed => ServerAction::Wait,
            ServerEvent::ConfigChanged(config) => {
                self.max_message_size = config.max_message_size;
                self.max_payload_size = config.max_payload_size;
                ServerAction::Wait
            },
            ServerEvent::Shutdown => ServerAction::Stop,
        }
    }
}

/// A step on the way to the end of the server, once it has stopped.
#[derive(Debug, Clone, Copy, PartialEq, Eq, Structural)]
pub enum ServerShutdownStep {
    /// Wait for the connections that are being accepted.
    AwaitConnections,
    /// Wait for the lobby.
    AwaitLobby,
    /// Wait for the task that checks the configuration file.
    AwaitConfig,
}

/// The steps on the way to the end of the server. The connections have to be
/// dealt with while the lobby is still there.
pub open spec fn shutdown_sequence() -> Seq<ServerShutdownStep> {
    seq![
        ServerShutdownStep::AwaitConnections,
        ServerShutdownStep::AwaitLobby,
        ServerShutdownStep::AwaitConfig,
    ]
}

/// The steps on the way to the end of the server, in order.
pub fn shutdown_steps() -> (steps: Vec<ServerShutdownStep>)
    ensures
        steps@ == shutdown_sequence(),
{
    let mut steps: Vec<ServerShutdownStep> = Vec::new();
    steps.push(ServerShutdownStep::AwaitConnections);
    steps.push(ServerShutdownStep::AwaitLobby);
    steps.push(ServerShutdownStep::AwaitConfig);
    assert(steps@ =~= shutdown_sequence());
    steps
}

/// A new configuration applies to the clients that connect after it came into
/// effect, and to no others.
pub proof fn law_new_config_applies_to_new_clients(server: Server, config: VariableConfig)
    ensures
        server.after(ServerEvent::ConfigChanged(config)).action_for(ServerEvent::Incoming) == (
        ServerAction::Accept {
            max_message_size: config.max_message_size,
            max_payload_size: config.max_payload_size,
        }),
        server.action_for(ServerEvent::Incoming) == (ServerAction::Accept {
            max_message_size: server.max_message_size,
            max_payload_size: server.max_payload_size,
        }),
        server.after(ServerEvent::IncomingFailed) == server,
{
}

} // verus!
