//! Accepting the connections of clients.

use vstd::prelude::*;

verus! {

/// The smallest value that is used for the maximum size of incoming messages, in
/// bytes. The sizes of the buffers depend on it, so it must not be too small.
pub const MIN_MESSAGE_SIZE: usize = 100;

/// The limits of the stream to a client.
#[derive(Debug, Clone, Copy, PartialEq, Eq, Structural)]
pub struct StreamLimits {
    /// How much data needs to be written to the buffer before it is sent to the
    /// stream - have it be a fraction of the maximum possible message size, so
    /// that we're not over-allocating memory.
    pub write_buffer_size: usize,
    /// The maximum size of the write buffer. The buffer will only build up if
    /// writes are failing.
    pub max_write_buffer_size: usize,
    /// The maximum size of incoming messages.
    pub max_message_size: usize,
    /// The maximum size of incoming message payloads.
    pub max_frame_size: usize,
    /// Whether to allow unmasked frames, which are against the standard.
    pub accept_unmasked_frames: bool,
}

/// The maximum size of incoming messages that is actually used.
pub open spec fn effective_message_size(max_message_size: usize) -> usize {
    if max_message_size < MIN_MESSAGE_SIZE {
        MIN_MESSAGE_SIZE
    } else {
        max_message_size
    }
}

/// The limits of a stream for the given maximum sizes.
pub open spec fn limits_for(max_message_size: usize, max_payload_size: usize) -> StreamLimits {
    StreamLimits {
        write_buffer_size: effective_message_size(max_message_size) / 100,
        max_write_buffer_size: effective_message_size(max_message_size),
        max_message_size: effective_message_size(max_message_size),
        max_frame_size: max_payload_size,
        accept_unmasked_frames: false,
    }
}

/// Decide on the limits of a stream, given the maximum sizes of incoming messages
/// and of their payloads, in bytes.
pub fn stream_limits(max_message_size: usize, max_payload_size: usize) -> (limits: StreamLimits)
    ensures
        limits == limits_for(max_message_size, max_payload_size),
{
    let message_size: usize = if max_message_size < MIN_MESSAGE_SIZE {
        MIN_MESSAGE_SIZE
    } else {
        max_message_size
    };
    StreamLimits {
        write_buffer_size: message_size / 100,
        max_write_buffer_size: message_size,
        max_message_size: message_size,
        max_frame_size: max_payload_size,
        accept_unmasked_frames: false,
    }
}

/// A step on the way to a connection with a client.
#[derive(Debug, Clone, Copy, PartialEq, Eq, Structural)]
pub enum AcceptStep {
    /// Encrypt the stream.
    AcceptTls,
    /// Accept the WebSocket connection.
    AcceptWebSocket,
    /// Send the stream to the lobby.
    SendToLobby,
    /// There is nothing left to do.
    Finish,
}

/// How a step on the way to a connection turned out.
#[derive(Debug, Clone, Copy, PartialEq, Eq, Structural)]
pub enum AcceptOutcome {
    /// The step was taken.
    Succeeded,
    /// The step failed.
    Failed,
    /// The server is shutting down.
    Shutdown,
}

/// The first step on the way to a connection, depending on whether connections
/// are encrypted.
pub open spec fn first_step_for(encrypted: bool) -> AcceptStep {
    if encrypted {
        AcceptStep::AcceptTls
    } else {
        AcceptStep::AcceptWebSocket
    }
}

/// The step that follows another.
pub open spec fn step_after(step: AcceptStep, outcome: AcceptOutcome) -> AcceptStep {
    match (step, outcome) {
        (AcceptStep::AcceptTls, AcceptOutcome::Succeeded) => AcceptStep::AcceptWebSocket,
        (AcceptStep::AcceptWebSocket, AcceptOutcome::Succeeded) => AcceptStep::SendToLobby,
        _ => AcceptStep::Finish,
    }
}

impl AcceptStep {
    /// The first step on the way to a connection.
    pub fn first(encrypted: bool) -> (step: AcceptStep)
        ensures
            step == first_step_for(encrypted),
    {
        if encrypted {
            AcceptStep::AcceptTls
        } else {
            AcceptStep::AcceptWebSocket
        }
    }

    /// The step that follows this one.
    pub fn next(self, outcome: AcceptOutcome) -> (step: AcceptStep)
        ensures
            step == step_after(self, outcome),
    {
        match outcome {
            AcceptOutcome::Succeeded => match self {
                AcceptStep::AcceptTls => AcceptStep::AcceptWebSocket,
                AcceptStep::AcceptWebSocket => AcceptStep::SendToLobby,
                AcceptStep::SendToLobby => AcceptStep::Finish,
                AcceptStep::Finish => AcceptStep::Finish,
            },
            AcceptOutcome::Failed => AcceptStep::Finish,
            AcceptOutcome::Shutdown => AcceptStep::Finish,
        }
    }
}

/// The write buffer can always hold more than what is sent at once, there is
/// always something to send, and no message is larger than the buffer.
pub proof fn law_stream_limits_are_consistent(max_message_size: usize, max_payload_size: usize)
    ensures
        ({
            let limits = limits_for(max_message_size, max_payload_size);
            &&& 0 < limits.write_buffer_size < limits.max_write_buffer_size
            &&& limits.max_message_size <= limits.max_write_buffer_size
            &&& limits.max_message_size >= MIN_MESSAGE_SIZE
            &&& !limits.accept_unmasked_frames
        }),
{
}

/// With a valid configuration, the limits are those of the configuration, and a
/// message can be larger than its payload.
pub proof fn law_valid_config_is_kept(config: crate::config::VariableConfig)
    requires
        config.valid(),
    ensures
        ({
            let limits = limits_for(config.max_message_size, config.max_payload_size);
            &&& limits.max_message_size == config.max_message_size
            &&& limits.max_frame_size == config.max_payload_size
            &&& limits.max_frame_size < limits.max_message_size
        }),
{
}

/// A stream only gets to the lobby if the WebSocket connection was accepted, and
/// if connections are encrypted, only after the stream was encrypted.
pub proof fn law_streams_are_accepted_in_order(
    encrypted: bool,
    first: AcceptOutcome,
    second: AcceptOutcome,
)
    ensures
        ({
            let one = step_after(first_step_for(encrypted), first);
            let two = step_after(one, second);
            &&& !(first_step_for(encrypted) is SendToLobby)
            &&& one is SendToLobby <==> !encrypted && first is Succeeded
            &&& two is SendToLobby <==> encrypted && first is Succeeded && second is Succeeded
            &&& step_after(two, AcceptOutcome::Succeeded) is Finish
        }),
{
}

} // verus!
