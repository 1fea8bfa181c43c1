//! Players that have just connected, and have yet to create or join a room.

use crate::close_code::{CloseCode, CustomCloseCode};
use crate::message::{LobbyCommand, LobbyRequest};
use crate::player::{
    parse_error_to_close_code, parse_player_request, websocket_error_to_close_code, ClientMessage,
    HandleID, PlayerRequest, PlayerRequestView, ReadOutcome,
};
use crate::room_code::RoomCode;
use crate::{player, room_code};
use vstd::prelude::*;

verus! {

/// The outcome of waiting for the initial request of a client.
#[derive(Debug, PartialEq, Eq)]
pub enum JoinOutcome {
    /// The client did not send anything in time.
    TimedOut,
    /// Something was read from the client's stream.
    Read(ReadOutcome),
}

/// The command to the lobby for a text message from a client.
pub open spec fn text_command(text: Seq<char>) -> LobbyCommand {
    match player::parsed_request(text) {
        Ok(PlayerRequestView::Host) => LobbyCommand::CreateRoom,
        Ok(PlayerRequestView::Join(code)) => LobbyCommand::JoinRoom(code),
        Ok(_) => LobbyCommand::CloseConnection(CustomCloseCode::NotInRoom.spec_close_code()),
        Err(error) => LobbyCommand::CloseConnection(player::parse_error_code(error)),
    }
}

/// The command to the lobby for a message from a client.
pub open spec fn message_command(message: ClientMessage) -> LobbyCommand {
    match message {
        ClientMessage::Text(text) => text_command(text@),
        ClientMessage::Binary => LobbyCommand::CloseConnection(CloseCode::Unsupported),
        ClientMessage::Ping => LobbyCommand::CloseConnection(CloseCode::Protocol),
        ClientMessage::Pong => LobbyCommand::CloseConnection(CloseCode::Protocol),
        ClientMessage::Close(_) => LobbyCommand::DropConnection,
        ClientMessage::Frame => LobbyCommand::DropConnection,
    }
}

/// The command to the lobby once a client has been waited for.
pub open spec fn joining_command(outcome: JoinOutcome) -> LobbyCommand {
    match outcome {
        JoinOutcome::TimedOut => LobbyCommand::CloseConnection(
            CustomCloseCode::DidNotJoinRoom.spec_close_code(),
        ),
        JoinOutcome::Read(ReadOutcome::Message(message)) => message_command(message),
        JoinOutcome::Read(ReadOutcome::Failed(error)) => match player::websocket_error_code(error) {
            Some(code) => LobbyCommand::CloseConnection(code),
            None => LobbyCommand::DropConnection,
        },
        JoinOutcome::Read(ReadOutcome::Ended) => LobbyCommand::DropConnection,
    }
}

/// An instance which, just after the client has established a connection to the
/// server, waits for the client's request to either host a new room, or join an
/// existing room.
#[derive(Debug, Clone, Copy, PartialEq, Eq, Structural)]
pub struct PlayerJoining {
    /// The [`HandleID`] associated with this player.
    pub handle_id: HandleID,
}

impl PlayerJoining {
    /// Decide on the request that is sent to the lobby. This will either contain
    /// the request provided by the client, or a request to either send a close
    /// code to the client, or to simply drop the connection (if for example, the
    /// client sent a close code, which is echoed straight back).
    pub fn task(self, outcome: JoinOutcome) -> (request: LobbyRequest)
        ensures
            request.handle_id == self.handle_id,
            request.command == joining_command(outcome),
    {
        let command = match outcome {
            JoinOutcome::TimedOut => LobbyCommand::CloseConnection(
                CustomCloseCode::DidNotJoinRoom.into(),
            ),
            JoinOutcome::Read(ReadOutcome::Message(message)) => Self::on_message(message),
            JoinOutcome::Read(ReadOutcome::Failed(error)) => match websocket_error_to_close_code(
                error,
            ) {
                Some(close_code) => LobbyCommand::CloseConnection(close_code),
                None => LobbyCommand::DropConnection,
            },
            JoinOutcome::Read(ReadOutcome::Ended) => LobbyCommand::DropConnection,
        };
        LobbyRequest { handle_id: self.handle_id, command }
    }

    /// Decide on the command for the first message that the client sent.
    fn on_message(message: ClientMessage) -> (command: LobbyCommand)
        ensures
            command == message_command(message),
    {
        match message {
            ClientMessage::Text(text) => match parse_player_request(text.as_str()) {
                Ok(request) => match request {
                    PlayerRequest::Host => LobbyCommand::CreateRoom,
                    PlayerRequest::Join(room_code) => LobbyCommand::JoinRoom(room_code),
                    // The other requests can only be made in a room.
                    _ => LobbyCommand::CloseConnection(CustomCloseCode::NotInRoom.into()),
                },
                Err(error) => LobbyCommand::CloseConnection(parse_error_to_close_code(error)),
            },
            ClientMessage::Binary => LobbyCommand::CloseConnection(CloseCode::Unsupported),
            ClientMessage::Ping => LobbyCommand::CloseConnection(CloseCode::Protocol),
            ClientMessage::Pong => LobbyCommand::CloseConnection(CloseCode::Protocol),
            // There is no need to send a close frame back, as this happens as
            // soon as the message is read.
            ClientMessage::Close(_) => LobbyCommand::DropConnection,
            // Should never get this while reading.
            ClientMessage::Frame => LobbyCommand::DropConnection,
        }
    }
}

/// A client gets into a room only by asking to host one or to join one: every
/// other outcome closes or drops the connection.
pub proof fn law_only_requests_join(outcome: JoinOutcome)
    ensures
        joining_command(outcome) is CreateRoom <==> (outcome matches JoinOutcome::Read(
            ReadOutcome::Message(ClientMessage::Text(text)),
        ) && player::parsed_request(text@) matches Ok(PlayerRequestView::Host)),
        forall|code: RoomCode|
            joining_command(outcome) == LobbyCommand::JoinRoom(code) <==> (outcome matches
                JoinOutcome::Read(ReadOutcome::Message(ClientMessage::Text(text)))
                && player::parsed_request(text@) == Ok::<PlayerRequestView, player::ParseError>(
                PlayerRequestView::Join(code),
            )),
{
}

/// The text that asks to join a room has the lobby join the client to that room.
pub proof fn law_join_text_joins(code: RoomCode)
    requires
        room_code::is_code(code@),
    ensures
        text_command("J: "@ + room_code::code_text(code@) + "\n"@) == LobbyCommand::JoinRoom(code),
{
    player::law_join_message_is_parsed(code);
}

} // verus!
