//! What is promised to the clients that have just connected.

use crate::close_code::CloseCode;
use crate::message::{LobbyCommand, LobbyRequest};
use crate::player;
use crate::player::joining;
use crate::player::joining::{JoinOutcome, PlayerJoining};
use crate::player::{ClientMessage, ParseError, PlayerRequestView, ReadOutcome};
use crate::room_code::RoomCode;
use vstd::prelude::*;

verus! {

/// The first text of a client is dealt with according to what it means: the client
/// gets to host a room or to join the room that it names, and everything else
/// closes the connection with the code that says what is wrong.
pub proof fn law_first_texts_are_dealt_with(text: String)
    ensures
        ({
            let command = joining::joining_command(
                JoinOutcome::Read(ReadOutcome::Message(ClientMessage::Text(text))),
            );
            match player::parsed_request(text@) {
                Ok(PlayerRequestView::Host) => command == LobbyCommand::CreateRoom,
                Ok(PlayerRequestView::Join(code)) => command == LobbyCommand::JoinRoom(code),
                Ok(_) => command == LobbyCommand::CloseConnection(CloseCode::Library(4010)),
                Err(ParseError::InvalidCommand) => command == LobbyCommand::CloseConnection(
                    CloseCode::Library(4013),
                ),
                Err(ParseError::InvalidArgument) => command == LobbyCommand::CloseConnection(
                    CloseCode::Library(4012),
                ),
                Err(_) => command == LobbyCommand::CloseConnection(CloseCode::Library(4009)),
            }
        }),
{
}

/// A client that sends nothing in time, or something other than a text, does not
/// get into a room.
pub proof fn law_other_outcomes_end_the_connection(outcome: JoinOutcome)
    ensures
        ({
            let command = joining::joining_command(outcome);
            match outcome {
                JoinOutcome::TimedOut => command == LobbyCommand::CloseConnection(
                    CloseCode::Library(4002),
                ),
                JoinOutcome::Read(ReadOutcome::Ended) => command == LobbyCommand::DropConnection,
                JoinOutcome::Read(ReadOutcome::Message(message)) => {
                    &&& message is Binary ==> command == LobbyCommand::CloseConnection(
                        CloseCode::Unsupported,
                    )
                    &&& message is Ping || message is Pong ==> command
                        == LobbyCommand::CloseConnection(CloseCode::Protocol)
                    &&& message is Close || message is Frame ==> command
                        == LobbyCommand::DropConnection
                },
                JoinOutcome::Read(ReadOutcome::Failed(error)) => {
                    &&& error is Tls || error is Protocol || error is Http ==> command
                        == LobbyCommand::CloseConnection(CloseCode::Protocol)
                    &&& error is Capacity ==> command == LobbyCommand::CloseConnection(
                        CloseCode::Size,
                    )
                    &&& error is Utf8 || error is HttpFormat ==> command
                        == LobbyCommand::CloseConnection(CloseCode::Invalid)
                    &&& error is ConnectionClosed || error is AlreadyClosed || error is Io
                        || error is WriteBufferFull || error is AttackAttempt || error is Url
                        ==> command == LobbyCommand::DropConnection
                },
            }
        }),
{
}

/// Naming the four letters of a room, after the command to join, joins that room
/// and no other.
pub proof fn law_the_room_that_is_named_is_joined(text: String, code: RoomCode)
    requires
        code@.len() == 4,
        forall|i: int| 0 <= i < 4 ==> 65 <= #[trigger] code@[i] <= 90,
        text@ == "J: "@ + seq![
            code@[0] as char,
            code@[1] as char,
            code@[2] as char,
            code@[3] as char,
        ] + "\n"@,
    ensures
        joining::joining_command(
            JoinOutcome::Read(ReadOutcome::Message(ClientMessage::Text(text))),
        ) == LobbyCommand::JoinRoom(code),
{
    assert(crate::room_code::code_text(code@) =~= seq![
        code@[0] as char,
        code@[1] as char,
        code@[2] as char,
        code@[3] as char,
    ]);
    assert(crate::room_code::is_code(code@)) by {
        assert forall|i: int| 0 <= i < 4 implies crate::room_code::is_code_letter(
            #[trigger] code@[i],
        ) by {}
    }
    player::law_join_message_is_parsed(code);
}

/// A client that has been waited for makes one request, under its own ID.
pub proof fn law_clients_request_as_promised(
    player: PlayerJoining,
    outcome: JoinOutcome,
    request: LobbyRequest,
)
    requires
        call_ensures(PlayerJoining::task, (player, outcome), request),
    ensures
        request.handle_id == player.handle_id,
        request.command == joining::joining_command(outcome),
{
}

} // verus!
