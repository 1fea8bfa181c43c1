//! What is promised of the logs.

use crate::close_code::CloseCode;
use crate::config::ConfigWriteError;
use crate::message::{LobbyCommand, LobbyControl, RoomCommand, RoomNotification};
use crate::player;
use crate::player::{ClientUniqueID, ParseError, PlayerRequest};
use crate::room_code::RoomCode;
use crate::{room_code, text};
use vstd::prelude::*;

verus! {

/// The characters of a room code.
pub open spec fn letters(code: RoomCode) -> Seq<char> {
    seq![code@[0] as char, code@[1] as char, code@[2] as char, code@[3] as char]
}

/// The text of a room code consists of its four letters.
pub proof fn law_codes_are_written_as_letters(code: RoomCode, text: String)
    requires
        code@.len() == 4,
        call_ensures(RoomCode::to_text, (&code,), text),
    ensures
        text@ == letters(code),
{
    assert(room_code::code_text(code@) =~= letters(code));
}

/// Clients are described by what identifies them.
pub proof fn law_clients_are_described(client: Option<ClientUniqueID>, text: String)
    requires
        call_ensures(player::client_text, (client,), text),
        client matches Some(ClientUniqueID::HasJoined { room_code, .. }) ==> room_code@.len() == 4,
    ensures
        text@ == match client {
            None => "none"@,
            Some(ClientUniqueID::IsJoining(id)) => "handle_id="@ + text::decimal(id as nat),
            Some(ClientUniqueID::HasJoined { room_code, player_id }) => "room_code="@ + letters(
                room_code,
            ) + " player_id="@ + text::decimal(player_id as nat),
        },
{
    if let Some(ClientUniqueID::HasJoined { room_code, .. }) = client {
        assert(room_code::code_text(room_code@) =~= letters(room_code));
    }
}

/// The requests of players are described without their payloads.
pub proof fn law_player_requests_are_described(request: PlayerRequest, text: String)
    requires
        call_ensures(PlayerRequest::to_text, (&request,), text),
        request matches PlayerRequest::Join(code) ==> code@.len() == 4,
    ensures
        text@ == match request {
            PlayerRequest::Host => "host"@,
            PlayerRequest::Join(code) => "join "@ + letters(code),
            PlayerRequest::Seal => "seal"@,
            PlayerRequest::Offer(id, _) => "offer "@ + text::decimal(id as nat),
            PlayerRequest::Answer(id, _) => "answer "@ + text::decimal(id as nat),
            PlayerRequest::Candidate(id, _) => "candidate "@ + text::decimal(id as nat),
        },
{
    if let PlayerRequest::Join(code) = request {
        assert(room_code::code_text(code@) =~= letters(code));
    }
}

/// The commands to the lobby are described.
pub proof fn law_lobby_commands_are_described(
    command: LobbyCommand,
    number: u16,
    text: String,
)
    requires
        call_ensures(LobbyCommand::to_text, (&command,), text),
        command matches LobbyCommand::JoinRoom(code) ==> code@.len() == 4,
        command matches LobbyCommand::CloseConnection(code) ==> call_ensures(
            CloseCode::number,
            (&code,),
            number,
        ),
    ensures
        text@ == match command {
            LobbyCommand::CreateRoom => "create room"@,
            LobbyCommand::JoinRoom(code) => "join room "@ + letters(code),
            LobbyCommand::CloseConnection(_) => "close connection (code: "@ + text::decimal(
                number as nat,
            ) + ")"@,
            LobbyCommand::DropConnection => "drop connection"@,
        },
{
    if let LobbyCommand::JoinRoom(code) = command {
        assert(room_code::code_text(code@) =~= letters(code));
    }
}

/// The notices from rooms are described.
pub proof fn law_lobby_controls_are_described(control: LobbyControl, code: RoomCode, text: String)
    requires
        call_ensures(LobbyControl::to_text, (&control,), text),
        code@.len() == 4,
    ensures
        control == LobbyControl::SealRoom(code) ==> text@ == "seal room "@ + letters(code),
        control == LobbyControl::CloseRoom(code) ==> text@ == "close room "@ + letters(code),
{
    assert(room_code::code_text(code@) =~= letters(code));
}

/// The commands to rooms are described without their payloads.
pub proof fn law_room_commands_are_described(command: RoomCommand, text: String)
    requires
        call_ensures(RoomCommand::to_text, (&command,), text),
    ensures
        text@ == match command {
            RoomCommand::SealRoom => "seal room"@,
            RoomCommand::SendOffer(to, _) => "send offer to: "@ + text::decimal(to as nat),
            RoomCommand::SendAnswer(to, _) => "send answer to: "@ + text::decimal(to as nat),
            RoomCommand::SendCandidate(to, _) => "send candidate to: "@ + text::decimal(to as nat),
            RoomCommand::DropConnection => "drop connection"@,
        },
{
}

/// The notifications from rooms are described without their payloads.
pub proof fn law_notifications_are_described(
    notification: RoomNotification,
    number: u16,
    text: String,
)
    requires
        call_ensures(RoomNotification::to_text, (&notification,), text),
        notification matches RoomNotification::Error(code) ==> call_ensures(
            CloseCode::number,
            (&code,),
            number,
        ),
    ensures
        text@ == match notification {
            RoomNotification::PlayerJoined(id) => "player joined: "@ + text::decimal(id as nat),
            RoomNotification::PlayerLeft(id) => "player left: "@ + text::decimal(id as nat),
            RoomNotification::OfferReceived(id, _) => "offer from: "@ + text::decimal(id as nat),
            RoomNotification::AnswerReceived(id, _) => "answer from: "@ + text::decimal(id as nat),
            RoomNotification::CandidateReceived(id, _) => "candidate from: "@ + text::decimal(
                id as nat,
            ),
            RoomNotification::HostLeft => "host left"@,
            RoomNotification::RoomSealed => "room sealed"@,
            RoomNotification::Error(_) => "error (close: "@ + text::decimal(number as nat) + ")"@,
        },
{
}

/// A copy of a command or of a notification is the same, payload included.
pub proof fn law_copies_are_the_same(
    command: RoomCommand,
    same_command: RoomCommand,
    notification: RoomNotification,
    same_notification: RoomNotification,
)
    requires
        call_ensures(RoomCommand::clone, (&command,), same_command),
        call_ensures(RoomNotification::clone, (&notification,), same_notification),
    ensures
        same_command == command,
        same_notification == notification,
{
}

/// The errors of messages, and of settings that cannot be written, are described.
pub proof fn law_errors_are_described(
    error: ParseError,
    text: String,
    write_error: ConfigWriteError,
    write_text: String,
)
    requires
        call_ensures(ParseError::to_text, (&error,), text),
        call_ensures(ConfigWriteError::to_text, (&write_error,), write_text),
    ensures
        text@ == match error {
            ParseError::NoNewline => "no new line character in message"@,
            ParseError::NoSpace => "no space character between command and argument"@,
            ParseError::UnexpectedPayload => "received a payload when we did not expect one"@,
            ParseError::ExpectedPayload => "did not receive a payload when we expected one"@,
            ParseError::InvalidCommand => "invalid command"@,
            ParseError::InvalidArgument => "invalid argument"@,
        },
        write_text@ == "out-of-range value for u64 type"@,
{
}

/// A client that has an ID is described by its ID.
pub proof fn law_identified_clients_are_described(
    client: ClientUniqueID,
    text: String,
    same_text: String,
)
    requires
        call_ensures(ClientUniqueID::to_text, (&client,), text),
        call_ensures(player::client_text, (Some(client),), same_text),
    ensures
        text@ == same_text@,
{
}

} // verus!
