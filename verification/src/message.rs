//! A series of message types to be sent between the lobby, rooms, and clients.

use crate::close_code::CloseCode;
use crate::room_code::RoomCode;
use crate::text::push_decimal;
use crate::{room_code, text};
use vstd::prelude::*;
use vstd::string::*;

verus! {

/// A command from an incoming client to the lobby.
#[derive(Debug, PartialEq, Eq)]
pub enum LobbyCommand {
    /// The client wishes to create a new room, with itself as the host.
    CreateRoom,
    /// The client wishes to join an existing room, with the given room code.
    JoinRoom(RoomCode),
    /// The client's connection should be closed gracefully with the given close
    /// code.
    CloseConnection(CloseCode),
    /// The client's connection should be dropped, as there is nothing else to
    /// do.
    DropConnection,
}

impl LobbyCommand {
    /// The description of the command for the logs.
    pub open spec fn spec_text(self) -> Seq<char> {
        match self {
            LobbyCommand::CreateRoom => "create room"@,
            LobbyCommand::JoinRoom(code) => "join room "@ + room_code::code_text(code@),
            LobbyCommand::CloseConnection(code) => "close connection (code: "@ + text::decimal(
                code.spec_number() as nat,
            ) + ")"@,
            LobbyCommand::DropConnection => "drop connection"@,
        }
    }

    /// The description of the command for the logs.
    pub fn to_text(&self) -> (text: String)
        ensures
            text@ == self.spec_text(),
    {
        match self {
            LobbyCommand::CreateRoom => "create room".to_owned(),
            LobbyCommand::JoinRoom(code) => {
                let mut text = "join room ".to_owned();
                code.push_text(&mut text);
                text
            },
            LobbyCommand::CloseConnection(code) => {
                let mut text = "close connection (code: ".to_owned();
                code.push_text(&mut text);
                text.append(")");
                text
            },
            LobbyCommand::DropConnection => "drop connection".to_owned(),
        }
    }
}

/// A request from a client (with the given `handle_id`) to the lobby.
#[derive(Debug, PartialEq, Eq)]
pub struct LobbyRequest {
    pub handle_id: u32,
    pub command: LobbyCommand,
}

/// A notice from a room to the lobby about the state of the room.
#[derive(Debug, PartialEq, Eq)]
pub enum LobbyControl {
    /// The room has been sealed, so clients can no longer join it.
    SealRoom(RoomCode),
    /// The room has been closed, so its room code can be used again.
    CloseRoom(RoomCode),
}

impl LobbyControl {
    /// The description of the notice for the logs.
    pub open spec fn spec_text(self) -> Seq<char> {
        match self {
            LobbyControl::SealRoom(code) => "seal room "@ + room_code::code_text(code@),
            LobbyControl::CloseRoom(code) => "close room "@ + room_code::code_text(code@),
        }
    }

    /// The description of the notice for the logs.
    pub fn to_text(&self) -> (text: String)
        ensures
            text@ == self.spec_text(),
    {
        match self {
            LobbyControl::SealRoom(code) => {
                let mut text = "seal room ".to_owned();
                code.push_text(&mut text);
                text
            },
            LobbyControl::CloseRoom(code) => {
                let mut text = "close room ".to_owned();
                code.push_text(&mut text);
                text
            },
        }
    }
}

/// A command from a client to the room it has joined.
#[derive(Debug, PartialEq, Eq)]
pub enum RoomCommand {
    /// Ask for the room to be sealed - this will close the connection of all
    /// clients currently in the room, and it will prevent new clients from
    /// joining the room as well.
    SealRoom,
    /// Send a WebRTC offer to another player in the room.
    SendOffer(u32, String),
    /// Send a WebRTC answer to another player in the room.
    SendAnswer(u32, String),
    /// Send a WebRTC candidate to another player in the room.
    SendCandidate(u32, String),
    /// The client's connection should be dropped, as there is nothing else we
    /// can do with it.
    ///
    /// **NOTE:** Unlike in [`LobbyCommand`], closing a connection is done in
    /// a separate channel, since the room needs the stream from the player task
    /// in order to close the connection properly - all of the commands in here
    /// do not need the client's stream within the room task.
    DropConnection,
}

impl Clone for RoomCommand {
    fn clone(&self) -> (command: Self)
        ensures
            command == *self,
    {
        match self {
            RoomCommand::SealRoom => RoomCommand::SealRoom,
            RoomCommand::SendOffer(to, payload) => RoomCommand::SendOffer(*to, payload.clone()),
            RoomCommand::SendAnswer(to, payload) => RoomCommand::SendAnswer(*to, payload.clone()),
            RoomCommand::SendCandidate(to, payload) => RoomCommand::SendCandidate(
                *to,
                payload.clone(),
            ),
            RoomCommand::DropConnection => RoomCommand::DropConnection,
        }
    }
}

impl RoomCommand {
    /// The description of the command for the logs. It does not contain the
    /// payloads, as they can contain sensitive information.
    pub open spec fn spec_text(self) -> Seq<char> {
        match self {
            RoomCommand::SealRoom => "seal room"@,
            RoomCommand::SendOffer(to, _) => "send offer to: "@ + text::decimal(to as nat),
            RoomCommand::SendAnswer(to, _) => "send answer to: "@ + text::decimal(to as nat),
            RoomCommand::SendCandidate(to, _) => "send candidate to: "@ + text::decimal(to as nat),
            RoomCommand::DropConnection => "drop connection"@,
        }
    }

    /// The description of the command for the logs.
    pub fn to_text(&self) -> (text: String)
        ensures
            text@ == self.spec_text(),
    {
        match self {
            RoomCommand::SealRoom => "seal room".to_owned(),
            RoomCommand::SendOffer(to, _) => with_id("send offer to: ", *to),
            RoomCommand::SendAnswer(to, _) => with_id("send answer to: ", *to),
            RoomCommand::SendCandidate(to, _) => with_id("send candidate to: ", *to),
            RoomCommand::DropConnection => "drop connection".to_owned(),
        }
    }
}

/// The description, followed by the identifier.
fn with_id(description: &str, id: u32) -> (text: String)
    ensures
        text@ == description@ + text::decimal(id as nat),
{
    let mut text = description.to_owned();
    push_decimal(&mut text, id as u64);
    text
}

/// A request from a player (with the given `player_id`) to the room the player
/// has joined.
#[derive(Debug, PartialEq, Eq)]
pub struct RoomRequest {
    pub player_id: u32,
    pub command: RoomCommand,
}

/// A notification from a room, to any given player.
#[derive(Debug, PartialEq, Eq)]
pub enum RoomNotification {
    /// A new player with the given ID has joined the room.
    PlayerJoined(u32),
    /// The player with the given ID has left the room.
    ///
    /// **NOTE:** This does NOT include the host. If the host leaves the room,
    /// [`RoomNotification::HostLeft`] will be sent instead.
    PlayerLeft(u32),
    /// Received a WebRTC offer from the given player.
    OfferReceived(u32, String),
    /// Received a WebRTC answer from the given player.
    AnswerReceived(u32, String),
    /// Received a WebRTC candidate from the given player.
    CandidateReceived(u32, String),
    /// The host has left the room, closing it.
    HostLeft,
    /// The room has been sealed by the host, closing it.
    RoomSealed,
    /// An error occured, and the given close code needs to be sent out.
    Error(CloseCode),
}

impl Clone for RoomNotification {
    fn clone(&self) -> (notification: Self)
        ensures
            notification == *self,
    {
        match self {
            RoomNotification::PlayerJoined(id) => RoomNotification::PlayerJoined(*id),
            RoomNotification::PlayerLeft(id) => RoomNotification::PlayerLeft(*id),
            RoomNotification::OfferReceived(from, payload) => RoomNotification::OfferReceived(
                *from,
                payload.clone(),
            ),
            RoomNotification::AnswerReceived(from, payload) => RoomNotification::AnswerReceived(
                *from,
                payload.clone(),
            ),
            RoomNotification::CandidateReceived(from, payload) => {
                RoomNotification::CandidateReceived(*from, payload.clone())
            },
            RoomNotification::HostLeft => RoomNotification::HostLeft,
            RoomNotification::RoomSealed => RoomNotification::RoomSealed,
            RoomNotification::Error(code) => RoomNotification::Error(*code),
        }
    }
}

impl RoomNotification {
    /// The description of the notification for the logs. It does not contain
    /// the payloads, as they can contain sensitive information.
    pub open spec fn spec_text(self) -> Seq<char> {
        match self {
            RoomNotification::PlayerJoined(id) => "player joined: "@ + text::decimal(id as nat),
            RoomNotification::PlayerLeft(id) => "player left: "@ + text::decimal(id as nat),
            RoomNotification::OfferReceived(from, _) => "offer from: "@ + text::decimal(
                from as nat,
            ),
            RoomNotification::AnswerReceived(from, _) => "answer from: "@ + text::decimal(
                from as nat,
            ),
            RoomNotification::CandidateReceived(from, _) => "candidate from: "@ + text::decimal(
                from as nat,
            ),
            RoomNotification::HostLeft => "host left"@,
            RoomNotification::RoomSealed => "room sealed"@,
            RoomNotification::Error(code) => "error (close: "@ + text::decimal(
                code.spec_number() as nat,
            ) + ")"@,
        }
    }

    /// The description of the notification for the logs.
    pub fn to_text(&self) -> (text: String)
        ensures
            text@ == self.spec_text(),
    {
        match self {
            RoomNotification::PlayerJoined(id) => with_id("player joined: ", *id),
            RoomNotification::PlayerLeft(id) => with_id("player left: ", *id),
            RoomNotification::OfferReceived(from, _) => with_id("offer from: ", *from),
            RoomNotification::AnswerReceived(from, _) => with_id("answer from: ", *from),
            RoomNotification::CandidateReceived(from, _) => with_id("candidate from: ", *from),
            RoomNotification::HostLeft => "host left".to_owned(),
            RoomNotification::RoomSealed => "room sealed".to_owned(),
            RoomNotification::Error(code) => {
                let mut text = "error (close: ".to_owned();
                code.push_text(&mut text);
                text.append(")");
                text
            },
        }
    }
}

/// The description of a command does not depend on its payload.
pub proof fn law_command_text_hides_payload(
    first: RoomCommand,
    second: RoomCommand,
    to: u32,
    payload: String,
    other_payload: String,
)
    requires
        ({
            ||| first == RoomCommand::SendOffer(to, payload) && second == RoomCommand::SendOffer(
                to,
                other_payload,
            )
            ||| first == RoomCommand::SendAnswer(to, payload) && second == RoomCommand::SendAnswer(
                to,
                other_payload,
            )
            ||| first == RoomCommand::SendCandidate(to, payload) && second
                == RoomCommand::SendCandidate(to, other_payload)
        }),
    ensures
        first.spec_text() == second.spec_text(),
{
}

/// The description of a notification does not depend on its payload.
pub proof fn law_notification_text_hides_payload(
    first: RoomNotification,
    second: RoomNotification,
    from: u32,
    payload: String,
    other_payload: String,
)
    requires
        ({
            ||| first == RoomNotification::OfferReceived(from, payload) && second
                == RoomNotification::OfferReceived(from, other_payload)
            ||| first == RoomNotification::AnswerReceived(from, payload) && second
                == RoomNotification::AnswerReceived(from, other_payload)
            ||| first == RoomNotification::CandidateReceived(from, payload) && second
                == RoomNotification::CandidateReceived(from, other_payload)
        }),
    ensures
        first.spec_text() == second.spec_text(),
{
}

} // verus!
