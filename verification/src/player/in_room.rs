//! Players that are in a room.

use crate::close_code::{CloseCode, CustomCloseCode};
use crate::config::VariableConfig;
use crate::message::{LobbyCommand, RoomCommand, RoomNotification, RoomRequest};
use crate::player::joining;
use crate::player::{
    parse_error_to_close_code, parse_player_request, websocket_error_to_close_code, ClientMessage,
    PlayerID, PlayerRequest, PlayerRequestView, ReadOutcome,
};
use crate::room_code::RoomCode;
use crate::text::push_decimal;
use crate::{player, room_code, text};
use vstd::prelude::*;
use vstd::string::*;

verus! {

/// A line that consists of a command and an identifier.
pub open spec fn id_line(command: Seq<char>, id: PlayerID) -> Seq<char> {
    command + text::decimal(id as nat) + "\n"@
}

/// The messages that are sent to a player when they have joined a room: their
/// own ID, followed by the IDs of the other players that are in the room, and
/// finally the room code.
pub open spec fn setup_texts(
    player_id: PlayerID,
    other_ids: Seq<PlayerID>,
    code: Seq<u8>,
) -> Seq<Seq<char>> {
    seq![id_line("I: "@, player_id)] + other_ids.map_values(
        |id: PlayerID| id_line("N: "@, id),
    ) + seq!["J: "@ + room_code::code_text(code) + "\n"@]
}

/// The text that passes a payload on to a player.
pub open spec fn payload_text(command: Seq<char>, from: PlayerID, payload: Seq<char>) -> Seq<char> {
    id_line(command, from) + payload
}

/// Write a line that consists of a command and an identifier.
fn write_id_line(command: &str, id: PlayerID) -> (line: String)
    ensures
        line@ == id_line(command@, id),
{
    let mut line = command.to_owned();
    push_decimal(&mut line, id as u64);
    line.append("\n");
    line
}

/// Write the text that passes a payload on to a player.
fn write_payload(command: &str, from: PlayerID, payload: &String) -> (message: String)
    ensures
        message@ == payload_text(command@, from, payload@),
{
    let mut message = write_id_line(command, from);
    message.append(payload.as_str());
    message
}

/// Something that a player who is in a room has to react to.
#[derive(Debug, PartialEq, Eq)]
pub enum InRoomEvent {
    /// Something was read from the client's stream.
    Read(ReadOutcome),
    /// The client did not send anything in time.
    TimedOut,
    /// It is time to send a ping to the client.
    PingDue,
    /// The room sent a notification.
    Notified(RoomNotification),
    /// The room sent so many notifications that some of them have been missed.
    NotificationsMissed,
    /// The room is gone.
    RoomGone,
    /// The configuration of the server has changed.
    ConfigChanged(VariableConfig),
    /// A message could not be sent to the client.
    SendFailed,
    /// The server is shutting down.
    Shutdown,
}

/// What a player who is in a room does next.
#[derive(Debug, PartialEq, Eq)]
pub enum InRoomAction {
    /// Wait for the next event.
    Wait,
    /// Send a text message to the client, and wait for the next event.
    SendText(String),
    /// Send a ping to the client, and wait for the next event.
    SendPing,
    /// Send a request to the room, and wait for the next event.
    SendRequest(RoomRequest),
    /// Start over with the interval between pings, so that the next one is due
    /// immediately, and wait for the next event.
    RestartPings,
    /// Hand the stream over to the room, so that it closes the connection with
    /// the given code, and stop.
    CloseConnection(CloseCode),
    /// Send a request to the room to drop the connection, and stop.
    DropConnection(RoomRequest),
    /// Let the connection drop, and stop.
    Stop,
}

/// An [`InRoomAction`] in terms of the characters of its text and its payload.
pub enum InRoomActionView {
    Wait,
    SendText(Seq<char>),
    SendPing,
    Seal,
    SendOffer(PlayerID, Seq<char>),
    SendAnswer(PlayerID, Seq<char>),
    SendCandidate(PlayerID, Seq<char>),
    RestartPings,
    CloseConnection(CloseCode),
    DropConnection,
    Stop,
}

/// An instance which handles communication with a client after they have joined
/// a room within the lobby.
///
/// The instance first sends the client their [`PlayerID`], followed by the IDs
/// of the other clients that are in the room. After that, the [`RoomCode`] is
/// sent to the client, whether they hosted a room, or joined an existing one.
///
/// Once the data has been sent, it is then up to the client whether they want
/// to establish a peer-to-peer connection with the other players or not.
#[derive(Debug, Clone, Copy, PartialEq, Eq)]
pub struct PlayerInRoom {
    /// The room the player has joined.
    pub room_code: RoomCode,
    /// The ID given to this player within the room.
    pub player_id: PlayerID,
    /// How often a ping is sent to the client, in seconds.
    pub ping_interval_secs: u64,
    /// How long to wait for the client to send something, in seconds.
    pub response_time_limit_secs: u64,
    /// Whether we are expecting a pong from the client. The client should only
    /// send us one after we have sent a ping.
    pub expecting_pong: bool,
}

/// Whether the action is the one that the view describes, for the given player.
pub open spec fn is_action(
    action: InRoomAction,
    view: InRoomActionView,
    player_id: PlayerID,
) -> bool {
    match view {
        InRoomActionView::Wait => action == InRoomAction::Wait,
        InRoomActionView::SendText(text) => action matches InRoomAction::SendText(message)
            && message@ == text,
        InRoomActionView::SendPing => action == InRoomAction::SendPing,
        InRoomActionView::Seal => action == InRoomAction::SendRequest(
            RoomRequest { player_id, command: RoomCommand::SealRoom },
        ),
        InRoomActionView::SendOffer(to, payload) => {
            action matches InRoomAction::SendRequest(
                RoomRequest { player_id: from, command: RoomCommand::SendOffer(id, text) },
            ) && from == player_id && id == to && text@ == payload
        },
        InRoomActionView::SendAnswer(to, payload) => {
            action matches InRoomAction::SendRequest(
                RoomRequest { player_id: from, command: RoomCommand::SendAnswer(id, text) },
            ) && from == player_id && id == to && text@ == payload
        },
        InRoomActionView::SendCandidate(to, payload) => {
            action matches InRoomAction::SendRequest(
                RoomRequest { player_id: from, command: RoomCommand::SendCandidate(id, text) },
            ) && from == player_id && id == to && text@ == payload
        },
        InRoomActionView::RestartPings => action == InRoomAction::RestartPings,
        InRoomActionView::CloseConnection(code) => action == InRoomAction::CloseConnection(code),
        InRoomActionView::DropConnection => action == InRoomAction::DropConnection(
            RoomRequest { player_id, command: RoomCommand::DropConnection },
        ),
        InRoomActionView::Stop => action == InRoomAction::Stop,
    }
}

/// The reaction to a text message from the client.
pub open spec fn text_action(text: Seq<char>) -> InRoomActionView {
    match player::parsed_request(text) {
        Ok(PlayerRequestView::Seal) => InRoomActionView::Seal,
        Ok(PlayerRequestView::Offer(to, payload)) => InRoomActionView::SendOffer(to, payload),
        Ok(PlayerRequestView::Answer(to, payload)) => InRoomActionView::SendAnswer(to, payload),
        Ok(PlayerRequestView::Candidate(to, payload)) => InRoomActionView::SendCandidate(
            to,
            payload,
        ),
        Ok(_) => InRoomActionView::CloseConnection(
            CustomCloseCode::AlreadyInRoom.spec_close_code(),
        ),
        Err(error) => InRoomActionView::CloseConnection(player::parse_error_code(error)),
    }
}

/// The reaction to a message from the client.
pub open spec fn message_action(message: ClientMessage, expecting_pong: bool) -> InRoomActionView {
    match message {
        ClientMessage::Text(text) => text_action(text@),
        ClientMessage::Binary => InRoomActionView::CloseConnection(CloseCode::Unsupported),
        ClientMessage::Ping => InRoomActionView::CloseConnection(CloseCode::Protocol),
        ClientMessage::Pong => if expecting_pong {
            InRoomActionView::Wait
        } else {
            InRoomActionView::CloseConnection(CloseCode::Protocol)
        },
        ClientMessage::Close(_) => InRoomActionView::DropConnection,
        ClientMessage::Frame => InRoomActionView::DropConnection,
    }
}

/// The reaction to a notification from the room.
pub open spec fn notification_action(notification: RoomNotification) -> InRoomActionView {
    match notification {
        RoomNotification::PlayerJoined(id) => InRoomActionView::SendText(id_line("N: "@, id)),
        RoomNotification::PlayerLeft(id) => InRoomActionView::SendText(id_line("D: "@, id)),
        RoomNotification::OfferReceived(from, payload) => InRoomActionView::SendText(
            payload_text("O: "@, from, payload@),
        ),
        RoomNotification::AnswerReceived(from, payload) => InRoomActionView::SendText(
            payload_text("A: "@, from, payload@),
        ),
        RoomNotification::CandidateReceived(from, payload) => InRoomActionView::SendText(
            payload_text("C: "@, from, payload@),
        ),
        RoomNotification::HostLeft => InRoomActionView::CloseConnection(
            CustomCloseCode::HostDisconnected.spec_close_code(),
        ),
        RoomNotification::RoomSealed => InRoomActionView::CloseConnection(
            CustomCloseCode::RoomSealed.spec_close_code(),
        ),
        RoomNotification::Error(code) => InRoomActionView::CloseConnection(code),
    }
}

impl PlayerInRoom {
    /// The reaction to an event.
    pub open spec fn action_for(self, event: InRoomEvent) -> InRoomActionView {
        match event {
            InRoomEvent::Read(ReadOutcome::Message(message)) => message_action(
                message,
                self.expecting_pong,
            ),
            InRoomEvent::Read(ReadOutcome::Failed(error)) => {
                match player::websocket_error_code(error) {
                    Some(code) => InRoomActionView::CloseConnection(code),
                    None => InRoomActionView::DropConnection,
                }
            },
            InRoomEvent::Read(ReadOutcome::Ended) => InRoomActionView::DropConnection,
            InRoomEvent::TimedOut => InRoomActionView::DropConnection,
            InRoomEvent::PingDue => InRoomActionView::SendPing,
            InRoomEvent::Notified(notification) => notification_action(notification),
            InRoomEvent::NotificationsMissed => InRoomActionView::CloseConnection(CloseCode::Error),
            InRoomEvent::RoomGone => InRoomActionView::DropConnection,
            InRoomEvent::ConfigChanged(_) => InRoomActionView::RestartPings,
            InRoomEvent::SendFailed => InRoomActionView::DropConnection,
            InRoomEvent::Shutdown => InRoomActionView::Stop,
        }
    }

    /// The state after an event.
    pub open spec fn after(self, event: InRoomEvent) -> PlayerInRoom {
        match event {
            InRoomEvent::Read(ReadOutcome::Message(ClientMessage::Pong)) => PlayerInRoom {
                expecting_pong: false,
                ..self
            },
            InRoomEvent::PingDue => PlayerInRoom { expecting_pong: true, ..self },
            InRoomEvent::ConfigChanged(config) => PlayerInRoom {
                ping_interval_secs: config.ping_interval_secs,
                response_time_limit_secs: config.response_time_limit_secs,
                ..self
            },
            _ => self,
        }
    }

    /// Start communicating with a client that has joined a room.
    pub fn new(room_code: RoomCode, player_id: PlayerID, config: VariableConfig) -> (player: Self)
        ensures
            player == (PlayerInRoom {
                room_code,
                player_id,
                ping_interval_secs: config.ping_interval_secs,
                response_time_limit_secs: config.response_time_limit_secs,
                expecting_pong: false,
            }),
    {
        PlayerInRoom {
            room_code,
            player_id,
            ping_interval_secs: config.ping_interval_secs,
            response_time_limit_secs: config.response_time_limit_secs,
            expecting_pong: false,
        }
    }

    /// The messages that are sent to the client before anything else.
    pub fn setup_messages(&self, other_ids: &Vec<PlayerID>) -> (messages: Vec<String>)
        ensures
            messages@.map_values(|message: String| message@) == setup_texts(
                self.player_id,
                other_ids@,
                self.room_code@,
            ),
    {
        let mut messages: Vec<String> = Vec::new();
        messages.push(write_id_line("I: ", self.player_id));
        for i in 0..other_ids.len()
            invariant
                messages@.len() == i + 1,
                messages@[0]@ == id_line("I: "@, self.player_id),
                forall|j: int|
                    0 <= j < i ==> (#[trigger] messages@[j + 1])@ == id_line("N: "@, other_ids@[j]),
        {
            messages.push(write_id_line("N: ", other_ids[i]));
        }
        let mut room_line = "J: ".to_owned();
        self.room_code.push_text(&mut room_line);
        room_line.append("\n");
        messages.push(room_line);
        proof {
            let texts = setup_texts(self.player_id, other_ids@, self.room_code@);
            let written = messages@.map_values(|message: String| message@);
            assert forall|k: int| 0 <= k < written.len() implies written[k] == texts[k] by {
                if 0 < k <= other_ids@.len() {
                    assert(messages@[(k - 1) + 1]@ == id_line("N: "@, other_ids@[k - 1]));
                }
            }
            assert(written =~= texts);
        }
        messages
    }

    /// React to an event.
    pub fn on_event(&mut self, event: InRoomEvent) -> (action: InRoomAction)
        ensures
            *final(self) == old(self).after(event),
            is_action(action, old(self).action_for(event), old(self).player_id),
    {
        match event {
            InRoomEvent::Read(ReadOutcome::Message(message)) => self.on_message(message),
            InRoomEvent::Read(ReadOutcome::Failed(error)) => {
                match websocket_error_to_close_code(error) {
                    Some(close_code) => InRoomAction::CloseConnection(close_code),
                    None => self.drop_connection(),
                }
            },
            InRoomEvent::Read(ReadOutcome::Ended) => self.drop_connection(),
            InRoomEvent::TimedOut => self.drop_connection(),
            InRoomEvent::PingDue => {
                self.expecting_pong = true;
                InRoomAction::SendPing
            },
            InRoomEvent::Notified(notification) => Self::on_notification(notification),
            InRoomEvent::NotificationsMissed => InRoomAction::CloseConnection(CloseCode::Error),
            InRoomEvent::RoomGone => self.drop_connection(),
            InRoomEvent::ConfigChanged(config) => {
                self.ping_interval_secs = config.ping_interval_secs;
                self.response_time_limit_secs = config.response_time_limit_secs;
                InRoomAction::RestartPings
            },
            // The room has to know that we can no longer send messages reliably.
            InRoomEvent::SendFailed => self.drop_connection(),
            InRoomEvent::Shutdown => InRoomAction::Stop,
        }
    }

    /// The action that asks the room to drop the connection.
    fn drop_connection(&self) -> (action: InRoomAction)
        ensures
            is_action(action, InRoomActionView::DropConnection, self.player_id),
    {
        InRoomAction::DropConnection(self.request(RoomCommand::DropConnection))
    }

    /// A request to the room.
    fn request(&self, command: RoomCommand) -> (request: RoomRequest)
        ensures
            request == (RoomRequest { player_id: self.player_id, command }),
    {
        RoomRequest { player_id: self.player_id, command }
    }

    /// React to a message from the client.
    fn on_message(&mut self, message: ClientMessage) -> (action: InRoomAction)
        ensures
            *final(self) == old(self).after(InRoomEvent::Read(ReadOutcome::Message(message))),
            is_action(
                action,
                message_action(message, old(self).expecting_pong),
                old(self).player_id,
            ),
    {
        match message {
            ClientMessage::Text(text) => self.on_text(text.as_str()),
            ClientMessage::Binary => InRoomAction::CloseConnection(CloseCode::Unsupported),
            // Only the server is allowed to send ping messages.
            ClientMessage::Ping => InRoomAction::CloseConnection(CloseCode::Protocol),
            ClientMessage::Pong => if self.expecting_pong {
                self.expecting_pong = false;
                InRoomAction::Wait
            } else {
                InRoomAction::CloseConnection(CloseCode::Protocol)
            },
            // The echo frame is sent back as soon as the message is read.
            ClientMessage::Close(_) => self.drop_connection(),
            // Should never receive a raw frame!
            ClientMessage::Frame => self.drop_connection(),
        }
    }

    /// React to a text message from the client.
    fn on_text(&self, text: &str) -> (action: InRoomAction)
        ensures
            is_action(action, text_action(text@), self.player_id),
    {
        match parse_player_request(text) {
            Ok(request) => match request {
                PlayerRequest::Seal => InRoomAction::SendRequest(
                    self.request(RoomCommand::SealRoom),
                ),
                PlayerRequest::Offer(to, payload) => InRoomAction::SendRequest(
                    self.request(RoomCommand::SendOffer(to, payload)),
                ),
                PlayerRequest::Answer(to, payload) => InRoomAction::SendRequest(
                    self.request(RoomCommand::SendAnswer(to, payload)),
                ),
                PlayerRequest::Candidate(to, payload) => InRoomAction::SendRequest(
                    self.request(RoomCommand::SendCandidate(to, payload)),
                ),
                // The other requests can only be made before joining a room.
                _ => InRoomAction::CloseConnection(CustomCloseCode::AlreadyInRoom.into()),
            },
            Err(error) => InRoomAction::CloseConnection(parse_error_to_close_code(error)),
        }
    }

    /// React to a notification from the room.
    fn on_notification(notification: RoomNotification) -> (action: InRoomAction)
        ensures
            forall|player_id: PlayerID|
                #[trigger] is_action(action, notification_action(notification), player_id),
    {
        match notification {
            RoomNotification::PlayerJoined(id) => InRoomAction::SendText(write_id_line("N: ", id)),
            RoomNotification::PlayerLeft(id) => InRoomAction::SendText(write_id_line("D: ", id)),
            RoomNotification::OfferReceived(from, payload) => InRoomAction::SendText(
                write_payload("O: ", from, &payload),
            ),
            RoomNotification::AnswerReceived(from, payload) => InRoomAction::SendText(
                write_payload("A: ", from, &payload),
            ),
            RoomNotification::CandidateReceived(from, payload) => InRoomAction::SendText(
                write_payload("C: ", from, &payload),
            ),
            RoomNotification::HostLeft => InRoomAction::CloseConnection(
                CustomCloseCode::HostDisconnected.into(),
            ),
            RoomNotification::RoomSealed => InRoomAction::CloseConnection(
                CustomCloseCode::RoomSealed.into(),
            ),
            RoomNotification::Error(code) => InRoomAction::CloseConnection(code),
        }
    }
}

/// A payload that is passed on to a player reads like a request with the sender
/// in place of the destination, so that sending the payload to a player gives
/// that player a message that says who sent it, and holds the same payload.
pub proof fn law_relayed_payload_is_kept(from: PlayerID, payload: String)
    requires
        payload@.len() > 0,
    ensures
        notification_action(RoomNotification::OfferReceived(from, payload)) matches
            InRoomActionView::SendText(text) && player::parsed_request(text) == Ok::<
            PlayerRequestView,
            player::ParseError,
        >(PlayerRequestView::Offer(from, payload@)),
        notification_action(RoomNotification::AnswerReceived(from, payload)) matches
            InRoomActionView::SendText(text) && player::parsed_request(text) == Ok::<
            PlayerRequestView,
            player::ParseError,
        >(PlayerRequestView::Answer(from, payload@)),
        notification_action(RoomNotification::CandidateReceived(from, payload)) matches
            InRoomActionView::SendText(text) && player::parsed_request(text) == Ok::<
            PlayerRequestView,
            player::ParseError,
        >(PlayerRequestView::Candidate(from, payload@)),
{
    player::law_addressed_message_is_parsed(from, payload@);
}

/// The client may answer every ping with one pong, and a second pong closes the
/// connection.
pub proof fn law_one_pong_per_ping(player: PlayerInRoom)
    ensures
        ({
            let ping = InRoomEvent::PingDue;
            let pong = InRoomEvent::Read(ReadOutcome::Message(ClientMessage::Pong));
            &&& player.action_for(ping) == InRoomActionView::SendPing
            &&& player.after(ping).action_for(pong) == InRoomActionView::Wait
            &&& player.after(ping).after(pong).action_for(pong)
                == InRoomActionView::CloseConnection(CloseCode::Protocol)
        }),
{
}

/// The notifications that close a room make every player hand its stream over
/// to the room, whatever state the player is in.
pub proof fn law_closing_notifications_close(
    player: PlayerInRoom,
    notification: RoomNotification,
)
    requires
        notification is HostLeft || notification is RoomSealed || notification is Error,
    ensures
        player.action_for(InRoomEvent::Notified(notification)) is CloseConnection,
{
}

/// The identity of a player never changes.
pub proof fn law_identity_is_kept(player: PlayerInRoom, event: InRoomEvent)
    ensures
        player.after(event).player_id == player.player_id,
        player.after(event).room_code == player.room_code,
{
}

/// The last line that a player gets when they have joined a room is the text that
/// another client can send to join the same room.
pub proof fn law_room_line_can_be_used_to_join(
    player_id: PlayerID,
    other_ids: Seq<PlayerID>,
    code: RoomCode,
)
    requires
        room_code::is_code(code@),
    ensures
        setup_texts(player_id, other_ids, code@).len() == other_ids.len() + 2,
        joining::text_command(setup_texts(player_id, other_ids, code@).last())
            == LobbyCommand::JoinRoom(code),
{
    joining::law_join_text_joins(code);
}

} // verus!
