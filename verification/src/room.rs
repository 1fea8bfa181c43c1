//! The rooms, in which players can send messages to each other.
//!
//! A [`Room`] keeps track of the players that are in a room, and decides how to
//! react to what happens to it. The type parameter `T` stands for the task that
//! handles the communication with a player's client, and `S` for the stream to a
//! client: the room keeps them and hands them over, but does not look into them.

use crate::close_code::{CloseCode, CustomCloseCode};
use crate::identifiers::unused_id;
use crate::int_map::{
    int_map_contains_key, int_map_get, int_map_get_mut, int_map_insert, int_map_keys, int_map_len,
    int_map_new, int_map_remove, int_map_take,
};
use crate::message::{LobbyControl, RoomCommand, RoomNotification, RoomRequest};
use crate::player;
use crate::player::in_room;
use crate::player::in_room::InRoomActionView;
use crate::player::PlayerID;
use crate::room_code::RoomCode;
use crate::{int_map, text};
use nohash_hasher::IntMap;
use vstd::prelude::*;
use vstd::string::*;

verus! {

/// The [`PlayerID`] of the host of a room.
pub const HOST_ID: PlayerID = 1;

/// The smallest [`PlayerID`] of a player that is not the host of a room.
pub const FIRST_PLAYER_ID: PlayerID = 2;

/// The number of [`RoomRequest`]s that can be sent from players before they
/// would need to wait for the room to read the buffer.
pub const PLAYER_REQUEST_BUFFER_SIZE: usize = 10;

/// The number of [`RoomNotification`]s that can be sent to players before the
/// task needs to read them, at the risk of lagging and missing one.
pub const ROOM_NOTIFICATION_CAPACITY: usize = 50;

/// The types of WebRTC messages that can be sent between players.
#[derive(Debug, Clone, Copy, PartialEq, Eq, Structural)]
pub enum MessageType {
    Offer,
    Answer,
    Candidate,
}

impl MessageType {
    /// The name of the message type for the logs.
    pub open spec fn spec_text(self) -> Seq<char> {
        match self {
            MessageType::Offer => "offer"@,
            MessageType::Answer => "answer"@,
            MessageType::Candidate => "candidate"@,
        }
    }

    /// The name of the message type for the logs.
    pub fn to_text(&self) -> (text: String)
        ensures
            text@ == self.spec_text(),
    {
        match self {
            MessageType::Offer => "offer".to_owned(),
            MessageType::Answer => "answer".to_owned(),
            MessageType::Candidate => "candidate".to_owned(),
        }
    }

    /// The notification for the player that receives a message of this type.
    pub open spec fn spec_notification(self, from: PlayerID, payload: String) -> RoomNotification {
        match self {
            MessageType::Offer => RoomNotification::OfferReceived(from, payload),
            MessageType::Answer => RoomNotification::AnswerReceived(from, payload),
            MessageType::Candidate => RoomNotification::CandidateReceived(from, payload),
        }
    }

    /// The notification for the player that receives a message of this type.
    pub fn notification(&self, from: PlayerID, payload: String) -> (notification: RoomNotification)
        ensures
            notification == self.spec_notification(from, payload),
    {
        match self {
            MessageType::Offer => RoomNotification::OfferReceived(from, payload),
            MessageType::Answer => RoomNotification::AnswerReceived(from, payload),
            MessageType::Candidate => RoomNotification::CandidateReceived(from, payload),
        }
    }
}

/// A wrapper around the task of a player, with extra metadata.
#[derive(Debug)]
pub struct PlayerTask<T> {
    /// The task itself, which handles communication with the client.
    task: T,
    /// For each other player in the room, keep track of how many WebRTC
    /// messages this player has sent to them. If this number exceeds a maximum
    /// defined in the server configuration, then their connection should be
    /// closed.
    msg_sent: IntMap<PlayerID, usize>,
}

/// A player's task, and how many messages the player has sent to which players.
pub struct PlayerTaskView<T> {
    pub task: T,
    pub msg_sent: Map<PlayerID, usize>,
}

/// The number of messages that have been sent to the given player.
pub open spec fn message_count(msg_sent: Map<PlayerID, usize>, receiver_id: PlayerID) -> usize {
    if msg_sent.contains_key(receiver_id) {
        msg_sent[receiver_id]
    } else {
        0
    }
}

impl<T> View for PlayerTask<T> {
    type V = PlayerTaskView<T>;

    closed spec fn view(&self) -> PlayerTaskView<T> {
        PlayerTaskView { task: self.task, msg_sent: self.msg_sent@ }
    }
}

impl<T> PlayerTask<T> {
    /// Create a new [`PlayerTask`] for a player that has not sent any messages.
    pub fn new(task: T) -> (player: Self)
        ensures
            player@.task == task,
            player@.msg_sent == Map::<PlayerID, usize>::empty(),
    {
        PlayerTask { task, msg_sent: int_map_new() }
    }

    /// Get the number of WebRTC messages this player has sent to the player
    /// with the given `receiver_id`.
    pub fn get_message_count(&self, receiver_id: PlayerID) -> (count: usize)
        ensures
            count == message_count(self@.msg_sent, receiver_id),
    {
        match int_map_get(&self.msg_sent, receiver_id) {
            Some(num_messages) => *num_messages,
            None => 0,
        }
    }

    /// Increment the number of WebRTC messages this player has sent to the
    /// player with the given `receiver_id`. This should be called each time
    /// a message is sent.
    pub fn increment_message_count(&mut self, receiver_id: PlayerID)
        requires
            message_count(old(self)@.msg_sent, receiver_id) < usize::MAX,
        ensures
            final(self)@.task == old(self)@.task,
            final(self)@.msg_sent == old(self)@.msg_sent.insert(
                receiver_id,
                (message_count(old(self)@.msg_sent, receiver_id) + 1) as usize,
            ),
    {
        let count: usize = self.get_message_count(receiver_id);
        int_map_insert(&mut self.msg_sent, receiver_id, count + 1);
    }

    /// Clear the number of WebRTC messages this player has sent to the player
    /// with the given `receiver_id`. This should be called when the receiver
    /// has left the room.
    pub fn clear_message_count(&mut self, receiver_id: PlayerID)
        ensures
            final(self)@.task == old(self)@.task,
            final(self)@.msg_sent == old(self)@.msg_sent.remove(receiver_id),
    {
        int_map_remove(&mut self.msg_sent, receiver_id);
    }

    /// Get the task of the player.
    pub fn task(&self) -> (task: &T)
        ensures
            *task == self@.task,
    {
        &self.task
    }

    /// Give up the metadata, and keep the task of the player.
    pub fn into_task(self) -> (task: T)
        ensures
            task == self@.task,
    {
        self.task
    }
}

/// The players that are in a room, and the limits that apply to the room.
pub struct RoomView<T> {
    pub room_code: RoomCode,
    pub players: Map<PlayerID, PlayerTaskView<T>>,
    pub max_players_per_room: usize,
    pub max_message_count: usize,
}

/// The players of a room once the message counts to the given player have been
/// cleared.
pub open spec fn without_counts_to<T>(
    players: Map<PlayerID, PlayerTaskView<T>>,
    player_id: PlayerID,
) -> Map<PlayerID, PlayerTaskView<T>> {
    players.map_values(
        |player: PlayerTaskView<T>|
            PlayerTaskView { task: player.task, msg_sent: player.msg_sent.remove(player_id) },
    )
}

impl<T> RoomView<T> {
    /// Whether the room is in order: there are finitely many players in it, and
    /// there would be enough identifiers for as many of them as are allowed.
    pub open spec fn wf(self) -> bool {
        &&& self.players.dom().finite()
        &&& self.max_players_per_room < u32::MAX
    }

    /// The players, apart from the host.
    pub open spec fn guests(self) -> Set<PlayerID> {
        self.players.dom().remove(HOST_ID)
    }

    /// The task of a player, if the player is in the room.
    pub open spec fn task_of(self, player_id: PlayerID) -> Option<T> {
        if self.players.contains_key(player_id) {
            Some(self.players[player_id].task)
        } else {
            None
        }
    }

    /// The number of messages that a player has sent to another player.
    pub open spec fn count(self, sender_id: PlayerID, receiver_id: PlayerID) -> usize {
        message_count(self.players[sender_id].msg_sent, receiver_id)
    }

    /// The room once a player has been added to it, who has not sent any messages
    /// yet.
    pub open spec fn with_player(self, player_id: PlayerID, task: T) -> RoomView<T> {
        RoomView {
            players: self.players.insert(
                player_id,
                PlayerTaskView { task, msg_sent: Map::empty() },
            ),
            ..self
        }
    }

    /// The room once a player has disconnected: the player is no longer in the
    /// room, and the other players may start over with sending messages to a
    /// player with that ID.
    pub open spec fn without_player(self, player_id: PlayerID) -> RoomView<T> {
        RoomView {
            players: without_counts_to(self.players.remove(player_id), player_id),
            ..self
        }
    }

    /// The room once a message from one player to another has been counted.
    pub open spec fn with_message(self, sender_id: PlayerID, receiver_id: PlayerID) -> RoomView<T> {
        let sender = self.players[sender_id];
        let counted = PlayerTaskView {
            task: sender.task,
            msg_sent: sender.msg_sent.insert(
                receiver_id,
                (self.count(sender_id, receiver_id) + 1) as usize,
            ),
        };
        RoomView { players: self.players.insert(sender_id, counted), ..self }
    }
}

/// Something that a room has to react to.
#[derive(Debug, PartialEq, Eq)]
pub enum RoomEvent<S> {
    /// The lobby sent a new client that wants to join the room.
    NewClient(S),
    /// The lobby is gone, so there will be no more clients.
    LobbyGone,
    /// A player sent a request.
    Request(RoomRequest),
    /// There is nobody left to send requests.
    RequestsGone,
    /// A player asks for its connection to be closed with the given code.
    CloseRequest(PlayerID, S, CloseCode),
    /// There is nobody left to ask for its connection to be closed.
    CloseRequestsGone,
    /// The configuration of the server has changed.
    ConfigChanged { max_players_per_room: usize, max_message_count: usize },
    /// The server is shutting down.
    Shutdown,
}

/// What a room does next.
#[derive(Debug, PartialEq, Eq)]
pub enum RoomAction<S, T> {
    /// Wait for the next event.
    Wait,
    /// Close the connection with a client that wanted to join.
    CloseClient(S, CloseCode),
    /// Send a notification to each of the given players, who are all of those that
    /// are in the room already, and then add a task for a player with the given ID
    /// to the room.
    AddPlayer {
        player_id: PlayerID,
        stream: S,
        notify: Vec<PlayerID>,
        notification: RoomNotification,
    },
    /// Send a notification to each of the given players.
    Notify(Vec<PlayerID>, RoomNotification),
    /// A player has been removed from the room. Wait for its task to finish,
    /// close its connection if that is asked for, and then send a notification to
    /// each of the given players, who are all of those that remain in the room.
    RemovePlayer {
        player_id: PlayerID,
        task: Option<T>,
        close: Option<(S, CloseCode)>,
        notify: Vec<PlayerID>,
        notification: RoomNotification,
    },
    /// Send a closing notification to all of the players, wait for their tasks
    /// to finish and close their connections, and then stop. If the host asked
    /// for its own connection to be closed, do so as well.
    CloseRoom {
        notification: RoomNotification,
        send_to_host: bool,
        host_close: Option<(S, CloseCode)>,
    },
    /// Stop without notifying the players.
    Stop,
}

/// Whether the list holds every player that is in the room exactly once.
pub open spec fn lists_players<T>(room: RoomView<T>, list: Seq<PlayerID>) -> bool {
    list.no_duplicates() && list.to_set() == room.players.dom()
}

/// Whether the action is to send the notification to the given player alone.
pub open spec fn notifies<S, T>(
    action: RoomAction<S, T>,
    player_id: PlayerID,
    notification: RoomNotification,
) -> bool {
    action matches RoomAction::Notify(players, sent) && players@ == seq![player_id] && sent
        == notification
}

/// How a room reacts to a request to pass a message on from one player to
/// another.
pub open spec fn message_step<S, T>(
    before: RoomView<T>,
    sender_id: PlayerID,
    receiver_id: PlayerID,
    message: RoomNotification,
    after: RoomView<T>,
    action: RoomAction<S, T>,
) -> bool {
    if !before.players.contains_key(sender_id) {
        // There is nobody to tell.
        after == before && action == RoomAction::<S, T>::Wait
    } else if !before.players.contains_key(receiver_id) || sender_id == receiver_id {
        after == before && notifies(
            action,
            sender_id,
            RoomNotification::Error(CustomCloseCode::InvalidDestination.spec_close_code()),
        )
    } else if before.count(sender_id, receiver_id) < before.max_message_count {
        after == before.with_message(sender_id, receiver_id) && notifies(
            action,
            receiver_id,
            message,
        )
    } else {
        after == before && notifies(action, sender_id, RoomNotification::Error(CloseCode::Policy))
    }
}

/// How a room reacts to a request to seal it.
pub open spec fn seal_step<S, T>(
    before: RoomView<T>,
    player_id: PlayerID,
    after: RoomView<T>,
    action: RoomAction<S, T>,
) -> bool {
    after == before && if player_id == HOST_ID {
        action == RoomAction::<S, T>::CloseRoom {
            notification: RoomNotification::RoomSealed,
            send_to_host: true,
            host_close: None,
        }
    } else if before.players.contains_key(player_id) {
        notifies(
            action,
            player_id,
            RoomNotification::Error(CustomCloseCode::OnlyHostCanSeal.spec_close_code()),
        )
    } else {
        action == RoomAction::<S, T>::Wait
    }
}

/// How a room reacts to a player that disconnects, with or without asking for its
/// connection to be closed.
pub open spec fn leave_step<S, T>(
    before: RoomView<T>,
    player_id: PlayerID,
    close: Option<(S, CloseCode)>,
    after: RoomView<T>,
    action: RoomAction<S, T>,
) -> bool {
    if player_id == HOST_ID {
        after == before && action == RoomAction::<S, T>::CloseRoom {
            notification: RoomNotification::HostLeft,
            send_to_host: false,
            host_close: close,
        }
    } else {
        &&& after == before.without_player(player_id)
        &&& action matches RoomAction::RemovePlayer {
            player_id: removed_id,
            task,
            close: closed,
            notify,
            notification,
        }
        &&& removed_id == player_id
        &&& task == before.task_of(player_id)
        &&& closed == close
        &&& lists_players(after, notify@)
        &&& notification == RoomNotification::PlayerLeft(player_id)
    }
}

/// How many players have to be kicked: those that there are too many of, but
/// never the host.
pub open spec fn kick_count(num_players: nat, num_guests: nat, max_players: usize) -> nat {
    if num_players <= max_players {
        0
    } else if num_players - max_players <= num_guests {
        (num_players - max_players) as nat
    } else {
        num_guests
    }
}

/// How a room reacts to new limits.
pub open spec fn config_step<S, T>(
    before: RoomView<T>,
    max_players_per_room: usize,
    max_message_count: usize,
    after: RoomView<T>,
    action: RoomAction<S, T>,
) -> bool {
    &&& after == (RoomView { max_players_per_room, max_message_count, ..before })
    &&& if before.players.len() <= max_players_per_room {
        action == RoomAction::<S, T>::Wait
    } else {
        &&& action matches RoomAction::Notify(kicked, notification)
        &&& notification == RoomNotification::Error(
            CustomCloseCode::TooManyPlayers.spec_close_code(),
        )
        &&& kicked@.no_duplicates()
        &&& kicked@.to_set().subset_of(before.guests())
        &&& kicked@.len() == kick_count(
            before.players.len(),
            before.guests().len(),
            max_players_per_room,
        )
    }
}

/// How a room reacts to a new client.
pub open spec fn join_step<S, T>(
    before: RoomView<T>,
    stream: S,
    after: RoomView<T>,
    action: RoomAction<S, T>,
) -> bool {
    &&& after == before
    &&& if before.players.len() < before.max_players_per_room {
        &&& action matches RoomAction::AddPlayer { player_id, stream: client, notify, notification }
        &&& client == stream
        &&& player_id >= FIRST_PLAYER_ID
        &&& !before.players.contains_key(player_id)
        &&& lists_players(before, notify@)
        &&& notification == RoomNotification::PlayerJoined(player_id)
    } else {
        action == RoomAction::<S, T>::CloseClient(
            stream,
            CustomCloseCode::TooManyPlayers.spec_close_code(),
        )
    }
}

/// How a room reacts to a request from a player.
pub open spec fn request_step<S, T>(
    before: RoomView<T>,
    request: RoomRequest,
    after: RoomView<T>,
    action: RoomAction<S, T>,
) -> bool {
    let from = request.player_id;
    match request.command {
        RoomCommand::SealRoom => seal_step(before, from, after, action),
        RoomCommand::SendOffer(to, payload) => message_step(
            before,
            from,
            to,
            RoomNotification::OfferReceived(from, payload),
            after,
            action,
        ),
        RoomCommand::SendAnswer(to, payload) => message_step(
            before,
            from,
            to,
            RoomNotification::AnswerReceived(from, payload),
            after,
            action,
        ),
        RoomCommand::SendCandidate(to, payload) => message_step(
            before,
            from,
            to,
            RoomNotification::CandidateReceived(from, payload),
            after,
            action,
        ),
        RoomCommand::DropConnection => leave_step(before, from, None, after, action),
    }
}

/// How a room reacts to an event.
pub open spec fn room_step<S, T>(
    before: RoomView<T>,
    event: RoomEvent<S>,
    after: RoomView<T>,
    action: RoomAction<S, T>,
) -> bool {
    match event {
        RoomEvent::NewClient(stream) => join_step(before, stream, after, action),
        RoomEvent::Request(request) => request_step(before, request, after, action),
        RoomEvent::CloseRequest(player_id, stream, close_code) => leave_step(
            before,
            player_id,
            Some((stream, close_code)),
            after,
            action,
        ),
        RoomEvent::ConfigChanged { max_players_per_room, max_message_count } => config_step(
            before,
            max_players_per_room,
            max_message_count,
            after,
            action,
        ),
        RoomEvent::LobbyGone => after == before && action == RoomAction::<S, T>::Stop,
        RoomEvent::RequestsGone => after == before && action == RoomAction::<S, T>::Stop,
        RoomEvent::CloseRequestsGone => after == before && action == RoomAction::<S, T>::Stop,
        RoomEvent::Shutdown => after == before && action == RoomAction::<S, T>::Stop,
    }
}

/// The room, which allows players to communicate with each other.
///
/// When a player in the join queue has sent a request to create a room, an
/// instance of this type should be created and stored somewhere. The player
/// that created the room is made the host.
///
/// Other clients can then join the same room by using the unique [`RoomCode`]
/// given by the lobby. All clients that were already in the room are notified
/// of the new player and their [`PlayerID`], which they can use to send WebRTC
/// messages to that player if they wish.
#[derive(Debug)]
pub struct Room<T> {
    room_code: RoomCode,
    players: IntMap<PlayerID, PlayerTask<T>>,
    max_players_per_room: usize,
    max_message_count: usize,
}

impl<T> View for Room<T> {
    type V = RoomView<T>;

    closed spec fn view(&self) -> RoomView<T> {
        RoomView {
            room_code: self.room_code,
            players: self.players@.map_values(|player: PlayerTask<T>| player@),
            max_players_per_room: self.max_players_per_room,
            max_message_count: self.max_message_count,
        }
    }
}

impl<T> Room<T> {
    /// Create a room without any players.
    pub fn new(room_code: RoomCode, max_players_per_room: usize, max_message_count: usize) -> (room:
        Self)
        requires
            max_players_per_room < u32::MAX,
        ensures
            room@ == (RoomView {
                room_code,
                players: Map::<PlayerID, PlayerTaskView<T>>::empty(),
                max_players_per_room,
                max_message_count,
            }),
            room@.wf(),
    {
        let room = Room {
            room_code,
            players: int_map_new(),
            max_players_per_room,
            max_message_count,
        };
        assert(room@.players =~= Map::<PlayerID, PlayerTaskView<T>>::empty());
        room
    }

    /// The view of the players has the same keys as the players.
    proof fn lemma_view_keys(&self)
        ensures
            self@.players.dom() == self.players@.dom(),
            self@.players.len() == self.players@.len(),
    {
        assert(self@.players.dom() =~= self.players@.dom());
    }

    /// The code of the room.
    pub fn room_code(&self) -> (room_code: RoomCode)
        ensures
            room_code == self@.room_code,
    {
        self.room_code
    }

    /// The IDs of the players that are currently in the room, in no particular
    /// order.
    pub fn player_ids(&self) -> (ids: Vec<PlayerID>)
        ensures
            lists_players(self@, ids@),
    {
        proof {
            self.lemma_view_keys();
        }
        int_map_keys(&self.players)
    }

    /// The task of the player with the given ID, if they are in the room.
    pub fn player_task(&self, player_id: PlayerID) -> (task: Option<&T>)
        ensures
            match task {
                Some(task) => self@.task_of(player_id) == Some(*task),
                None => self@.task_of(player_id) is None,
            },
    {
        match int_map_get(&self.players, player_id) {
            Some(player) => Some(player.task()),
            None => None,
        }
    }

    /// Add the task of a player to the room. If there was already a player with
    /// the given ID, their task is replaced and returned.
    pub fn on_connect(&mut self, player_id: PlayerID, task: T) -> (replaced: Option<T>)
        requires
            old(self)@.wf(),
        ensures
            final(self)@ == old(self)@.with_player(player_id, task),
            final(self)@.wf(),
            replaced == old(self)@.task_of(player_id),
    {
        let replaced = int_map_insert(&mut self.players, player_id, PlayerTask::new(task));
        assert(self@.players =~= old(self)@.with_player(player_id, task).players);
        match replaced {
            Some(player) => Some(player.into_task()),
            None => None,
        }
    }

    /// Remove a player to whom a notification could not be sent, since this
    /// means that the task of the player has failed somehow. Returns the task.
    pub fn on_notify_failed(&mut self, player_id: PlayerID) -> (removed: Option<T>)
        requires
            old(self)@.wf(),
        ensures
            final(self)@ == (RoomView {
                players: old(self)@.players.remove(player_id),
                ..old(self)@
            }),
            final(self)@.wf(),
            removed == old(self)@.task_of(player_id),
    {
        let removed = int_map_remove(&mut self.players, player_id);
        assert(self@.players =~= old(self)@.players.remove(player_id));
        match removed {
            Some(player) => Some(player.into_task()),
            None => None,
        }
    }

    /// When a client that is not the host disconnects, the client needs to be
    /// removed from the room, and the other players no longer have sent any
    /// messages to a player with that ID. Returns the task of the player.
    pub fn on_disconnect(&mut self, player_id: PlayerID) -> (removed: Option<T>)
        requires
            old(self)@.wf(),
        ensures
            final(self)@ == old(self)@.without_player(player_id),
            final(self)@.wf(),
            removed == old(self)@.task_of(player_id),
    {
        let removed = int_map_remove(&mut self.players, player_id);
        let ghost remaining = self.players@;
        let ids: Vec<PlayerID> = int_map_keys(&self.players);
        for i in 0..ids.len()
            invariant
                ids@.no_duplicates(),
                ids@.to_set() == remaining.dom(),
                self.players@.dom() == remaining.dom(),
                self.room_code == old(self).room_code,
                self.max_players_per_room == old(self).max_players_per_room,
                self.max_message_count == old(self).max_message_count,
                forall|j: int|
                    0 <= j < ids@.len() ==> (#[trigger] self.players@[ids@[j]])@ == if j < i {
                        PlayerTaskView {
                            task: remaining[ids@[j]]@.task,
                            msg_sent: remaining[ids@[j]]@.msg_sent.remove(player_id),
                        }
                    } else {
                        remaining[ids@[j]]@
                    },
        {
            assert(ids@.to_set().contains(ids@[i as int]));
            if let Some(player) = int_map_get_mut(&mut self.players, ids[i]) {
                player.clear_message_count(player_id);
            }
            assert(self.players@.dom() =~= remaining.dom());
        }
        proof {
            let expected = old(self)@.without_player(player_id).players;
            assert forall|id: PlayerID| self@.players.contains_key(id) implies #[trigger] self@.players[id]
                == expected[id] by {
                assert(ids@.to_set().contains(id));
                let j = choose|j: int| 0 <= j < ids@.len() && ids@[j] == id;
                assert(self.players@[ids@[j]]@ == self@.players[id]);
            }
            assert(self@.players.dom() =~= expected.dom());
            assert(self@.players.dom() =~= old(self)@.players.dom().remove(player_id));
            assert(self@.players =~= expected);
        }
        match removed {
            Some(player) => Some(player.into_task()),
            None => None,
        }
    }

    /// Try and pass a WebRTC message from one player in the room to another,
    /// in the form of a [`RoomNotification`].
    ///
    /// If the recipient does not exist, or if too many messages have been sent
    /// to the recipient already, then the sender's connection is closed.
    pub fn try_send_message<S>(
        &mut self,
        sender_id: PlayerID,
        receiver_id: PlayerID,
        message_type: MessageType,
        message_payload: String,
    ) -> (action: RoomAction<S, T>)
        requires
            old(self)@.wf(),
        ensures
            message_step(
                old(self)@,
                sender_id,
                receiver_id,
                message_type.spec_notification(sender_id, message_payload),
                final(self)@,
                action,
            ),
            final(self)@.wf(),
    {
        let receiver_exists = int_map_contains_key(&self.players, receiver_id);
        let max_message_count: usize = self.max_message_count;
        match int_map_get_mut(&mut self.players, sender_id) {
            Some(sender) => {
                if receiver_exists && sender_id != receiver_id {
                    // Make sure the sender isn't just spamming messages.
                    let message_count: usize = sender.get_message_count(receiver_id);
                    if message_count < max_message_count {
                        sender.increment_message_count(receiver_id);
                        proof {
                            let expected = old(self)@.with_message(sender_id, receiver_id);
                            assert(self@.players =~= expected.players);
                            assert(self@.players.dom() =~= old(self)@.players.dom());
                        }
                        notify_one(
                            receiver_id,
                            message_type.notification(sender_id, message_payload),
                        )
                    } else {
                        assert(self@.players =~= old(self)@.players);
                        notify_one(sender_id, RoomNotification::Error(CloseCode::Policy))
                    }
                } else {
                    assert(self@.players =~= old(self)@.players);
                    notify_one(
                        sender_id,
                        RoomNotification::Error(CustomCloseCode::InvalidDestination.into()),
                    )
                }
            },
            // Whoever sent the request is no longer in the room.
            None => RoomAction::Wait,
        }
    }

    /// Try and seal the room on behalf of the player with the given `player_id`.
    ///
    /// If the player does not have permission to seal the room, their connection
    /// is closed.
    pub fn try_seal_room<S>(&self, player_id: PlayerID) -> (action: RoomAction<S, T>)
        ensures
            seal_step(self@, player_id, self@, action),
    {
        if player_id == HOST_ID {
            RoomAction::CloseRoom {
                notification: RoomNotification::RoomSealed,
                send_to_host: true,
                host_close: None,
            }
        } else if int_map_contains_key(&self.players, player_id) {
            notify_one(
                player_id,
                RoomNotification::Error(CustomCloseCode::OnlyHostCanSeal.into()),
            )
        } else {
            // Whoever sent the request is no longer in the room.
            RoomAction::Wait
        }
    }

    /// Let a player leave the room, and close its connection if that is asked
    /// for. If the player is the host, then the room needs to be closed.
    fn on_leave<S>(&mut self, player_id: PlayerID, close: Option<(S, CloseCode)>) -> (action:
        RoomAction<S, T>)
        requires
            old(self)@.wf(),
        ensures
            leave_step(old(self)@, player_id, close, final(self)@, action),
            final(self)@.wf(),
    {
        if player_id == HOST_ID {
            RoomAction::CloseRoom {
                notification: RoomNotification::HostLeft,
                send_to_host: false,
                host_close: close,
            }
        } else {
            let task = self.on_disconnect(player_id);
            RoomAction::RemovePlayer {
                player_id,
                task,
                close,
                notify: self.player_ids(),
                notification: RoomNotification::PlayerLeft(player_id),
            }
        }
    }

    /// React to a client that wants to join the room.
    fn on_new_client<S>(&self, stream: S) -> (action: RoomAction<S, T>)
        requires
            self@.wf(),
        ensures
            join_step(self@, stream, self@, action),
    {
        proof {
            self.lemma_view_keys();
        }
        // Check if the room is full first.
        if int_map_len(&self.players) < self.max_players_per_room {
            // Make a new PlayerID for this client, that doesn't already exist in
            // the room.
            let player_id: PlayerID = unused_id(&self.players, FIRST_PLAYER_ID);
            RoomAction::AddPlayer {
                player_id,
                stream,
                notify: self.player_ids(),
                notification: RoomNotification::PlayerJoined(player_id),
            }
        } else {
            RoomAction::CloseClient(stream, CustomCloseCode::TooManyPlayers.into())
        }
    }

    /// The IDs of up to `count` players that are not the host.
    fn guest_ids(&self, count: usize) -> (ids: Vec<PlayerID>)
        requires
            self@.wf(),
        ensures
            ids@.no_duplicates(),
            ids@.to_set().subset_of(self@.guests()),
            ids@.len() <= count,
            ids@.len() < count ==> ids@.len() == self@.guests().len(),
            ids@.len() <= self@.guests().len(),
    {
        let all: Vec<PlayerID> = self.player_ids();
        let mut ids: Vec<PlayerID> = Vec::new();
        let mut i: usize = 0;
        while i < all.len() && ids.len() < count
            invariant
                0 <= i <= all@.len(),
                all@.no_duplicates(),
                all@.to_set() == self@.players.dom(),
                ids@.len() <= count,
                ids@.no_duplicates(),
                forall|id: PlayerID|
                    #[trigger] ids@.contains(id) <==> id != HOST_ID && all@.take(
                        i as int,
                    ).contains(id),
            decreases all@.len() - i,
        {
            let id: PlayerID = all[i];
            let ghost before = all@.take(i as int);
            let ghost after = all@.take(i + 1);
            assert(after =~= before.push(id));
            assert(!before.contains(id));
            assert forall|other: PlayerID|
                after.contains(other) <==> before.contains(other) || other == id by {
                if before.contains(other) {
                    let k = choose|k: int| 0 <= k < before.len() && before[k] == other;
                    assert(after[k] == other);
                }
                assert(after[i as int] == id);
            }
            let ghost chosen = ids@;
            assert(!chosen.contains(id));
            if id != HOST_ID {
                ids.push(id);
                assert(ids@ == chosen.push(id));
                assert forall|other: PlayerID|
                    ids@.contains(other) <==> chosen.contains(other) || other == id by {
                    if chosen.contains(other) {
                        let k = choose|k: int| 0 <= k < chosen.len() && chosen[k] == other;
                        assert(ids@[k] == other);
                    }
                    assert(ids@[chosen.len() as int] == id);
                }
            }
            assert forall|other: PlayerID| #[trigger]
                ids@.contains(other) <==> other != HOST_ID && after.contains(other) by {
                assert(chosen.contains(other) <==> other != HOST_ID && before.contains(other));
            }
            i = i + 1;
        }
        proof {
            ids@.unique_seq_to_set();
            assert forall|id: PlayerID| ids@.to_set().contains(id) implies self@.guests().contains(
                id,
            ) by {
                let taken = all@.take(i as int);
                let k = choose|k: int| 0 <= k < taken.len() && taken[k] == id;
                assert(all@[k] == id);
                assert(all@.to_set().contains(id));
            }
            vstd::set_lib::lemma_len_subset(ids@.to_set(), self@.guests());
            if ids@.len() < count {
                assert(all@.take(i as int) =~= all@);
                assert forall|id: PlayerID| self@.guests().contains(id) implies ids@.to_set().contains(
                    id,
                ) by {
                    assert(all@.to_set().contains(id));
                }
                assert(ids@.to_set() =~= self@.guests());
            }
        }
        ids
    }

    /// Adopt new limits. If there are more players in the room than allowed now,
    /// then some of them need to be kicked out until the maximum is satisfied.
    pub fn on_config_changed<S>(
        &mut self,
        max_players_per_room: usize,
        max_message_count: usize,
    ) -> (action: RoomAction<S, T>)
        requires
            old(self)@.wf(),
            max_players_per_room < u32::MAX,
        ensures
            config_step(
                old(self)@,
                max_players_per_room,
                max_message_count,
                final(self)@,
                action,
            ),
            final(self)@.wf(),
    {
        self.max_players_per_room = max_players_per_room;
        self.max_message_count = max_message_count;
        proof {
            self.lemma_view_keys();
        }
        let num_players: usize = int_map_len(&self.players);
        if num_players > max_players_per_room {
            let num_to_kick: usize = num_players - max_players_per_room;
            let kicked: Vec<PlayerID> = self.guest_ids(num_to_kick);
            RoomAction::Notify(
                kicked,
                RoomNotification::Error(CustomCloseCode::TooManyPlayers.into()),
            )
        } else {
            RoomAction::Wait
        }
    }

    /// React to a request from a player.
    fn on_request<S>(&mut self, request: RoomRequest) -> (action: RoomAction<S, T>)
        requires
            old(self)@.wf(),
        ensures
            request_step(old(self)@, request, final(self)@, action),
            final(self)@.wf(),
    {
        let from: PlayerID = request.player_id;
        match request.command {
            RoomCommand::SealRoom => self.try_seal_room(from),
            RoomCommand::SendOffer(to, payload) => {
                self.try_send_message(from, to, MessageType::Offer, payload)
            },
            RoomCommand::SendAnswer(to, payload) => {
                self.try_send_message(from, to, MessageType::Answer, payload)
            },
            RoomCommand::SendCandidate(to, payload) => {
                self.try_send_message(from, to, MessageType::Candidate, payload)
            },
            RoomCommand::DropConnection => self.on_leave(from, None),
        }
    }

    /// React to an event.
    pub fn on_event<S>(&mut self, event: RoomEvent<S>) -> (action: RoomAction<S, T>)
        requires
            old(self)@.wf(),
            event matches RoomEvent::ConfigChanged { max_players_per_room, .. }
                ==> max_players_per_room < u32::MAX,
        ensures
            room_step(old(self)@, event, final(self)@, action),
            final(self)@.wf(),
    {
        match event {
            RoomEvent::NewClient(stream) => self.on_new_client(stream),
            RoomEvent::Request(request) => self.on_request(request),
            RoomEvent::CloseRequest(player_id, stream, close_code) => {
                self.on_leave(player_id, Some((stream, close_code)))
            },
            RoomEvent::ConfigChanged { max_players_per_room, max_message_count } => {
                self.on_config_changed(max_players_per_room, max_message_count)
            },
            // If the lobby or the players are gone, something's gone very wrong.
            RoomEvent::LobbyGone => RoomAction::Stop,
            RoomEvent::RequestsGone => RoomAction::Stop,
            RoomEvent::CloseRequestsGone => RoomAction::Stop,
            // Just let all of the players drop without sending them close
            // messages.
            RoomEvent::Shutdown => RoomAction::Stop,
        }
    }
}

impl<T> Room<T> {
    /// Remove all of the players from the room, so that their tasks can be
    /// closed. The players come in no particular order.
    pub fn drain(&mut self) -> (removed: Vec<(PlayerID, T)>)
        requires
            old(self)@.wf(),
        ensures
            final(self)@ == (RoomView { players: Map::empty(), ..old(self)@ }),
            final(self)@.wf(),
            lists_tasks(old(self)@, removed@),
            removed@.len() == old(self)@.players.len(),
    {
        proof {
            self.lemma_view_keys();
        }
        let len: usize = int_map_len(&self.players);
        let mut entries: Vec<(PlayerID, PlayerTask<T>)> = int_map_take(&mut self.players, len);
        let ghost all = entries@;
        proof {
            int_map::lemma_all_taken(old(self).players@, all);
            assert(self@.players =~= Map::<PlayerID, PlayerTaskView<T>>::empty());
        }
        let mut removed: Vec<(PlayerID, T)> = Vec::new();
        while entries.len() > 0
            invariant
                entries@.len() + removed@.len() == all.len(),
                entries@ == all.take(entries@.len() as int),
                forall|i: int|
                    0 <= i < removed@.len() ==> {
                        &&& (#[trigger] removed@[i]).0 == all[all.len() - 1 - i].0
                        &&& removed@[i].1 == all[all.len() - 1 - i].1@.task
                    },
            decreases entries@.len(),
        {
            let ghost last = entries@.len() - 1;
            if let Some((player_id, player)) = entries.pop() {
                assert((player_id, player) == all[last]);
                removed.push((player_id, player.into_task()));
            }
        }
        proof {
            lemma_reversed_tasks(old(self)@, old(self).players@, all, removed@);
        }
        removed
    }
}

/// The players in a list.
pub open spec fn listed_players<T>(list: Seq<(PlayerID, T)>) -> Seq<PlayerID> {
    list.map_values(|player: (PlayerID, T)| player.0)
}

/// Whether the list holds players of the room and their tasks, none of them twice.
pub open spec fn lists_tasks<T>(room: RoomView<T>, list: Seq<(PlayerID, T)>) -> bool {
    &&& listed_players(list).no_duplicates()
    &&& forall|i: int|
        0 <= i < list.len() ==> room.task_of((#[trigger] list[i]).0) == Some(list[i].1)
}

/// Turning the entries of a map of players around gives a list of their tasks.
proof fn lemma_reversed_tasks<T>(
    room: RoomView<T>,
    players: Map<PlayerID, PlayerTask<T>>,
    entries: Seq<(PlayerID, PlayerTask<T>)>,
    list: Seq<(PlayerID, T)>,
)
    requires
        room.players == players.map_values(|player: PlayerTask<T>| player@),
        int_map::are_entries(players, entries),
        list.len() == entries.len(),
        forall|i: int|
            0 <= i < list.len() ==> {
                &&& (#[trigger] list[i]).0 == entries[entries.len() - 1 - i].0
                &&& list[i].1 == entries[entries.len() - 1 - i].1@.task
            },
    ensures
        lists_tasks(room, list),
{
    let keys = int_map::entry_keys(entries);
    let ids = listed_players(list);
    assert forall|i: int| 0 <= i < list.len() implies room.task_of((#[trigger] list[i]).0) == Some(
        list[i].1,
    ) by {
        let entry = entries[entries.len() - 1 - i];
        assert(players.contains_key(entry.0));
    }
    assert forall|i: int, j: int| 0 <= i < ids.len() && 0 <= j < ids.len() && i != j implies ids[i]
        != ids[j] by {
        assert(list[i].0 == keys[entries.len() - 1 - i]);
        assert(list[j].0 == keys[entries.len() - 1 - j]);
    }
}

/// Something that happens to a room while it waits for its players to close.
#[derive(Debug, PartialEq, Eq)]
pub enum ClosingEvent<S> {
    /// A player sent a request.
    Request(RoomRequest),
    /// There is nobody left to send requests.
    RequestsGone,
    /// A player asks for its connection to be closed with the given code.
    CloseRequest(PlayerID, S, CloseCode),
    /// There is nobody left to ask for its connection to be closed.
    CloseRequestsGone,
}

/// What a room does next while it waits for its players to close.
#[derive(Debug, PartialEq, Eq)]
pub enum ClosingAction<T> {
    /// Wait for the next event.
    Wait,
    /// Wait for the task of a player to finish.
    Await(T),
    /// Abort the task of a player.
    Abort(T),
    /// Stop waiting.
    Stop,
}

/// The players that have yet to close, and the connections that have to be
/// closed.
pub struct RoomClosingView<S, T> {
    pub to_await: Map<PlayerID, T>,
    pub to_close: Seq<(PlayerID, S, CloseCode)>,
}

/// The task of a player that has closed has to be waited for.
pub open spec fn await_player<T>(to_await: Map<PlayerID, T>, player_id: PlayerID) -> ClosingAction<
    T,
> {
    if to_await.contains_key(player_id) {
        ClosingAction::Await(to_await[player_id])
    } else {
        ClosingAction::Wait
    }
}

impl<S, T> RoomClosingView<S, T> {
    /// Whether there are finitely many players to wait for.
    pub open spec fn wf(self) -> bool {
        self.to_await.dom().finite()
    }

    /// The reaction to an event.
    pub open spec fn action_for(self, event: ClosingEvent<S>) -> ClosingAction<T> {
        match event {
            ClosingEvent::Request(request) => match request.command {
                RoomCommand::DropConnection => await_player(self.to_await, request.player_id),
                _ => ClosingAction::Wait,
            },
            ClosingEvent::CloseRequest(player_id, _, _) => await_player(self.to_await, player_id),
            ClosingEvent::RequestsGone => ClosingAction::Stop,
            ClosingEvent::CloseRequestsGone => ClosingAction::Stop,
        }
    }

    /// The state after an event.
    pub open spec fn after(self, event: ClosingEvent<S>) -> RoomClosingView<S, T> {
        match event {
            ClosingEvent::Request(request) => match request.command {
                RoomCommand::DropConnection => RoomClosingView {
                    to_await: self.to_await.remove(request.player_id),
                    ..self
                },
                _ => self,
            },
            ClosingEvent::CloseRequest(player_id, stream, close_code) => RoomClosingView {
                to_await: self.to_await.remove(player_id),
                to_close: self.to_close.push((player_id, stream, close_code)),
            },
            ClosingEvent::RequestsGone => self,
            ClosingEvent::CloseRequestsGone => self,
        }
    }
}

/// A room that is being closed.
///
/// Every player is sent a notification that makes them ask for their connection
/// to be closed. Once they have all done so, or have dropped their connections,
/// the connections can be closed with the codes that they asked for.
#[derive(Debug)]
pub struct RoomClosing<S, T> {
    to_await: IntMap<PlayerID, T>,
    to_close: Vec<(PlayerID, S, CloseCode)>,
}

impl<S, T> View for RoomClosing<S, T> {
    type V = RoomClosingView<S, T>;

    closed spec fn view(&self) -> RoomClosingView<S, T> {
        RoomClosingView { to_await: self.to_await@, to_close: self.to_close@ }
    }
}

/// Whether a player should be sent a notification when the room is closed. If we
/// don't want to send a notification to the host, then we are assuming that the
/// host's task has ended some other way.
pub fn should_notify(player_id: PlayerID, send_to_host: bool) -> (notify: bool)
    ensures
        notify == (send_to_host || player_id != HOST_ID),
{
    send_to_host || player_id != HOST_ID
}

impl<S, T> RoomClosing<S, T> {
    /// Start without any players to wait for.
    pub fn new() -> (closing: Self)
        ensures
            closing@.to_await == Map::<PlayerID, T>::empty(),
            closing@.to_close == Seq::<(PlayerID, S, CloseCode)>::empty(),
            closing@.wf(),
    {
        RoomClosing { to_await: int_map_new(), to_close: Vec::new() }
    }

    /// Keep track of a player that was sent a notification. If the notification
    /// failed to send, that can only mean that the player's task ended early, so
    /// it can be waited for right away.
    pub fn on_notified(&mut self, player_id: PlayerID, task: T, sent: bool) -> (action:
        ClosingAction<T>)
        requires
            old(self)@.wf(),
        ensures
            final(self)@.wf(),
            final(self)@.to_close == old(self)@.to_close,
            sent ==> final(self)@.to_await == old(self)@.to_await.insert(player_id, task),
            sent ==> action == if old(self)@.to_await.contains_key(player_id) {
                ClosingAction::Abort(old(self)@.to_await[player_id])
            } else {
                ClosingAction::Wait
            },
            !sent ==> final(self)@.to_await == old(self)@.to_await,
            !sent ==> action == ClosingAction::Await(task),
    {
        if sent {
            match int_map_insert(&mut self.to_await, player_id, task) {
                Some(replaced) => ClosingAction::Abort(replaced),
                None => ClosingAction::Wait,
            }
        } else {
            ClosingAction::Await(task)
        }
    }

    /// Check if there are no players left to wait for.
    pub fn is_done(&self) -> (done: bool)
        requires
            self@.wf(),
        ensures
            done == (self@.to_await == Map::<PlayerID, T>::empty()),
    {
        let done = int_map_len(&self.to_await) == 0;
        proof {
            if done {
                assert(self@.to_await =~= Map::<PlayerID, T>::empty());
            }
        }
        done
    }

    /// Stop waiting for a player that has closed.
    fn on_closed(&mut self, player_id: PlayerID) -> (action: ClosingAction<T>)
        ensures
            final(self)@.to_await == old(self)@.to_await.remove(player_id),
            final(self)@.to_close == old(self)@.to_close,
            action == await_player(old(self)@.to_await, player_id),
    {
        match int_map_remove(&mut self.to_await, player_id) {
            Some(task) => ClosingAction::Await(task),
            None => ClosingAction::Wait,
        }
    }

    /// React to an event.
    ///
    /// It's possible that at least one of the player tasks is waiting to send a
    /// request or a close to the room, so all requests are taken in, but only
    /// those to close or to drop a connection matter.
    pub fn on_event(&mut self, event: ClosingEvent<S>) -> (action: ClosingAction<T>)
        requires
            old(self)@.wf(),
        ensures
            final(self)@.wf(),
            final(self)@ == old(self)@.after(event),
            action == old(self)@.action_for(event),
    {
        match event {
            ClosingEvent::Request(request) => match request.command {
                RoomCommand::DropConnection => self.on_closed(request.player_id),
                // Ignore all other requests at this stage.
                _ => ClosingAction::Wait,
            },
            ClosingEvent::CloseRequest(player_id, stream, close_code) => {
                self.to_close.push((player_id, stream, close_code));
                self.on_closed(player_id)
            },
            ClosingEvent::RequestsGone => ClosingAction::Stop,
            ClosingEvent::CloseRequestsGone => ClosingAction::Stop,
        }
    }

    /// The connections that have to be closed now, in the order in which the
    /// players asked for it.
    pub fn into_closes(self) -> (closes: Vec<(PlayerID, S, CloseCode)>)
        ensures
            closes@ == self@.to_close,
    {
        self.to_close
    }
}

/// A step on the way to the end of a room, once it has stopped.
#[derive(Debug, PartialEq, Eq)]
pub enum RoomShutdownStep {
    /// Send a control signal to the lobby.
    SendControl(LobbyControl),
    /// Take in the requests to close connections until there is nobody left to
    /// send them, so that no player is stuck while trying to send one.
    DrainCloseRequests,
    /// Take in the other requests until there is nobody left to send them.
    DrainRequests,
    /// Wait for the tasks of the players that are left.
    AwaitPlayers,
    /// Close the connections of the clients that the lobby sent just before it
    /// got to know that the room is sealed, with the given code.
    CloseLateClients(CloseCode),
    /// Wait for the connections to be closed.
    AwaitCloses,
}

/// The steps on the way to the end of a room. The lobby has to know that the room
/// is sealed before anything else, so that it does not let any more clients join
/// the room, and it has to know that the room is closed when everything is done,
/// since the room code can be used again after that.
pub open spec fn shutdown_sequence(room_code: RoomCode) -> Seq<RoomShutdownStep> {
    seq![
        RoomShutdownStep::SendControl(LobbyControl::SealRoom(room_code)),
        RoomShutdownStep::DrainCloseRequests,
        RoomShutdownStep::DrainRequests,
        RoomShutdownStep::AwaitPlayers,
        RoomShutdownStep::CloseLateClients(CustomCloseCode::RoomSealed.spec_close_code()),
        RoomShutdownStep::AwaitCloses,
        RoomShutdownStep::SendControl(LobbyControl::CloseRoom(room_code)),
    ]
}

/// The steps on the way to the end of a room, in order.
pub fn shutdown_steps(room_code: RoomCode) -> (steps: Vec<RoomShutdownStep>)
    ensures
        steps@ == shutdown_sequence(room_code),
{
    let mut steps: Vec<RoomShutdownStep> = Vec::new();
    steps.push(RoomShutdownStep::SendControl(LobbyControl::SealRoom(room_code)));
    steps.push(RoomShutdownStep::DrainCloseRequests);
    steps.push(RoomShutdownStep::DrainRequests);
    steps.push(RoomShutdownStep::AwaitPlayers);
    steps.push(RoomShutdownStep::CloseLateClients(CustomCloseCode::RoomSealed.into()));
    steps.push(RoomShutdownStep::AwaitCloses);
    steps.push(RoomShutdownStep::SendControl(LobbyControl::CloseRoom(room_code)));
    assert(steps@ =~= shutdown_sequence(room_code));
    steps
}

/// The action that sends a notification to one player.
fn notify_one<S, T>(player_id: PlayerID, notification: RoomNotification) -> (action: RoomAction<
    S,
    T,
>)
    ensures
        notifies(action, player_id, notification),
{
    let mut players: Vec<PlayerID> = Vec::new();
    players.push(player_id);
    assert(players@ =~= seq![player_id]);
    RoomAction::Notify(players, notification)
}

/// A player is only added to a room that is not full, under an ID that nobody in
/// the room has, and that is not the host's. So the room never holds more players
/// than allowed because of a player that has joined.
pub proof fn law_joining_respects_the_maximum<S, T>(
    before: RoomView<T>,
    stream: S,
    after: RoomView<T>,
    action: RoomAction<S, T>,
    task: T,
)
    requires
        before.wf(),
        join_step(before, stream, after, action),
    ensures
        action matches RoomAction::AddPlayer { player_id, .. } ==> {
            &&& player_id != HOST_ID
            &&& !after.players.contains_key(player_id)
            &&& after.with_player(player_id, task).players.len() == before.players.len() + 1
            &&& after.with_player(player_id, task).players.len() <= before.max_players_per_room
        },
        before.players.len() >= before.max_players_per_room ==> !(action is AddPlayer),
{
    if let RoomAction::AddPlayer { player_id, .. } = action {
        assert(after.with_player(player_id, task).players.dom() =~= after.players.dom().insert(
            player_id,
        ));
    }
}

/// No event adds a player by itself, and the host stays in the room until the
/// room is closed.
pub proof fn law_host_stays<S, T>(
    before: RoomView<T>,
    event: RoomEvent<S>,
    after: RoomView<T>,
    action: RoomAction<S, T>,
)
    requires
        before.wf(),
        room_step(before, event, after, action),
    ensures
        after.room_code == before.room_code,
        after.players.dom().subset_of(before.players.dom()),
        before.players.contains_key(HOST_ID) ==> after.players.contains_key(HOST_ID),
        !(action is RemovePlayer) ==> after.players.dom() == before.players.dom(),
{
    if let RoomEvent::Request(request) = event {
        assert(after.players.dom() =~= before.players.dom() || action is RemovePlayer);
    }
}

/// Everyone in a room gets to know who joins it, and everyone who stays in it gets
/// to know who leaves it, unless that is the host.
pub proof fn law_players_are_informed<S, T>(
    before: RoomView<T>,
    event: RoomEvent<S>,
    after: RoomView<T>,
    action: RoomAction<S, T>,
    other_id: PlayerID,
)
    requires
        before.wf(),
        room_step(before, event, after, action),
        after.players.contains_key(other_id),
    ensures
        action matches RoomAction::AddPlayer { player_id, notify, notification, .. } ==> {
            &&& notify@.contains(other_id)
            &&& in_room::notification_action(notification) == InRoomActionView::SendText(
                in_room::id_line("N: "@, player_id),
            )
        },
        action matches RoomAction::RemovePlayer { player_id, notify, notification, .. } ==> {
            &&& notify@.contains(other_id)
            &&& !notify@.contains(player_id)
            &&& in_room::notification_action(notification) == InRoomActionView::SendText(
                in_room::id_line("D: "@, player_id),
            )
        },
{
    match action {
        RoomAction::AddPlayer { notify, .. } => {
            assert(notify@.to_set().contains(other_id));
        },
        RoomAction::RemovePlayer { player_id, notify, .. } => {
            assert(notify@.to_set().contains(other_id));
            if notify@.contains(player_id) {
                assert(notify@.to_set().contains(player_id));
            }
        },
        _ => {},
    }
}

/// A room is closed exactly when its host seals it, drops its connection, or asks
/// for its connection to be closed.
pub proof fn law_only_the_host_closes_the_room<S, T>(
    before: RoomView<T>,
    event: RoomEvent<S>,
    after: RoomView<T>,
    action: RoomAction<S, T>,
)
    requires
        before.wf(),
        room_step(before, event, after, action),
    ensures
        action is CloseRoom <==> match event {
            RoomEvent::Request(request) => request.player_id == HOST_ID && (
            request.command is SealRoom || request.command is DropConnection),
            RoomEvent::CloseRequest(player_id, _, _) => player_id == HOST_ID,
            _ => false,
        },
        action matches RoomAction::CloseRoom { notification, send_to_host, .. } ==> {
            ||| notification == RoomNotification::RoomSealed && send_to_host
            ||| notification == RoomNotification::HostLeft && !send_to_host
        },
        after == before || !(action is CloseRoom),
{
}

/// A message only ever reaches a player who is in the room, from another player
/// who is in the room. It is counted, and no other count changes. The number of
/// messages that get through from one player to another is limited.
pub proof fn law_delivered_messages_are_counted<S, T>(
    before: RoomView<T>,
    sender_id: PlayerID,
    receiver_id: PlayerID,
    message: RoomNotification,
    after: RoomView<T>,
    action: RoomAction<S, T>,
    other_sender: PlayerID,
    other_receiver: PlayerID,
)
    requires
        before.wf(),
        !(message is Error),
        message_step(before, sender_id, receiver_id, message, after, action),
    ensures
        (exists|player_id: PlayerID| #[trigger] notifies(action, player_id, message)) <==> {
            &&& before.players.contains_key(sender_id)
            &&& before.players.contains_key(receiver_id)
            &&& sender_id != receiver_id
            &&& before.count(sender_id, receiver_id) < before.max_message_count
        },
        forall|player_id: PlayerID| #[trigger]
            notifies(action, player_id, message) ==> {
                &&& player_id == receiver_id
                &&& after.count(sender_id, receiver_id) == before.count(sender_id, receiver_id) + 1
                &&& after.count(sender_id, receiver_id) <= before.max_message_count
            },
        after.players.dom() == before.players.dom(),
        other_sender != sender_id || other_receiver != receiver_id ==> after.count(
            other_sender,
            other_receiver,
        ) == before.count(other_sender, other_receiver),
{
    assert(after.players.dom() =~= before.players.dom());
    let delivered = before.players.contains_key(sender_id) && before.players.contains_key(
        receiver_id,
    ) && sender_id != receiver_id && before.count(sender_id, receiver_id)
        < before.max_message_count;
    if delivered {
        assert(notifies(action, receiver_id, message));
    }
    assert forall|player_id: PlayerID| notifies(action, player_id, message) implies player_id
        == receiver_id && delivered by {
        if let RoomAction::Notify(players, sent) = action {
            assert(players@[0] == player_id);
            assert(!delivered ==> sent is Error);
            assert(delivered ==> players@ == seq![receiver_id]);
            assert(seq![receiver_id][0] == receiver_id);
        }
    }
}

/// A player who has disconnected is forgotten: nobody has sent any messages to
/// them, and if their ID is used again, they have not sent any messages either.
pub proof fn law_disconnected_players_are_forgotten<T>(
    before: RoomView<T>,
    player_id: PlayerID,
    other_id: PlayerID,
    task: T,
)
    requires
        before.wf(),
        before.players.contains_key(other_id),
        other_id != player_id,
    ensures
        !before.without_player(player_id).players.contains_key(player_id),
        before.without_player(player_id).players.contains_key(other_id),
        before.without_player(player_id).count(other_id, player_id) == 0,
        before.without_player(player_id).with_player(player_id, task).count(
            player_id,
            other_id,
        ) == 0,
        before.without_player(player_id).with_player(player_id, task).count(
            other_id,
            player_id,
        ) == 0,
{
}

/// When the limits change, exactly as many players are kicked as there are too
/// many of, none of them the host, as long as at least one player is allowed in a
/// room.
pub proof fn law_kicking_restores_the_maximum<S, T>(
    before: RoomView<T>,
    max_players_per_room: usize,
    max_message_count: usize,
    after: RoomView<T>,
    action: RoomAction<S, T>,
)
    requires
        before.wf(),
        max_players_per_room >= 1,
        config_step(before, max_players_per_room, max_message_count, after, action),
    ensures
        before.players.len() <= max_players_per_room ==> action == RoomAction::<S, T>::Wait,
        before.players.len() > max_players_per_room ==> (action matches RoomAction::Notify(
            kicked,
            _,
        ) && !kicked@.contains(HOST_ID) && before.players.len() - kicked@.len()
            == max_players_per_room),
        after.players == before.players,
{
    if let RoomAction::Notify(kicked, _) = action {
        if kicked@.contains(HOST_ID) {
            assert(kicked@.to_set().contains(HOST_ID));
        }
    }
}

/// While a room is being closed, every player that drops its connection or asks
/// for it to be closed is no longer waited for, and nobody else is affected.
pub proof fn law_closing_makes_progress<S, T>(
    closing: RoomClosingView<S, T>,
    player_id: PlayerID,
    stream: S,
    close_code: CloseCode,
)
    requires
        closing.wf(),
        closing.to_await.contains_key(player_id),
    ensures
        ({
            let drop = ClosingEvent::Request(
                RoomRequest { player_id, command: RoomCommand::DropConnection },
            );
            let close = ClosingEvent::CloseRequest(player_id, stream, close_code);
            &&& closing.action_for(drop) == ClosingAction::Await(closing.to_await[player_id])
            &&& closing.action_for(close) == ClosingAction::Await(closing.to_await[player_id])
            &&& closing.after(drop).to_await == closing.to_await.remove(player_id)
            &&& closing.after(close).to_await == closing.to_await.remove(player_id)
            &&& closing.after(drop).to_await.len() == closing.to_await.len() - 1
            &&& closing.after(drop).to_close == closing.to_close
            &&& closing.after(close).to_close == closing.to_close.push(
                (player_id, stream, close_code),
            )
        }),
{
    assert(closing.to_await.remove(player_id).dom() =~= closing.to_await.dom().remove(player_id));
}

/// The lobby gets to know that a room is sealed before anything else happens, and
/// that it is closed only after everything else has been done. Clients that come
/// too late are told that the room is sealed.
pub proof fn law_seal_first_close_last(room_code: RoomCode, i: int)
    requires
        0 <= i < shutdown_sequence(room_code).len(),
    ensures
        shutdown_sequence(room_code)[i] == RoomShutdownStep::SendControl(
            LobbyControl::SealRoom(room_code),
        ) <==> i == 0,
        shutdown_sequence(room_code)[i] == RoomShutdownStep::SendControl(
            LobbyControl::CloseRoom(room_code),
        ) <==> i == shutdown_sequence(room_code).len() - 1,
        shutdown_sequence(room_code)[i] matches RoomShutdownStep::CloseLateClients(code) ==> code
            == CustomCloseCode::RoomSealed.spec_close_code(),
{
}

/// Whether no player has sent more than `limit` messages to any other player.
pub open spec fn counts_within<T>(room: RoomView<T>, limit: usize) -> bool {
    forall|sender_id: PlayerID, receiver_id: PlayerID|
        room.players.contains_key(sender_id) ==> #[trigger] room.count(sender_id, receiver_id)
            <= limit
}

/// As long as the maximum is not raised above a limit, no player ever gets more
/// messages through to another player than that limit.
pub proof fn law_counts_stay_within_the_limit<S, T>(
    before: RoomView<T>,
    event: RoomEvent<S>,
    after: RoomView<T>,
    action: RoomAction<S, T>,
    limit: usize,
    new_id: PlayerID,
    task: T,
)
    requires
        before.wf(),
        before.max_message_count <= limit,
        counts_within(before, limit),
        room_step(before, event, after, action),
    ensures
        counts_within(after, limit),
        counts_within(after.with_player(new_id, task), limit),
{
    assert forall|sender_id: PlayerID, receiver_id: PlayerID| after.players.contains_key(
        sender_id,
    ) implies #[trigger] after.count(sender_id, receiver_id) <= limit by {
        assert(before.players.contains_key(sender_id));
        assert(before.count(sender_id, receiver_id) <= limit);
    }
    let joined = after.with_player(new_id, task);
    assert forall|sender_id: PlayerID, receiver_id: PlayerID| joined.players.contains_key(
        sender_id,
    ) implies #[trigger] joined.count(sender_id, receiver_id) <= limit by {
        if sender_id != new_id {
            assert(after.count(sender_id, receiver_id) <= limit);
        }
    }
}

/// A message that the client of one player sends to another player in the same
/// room arrives at the client of that player, with the same payload, and with the
/// ID of the sender in place of that of the receiver.
pub proof fn law_messages_are_relayed<S, T>(
    before: RoomView<T>,
    sender_id: PlayerID,
    receiver_id: PlayerID,
    payload: String,
    after: RoomView<T>,
    offer_action: RoomAction<S, T>,
    answer_action: RoomAction<S, T>,
    candidate_action: RoomAction<S, T>,
)
    requires
        before.wf(),
        before.players.contains_key(sender_id),
        before.players.contains_key(receiver_id),
        sender_id != receiver_id,
        before.count(sender_id, receiver_id) < before.max_message_count,
        payload@.len() > 0,
        request_step(
            before,
            (RoomRequest {
                player_id: sender_id,
                command: RoomCommand::SendOffer(receiver_id, payload),
            }),
            after,
            offer_action,
        ),
        request_step(
            before,
            (RoomRequest {
                player_id: sender_id,
                command: RoomCommand::SendAnswer(receiver_id, payload),
            }),
            after,
            answer_action,
        ),
        request_step(
            before,
            (RoomRequest {
                player_id: sender_id,
                command: RoomCommand::SendCandidate(receiver_id, payload),
            }),
            after,
            candidate_action,
        ),
    ensures
        in_room::text_action("O: "@ + text::decimal(receiver_id as nat) + "\n"@ + payload@)
            == InRoomActionView::SendOffer(receiver_id, payload@),
        in_room::text_action("A: "@ + text::decimal(receiver_id as nat) + "\n"@ + payload@)
            == InRoomActionView::SendAnswer(receiver_id, payload@),
        in_room::text_action("C: "@ + text::decimal(receiver_id as nat) + "\n"@ + payload@)
            == InRoomActionView::SendCandidate(receiver_id, payload@),
        relays(
            offer_action,
            receiver_id,
            "O: "@ + text::decimal(sender_id as nat) + "\n"@ + payload@,
        ),
        relays(
            answer_action,
            receiver_id,
            "A: "@ + text::decimal(sender_id as nat) + "\n"@ + payload@,
        ),
        relays(
            candidate_action,
            receiver_id,
            "C: "@ + text::decimal(sender_id as nat) + "\n"@ + payload@,
        ),
{
    player::law_addressed_message_is_parsed(receiver_id, payload@);
}

/// Whether the action has the given player send the given text to its client, and
/// nobody else do anything.
pub open spec fn relays<S, T>(
    action: RoomAction<S, T>,
    player_id: PlayerID,
    text: Seq<char>,
) -> bool {
    action matches RoomAction::Notify(players, notification) && players@ == seq![player_id]
        && in_room::notification_action(notification) == InRoomActionView::SendText(text)
}

} // verus!
