//! The lobby, which keeps track of the rooms, and of the players that are
//! waiting to create or join one.
//!
//! The type parameter `J` of a [`Lobby`] stands for the task that waits for the
//! request of a player, `R` for the task of a room, and `S` for the stream to a
//! client: the lobby keeps them and hands them over, but does not look into them.

use crate::close_code::{CloseCode, CustomCloseCode};
use crate::config::VariableConfig;
use crate::identifiers::{unused_id, unused_room_code};
use crate::int_map::{
    int_map_get, int_map_get_mut, int_map_insert, int_map_len, int_map_new, int_map_remove,
    int_map_take,
};
use crate::message::{LobbyCommand, LobbyControl, LobbyRequest};
use crate::player::{ClientUniqueID, HandleID};
use crate::profanity::ProfanityList;
use crate::room_code::{RoomCode, NUM_ROOM_CODES};
use crate::{int_map, profanity, room_code};
use nohash_hasher::IntMap;
use vstd::prelude::*;

verus! {

/// The number of [`LobbyRequest`]s that can be stored in the lobby before the
/// players need to wait to send them.
pub const LOBBY_REQUEST_CHANNEL_BUFFER_SIZE: usize = 50;

/// The number of streams that can be stored on the way to the client joining a
/// given room, before they start getting dropped due to the channel being full.
pub const NEW_CLIENT_CHANNEL_BUFFER_SIZE: usize = 10;

/// The number of [`LobbyControl`]s that can be sent by rooms before the room
/// tasks need to wait to send them.
pub const LOBBY_CONTROL_CHANNEL_BUFFER_SIZE: usize = 50;

/// A wrapper around the task of a room.
#[derive(Debug, PartialEq, Eq)]
pub struct RoomTask<R> {
    /// The task itself, which handles communication with clients in the room.
    pub task: R,
    /// A flag indicating if the room is sealed.
    ///
    /// This should be set to `true` once the room gives the
    /// [`LobbyControl::SealRoom`] signal, indicating that no new players should
    /// be able to join the room, and that the room is in the process of closing.
    pub is_sealed: bool,
}

/// The number under which a room is kept.
pub open spec fn room_number(code: RoomCode) -> u32 {
    room_code::code_value(code@) as u32
}

/// The players that are waiting, the rooms by their numbers, and the limits that
/// apply to the lobby.
pub struct LobbyView<J, R> {
    pub join_queue: Map<HandleID, J>,
    pub rooms: Map<u32, RoomTask<R>>,
    pub profanity: Seq<Seq<u8>>,
    pub max_rooms: usize,
    pub player_queue_capacity: usize,
    pub join_room_time_limit_secs: u64,
}

impl<J, R> LobbyView<J, R> {
    /// Whether the lobby is in order: there are finitely many players and rooms,
    /// every room is kept under the number of a room code, and there would be
    /// enough identifiers for as many of them as are allowed.
    pub open spec fn wf(self) -> bool {
        &&& self.join_queue.dom().finite()
        &&& self.rooms.dom().finite()
        &&& forall|number: u32| #[trigger]
            self.rooms.contains_key(number) ==> room_code::is_code(room_code::value_bytes(number))
        &&& profanity::profane_numbers(self.profanity).finite()
        &&& self.max_rooms + profanity::profane_numbers(self.profanity).len()
            <= room_code::NUM_ROOM_CODES
        &&& self.player_queue_capacity <= u32::MAX
    }

    /// The lobby once a player has been added to the queue.
    pub open spec fn with_joining(self, handle_id: HandleID, task: J) -> LobbyView<J, R> {
        LobbyView { join_queue: self.join_queue.insert(handle_id, task), ..self }
    }

    /// The lobby once a player has been removed from the queue.
    pub open spec fn without_joining(self, handle_id: HandleID) -> LobbyView<J, R> {
        LobbyView { join_queue: self.join_queue.remove(handle_id), ..self }
    }

    /// The lobby once a room has been added, which is not sealed.
    pub open spec fn with_room(self, code: RoomCode, task: R) -> LobbyView<J, R> {
        LobbyView {
            rooms: self.rooms.insert(room_number(code), RoomTask { task, is_sealed: false }),
            ..self
        }
    }

    /// The lobby once a room has been sealed.
    pub open spec fn with_sealed_room(self, code: RoomCode) -> LobbyView<J, R> {
        if self.rooms.contains_key(room_number(code)) {
            LobbyView {
                rooms: self.rooms.insert(
                    room_number(code),
                    RoomTask { task: self.rooms[room_number(code)].task, is_sealed: true },
                ),
                ..self
            }
        } else {
            self
        }
    }

    /// The lobby once a room has been removed.
    pub open spec fn without_room(self, code: RoomCode) -> LobbyView<J, R> {
        LobbyView { rooms: self.rooms.remove(room_number(code)), ..self }
    }

    /// The lobby with the limits of the given configuration.
    pub open spec fn with_config(self, config: VariableConfig) -> LobbyView<J, R> {
        LobbyView {
            max_rooms: config.max_rooms,
            player_queue_capacity: config.player_queue_capacity,
            join_room_time_limit_secs: config.join_room_time_limit_secs,
            ..self
        }
    }
}

/// Whether there are enough room codes and handle IDs for as many rooms and
/// players as the configuration allows, given the list of room codes that must not
/// be used.
pub open spec fn is_feasible(config: VariableConfig, profanity: Seq<Seq<u8>>) -> bool {
    &&& config.max_rooms + profanity::profane_numbers(profanity).len() <= room_code::NUM_ROOM_CODES
    &&& config.player_queue_capacity <= u32::MAX
}

/// Check if there are enough room codes and handle IDs for as many rooms and
/// players as the configuration allows.
pub fn check_feasible(config: &VariableConfig, profanity: &ProfanityList) -> (feasible: bool)
    ensures
        feasible == is_feasible(*config, profanity@),
{
    let count: usize = profanity.count_codes();
    count <= NUM_ROOM_CODES && config.max_rooms <= NUM_ROOM_CODES - count
        && config.player_queue_capacity as u64 <= u32::MAX as u64
}

/// Something that the lobby has to react to.
#[derive(Debug, PartialEq, Eq)]
pub enum LobbyEvent<S> {
    /// A connection has just been established with a client.
    Connection(S),
    /// A player in the join queue sent a request.
    Request(LobbyRequest, S),
    /// A room sent a control signal.
    Control(LobbyControl),
    /// The configuration of the server has changed.
    ConfigChanged(VariableConfig),
    /// The server is shutting down.
    Shutdown,
}

/// What the lobby does next.
#[derive(Debug, PartialEq, Eq)]
pub enum LobbyAction<S, R> {
    /// Wait for the next event.
    Wait,
    /// Close the connection with a client.
    CloseClient { stream: S, close_code: CloseCode, client_id: Option<ClientUniqueID> },
    /// Let the connection with a client drop.
    DropClient(S),
    /// Start a task that waits for the request of a client, for as many seconds
    /// as given, and add it to the join queue.
    StartJoining { handle_id: HandleID, stream: S, max_wait_secs: u64 },
    /// Start a room with the given code and the given client as the host, and
    /// add it to the lobby.
    CreateRoom { room_code: RoomCode, stream: S },
    /// Send a client to the room with the given code.
    SendToRoom { room_code: RoomCode, handle_id: HandleID, stream: S },
    /// Wait for the task of a room that has closed to finish.
    AwaitRoom(R),
    /// Abort the tasks of the given rooms.
    AbortRooms(Vec<(RoomCode, R)>),
    /// Stop, and shut down.
    Stop,
}

/// The action that closes the connection of a client that was waiting to join.
pub open spec fn close_joining<S, R>(
    stream: S,
    close_code: CloseCode,
    handle_id: HandleID,
) -> LobbyAction<S, R> {
    LobbyAction::CloseClient {
        stream,
        close_code,
        client_id: Some(ClientUniqueID::IsJoining(handle_id)),
    }
}

/// The action that sends a client to the room with the given code.
pub open spec fn send_to_room<S, R>(
    room_code: RoomCode,
    handle_id: HandleID,
    stream: S,
) -> LobbyAction<S, R> {
    LobbyAction::SendToRoom { room_code, handle_id, stream }
}

/// How the lobby reacts to a new connection.
pub open spec fn connection_step<S, J, R>(
    before: LobbyView<J, R>,
    client: S,
    after: LobbyView<J, R>,
    action: LobbyAction<S, R>,
) -> bool {
    &&& after == before
    &&& if before.join_queue.len() < before.player_queue_capacity {
        &&& action matches LobbyAction::StartJoining { handle_id, stream, max_wait_secs }
        &&& stream == client
        &&& !before.join_queue.contains_key(handle_id)
        &&& max_wait_secs == before.join_room_time_limit_secs
    } else {
        action == LobbyAction::<S, R>::CloseClient {
            stream: client,
            close_code: CustomCloseCode::JoinQueueFull.spec_close_code(),
            client_id: None,
        }
    }
}

/// How the lobby reacts to a request to create a room.
pub open spec fn create_step<S, J, R>(
    lobby: LobbyView<J, R>,
    handle_id: HandleID,
    client: S,
    action: LobbyAction<S, R>,
) -> bool {
    if lobby.rooms.len() < lobby.max_rooms {
        &&& action matches LobbyAction::CreateRoom { room_code: code, stream }
        &&& stream == client
        &&& room_code::is_code(code@)
        &&& !lobby.rooms.contains_key(room_number(code))
        &&& !lobby.profanity.contains(code@)
    } else {
        action == close_joining::<S, R>(
            client,
            CustomCloseCode::TooManyRooms.spec_close_code(),
            handle_id,
        )
    }
}

/// How the lobby reacts to a request to join a room.
pub open spec fn join_action<S, J, R>(
    lobby: LobbyView<J, R>,
    handle_id: HandleID,
    code: RoomCode,
    client: S,
) -> LobbyAction<S, R> {
    if !lobby.rooms.contains_key(room_number(code)) {
        close_joining(client, CustomCloseCode::RoomDoesNotExist.spec_close_code(), handle_id)
    } else if lobby.rooms[room_number(code)].is_sealed {
        close_joining(client, CustomCloseCode::RoomSealed.spec_close_code(), handle_id)
    } else {
        send_to_room(code, handle_id, client)
    }
}

/// How the lobby reacts to a request from a player in the join queue.
pub open spec fn request_step<S, J, R>(
    before: LobbyView<J, R>,
    request: LobbyRequest,
    client: S,
    after: LobbyView<J, R>,
    action: LobbyAction<S, R>,
) -> bool {
    &&& after == before.without_joining(request.handle_id)
    &&& match request.command {
        LobbyCommand::CreateRoom => create_step(before, request.handle_id, client, action),
        LobbyCommand::JoinRoom(code) => action == join_action::<S, J, R>(
            before,
            request.handle_id,
            code,
            client,
        ),
        LobbyCommand::CloseConnection(code) => action == close_joining::<S, R>(
            client,
            code,
            request.handle_id,
        ),
        LobbyCommand::DropConnection => action == LobbyAction::<S, R>::DropClient(client),
    }
}

/// How the lobby reacts to a control signal from a room.
pub open spec fn control_step<S, J, R>(
    before: LobbyView<J, R>,
    control: LobbyControl,
    after: LobbyView<J, R>,
    action: LobbyAction<S, R>,
) -> bool {
    match control {
        LobbyControl::SealRoom(code) => {
            &&& after == before.with_sealed_room(code)
            &&& action == LobbyAction::<S, R>::Wait
        },
        LobbyControl::CloseRoom(code) => {
            &&& after == before.without_room(code)
            &&& action == if before.rooms.contains_key(room_number(code)) {
                LobbyAction::<S, R>::AwaitRoom(before.rooms[room_number(code)].task)
            } else {
                LobbyAction::<S, R>::Wait
            }
        },
    }
}

/// The numbers of the rooms in a list.
pub open spec fn listed_numbers<R>(list: Seq<(RoomCode, R)>) -> Seq<u32> {
    list.map_values(|room: (RoomCode, R)| room_number(room.0))
}

/// Whether the list holds rooms of the lobby and their tasks, none of them twice.
pub open spec fn lists_rooms<J, R>(lobby: LobbyView<J, R>, list: Seq<(RoomCode, R)>) -> bool {
    &&& listed_numbers(list).no_duplicates()
    &&& forall|i: int|
        0 <= i < list.len() ==> {
            &&& room_code::is_code((#[trigger] list[i]).0@)
            &&& lobby.rooms.contains_key(room_number(list[i].0))
            &&& lobby.rooms[room_number(list[i].0)].task == list[i].1
        }
}

/// How the lobby reacts to a new configuration. If there are more rooms than
/// allowed now, then exactly as many are closed as there are too many.
pub open spec fn config_step<S, J, R>(
    before: LobbyView<J, R>,
    config: VariableConfig,
    after: LobbyView<J, R>,
    action: LobbyAction<S, R>,
) -> bool {
    if before.rooms.len() <= config.max_rooms {
        after == before.with_config(config) && action == LobbyAction::<S, R>::Wait
    } else {
        &&& action matches LobbyAction::AbortRooms(closed)
        &&& lists_rooms(before, closed@)
        &&& closed@.len() == before.rooms.len() - config.max_rooms
        &&& after == (LobbyView {
            rooms: before.rooms.remove_keys(listed_numbers(closed@).to_set()),
            ..before.with_config(config)
        })
    }
}

/// How the lobby reacts to an event.
pub open spec fn lobby_step<S, J, R>(
    before: LobbyView<J, R>,
    event: LobbyEvent<S>,
    after: LobbyView<J, R>,
    action: LobbyAction<S, R>,
) -> bool {
    match event {
        LobbyEvent::Connection(stream) => connection_step(before, stream, after, action),
        LobbyEvent::Request(request, stream) => request_step(
            before,
            request,
            stream,
            after,
            action,
        ),
        LobbyEvent::Control(control) => control_step(before, control, after, action),
        LobbyEvent::ConfigChanged(config) => config_step(before, config, after, action),
        LobbyEvent::Shutdown => after == before && action == LobbyAction::<S, R>::Stop,
    }
}

/// Keeps track of active rooms, and players waiting to create or join them.
#[derive(Debug)]
pub struct Lobby<J, R> {
    join_queue: IntMap<HandleID, J>,
    room_map: IntMap<u32, RoomTask<R>>,
    profanity: ProfanityList,
    max_rooms: usize,
    player_queue_capacity: usize,
    join_room_time_limit_secs: u64,
}

impl<J, R> View for Lobby<J, R> {
    type V = LobbyView<J, R>;

    closed spec fn view(&self) -> LobbyView<J, R> {
        LobbyView {
            join_queue: self.join_queue@,
            rooms: self.room_map@,
            profanity: self.profanity@,
            max_rooms: self.max_rooms,
            player_queue_capacity: self.player_queue_capacity,
            join_room_time_limit_secs: self.join_room_time_limit_secs,
        }
    }
}

/// Every room code is kept under the number of a room code.
proof fn lemma_room_number(code: RoomCode)
    requires
        room_code::is_code(code@),
    ensures
        room_number(code) == room_code::code_value(code@),
        room_code::is_code(room_code::value_bytes(room_number(code))),
{
    room_code::law_number_of_code_converts_back(code);
    room_code::law_code_of_number_converts_back(room_number(code));
}

impl<J, R> Lobby<J, R> {
    /// Create a lobby without any players or rooms.
    pub fn new(profanity: ProfanityList, config: VariableConfig) -> (lobby: Self)
        requires
            is_feasible(config, profanity@),
        ensures
            lobby@ == (LobbyView {
                join_queue: Map::<HandleID, J>::empty(),
                rooms: Map::<u32, RoomTask<R>>::empty(),
                profanity: profanity@,
                max_rooms: config.max_rooms,
                player_queue_capacity: config.player_queue_capacity,
                join_room_time_limit_secs: config.join_room_time_limit_secs,
            }),
            lobby@.wf(),
            within_limits(lobby@),
    {
        let _len: usize = profanity.get_profanity_len();
        proof {
            profanity::lemma_profane_numbers_finite(profanity@);
        }
        Lobby {
            join_queue: int_map_new(),
            room_map: int_map_new(),
            profanity,
            max_rooms: config.max_rooms,
            player_queue_capacity: config.player_queue_capacity,
            join_room_time_limit_secs: config.join_room_time_limit_secs,
        }
    }

    /// Check if the lobby can adopt the given configuration.
    pub fn can_adopt(&self, config: &VariableConfig) -> (feasible: bool)
        ensures
            feasible == is_feasible(*config, self@.profanity),
    {
        check_feasible(config, &self.profanity)
    }

    /// The number of players in the join queue.
    pub fn num_joining(&self) -> (num: usize)
        ensures
            num == self@.join_queue.len(),
    {
        int_map_len(&self.join_queue)
    }

    /// The number of rooms.
    pub fn num_rooms(&self) -> (num: usize)
        ensures
            num == self@.rooms.len(),
    {
        int_map_len(&self.room_map)
    }

    /// The task of the room with the given code, if there is such a room.
    pub fn room_task(&self, code: RoomCode) -> (task: Option<&R>)
        ensures
            match task {
                Some(task) => self@.rooms.contains_key(room_number(code)) && *task
                    == self@.rooms[room_number(code)].task,
                None => !self@.rooms.contains_key(room_number(code)),
            },
    {
        match int_map_get(&self.room_map, u32::from(code)) {
            Some(room) => Some(&room.task),
            None => None,
        }
    }

    /// Add a player to the join queue. If there was already a player with the
    /// given ID, their task is replaced and returned.
    pub fn add_joining(&mut self, handle_id: HandleID, task: J) -> (replaced: Option<J>)
        requires
            old(self)@.wf(),
        ensures
            final(self)@ == old(self)@.with_joining(handle_id, task),
            final(self)@.wf(),
            match replaced {
                Some(replaced) => old(self)@.join_queue.contains_key(handle_id) && replaced == old(
                    self,
                )@.join_queue[handle_id],
                None => !old(self)@.join_queue.contains_key(handle_id),
            },
    {
        int_map_insert(&mut self.join_queue, handle_id, task)
    }

    /// Add a room to the lobby. If there was already a room with the given code,
    /// its task is replaced and returned.
    pub fn add_room(&mut self, code: RoomCode, task: R) -> (replaced: Option<R>)
        requires
            old(self)@.wf(),
        ensures
            final(self)@ == old(self)@.with_room(code, task),
            final(self)@.wf(),
            match replaced {
                Some(replaced) => old(self)@.rooms.contains_key(room_number(code)) && replaced
                    == old(self)@.rooms[room_number(code)].task,
                None => !old(self)@.rooms.contains_key(room_number(code)),
            },
    {
        code.check();
        proof {
            lemma_room_number(code);
        }
        let room = RoomTask { task, is_sealed: false };
        match int_map_insert(&mut self.room_map, u32::from(code), room) {
            Some(replaced) => Some(replaced.task),
            None => None,
        }
    }

    /// React to a new connection.
    fn on_connection<S>(&self, stream: S) -> (action: LobbyAction<S, R>)
        requires
            self@.wf(),
        ensures
            connection_step(self@, stream, self@, action),
    {
        if int_map_len(&self.join_queue) < self.player_queue_capacity {
            // Generate a random HandleID that isn't already in use.
            let handle_id: HandleID = unused_id(&self.join_queue, 0);
            LobbyAction::StartJoining {
                handle_id,
                stream,
                max_wait_secs: self.join_room_time_limit_secs,
            }
        } else {
            LobbyAction::CloseClient {
                stream,
                close_code: CustomCloseCode::JoinQueueFull.into(),
                client_id: None,
            }
        }
    }

    /// React to a request to create a room.
    fn on_create<S>(&self, handle_id: HandleID, stream: S) -> (action: LobbyAction<S, R>)
        requires
            self@.wf(),
        ensures
            create_step(self@, handle_id, stream, action),
    {
        if int_map_len(&self.room_map) < self.max_rooms {
            // Generate a room code that isn't already in use, and that doesn't
            // contain profanity.
            let room_code = unused_room_code(&self.room_map, &self.profanity);
            LobbyAction::CreateRoom { room_code, stream }
        } else {
            LobbyAction::CloseClient {
                stream,
                close_code: CustomCloseCode::TooManyRooms.into(),
                client_id: Some(ClientUniqueID::IsJoining(handle_id)),
            }
        }
    }

    /// React to a request to join a room.
    fn on_join<S>(&self, handle_id: HandleID, code: RoomCode, stream: S) -> (action: LobbyAction<
        S,
        R,
    >)
        ensures
            action == join_action::<S, J, R>(self@, handle_id, code, stream),
    {
        match int_map_get(&self.room_map, u32::from(code)) {
            Some(room) => if !room.is_sealed {
                LobbyAction::SendToRoom { room_code: code, handle_id, stream }
            } else {
                LobbyAction::CloseClient {
                    stream,
                    close_code: CustomCloseCode::RoomSealed.into(),
                    client_id: Some(ClientUniqueID::IsJoining(handle_id)),
                }
            },
            None => LobbyAction::CloseClient {
                stream,
                close_code: CustomCloseCode::RoomDoesNotExist.into(),
                client_id: Some(ClientUniqueID::IsJoining(handle_id)),
            },
        }
    }

    /// React to a request from a player in the join queue.
    fn on_request<S>(&mut self, request: LobbyRequest, stream: S) -> (action: LobbyAction<S, R>)
        requires
            old(self)@.wf(),
        ensures
            request_step(old(self)@, request, stream, final(self)@, action),
            final(self)@.wf(),
    {
        let handle_id: HandleID = request.handle_id;
        int_map_remove(&mut self.join_queue, handle_id);
        match request.command {
            LobbyCommand::CreateRoom => self.on_create(handle_id, stream),
            LobbyCommand::JoinRoom(code) => self.on_join(handle_id, code, stream),
            LobbyCommand::CloseConnection(close_code) => LobbyAction::CloseClient {
                stream,
                close_code,
                client_id: Some(ClientUniqueID::IsJoining(handle_id)),
            },
            // Not a lot to do here, other than to let the stream go.
            LobbyCommand::DropConnection => LobbyAction::DropClient(stream),
        }
    }

    /// React to a control signal from a room.
    fn on_control<S>(&mut self, control: LobbyControl) -> (action: LobbyAction<S, R>)
        requires
            old(self)@.wf(),
        ensures
            control_step(old(self)@, control, final(self)@, action),
            final(self)@.wf(),
    {
        match control {
            LobbyControl::SealRoom(code) => {
                if let Some(room) = int_map_get_mut(&mut self.room_map, u32::from(code)) {
                    room.is_sealed = true;
                }
                assert(self@.rooms =~= old(self)@.with_sealed_room(code).rooms);
                assert(self@.rooms.dom() =~= old(self)@.rooms.dom());
                LobbyAction::Wait
            },
            LobbyControl::CloseRoom(code) => {
                match int_map_remove(&mut self.room_map, u32::from(code)) {
                    // Since it gave us the close signal, we can safely assume
                    // that its task is done.
                    Some(room) => LobbyAction::AwaitRoom(room.task),
                    None => LobbyAction::Wait,
                }
            },
        }
    }

    /// Take up to `count` rooms out of the lobby, in no particular order.
    fn take_rooms(&mut self, count: usize) -> (taken: Vec<(RoomCode, R)>)
        requires
            old(self)@.wf(),
        ensures
            lists_rooms(old(self)@, taken@),
            taken@.len() == if count <= old(self)@.rooms.len() {
                count as nat
            } else {
                old(self)@.rooms.len()
            },
            final(self)@ == (LobbyView {
                rooms: old(self)@.rooms.remove_keys(listed_numbers(taken@).to_set()),
                ..old(self)@
            }),
            final(self)@.wf(),
    {
        let mut entries: Vec<(u32, RoomTask<R>)> = int_map_take(&mut self.room_map, count);
        let ghost all = entries@;
        let mut taken: Vec<(RoomCode, R)> = Vec::new();
        while entries.len() > 0
            invariant
                old(self)@.wf(),
                int_map::are_entries(old(self)@.rooms, all),
                entries@.len() + taken@.len() == all.len(),
                entries@ == all.take(entries@.len() as int),
                forall|i: int|
                    0 <= i < taken@.len() ==> {
                        &&& room_code::is_code((#[trigger] taken@[i]).0@)
                        &&& room_number(taken@[i].0) == all[all.len() - 1 - i].0
                        &&& taken@[i].1 == all[all.len() - 1 - i].1.task
                    },
            decreases entries@.len(),
        {
            let ghost last = entries@.len() - 1;
            if let Some((number, room)) = entries.pop() {
                assert((number, room) == all[last]);
                assert(old(self)@.rooms.contains_key(all[last].0));
                proof {
                    room_code::law_code_of_number_converts_back(number);
                }
                let code = match RoomCode::try_from(number) {
                    Ok(code) => code,
                    Err(_) => RoomCode::default(),
                };
                taken.push((code, room.task));
            }
        }
        proof {
            let keys = int_map::entry_keys(all);
            let numbers = listed_numbers(taken@);
            assert forall|i: int| 0 <= i < taken@.len() implies {
                &&& room_code::is_code((#[trigger] taken@[i]).0@)
                &&& old(self)@.rooms.contains_key(room_number(taken@[i].0))
                &&& old(self)@.rooms[room_number(taken@[i].0)].task == taken@[i].1
            } by {
                assert(old(self)@.rooms.contains_key(all[all.len() - 1 - i].0));
            }
            assert forall|i: int| 0 <= i < numbers.len() implies #[trigger] numbers[i] == keys[keys.len()
                - 1 - i] by {
                assert(room_number(taken@[i].0) == all[all.len() - 1 - i].0);
            }
            assert(numbers.no_duplicates());
            assert(numbers.to_set() =~= keys.to_set()) by {
                assert forall|number: u32| keys.contains(number) implies numbers.contains(
                    number,
                ) by {
                    let k = choose|k: int| 0 <= k < keys.len() && keys[k] == number;
                    assert(numbers[keys.len() - 1 - k] == number);
                }
                assert forall|number: u32| numbers.contains(number) implies keys.contains(
                    number,
                ) by {
                    let i = choose|i: int| 0 <= i < numbers.len() && numbers[i] == number;
                    assert(keys[keys.len() - 1 - i] == number);
                }
            }
            assert(self@.rooms.dom() =~= old(self)@.rooms.dom().difference(numbers.to_set()));
        }
        taken
    }

    /// Adopt a new configuration. If `max_rooms` has been decreased, then some
    /// rooms may need to be shut down to conform to the new maximum.
    fn on_config_changed<S>(&mut self, config: VariableConfig) -> (action: LobbyAction<S, R>)
        requires
            old(self)@.wf(),
            is_feasible(config, old(self)@.profanity),
        ensures
            config_step(old(self)@, config, final(self)@, action),
            final(self)@.wf(),
    {
        self.max_rooms = config.max_rooms;
        self.player_queue_capacity = config.player_queue_capacity;
        self.join_room_time_limit_secs = config.join_room_time_limit_secs;
        let num_rooms: usize = int_map_len(&self.room_map);
        if num_rooms > config.max_rooms {
            let num_to_close: usize = num_rooms - config.max_rooms;
            LobbyAction::AbortRooms(self.take_rooms(num_to_close))
        } else {
            LobbyAction::Wait
        }
    }

    /// React to an event.
    pub fn on_event<S>(&mut self, event: LobbyEvent<S>) -> (action: LobbyAction<S, R>)
        requires
            old(self)@.wf(),
            event matches LobbyEvent::ConfigChanged(config) ==> is_feasible(
                config,
                old(self)@.profanity,
            ),
        ensures
            lobby_step(old(self)@, event, final(self)@, action),
            final(self)@.wf(),
    {
        match event {
            LobbyEvent::Connection(stream) => self.on_connection(stream),
            LobbyEvent::Request(request, stream) => self.on_request(request, stream),
            LobbyEvent::Control(control) => self.on_control(control),
            LobbyEvent::ConfigChanged(config) => self.on_config_changed(config),
            LobbyEvent::Shutdown => LobbyAction::Stop,
        }
    }
}

/// The reasons why a client could not be sent to a room.
#[derive(Debug, Clone, Copy, PartialEq, Eq, Structural)]
pub enum SendFailure {
    /// Too many clients are already on their way to the room.
    Full,
    /// The room no longer takes any clients.
    Closed,
}

impl<J, R> Lobby<J, R> {
    /// React to a client that could not be sent to a room.
    ///
    /// If too many clients are on their way to the room, then the request would
    /// have been valid, so the client should try again.
    pub fn on_send_failed<S>(failure: SendFailure, handle_id: HandleID, stream: S) -> (action:
        LobbyAction<S, R>)
        ensures
            action == close_joining::<S, R>(
                stream,
                match failure {
                    SendFailure::Full => CloseCode::Again,
                    SendFailure::Closed => CustomCloseCode::RoomSealed.spec_close_code(),
                },
                handle_id,
            ),
    {
        let close_code = match failure {
            SendFailure::Full => CloseCode::Again,
            SendFailure::Closed => CustomCloseCode::RoomSealed.into(),
        };
        LobbyAction::CloseClient {
            stream,
            close_code,
            client_id: Some(ClientUniqueID::IsJoining(handle_id)),
        }
    }

    /// Take all of the players out of the join queue, so that their tasks can be
    /// waited for. The players come in no particular order.
    pub fn drain_joining(&mut self) -> (drained: Vec<(HandleID, J)>)
        requires
            old(self)@.wf(),
        ensures
            int_map::are_entries(old(self)@.join_queue, drained@),
            drained@.len() == old(self)@.join_queue.len(),
            final(self)@ == (LobbyView { join_queue: Map::empty(), ..old(self)@ }),
            final(self)@.wf(),
    {
        let len: usize = int_map_len(&self.join_queue);
        let drained: Vec<(HandleID, J)> = int_map_take(&mut self.join_queue, len);
        proof {
            int_map::lemma_all_taken(old(self)@.join_queue, drained@);
        }
        drained
    }

    /// Take all of the rooms out of the lobby, so that their tasks can be waited
    /// for. The rooms come in no particular order.
    pub fn drain_rooms(&mut self) -> (drained: Vec<(RoomCode, R)>)
        requires
            old(self)@.wf(),
        ensures
            lists_rooms(old(self)@, drained@),
            drained@.len() == old(self)@.rooms.len(),
            final(self)@ == (LobbyView { rooms: Map::empty(), ..old(self)@ }),
            final(self)@.wf(),
    {
        let len: usize = int_map_len(&self.room_map);
        let drained: Vec<(RoomCode, R)> = self.take_rooms(len);
        proof {
            lemma_all_listed(old(self)@, drained@);
            assert(self@.rooms =~= Map::<u32, RoomTask<R>>::empty());
        }
        drained
    }
}

/// The rooms in a list take up as many places in the lobby as the list is long.
proof fn lemma_listed_rooms<J, R>(lobby: LobbyView<J, R>, list: Seq<(RoomCode, R)>)
    requires
        lobby.wf(),
        lists_rooms(lobby, list),
    ensures
        listed_numbers(list).to_set().finite(),
        listed_numbers(list).to_set().len() == list.len(),
        listed_numbers(list).to_set().subset_of(lobby.rooms.dom()),
        lobby.rooms.remove_keys(listed_numbers(list).to_set()).len() == lobby.rooms.len()
            - list.len(),
{
    let numbers = listed_numbers(list);
    numbers.unique_seq_to_set();
    vstd::seq_lib::seq_to_set_is_finite(numbers);
    assert forall|number: u32| numbers.to_set().contains(number) implies lobby.rooms.dom().contains(
        number,
    ) by {
        let i = choose|i: int| 0 <= i < numbers.len() && numbers[i] == number;
        assert(lobby.rooms.contains_key(room_number(list[i].0)));
    }
    assert(lobby.rooms.remove_keys(numbers.to_set()).dom() =~= lobby.rooms.dom().difference(
        numbers.to_set(),
    ));
    vstd::set_lib::lemma_len_difference(lobby.rooms.dom(), numbers.to_set());
    vstd::set_lib::lemma_set_disjoint_lens(
        lobby.rooms.dom().difference(numbers.to_set()),
        numbers.to_set(),
    );
    assert(lobby.rooms.dom().difference(numbers.to_set()) + numbers.to_set() =~= lobby.rooms.dom());
}

/// If a list holds as many rooms as there are in the lobby, then it holds all of
/// them.
proof fn lemma_all_listed<J, R>(lobby: LobbyView<J, R>, list: Seq<(RoomCode, R)>)
    requires
        lobby.wf(),
        lists_rooms(lobby, list),
        list.len() == lobby.rooms.len(),
    ensures
        listed_numbers(list).to_set() == lobby.rooms.dom(),
{
    lemma_listed_rooms(lobby, list);
    vstd::set_lib::lemma_subset_equality(listed_numbers(list).to_set(), lobby.rooms.dom());
}

/// A step on the way to the end of the lobby, once it has stopped.
#[derive(Debug, Clone, Copy, PartialEq, Eq, Structural)]
pub enum LobbyShutdownStep {
    /// Take in the requests until there is nobody left to send them, so that no
    /// task is stuck while trying to send one.
    DrainRequests,
    /// Take in the control signals until there is nobody left to send them.
    DrainControls,
    /// Wait for the tasks of the players in the join queue.
    AwaitJoining,
    /// Wait for the tasks of the rooms.
    AwaitRooms,
    /// Wait for the connections to be closed.
    AwaitCloses,
}

/// The steps on the way to the end of the lobby. Before any task is waited for,
/// the channels that the task might be waiting to send to have to be empty.
pub open spec fn shutdown_sequence() -> Seq<LobbyShutdownStep> {
    seq![
        LobbyShutdownStep::DrainRequests,
        LobbyShutdownStep::DrainControls,
        LobbyShutdownStep::AwaitJoining,
        LobbyShutdownStep::AwaitRooms,
        LobbyShutdownStep::AwaitCloses,
    ]
}

/// The steps on the way to the end of the lobby, in order.
pub fn shutdown_steps() -> (steps: Vec<LobbyShutdownStep>)
    ensures
        steps@ == shutdown_sequence(),
{
    let mut steps: Vec<LobbyShutdownStep> = Vec::new();
    steps.push(LobbyShutdownStep::DrainRequests);
    steps.push(LobbyShutdownStep::DrainControls);
    steps.push(LobbyShutdownStep::AwaitJoining);
    steps.push(LobbyShutdownStep::AwaitRooms);
    steps.push(LobbyShutdownStep::AwaitCloses);
    assert(steps@ =~= shutdown_sequence());
    steps
}

/// Whether the lobby is within its limits: there are not more rooms than allowed,
/// and none of them has a code that is considered profanity.
pub open spec fn within_limits<J, R>(lobby: LobbyView<J, R>) -> bool {
    &&& lobby.rooms.len() <= lobby.max_rooms
    &&& forall|number: u32| #[trigger]
        lobby.rooms.contains_key(number) ==> !lobby.profanity.contains(
            room_code::value_bytes(number),
        )
}

/// Whatever happens, the lobby stays within its limits.
pub proof fn law_lobby_stays_within_limits<S, J, R>(
    before: LobbyView<J, R>,
    event: LobbyEvent<S>,
    after: LobbyView<J, R>,
    action: LobbyAction<S, R>,
)
    requires
        before.wf(),
        within_limits(before),
        event matches LobbyEvent::ConfigChanged(config) ==> is_feasible(config, before.profanity),
        lobby_step(before, event, after, action),
    ensures
        within_limits(after),
        after.profanity == before.profanity,
{
    if let LobbyEvent::Control(control) = event {
        match control {
            LobbyControl::SealRoom(code) => {
                assert(after.rooms.dom() =~= before.rooms.dom());
            },
            LobbyControl::CloseRoom(code) => {
                assert(after.rooms.dom() =~= before.rooms.dom().remove(room_number(code)));
            },
        }
    }
    if let LobbyAction::AbortRooms(closed) = action {
        lemma_listed_rooms(before, closed@);
    }
}

/// A room that is created has a code that nobody else has and that is not
/// considered profanity, and the lobby stays within its limits once the room has
/// been added. If there are too many rooms already, none is created.
pub proof fn law_created_rooms_are_allowed<S, J, R>(
    lobby: LobbyView<J, R>,
    handle_id: HandleID,
    stream: S,
    action: LobbyAction<S, R>,
    task: R,
)
    requires
        lobby.wf(),
        within_limits(lobby),
        create_step(lobby, handle_id, stream, action),
    ensures
        action is CreateRoom <==> lobby.rooms.len() < lobby.max_rooms,
        action matches LobbyAction::CreateRoom { room_code: code, .. } ==> {
            &&& !lobby.rooms.contains_key(room_number(code))
            &&& within_limits(lobby.with_room(code, task))
            &&& lobby.with_room(code, task).rooms.len() == lobby.rooms.len() + 1
        },
{
    if let LobbyAction::CreateRoom { room_code: code, .. } = action {
        lemma_room_number(code);
        room_code::law_number_of_code_converts_back(code);
        RoomCode::lemma_with_bytes(room_code::value_bytes(room_number(code)));
        let after = lobby.with_room(code, task);
        assert(after.rooms.dom() =~= lobby.rooms.dom().insert(room_number(code)));
        assert(room_code::value_bytes(room_number(code)) == code@);
    }
}

/// If the maximum number of rooms is lowered below the number of rooms, then so
/// many rooms are closed that the new maximum is met exactly, and the other rooms
/// are not affected. If it is not, then no room is closed.
pub proof fn law_excess_rooms_are_closed<S, J, R>(
    before: LobbyView<J, R>,
    config: VariableConfig,
    after: LobbyView<J, R>,
    action: LobbyAction<S, R>,
    number: u32,
)
    requires
        before.wf(),
        is_feasible(config, before.profanity),
        config_step(before, config, after, action),
    ensures
        before.rooms.len() > config.max_rooms ==> after.rooms.len() == config.max_rooms,
        before.rooms.len() <= config.max_rooms ==> after.rooms == before.rooms,
        after.rooms.contains_key(number) ==> before.rooms.contains_key(number)
            && after.rooms[number] == before.rooms[number],
        after.join_queue == before.join_queue,
{
    if let LobbyAction::AbortRooms(closed) = action {
        lemma_listed_rooms(before, closed@);
    }
}

/// Nobody can join a room once it has been sealed, and the client is told so.
/// Once the room has been closed, the client is told that there is no such room.
pub proof fn law_sealed_rooms_cannot_be_joined<S, J, R>(
    lobby: LobbyView<J, R>,
    code: RoomCode,
    handle_id: HandleID,
    stream: S,
)
    requires
        lobby.wf(),
        lobby.rooms.contains_key(room_number(code)),
    ensures
        join_action::<S, J, R>(lobby.with_sealed_room(code), handle_id, code, stream)
            == close_joining::<S, R>(
            stream,
            CustomCloseCode::RoomSealed.spec_close_code(),
            handle_id,
        ),
        join_action::<S, J, R>(lobby.without_room(code), handle_id, code, stream)
            == close_joining::<S, R>(
            stream,
            CustomCloseCode::RoomDoesNotExist.spec_close_code(),
            handle_id,
        ),
{
}

/// A room that has just been created can be joined by its code, and sealing or
/// closing another room does not change that.
pub proof fn law_created_rooms_can_be_joined<S, J, R>(
    lobby: LobbyView<J, R>,
    code: RoomCode,
    other: RoomCode,
    task: R,
    handle_id: HandleID,
    stream: S,
)
    requires
        lobby.wf(),
        room_code::is_code(code@),
        room_code::is_code(other@),
        code != other,
    ensures
        join_action::<S, J, R>(lobby.with_room(code, task), handle_id, code, stream)
            == send_to_room::<S, R>(code, handle_id, stream),
        join_action::<S, J, R>(
            lobby.with_room(code, task).with_sealed_room(other),
            handle_id,
            code,
            stream,
        ) == send_to_room::<S, R>(code, handle_id, stream),
        join_action::<S, J, R>(
            lobby.with_room(code, task).without_room(other),
            handle_id,
            code,
            stream,
        ) == send_to_room::<S, R>(code, handle_id, stream),
{
    lemma_room_number(code);
    lemma_room_number(other);
    if room_number(code) == room_number(other) {
        room_code::law_numbers_identify_codes(code, other);
    }
}

/// A client is only added to the join queue if there is space in it, under an ID
/// that nobody in the queue has, so the queue never holds more players than
/// allowed because of a player that has connected.
pub proof fn law_joining_respects_the_capacity<S, J, R>(
    before: LobbyView<J, R>,
    client: S,
    after: LobbyView<J, R>,
    action: LobbyAction<S, R>,
    task: J,
)
    requires
        before.wf(),
        connection_step(before, client, after, action),
    ensures
        action is StartJoining <==> before.join_queue.len() < before.player_queue_capacity,
        action matches LobbyAction::StartJoining { handle_id, .. } ==> {
            &&& !after.join_queue.contains_key(handle_id)
            &&& after.with_joining(handle_id, task).join_queue.len() == before.join_queue.len() + 1
            &&& after.with_joining(handle_id, task).join_queue.len()
                <= before.player_queue_capacity
        },
{
    if let LobbyAction::StartJoining { handle_id, .. } = action {
        assert(after.with_joining(handle_id, task).join_queue.dom()
            =~= after.join_queue.dom().insert(handle_id));
    }
}

/// The channels that tasks might be waiting to send to are emptied before any
/// task is waited for.
pub proof fn law_channels_are_drained_first(i: int, j: int)
    requires
        0 <= i < shutdown_sequence().len(),
        0 <= j < shutdown_sequence().len(),
        shutdown_sequence()[i] is DrainRequests || shutdown_sequence()[i] is DrainControls,
        shutdown_sequence()[j] is AwaitJoining || shutdown_sequence()[j] is AwaitRooms
            || shutdown_sequence()[j] is AwaitCloses,
    ensures
        i < j,
{
}

/// The lobby can make do with every valid configuration, as long as there are not
/// more than 56977 room codes that must not be used.
pub proof fn law_valid_configs_are_feasible(config: VariableConfig, profanity: Seq<Seq<u8>>)
    requires
        config.valid(),
        profanity::profane_numbers(profanity).len() <= 56_977,
    ensures
        is_feasible(config, profanity),
{
}

} // verus!
