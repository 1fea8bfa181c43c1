//! What is promised to the clients in the lobby, and to the rooms.

use crate::close_code::CloseCode;
use crate::config::VariableConfig;
use crate::lobby;
use crate::lobby::{
    Lobby, LobbyAction, LobbyEvent, LobbyShutdownStep, LobbyView, RoomTask, SendFailure,
};
use crate::message::{LobbyCommand, LobbyControl, LobbyRequest};
use crate::player::{ClientUniqueID, HandleID};
use crate::profanity::ProfanityList;
use crate::{int_map, room_code};
use crate::room_code::RoomCode;
use vstd::prelude::*;

verus! {

/// The number of a room code, with the first letter as the most significant byte.
pub open spec fn number_of(code: RoomCode) -> int {
    16_777_216 * code@[0] + 65_536 * code@[1] + 256 * code@[2] + code@[3]
}

/// Whether the action is to close the connection of a client, who is known by the
/// given handle ID, with the given code.
pub open spec fn turns_away<S, R>(
    action: LobbyAction<S, R>,
    client: S,
    number: u16,
    handle_id: HandleID,
) -> bool {
    action matches LobbyAction::CloseClient { stream, close_code, client_id } && stream == client
        && close_code == CloseCode::Library(number) && client_id == Some(
        ClientUniqueID::IsJoining(handle_id),
    )
}

/// A client that connects gets to make a request exactly if there is space in the
/// queue, under an ID that nobody in the queue has, and within the time limit. If
/// there is no space, the client is told that the queue is full.
pub proof fn law_clients_queue_while_there_is_space<S, J, R>(
    before: LobbyView<J, R>,
    client: S,
    after: LobbyView<J, R>,
    action: LobbyAction<S, R>,
)
    requires
        before.wf(),
        lobby::lobby_step(before, LobbyEvent::Connection(client), after, action),
    ensures
        after == before,
        action is StartJoining <==> before.join_queue.len() < before.player_queue_capacity,
        action matches LobbyAction::StartJoining { handle_id, stream, max_wait_secs } ==> {
            &&& stream == client
            &&& !before.join_queue.contains_key(handle_id)
            &&& max_wait_secs == before.join_room_time_limit_secs
        },
        before.join_queue.len() >= before.player_queue_capacity ==> (action matches
            LobbyAction::CloseClient { stream, close_code, client_id } && stream == client
            && close_code == CloseCode::Library(4018) && client_id is None),
{
}

/// A client that has made a request leaves the queue. The others stay in it, and the
/// rooms and the limits stay as they are.
pub proof fn law_requests_only_affect_the_queue<S, J, R>(
    before: LobbyView<J, R>,
    request: LobbyRequest,
    client: S,
    after: LobbyView<J, R>,
    action: LobbyAction<S, R>,
    other_id: HandleID,
)
    requires
        before.wf(),
        lobby::lobby_step(before, LobbyEvent::Request(request, client), after, action),
    ensures
        after.rooms == before.rooms,
        after.profanity == before.profanity,
        after.max_rooms == before.max_rooms,
        after.player_queue_capacity == before.player_queue_capacity,
        after.join_room_time_limit_secs == before.join_room_time_limit_secs,
        !after.join_queue.contains_key(request.handle_id),
        other_id != request.handle_id ==> (after.join_queue.contains_key(other_id)
            <==> before.join_queue.contains_key(other_id)),
        other_id != request.handle_id && before.join_queue.contains_key(other_id)
            ==> after.join_queue[other_id] == before.join_queue[other_id],
{
}

/// A client that wants to host a room gets one exactly if there are less rooms than
/// allowed, with a code of four letters that no other room has and that is not
/// considered profanity. If not, the client is told that there are too many rooms.
pub proof fn law_rooms_are_created_up_to_the_maximum<S, J, R>(
    before: LobbyView<J, R>,
    handle_id: HandleID,
    client: S,
    after: LobbyView<J, R>,
    action: LobbyAction<S, R>,
    i: int,
)
    requires
        before.wf(),
        0 <= i < 4,
        lobby::lobby_step(
            before,
            LobbyEvent::Request(
                (LobbyRequest { handle_id, command: LobbyCommand::CreateRoom }),
                client,
            ),
            after,
            action,
        ),
    ensures
        action is CreateRoom <==> before.rooms.len() < before.max_rooms,
        action matches LobbyAction::CreateRoom { room_code: code, stream } ==> {
            &&& stream == client
            &&& code@.len() == 4
            &&& 65 <= code@[i] <= 90
            &&& !before.rooms.contains_key(number_of(code) as u32)
            &&& !before.profanity.contains(code@)
        },
        before.rooms.len() >= before.max_rooms ==> turns_away(action, client, 4005, handle_id),
{
}

/// A client that wants to join a room is sent to the room with that code, if there
/// is one and it is not sealed. If not, the client is told so.
pub proof fn law_rooms_that_are_open_can_be_joined<S, J, R>(
    before: LobbyView<J, R>,
    handle_id: HandleID,
    code: RoomCode,
    client: S,
    after: LobbyView<J, R>,
    action: LobbyAction<S, R>,
)
    requires
        before.wf(),
        lobby::lobby_step(
            before,
            LobbyEvent::Request(
                (LobbyRequest { handle_id, command: LobbyCommand::JoinRoom(code) }),
                client,
            ),
            after,
            action,
        ),
    ensures
        ({
            let number = number_of(code) as u32;
            &&& !before.rooms.contains_key(number) ==> turns_away(action, client, 4007, handle_id)
            &&& before.rooms.contains_key(number) && before.rooms[number].is_sealed ==> turns_away(
                action,
                client,
                4008,
                handle_id,
            )
            &&& before.rooms.contains_key(number) && !before.rooms[number].is_sealed ==> (
            action matches LobbyAction::SendToRoom {
                room_code: joined,
                handle_id: sent_id,
                stream,
            } && joined == code && sent_id == handle_id && stream == client)
        }),
{
}

/// A client whose connection is to be closed or to be dropped is not kept.
pub proof fn law_other_clients_are_let_go<S, J, R>(
    before: LobbyView<J, R>,
    request: LobbyRequest,
    client: S,
    after: LobbyView<J, R>,
    action: LobbyAction<S, R>,
)
    requires
        before.wf(),
        lobby::lobby_step(before, LobbyEvent::Request(request, client), after, action),
    ensures
        request.command matches LobbyCommand::CloseConnection(code) ==> (action matches
            LobbyAction::CloseClient { stream, close_code, client_id } && stream == client
            && close_code == code && client_id == Some(
            ClientUniqueID::IsJoining(request.handle_id),
        )),
        request.command == LobbyCommand::DropConnection ==> action
            == LobbyAction::<S, R>::DropClient(client),
{
}

/// A room that says that it is sealed is sealed from then on. All other rooms, the
/// queue and the limits stay as they are.
pub proof fn law_sealing_affects_one_room<S, J, R>(
    before: LobbyView<J, R>,
    code: RoomCode,
    after: LobbyView<J, R>,
    action: LobbyAction<S, R>,
    number: u32,
)
    requires
        before.wf(),
        lobby::lobby_step(
            before,
            LobbyEvent::<S>::Control(LobbyControl::SealRoom(code)),
            after,
            action,
        ),
    ensures
        action == LobbyAction::<S, R>::Wait,
        after.join_queue == before.join_queue,
        after.profanity == before.profanity,
        after.max_rooms == before.max_rooms,
        after.player_queue_capacity == before.player_queue_capacity,
        after.join_room_time_limit_secs == before.join_room_time_limit_secs,
        after.rooms.contains_key(number) <==> before.rooms.contains_key(number),
        before.rooms.contains_key(number) ==> after.rooms[number].task
            == before.rooms[number].task,
        before.rooms.contains_key(number) && number == number_of(code)
            ==> after.rooms[number].is_sealed,
        before.rooms.contains_key(number) && number != number_of(code) as u32
            ==> after.rooms[number].is_sealed == before.rooms[number].is_sealed,
{
}

/// A room that says that it is closed is removed, and its task is waited for. All
/// other rooms, the queue and the limits stay as they are.
pub proof fn law_closing_affects_one_room<S, J, R>(
    before: LobbyView<J, R>,
    code: RoomCode,
    after: LobbyView<J, R>,
    action: LobbyAction<S, R>,
    number: u32,
)
    requires
        before.wf(),
        lobby::lobby_step(
            before,
            LobbyEvent::<S>::Control(LobbyControl::CloseRoom(code)),
            after,
            action,
        ),
    ensures
        after.join_queue == before.join_queue,
        after.profanity == before.profanity,
        after.max_rooms == before.max_rooms,
        after.player_queue_capacity == before.player_queue_capacity,
        after.join_room_time_limit_secs == before.join_room_time_limit_secs,
        after.rooms.contains_key(number) <==> before.rooms.contains_key(number) && number
            != number_of(code) as u32,
        after.rooms.contains_key(number) ==> after.rooms[number] == before.rooms[number],
        before.rooms.contains_key(number_of(code) as u32) ==> action
            == LobbyAction::<S, R>::AwaitRoom(before.rooms[number_of(code) as u32].task),
        !before.rooms.contains_key(number_of(code) as u32) ==> action
            == LobbyAction::<S, R>::Wait,
{
}

/// A new configuration is adopted. If there are more rooms than allowed now, then
/// exactly so many are closed that the maximum is met, and their tasks are aborted.
/// The other rooms and the queue stay as they are.
pub proof fn law_new_configurations_are_adopted<S, J, R>(
    before: LobbyView<J, R>,
    config: VariableConfig,
    after: LobbyView<J, R>,
    action: LobbyAction<S, R>,
    number: u32,
    i: int,
)
    requires
        before.wf(),
        lobby::is_feasible(config, before.profanity),
        lobby::lobby_step(before, LobbyEvent::<S>::ConfigChanged(config), after, action),
    ensures
        after.max_rooms == config.max_rooms,
        after.player_queue_capacity == config.player_queue_capacity,
        after.join_room_time_limit_secs == config.join_room_time_limit_secs,
        after.profanity == before.profanity,
        after.join_queue == before.join_queue,
        before.rooms.len() <= config.max_rooms ==> after.rooms == before.rooms && action
            == LobbyAction::<S, R>::Wait,
        before.rooms.len() > config.max_rooms ==> after.rooms.len() == config.max_rooms,
        before.rooms.len() > config.max_rooms ==> action is AbortRooms,
        after.rooms.contains_key(number) ==> before.rooms.contains_key(number)
            && after.rooms[number] == before.rooms[number],
        action matches LobbyAction::AbortRooms(closed) ==> {
            &&& closed@.len() == before.rooms.len() - config.max_rooms
            &&& 0 <= i < closed@.len() ==> {
                let closed_number = number_of(closed@[i].0) as u32;
                &&& before.rooms.contains_key(closed_number)
                &&& !after.rooms.contains_key(closed_number)
                &&& before.rooms[closed_number].task == closed@[i].1
            }
        },
{
    lobby::law_excess_rooms_are_closed(before, config, after, action, number);
    if let LobbyAction::AbortRooms(closed) = action {
        if 0 <= i < closed@.len() {
            let numbers = lobby::listed_numbers(closed@);
            assert(numbers[i] == number_of(closed@[i].0) as u32);
            assert(numbers.to_set().contains(numbers[i]));
            assert(room_code::is_code(closed@[i].0@));
        }
    }
}

/// After a new configuration, clients host rooms and wait in the queue by the new
/// limits.
pub proof fn law_new_configurations_apply_to_new_clients<S, J, R>(
    before: LobbyView<J, R>,
    config: VariableConfig,
    between: LobbyView<J, R>,
    action: LobbyAction<S, R>,
    handle_id: HandleID,
    client: S,
    after: LobbyView<J, R>,
    create_action: LobbyAction<S, R>,
    connect_action: LobbyAction<S, R>,
)
    requires
        before.wf(),
        lobby::is_feasible(config, before.profanity),
        lobby::lobby_step(before, LobbyEvent::<S>::ConfigChanged(config), between, action),
        lobby::lobby_step(
            between,
            LobbyEvent::Request(
                (LobbyRequest { handle_id, command: LobbyCommand::CreateRoom }),
                client,
            ),
            after,
            create_action,
        ),
        lobby::lobby_step(between, LobbyEvent::Connection(client), between, connect_action),
    ensures
        create_action is CreateRoom <==> before.rooms.len() < config.max_rooms,
        connect_action is StartJoining <==> before.join_queue.len() < config.player_queue_capacity,
        connect_action matches LobbyAction::StartJoining { max_wait_secs, .. } ==> max_wait_secs
            == config.join_room_time_limit_secs,
{
    lobby::law_excess_rooms_are_closed(before, config, between, action, 0);
}

/// A shutdown stops the lobby.
pub proof fn law_a_shutdown_stops_the_lobby<S, J, R>(
    before: LobbyView<J, R>,
    after: LobbyView<J, R>,
    action: LobbyAction<S, R>,
)
    requires
        lobby::lobby_step(before, LobbyEvent::<S>::Shutdown, after, action),
    ensures
        after == before,
        action == LobbyAction::<S, R>::Stop,
{
}

/// Adding a player to the queue adds the player, and does nothing else.
pub proof fn law_queued_players_are_queued<J, R>(
    before: LobbyView<J, R>,
    handle_id: HandleID,
    task: J,
    other_id: HandleID,
)
    ensures
        ({
            let after = before.with_joining(handle_id, task);
            &&& after.rooms == before.rooms
            &&& after.profanity == before.profanity
            &&& after.max_rooms == before.max_rooms
            &&& after.player_queue_capacity == before.player_queue_capacity
            &&& after.join_room_time_limit_secs == before.join_room_time_limit_secs
            &&& after.join_queue.contains_key(handle_id)
            &&& after.join_queue[handle_id] == task
            &&& other_id != handle_id ==> (after.join_queue.contains_key(other_id)
                <==> before.join_queue.contains_key(other_id))
            &&& other_id != handle_id && before.join_queue.contains_key(other_id)
                ==> after.join_queue[other_id] == before.join_queue[other_id]
        }),
{
}

/// Adding a room adds the room under its code, open to everyone, and does nothing
/// else.
pub proof fn law_added_rooms_are_open<J, R>(
    before: LobbyView<J, R>,
    code: RoomCode,
    task: R,
    number: u32,
)
    ensures
        ({
            let after = before.with_room(code, task);
            let added = number_of(code) as u32;
            &&& after.join_queue == before.join_queue
            &&& after.profanity == before.profanity
            &&& after.max_rooms == before.max_rooms
            &&& after.player_queue_capacity == before.player_queue_capacity
            &&& after.join_room_time_limit_secs == before.join_room_time_limit_secs
            &&& after.rooms.contains_key(added)
            &&& after.rooms[added] == (RoomTask { task, is_sealed: false })
            &&& number != added ==> (after.rooms.contains_key(number)
                <==> before.rooms.contains_key(number))
            &&& number != added && before.rooms.contains_key(number) ==> after.rooms[number]
                == before.rooms[number]
        }),
{
}

/// The rooms in a list are rooms of the lobby, each of them once, together with
/// their tasks.
pub proof fn law_lists_hold_rooms<J, R>(
    lobby: LobbyView<J, R>,
    list: Seq<(RoomCode, R)>,
    i: int,
    j: int,
)
    requires
        lobby::lists_rooms(lobby, list),
        0 <= i < list.len(),
        0 <= j < list.len(),
    ensures
        lobby.rooms.contains_key(number_of(list[i].0) as u32),
        lobby.rooms[number_of(list[i].0) as u32].task == list[i].1,
        i != j ==> list[i].0 != list[j].0,
{
    let numbers = lobby::listed_numbers(list);
    assert(numbers[i] == number_of(list[i].0) as u32);
    assert(numbers[j] == number_of(list[j].0) as u32);
    assert(room_code::is_code(list[i].0@));
}

/// The lobby comes to its end in order: the requests and the control signals are
/// taken in until there are no more, and then the players in the queue, the rooms
/// and the connections are waited for.
pub proof fn law_the_lobby_ends_in_order()
    ensures
        ({
            let steps = lobby::shutdown_sequence();
            &&& steps.len() == 5
            &&& steps[0] == LobbyShutdownStep::DrainRequests
            &&& steps[1] == LobbyShutdownStep::DrainControls
            &&& steps[2] == LobbyShutdownStep::AwaitJoining
            &&& steps[3] == LobbyShutdownStep::AwaitRooms
            &&& steps[4] == LobbyShutdownStep::AwaitCloses
        }),
{
}

/// The lobby can go by a configuration exactly if there are as many room codes as
/// rooms and codes that must not be used, and as many handle IDs as places in the
/// queue.
pub proof fn law_feasible_configurations(config: VariableConfig, profanity: Seq<Seq<u8>>)
    ensures
        lobby::is_feasible(config, profanity) <==> config.max_rooms
            + crate::profanity::profane_numbers(profanity).len() <= 456_976
            && config.player_queue_capacity <= 4_294_967_295,
{
}

/// Whatever happens to the lobby, it reacts as promised, and ends up in the state that
/// was promised.
pub proof fn law_the_lobby_reacts_as_promised<S, J, R>(
    lobby: &mut Lobby<J, R>,
    event: LobbyEvent<S>,
    action: LobbyAction<S, R>,
)
    requires
        call_ensures(Lobby::<J, R>::on_event::<S>, (lobby, event), action),
    ensures
        lobby::lobby_step(old(lobby)@, event, final(lobby)@, action),
{
}

/// The lobby starts without any players or rooms, and with the limits of the
/// configuration.
pub proof fn law_the_lobby_starts_empty<J, R>(
    list: ProfanityList,
    config: VariableConfig,
    lobby: Lobby<J, R>,
    handle_id: HandleID,
    number: u32,
)
    requires
        call_ensures(Lobby::<J, R>::new, (list, config), lobby),
    ensures
        !lobby@.join_queue.contains_key(handle_id),
        !lobby@.rooms.contains_key(number),
        lobby@.profanity == list@,
        lobby@.max_rooms == config.max_rooms,
        lobby@.player_queue_capacity == config.player_queue_capacity,
        lobby@.join_room_time_limit_secs == config.join_room_time_limit_secs,
{
}

/// It can be asked whether a configuration is feasible, also for the list of a lobby.
pub proof fn law_feasibility_can_be_asked_for<J, R>(
    config: VariableConfig,
    list: ProfanityList,
    feasible: bool,
    lobby: Lobby<J, R>,
    can_adopt: bool,
)
    requires
        call_ensures(lobby::check_feasible, (&config, &list), feasible),
        call_ensures(Lobby::<J, R>::can_adopt, (&lobby, &config), can_adopt),
    ensures
        feasible <==> lobby::is_feasible(config, list@),
        can_adopt <==> lobby::is_feasible(config, lobby@.profanity),
{
}

/// The numbers of players and rooms, and the tasks of the rooms, can be asked for.
pub proof fn law_rooms_can_be_asked_for<J, R>(
    lobby: Lobby<J, R>,
    num_joining: usize,
    num_rooms: usize,
    code: RoomCode,
    task: Option<&R>,
)
    requires
        call_ensures(Lobby::<J, R>::num_joining, (&lobby,), num_joining),
        call_ensures(Lobby::<J, R>::num_rooms, (&lobby,), num_rooms),
        call_ensures(Lobby::<J, R>::room_task, (&lobby, code), task),
    ensures
        num_joining == lobby@.join_queue.len(),
        num_rooms == lobby@.rooms.len(),
        task is Some <==> lobby@.rooms.contains_key(number_of(code) as u32),
        task matches Some(task) ==> *task == lobby@.rooms[number_of(code) as u32].task,
{
}

/// Players and rooms are added as promised, and the task that is replaced, if any, is
/// given back.
pub proof fn law_players_and_rooms_are_added<J, R>(
    lobby: &mut Lobby<J, R>,
    handle_id: HandleID,
    joining: J,
    replaced_joining: Option<J>,
    code: RoomCode,
    room: R,
    replaced_room: Option<R>,
)
    ensures
        call_ensures(Lobby::<J, R>::add_joining, (lobby, handle_id, joining), replaced_joining)
            ==> {
            &&& final(lobby)@ == old(lobby)@.with_joining(handle_id, joining)
            &&& replaced_joining is Some <==> old(lobby)@.join_queue.contains_key(handle_id)
            &&& replaced_joining matches Some(task) ==> task == old(lobby)@.join_queue[handle_id]
        },
        call_ensures(Lobby::<J, R>::add_room, (lobby, code, room), replaced_room) ==> {
            &&& final(lobby)@ == old(lobby)@.with_room(code, room)
            &&& replaced_room is Some <==> old(lobby)@.rooms.contains_key(number_of(code) as u32)
            &&& replaced_room matches Some(task) ==> task == old(lobby)@.rooms[number_of(
                code,
            ) as u32].task
        },
{
}

/// A client that could not be sent to a room is told to try again if there was no
/// space, and that the room is sealed if it takes no more clients.
pub proof fn law_clients_that_cannot_be_sent_are_told<S, J, R>(
    failure: SendFailure,
    handle_id: HandleID,
    client: S,
    action: LobbyAction<S, R>,
)
    requires
        call_ensures(Lobby::<J, R>::on_send_failed::<S>, (failure, handle_id, client), action),
    ensures
        failure is Closed ==> turns_away(action, client, 4008, handle_id),
        failure is Full ==> (action matches LobbyAction::CloseClient {
            stream,
            close_code,
            client_id,
        } && stream == client && close_code == CloseCode::Again && client_id == Some(
            ClientUniqueID::IsJoining(handle_id),
        )),
{
}

/// When the queue is emptied, every player is given back with their task, and nobody
/// is left. Everything else stays.
pub proof fn law_emptied_queues_give_everyone_back<J, R>(
    lobby: &mut Lobby<J, R>,
    drained: Vec<(HandleID, J)>,
    handle_id: HandleID,
    task: J,
)
    requires
        old(lobby)@.wf(),
        call_ensures(Lobby::<J, R>::drain_joining, (lobby,), drained),
    ensures
        !final(lobby)@.join_queue.contains_key(handle_id),
        final(lobby)@ == (LobbyView { join_queue: final(lobby)@.join_queue, ..old(lobby)@ }),
        drained@.len() == old(lobby)@.join_queue.len(),
        drained@.contains((handle_id, task)) <==> old(lobby)@.join_queue.contains_key(handle_id)
            && old(lobby)@.join_queue[handle_id] == task,
{
    let queue = old(lobby)@.join_queue;
    let list = drained@;
    let keys = int_map::entry_keys(list);
    keys.unique_seq_to_set();
    assert forall|id: HandleID| keys.to_set().contains(id) implies queue.dom().contains(id) by {
        let i = choose|i: int| 0 <= i < keys.len() && keys[i] == id;
        assert(queue.contains_key(list[i].0));
    }
    vstd::set_lib::lemma_subset_equality(keys.to_set(), queue.dom());
    if list.contains((handle_id, task)) {
        let i = choose|i: int| 0 <= i < list.len() && list[i] == (handle_id, task);
        assert(queue.contains_key(list[i].0));
    }
    if queue.contains_key(handle_id) && queue[handle_id] == task {
        assert(keys.to_set().contains(handle_id));
        let i = choose|i: int| 0 <= i < keys.len() && keys[i] == handle_id;
        assert(queue.contains_key(list[i].0));
        assert(list[i] == (handle_id, task));
    }
}

/// When the lobby is emptied of its rooms, every room is given back with its task,
/// and none is left. Everything else stays.
pub proof fn law_emptied_lobbies_give_rooms_back<J, R>(
    lobby: &mut Lobby<J, R>,
    drained: Vec<(RoomCode, R)>,
    number: u32,
    i: int,
)
    requires
        old(lobby)@.wf(),
        0 <= i < drained@.len(),
        call_ensures(Lobby::<J, R>::drain_rooms, (lobby,), drained),
    ensures
        !final(lobby)@.rooms.contains_key(number),
        final(lobby)@ == (LobbyView { rooms: final(lobby)@.rooms, ..old(lobby)@ }),
        drained@.len() == old(lobby)@.rooms.len(),
        old(lobby)@.rooms.contains_key(number_of(drained@[i].0) as u32),
        old(lobby)@.rooms[number_of(drained@[i].0) as u32].task == drained@[i].1,
        old(lobby)@.rooms.contains_key(number) ==> exists|k: int|
            0 <= k < drained@.len() && number_of((#[trigger] drained@[k]).0) == number,
{
    let before = old(lobby)@;
    let list = drained@;
    let numbers = lobby::listed_numbers(list);
    law_lists_hold_rooms(before, list, i, i);
    numbers.unique_seq_to_set();
    assert forall|n: u32| numbers.to_set().contains(n) implies before.rooms.dom().contains(n) by {
        let k = choose|k: int| 0 <= k < numbers.len() && numbers[k] == n;
        assert(room_code::is_code(list[k].0@));
    }
    vstd::set_lib::lemma_subset_equality(numbers.to_set(), before.rooms.dom());
    if before.rooms.contains_key(number) {
        assert(numbers.to_set().contains(number));
        let k = choose|k: int| 0 <= k < numbers.len() && numbers[k] == number;
        room_code::law_number_of_code_converts_back(list[k].0);
        assert(number_of(list[k].0) == number);
    }
}

/// The steps on the way to the end of the lobby are those that were promised.
pub proof fn law_the_lobby_ends_as_promised(steps: Vec<LobbyShutdownStep>)
    requires
        call_ensures(lobby::shutdown_steps, (), steps),
    ensures
        steps@ == lobby::shutdown_sequence(),
{
}

} // verus!
