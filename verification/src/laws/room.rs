//! What is promised to everyone in a room.

use crate::close_code::CloseCode;
use crate::message::{LobbyControl, RoomCommand, RoomNotification, RoomRequest};
use crate::laws::in_room;
use crate::player;
use crate::player::in_room::{InRoomAction, InRoomEvent, PlayerInRoom};
use crate::player::PlayerID;
use crate::room;
use crate::room::{
    MessageType, PlayerTask, Room, RoomAction, RoomEvent, RoomShutdownStep, RoomView,
};
use crate::room_code::RoomCode;
use crate::text;
use vstd::prelude::*;

verus! {

/// A client joins a room exactly if there is a place left, under an ID that nobody
/// in the room has and that is not the host's, and everyone in the room is told. If
/// there is no place left, the client is told that there are too many players.
pub proof fn law_clients_join_while_there_is_space<S, T>(
    before: RoomView<T>,
    client: S,
    after: RoomView<T>,
    action: RoomAction<S, T>,
    other_id: PlayerID,
)
    requires
        before.wf(),
        room::room_step(before, RoomEvent::NewClient(client), after, action),
    ensures
        after == before,
        action is AddPlayer <==> before.players.len() < before.max_players_per_room,
        before.players.len() >= before.max_players_per_room ==> action
            == RoomAction::<S, T>::CloseClient(client, CloseCode::Library(4014)),
        action matches RoomAction::AddPlayer { player_id, stream, notify, notification } ==> {
            &&& stream == client
            &&& player_id > 1
            &&& !before.players.contains_key(player_id)
            &&& notification == RoomNotification::PlayerJoined(player_id)
            &&& notify@.no_duplicates()
            &&& notify@.contains(other_id) <==> before.players.contains_key(other_id)
        },
{
    if let RoomAction::AddPlayer { notify, .. } = action {
        assert(notify@.to_set().contains(other_id) <==> notify@.contains(other_id));
    }
}

/// Adding a player adds the player, who has not sent any messages, and does nothing
/// else.
pub proof fn law_added_players_are_added<T>(
    before: RoomView<T>,
    player_id: PlayerID,
    task: T,
    other_id: PlayerID,
)
    ensures
        ({
            let after = before.with_player(player_id, task);
            &&& after.room_code == before.room_code
            &&& after.max_players_per_room == before.max_players_per_room
            &&& after.max_message_count == before.max_message_count
            &&& after.players.contains_key(player_id)
            &&& after.players[player_id].task == task
            &&& after.players[player_id].msg_sent == Map::<PlayerID, usize>::empty()
            &&& other_id != player_id ==> (after.players.contains_key(other_id)
                <==> before.players.contains_key(other_id))
            &&& other_id != player_id && before.players.contains_key(other_id)
                ==> after.players[other_id] == before.players[other_id]
        }),
{
}

/// Whether the action is to send the notification to the given player, and to
/// nobody else.
pub open spec fn tells<S, T>(
    action: RoomAction<S, T>,
    player_id: PlayerID,
    notification: RoomNotification,
) -> bool {
    action matches RoomAction::Notify(players, sent) && players@.len() == 1 && players@[0]
        == player_id && sent == notification
}

/// Whether the command is to pass something on to the receiver, and the
/// notification passes on just that, with the name of the sender.
pub open spec fn passes_on(
    command: RoomCommand,
    sender_id: PlayerID,
    receiver_id: PlayerID,
    payload: String,
    message: RoomNotification,
) -> bool {
    ||| command == RoomCommand::SendOffer(receiver_id, payload) && message
        == RoomNotification::OfferReceived(sender_id, payload)
    ||| command == RoomCommand::SendAnswer(receiver_id, payload) && message
        == RoomNotification::AnswerReceived(sender_id, payload)
    ||| command == RoomCommand::SendCandidate(receiver_id, payload) && message
        == RoomNotification::CandidateReceived(sender_id, payload)
}

/// An offer, an answer or a candidate gets through to another player in the room as
/// long as the sender has not sent that player as many as allowed. It is counted,
/// and nothing else in the room changes. If it does not get through, the sender is
/// told why, and nothing changes.
pub proof fn law_messages_get_through_up_to_the_limit<S, T>(
    before: RoomView<T>,
    command: RoomCommand,
    sender_id: PlayerID,
    receiver_id: PlayerID,
    payload: String,
    message: RoomNotification,
    after: RoomView<T>,
    action: RoomAction<S, T>,
    other_id: PlayerID,
)
    requires
        before.wf(),
        passes_on(command, sender_id, receiver_id, payload, message),
        room::room_step(
            before,
            RoomEvent::Request((RoomRequest { player_id: sender_id, command })),
            after,
            action,
        ),
    ensures
        ({
            let known = before.players.contains_key(sender_id);
            let possible = before.players.contains_key(receiver_id) && sender_id != receiver_id;
            let msg_sent = before.players[sender_id].msg_sent;
            let count = if msg_sent.contains_key(receiver_id) {
                msg_sent[receiver_id] as int
            } else {
                0
            };
            let limit = before.max_message_count;
            &&& !known ==> after == before && action == RoomAction::<S, T>::Wait
            &&& known && !possible ==> after == before && tells(
                action,
                sender_id,
                RoomNotification::Error(CloseCode::Library(4012)),
            )
            &&& known && possible && count >= limit ==> after == before && tells(
                action,
                sender_id,
                RoomNotification::Error(CloseCode::Policy),
            )
            &&& known && possible && count < limit ==> {
                &&& tells(action, receiver_id, message)
                &&& after.room_code == before.room_code
                &&& after.max_players_per_room == before.max_players_per_room
                &&& after.max_message_count == before.max_message_count
                &&& after.players.contains_key(other_id) <==> before.players.contains_key(other_id)
                &&& other_id != sender_id && before.players.contains_key(other_id)
                    ==> after.players[other_id] == before.players[other_id]
                &&& after.players.contains_key(sender_id)
                &&& after.players[sender_id].task == before.players[sender_id].task
                &&& after.players[sender_id].msg_sent == msg_sent.insert(
                    receiver_id,
                    (count + 1) as usize,
                )
            }
        }),
{
}

/// The host can seal the room, which tells everyone that it is sealed. Another
/// player who tries is told that only the host can do that.
pub proof fn law_only_the_host_can_seal<S, T>(
    before: RoomView<T>,
    player_id: PlayerID,
    after: RoomView<T>,
    action: RoomAction<S, T>,
)
    requires
        before.wf(),
        room::room_step(
            before,
            RoomEvent::Request((RoomRequest { player_id, command: RoomCommand::SealRoom })),
            after,
            action,
        ),
    ensures
        after == before,
        player_id == 1 ==> (action matches RoomAction::CloseRoom {
            notification,
            send_to_host,
            host_close,
        } && notification == RoomNotification::RoomSealed && send_to_host && host_close is None),
        player_id != 1 && before.players.contains_key(player_id) ==> tells(
            action,
            player_id,
            RoomNotification::Error(CloseCode::Library(4004)),
        ),
        player_id != 1 && !before.players.contains_key(player_id) ==> action
            == RoomAction::<S, T>::Wait,
{
}

/// Whether the event is that a player leaves, with or without asking for its
/// connection to be closed.
pub open spec fn leaves<S>(
    event: RoomEvent<S>,
    player_id: PlayerID,
    close: Option<(S, CloseCode)>,
) -> bool {
    match event {
        RoomEvent::Request(request) => request.player_id == player_id && request.command
            == RoomCommand::DropConnection && close is None,
        RoomEvent::CloseRequest(id, stream, code) => id == player_id && close == Some(
            (stream, code),
        ),
        _ => false,
    }
}

/// If the host leaves, the room is closed, and the others are told that the host
/// has left.
pub proof fn law_the_room_closes_when_the_host_leaves<S, T>(
    before: RoomView<T>,
    event: RoomEvent<S>,
    close: Option<(S, CloseCode)>,
    after: RoomView<T>,
    action: RoomAction<S, T>,
)
    requires
        before.wf(),
        leaves(event, 1, close),
        room::room_step(before, event, after, action),
    ensures
        after == before,
        action matches RoomAction::CloseRoom { notification, send_to_host, host_close }
            && notification == RoomNotification::HostLeft && !send_to_host && host_close == close,
{
}

/// If another player leaves, that player and nobody else is removed. The others
/// keep their tasks and their counts, but for those to the player who left, and all
/// of them are told. The connection of the player is closed as they asked for.
pub proof fn law_players_that_leave_are_removed<S, T>(
    before: RoomView<T>,
    event: RoomEvent<S>,
    player_id: PlayerID,
    close: Option<(S, CloseCode)>,
    after: RoomView<T>,
    action: RoomAction<S, T>,
    other_id: PlayerID,
)
    requires
        before.wf(),
        player_id != 1,
        leaves(event, player_id, close),
        room::room_step(before, event, after, action),
    ensures
        after.room_code == before.room_code,
        after.max_players_per_room == before.max_players_per_room,
        after.max_message_count == before.max_message_count,
        after.players.contains_key(other_id) <==> before.players.contains_key(other_id) && other_id
            != player_id,
        after.players.contains_key(other_id) ==> after.players[other_id].task
            == before.players[other_id].task && after.players[other_id].msg_sent
            == before.players[other_id].msg_sent.remove(player_id),
        action matches RoomAction::RemovePlayer {
            player_id: removed_id,
            task,
            close: closed,
            notify,
            notification,
        } && {
            &&& removed_id == player_id
            &&& closed == close
            &&& before.players.contains_key(player_id) ==> task == Some(
                before.players[player_id].task,
            )
            &&& !before.players.contains_key(player_id) ==> task is None
            &&& notification == RoomNotification::PlayerLeft(player_id)
            &&& notify@.no_duplicates()
            &&& notify@.contains(other_id) <==> before.players.contains_key(other_id) && other_id
                != player_id
        },
{
    if let RoomAction::RemovePlayer { notify, .. } = action {
        assert(notify@.to_set().contains(other_id) <==> notify@.contains(other_id));
    }
}

/// New limits are adopted. Nobody is removed by that alone, but if there are too
/// many players now, then so many of the guests are told to leave, each of them
/// once, that the maximum is met, or all of them if that does not suffice.
pub proof fn law_new_limits_are_adopted<S, T>(
    before: RoomView<T>,
    max_players_per_room: usize,
    max_message_count: usize,
    after: RoomView<T>,
    action: RoomAction<S, T>,
    kicked_id: PlayerID,
)
    requires
        before.wf(),
        room::room_step(
            before,
            (RoomEvent::<S>::ConfigChanged { max_players_per_room, max_message_count }),
            after,
            action,
        ),
    ensures
        after.room_code == before.room_code,
        after.players == before.players,
        after.max_players_per_room == max_players_per_room,
        after.max_message_count == max_message_count,
        before.players.len() <= max_players_per_room ==> action == RoomAction::<S, T>::Wait,
        before.players.len() > max_players_per_room ==> (action matches RoomAction::Notify(
            kicked,
            notification,
        ) && {
            let guests = before.players.dom().remove(1).len();
            let excess = before.players.len() - max_players_per_room;
            &&& notification == RoomNotification::Error(CloseCode::Library(4014))
            &&& kicked@.no_duplicates()
            &&& kicked@.contains(kicked_id) ==> before.players.contains_key(kicked_id) && kicked_id
                != 1
            &&& kicked@.len() == if excess <= guests {
                excess
            } else {
                guests as int
            }
        }),
{
    if let RoomAction::Notify(kicked, _) = action {
        assert(kicked@.to_set().contains(kicked_id) <==> kicked@.contains(kicked_id));
    }
}

/// A shutdown, or the loss of the lobby or of the players, stops the room, and
/// nobody is notified.
pub proof fn law_rooms_stop_when_they_are_cut_off<S, T>(
    before: RoomView<T>,
    event: RoomEvent<S>,
    after: RoomView<T>,
    action: RoomAction<S, T>,
)
    requires
        before.wf(),
        event is Shutdown || event is LobbyGone || event is RequestsGone
            || event is CloseRequestsGone,
        room::room_step(before, event, after, action),
    ensures
        after == before,
        action == RoomAction::<S, T>::Stop,
{
}

/// The limit that applies to a client that comes after new limits have been adopted
/// is the new one.
pub proof fn law_new_limits_apply_to_new_clients<S, T>(
    before: RoomView<T>,
    max_players_per_room: usize,
    max_message_count: usize,
    between: RoomView<T>,
    action: RoomAction<S, T>,
    client: S,
    after: RoomView<T>,
    next_action: RoomAction<S, T>,
)
    requires
        before.wf(),
        max_players_per_room < u32::MAX,
        room::room_step(
            before,
            (RoomEvent::<S>::ConfigChanged { max_players_per_room, max_message_count }),
            between,
            action,
        ),
        room::room_step(between, RoomEvent::NewClient(client), after, next_action),
    ensures
        next_action is AddPlayer <==> before.players.len() < max_players_per_room,
{
}

/// The task of a player is found exactly if the player is in the room.
pub proof fn law_tasks_are_found<T>(room: RoomView<T>, player_id: PlayerID)
    ensures
        room.players.contains_key(player_id) ==> room.task_of(player_id) == Some(
            room.players[player_id].task,
        ),
        !room.players.contains_key(player_id) ==> room.task_of(player_id) is None,
{
}

/// A list of the players of a room holds each of them, once, and nobody else.
pub proof fn law_lists_hold_all_players<T>(
    room: RoomView<T>,
    list: Seq<PlayerID>,
    player_id: PlayerID,
)
    requires
        room.wf(),
        room::lists_players(room, list),
    ensures
        list.contains(player_id) <==> room.players.contains_key(player_id),
        list.no_duplicates(),
        list.len() == room.players.len(),
{
    list.unique_seq_to_set();
    assert(list.to_set().contains(player_id) <==> list.contains(player_id));
}

/// A list of as many tasks as there are players in a room holds the task of each
/// player, once, and no other.
pub proof fn law_lists_hold_all_tasks<T>(
    room: RoomView<T>,
    list: Seq<(PlayerID, T)>,
    i: int,
    j: int,
)
    requires
        room.wf(),
        room::lists_tasks(room, list),
        0 <= i < list.len(),
        0 <= j < list.len(),
    ensures
        room.players.contains_key(list[i].0),
        room.players[list[i].0].task == list[i].1,
        i != j ==> list[i].0 != list[j].0,
{
    let ids = room::listed_players(list);
    assert(ids[i] == list[i].0 && ids[j] == list[j].0);
    assert(room.task_of(list[i].0) == Some(list[i].1));
}

/// Where nothing has been counted, the number of messages is zero.
pub proof fn law_counts_start_at_zero(msg_sent: Map<PlayerID, usize>, receiver_id: PlayerID)
    ensures
        msg_sent.contains_key(receiver_id) ==> room::message_count(msg_sent, receiver_id)
            == msg_sent[receiver_id],
        !msg_sent.contains_key(receiver_id) ==> room::message_count(msg_sent, receiver_id) == 0,
{
}

/// Every kind of message is passed on as what it is.
pub proof fn law_kinds_are_kept(from: PlayerID, payload: String)
    ensures
        MessageType::Offer.spec_notification(from, payload)
            == RoomNotification::OfferReceived(from, payload),
        MessageType::Answer.spec_notification(from, payload)
            == RoomNotification::AnswerReceived(from, payload),
        MessageType::Candidate.spec_notification(from, payload)
            == RoomNotification::CandidateReceived(from, payload),
{
}

/// A room comes to its end in order: the lobby gets to know that it is sealed, the
/// requests are taken in until there are no more, the players are waited for, the
/// clients that came too late are told that the room is sealed, the connections are
/// closed, and at last the lobby gets to know that it is closed.
pub proof fn law_rooms_end_in_order(room_code: RoomCode)
    ensures
        ({
            let steps = room::shutdown_sequence(room_code);
            &&& steps.len() == 7
            &&& steps[0] == RoomShutdownStep::SendControl(LobbyControl::SealRoom(room_code))
            &&& steps[1] == RoomShutdownStep::DrainCloseRequests
            &&& steps[2] == RoomShutdownStep::DrainRequests
            &&& steps[3] == RoomShutdownStep::AwaitPlayers
            &&& steps[4] == RoomShutdownStep::CloseLateClients(CloseCode::Library(4008))
            &&& steps[5] == RoomShutdownStep::AwaitCloses
            &&& steps[6] == RoomShutdownStep::SendControl(LobbyControl::CloseRoom(room_code))
        }),
{
}

/// Whatever happens to a room, it reacts as promised, and ends up in the state that
/// was promised.
pub proof fn law_rooms_react_as_promised<S, T>(
    room: &mut Room<T>,
    event: RoomEvent<S>,
    action: RoomAction<S, T>,
)
    requires
        call_ensures(Room::<T>::on_event::<S>, (room, event), action),
    ensures
        room::room_step(old(room)@, event, final(room)@, action),
{
}

/// Passing a message on by itself is the same as by a request.
pub proof fn law_messages_are_passed_on_as_promised<S, T>(
    room: &mut Room<T>,
    sender_id: PlayerID,
    receiver_id: PlayerID,
    message_type: MessageType,
    payload: String,
    action: RoomAction<S, T>,
)
    requires
        call_ensures(
            Room::<T>::try_send_message::<S>,
            (room, sender_id, receiver_id, message_type, payload),
            action,
        ),
    ensures
        room::room_step(
            old(room)@,
            RoomEvent::Request(
                (RoomRequest {
                    player_id: sender_id,
                    command: match message_type {
                        MessageType::Offer => RoomCommand::SendOffer(receiver_id, payload),
                        MessageType::Answer => RoomCommand::SendAnswer(receiver_id, payload),
                        MessageType::Candidate => RoomCommand::SendCandidate(receiver_id, payload),
                    },
                }),
            ),
            final(room)@,
            action,
        ),
{
}

/// Sealing a room by itself is the same as by a request.
pub proof fn law_rooms_are_sealed_as_promised<S, T>(
    room: Room<T>,
    player_id: PlayerID,
    action: RoomAction<S, T>,
)
    requires
        call_ensures(Room::<T>::try_seal_room::<S>, (&room, player_id), action),
    ensures
        room::room_step(
            room@,
            RoomEvent::Request((RoomRequest { player_id, command: RoomCommand::SealRoom })),
            room@,
            action,
        ),
{
}

/// Adopting new limits by itself is the same as in an event.
pub proof fn law_limits_are_adopted_as_promised<S, T>(
    room: &mut Room<T>,
    max_players_per_room: usize,
    max_message_count: usize,
    action: RoomAction<S, T>,
)
    requires
        call_ensures(
            Room::<T>::on_config_changed::<S>,
            (room, max_players_per_room, max_message_count),
            action,
        ),
    ensures
        room::room_step(
            old(room)@,
            (RoomEvent::<S>::ConfigChanged { max_players_per_room, max_message_count }),
            final(room)@,
            action,
        ),
{
}

/// A room starts without any players, and with the limits that are given.
pub proof fn law_rooms_start_empty<T>(
    room_code: RoomCode,
    max_players_per_room: usize,
    max_message_count: usize,
    room: Room<T>,
    code: RoomCode,
    player_id: PlayerID,
)
    requires
        call_ensures(
            Room::<T>::new,
            (room_code, max_players_per_room, max_message_count),
            room,
        ),
        call_ensures(Room::<T>::room_code, (&room,), code),
    ensures
        code == room_code,
        room@.room_code == room_code,
        room@.max_players_per_room == max_players_per_room,
        room@.max_message_count == max_message_count,
        !room@.players.contains_key(player_id),
{
}

/// The players of a room, and their tasks, can be asked for.
pub proof fn law_players_can_be_asked_for<T>(
    room: Room<T>,
    ids: Vec<PlayerID>,
    player_id: PlayerID,
    task: Option<&T>,
)
    requires
        room@.wf(),
        call_ensures(Room::<T>::player_ids, (&room,), ids),
        call_ensures(Room::<T>::player_task, (&room, player_id), task),
    ensures
        ids@.contains(player_id) <==> room@.players.contains_key(player_id),
        ids@.no_duplicates(),
        task is Some <==> room@.players.contains_key(player_id),
        task matches Some(task) ==> *task == room@.players[player_id].task,
{
    law_lists_hold_all_players(room@, ids@, player_id);
}

/// A player that connects is added, and the task that the player replaces, if any,
/// is given back.
pub proof fn law_players_connect<T>(
    room: &mut Room<T>,
    player_id: PlayerID,
    task: T,
    replaced: Option<T>,
)
    requires
        call_ensures(Room::<T>::on_connect, (room, player_id, task), replaced),
    ensures
        final(room)@ == old(room)@.with_player(player_id, task),
        replaced is Some <==> old(room)@.players.contains_key(player_id),
        replaced matches Some(replaced) ==> replaced == old(room)@.players[player_id].task,
{
}

/// A player that disconnects is removed, and so are the counts of the messages to
/// that player. Everything else stays, and the task is given back.
pub proof fn law_players_disconnect<T>(
    room: &mut Room<T>,
    player_id: PlayerID,
    removed: Option<T>,
    other_id: PlayerID,
)
    requires
        call_ensures(Room::<T>::on_disconnect, (room, player_id), removed),
    ensures
        removed is Some <==> old(room)@.players.contains_key(player_id),
        removed matches Some(removed) ==> removed == old(room)@.players[player_id].task,
        final(room)@.room_code == old(room)@.room_code,
        final(room)@.max_players_per_room == old(room)@.max_players_per_room,
        final(room)@.max_message_count == old(room)@.max_message_count,
        final(room)@.players.contains_key(other_id) <==> old(room)@.players.contains_key(other_id)
            && other_id != player_id,
        final(room)@.players.contains_key(other_id) ==> final(room)@.players[other_id].task
            == old(room)@.players[other_id].task && final(room)@.players[other_id].msg_sent
            == old(room)@.players[other_id].msg_sent.remove(player_id),
{
}

/// A player that cannot be notified is removed, and nothing else changes. The task is
/// given back.
pub proof fn law_players_that_cannot_be_notified_are_removed<T>(
    room: &mut Room<T>,
    player_id: PlayerID,
    removed: Option<T>,
    other_id: PlayerID,
)
    requires
        call_ensures(Room::<T>::on_notify_failed, (room, player_id), removed),
    ensures
        removed is Some <==> old(room)@.players.contains_key(player_id),
        removed matches Some(removed) ==> removed == old(room)@.players[player_id].task,
        final(room)@.room_code == old(room)@.room_code,
        final(room)@.max_players_per_room == old(room)@.max_players_per_room,
        final(room)@.max_message_count == old(room)@.max_message_count,
        final(room)@.players.contains_key(other_id) <==> old(room)@.players.contains_key(other_id)
            && other_id != player_id,
        final(room)@.players.contains_key(other_id) ==> final(room)@.players[other_id]
            == old(room)@.players[other_id],
{
}

/// When a room is emptied, every player is given back with their task, and nobody is
/// left.
pub proof fn law_emptied_rooms_give_everyone_back<T>(
    room: &mut Room<T>,
    removed: Vec<(PlayerID, T)>,
    player_id: PlayerID,
    task: T,
)
    requires
        old(room)@.wf(),
        call_ensures(Room::<T>::drain, (room,), removed),
    ensures
        !final(room)@.players.contains_key(player_id),
        final(room)@.room_code == old(room)@.room_code,
        final(room)@.max_players_per_room == old(room)@.max_players_per_room,
        final(room)@.max_message_count == old(room)@.max_message_count,
        removed@.len() == old(room)@.players.len(),
        removed@.contains((player_id, task)) <==> old(room)@.players.contains_key(player_id)
            && old(room)@.players[player_id].task == task,
{
    let before = old(room)@;
    let list = removed@;
    let ids = room::listed_players(list);
    ids.unique_seq_to_set();
    assert forall|id: PlayerID| ids.to_set().contains(id) implies before.players.dom().contains(
        id,
    ) by {
        let i = choose|i: int| 0 <= i < ids.len() && ids[i] == id;
        assert(before.task_of(list[i].0) == Some(list[i].1));
    }
    vstd::set_lib::lemma_subset_equality(ids.to_set(), before.players.dom());
    if list.contains((player_id, task)) {
        let i = choose|i: int| 0 <= i < list.len() && list[i] == (player_id, task);
        assert(before.task_of(list[i].0) == Some(list[i].1));
    }
    if before.players.contains_key(player_id) && before.players[player_id].task == task {
        assert(ids.to_set().contains(player_id));
        let i = choose|i: int| 0 <= i < ids.len() && ids[i] == player_id;
        assert(before.task_of(list[i].0) == Some(list[i].1));
        assert(list[i] == (player_id, task));
    }
}

/// The messages of a player are counted for each receiver by itself, starting at
/// zero, and the counts can be cleared one by one. The task stays the same.
pub proof fn law_messages_are_counted_by_receiver<T>(
    player: &mut PlayerTask<T>,
    receiver_id: PlayerID,
    other_id: PlayerID,
)
    requires
        old(player)@.msg_sent.contains_key(receiver_id) ==> old(player)@.msg_sent[receiver_id]
            < usize::MAX,
    ensures
        call_ensures(PlayerTask::<T>::increment_message_count, (player, receiver_id), ()) ==> {
            &&& final(player)@.task == old(player)@.task
            &&& final(player)@.msg_sent.contains_key(receiver_id)
            &&& final(player)@.msg_sent[receiver_id] == 1 + if old(player)@.msg_sent.contains_key(
                receiver_id,
            ) {
                old(player)@.msg_sent[receiver_id] as int
            } else {
                0
            }
            &&& other_id != receiver_id ==> (final(player)@.msg_sent.contains_key(other_id)
                <==> old(player)@.msg_sent.contains_key(other_id))
            &&& other_id != receiver_id && old(player)@.msg_sent.contains_key(other_id)
                ==> final(player)@.msg_sent[other_id] == old(player)@.msg_sent[other_id]
        },
        call_ensures(PlayerTask::<T>::clear_message_count, (player, receiver_id), ()) ==> {
            &&& final(player)@.task == old(player)@.task
            &&& final(player)@.msg_sent.contains_key(other_id)
                <==> old(player)@.msg_sent.contains_key(other_id) && other_id != receiver_id
            &&& final(player)@.msg_sent.contains_key(other_id)
                ==> final(player)@.msg_sent[other_id] == old(player)@.msg_sent[other_id]
        },
{
}

/// A new player has not sent any messages. The task and the counts of a player can be
/// asked for.
pub proof fn law_counts_can_be_asked_for<T>(
    task: T,
    start: PlayerTask<T>,
    player: PlayerTask<T>,
    receiver_id: PlayerID,
    count: usize,
    found: &T,
    kept: T,
)
    requires
        call_ensures(PlayerTask::<T>::new, (task,), start),
        call_ensures(PlayerTask::<T>::get_message_count, (&player, receiver_id), count),
        call_ensures(PlayerTask::<T>::task, (&player,), found),
        call_ensures(PlayerTask::<T>::into_task, (player,), kept),
    ensures
        start@.task == task,
        !start@.msg_sent.contains_key(receiver_id),
        player@.msg_sent.contains_key(receiver_id) ==> count == player@.msg_sent[receiver_id],
        !player@.msg_sent.contains_key(receiver_id) ==> count == 0,
        *found == player@.task,
        kept == player@.task,
{
}

/// The kinds of messages have names and notifications of their own.
pub proof fn law_kinds_are_described(
    message_type: MessageType,
    text: String,
    from: PlayerID,
    payload: String,
    notification: RoomNotification,
)
    requires
        call_ensures(MessageType::to_text, (&message_type,), text),
        call_ensures(MessageType::notification, (&message_type, from, payload), notification),
    ensures
        message_type is Offer ==> text@ == "offer"@ && notification
            == RoomNotification::OfferReceived(from, payload),
        message_type is Answer ==> text@ == "answer"@ && notification
            == RoomNotification::AnswerReceived(from, payload),
        message_type is Candidate ==> text@ == "candidate"@ && notification
            == RoomNotification::CandidateReceived(from, payload),
{
}

/// The steps on the way to the end of a room are those that were promised.
pub proof fn law_rooms_end_as_promised(room_code: RoomCode, steps: Vec<RoomShutdownStep>)
    requires
        call_ensures(room::shutdown_steps, (room_code,), steps),
    ensures
        steps@ == room::shutdown_sequence(room_code),
{
}

/// Whether the text is a message to the given player, with the given payload.
pub open spec fn addresses(
    text: Seq<char>,
    command: Seq<char>,
    player_id: PlayerID,
    payload: Seq<char>,
) -> bool {
    &&& command == "O: "@ || command == "A: "@ || command == "C: "@
    &&& text == command + text::decimal(player_id as nat) + "\n"@ + payload
}

/// What a player sends to another player in the same room reaches that player, and
/// nobody else, with the same command, the same payload, and the ID of the sender in
/// place of that of the receiver. This holds whatever state the two players are in,
/// as long as the sender has not sent as many messages to the receiver as allowed.
pub proof fn law_players_reach_each_other<S, T>(
    sender: PlayerInRoom,
    text: String,
    command: Seq<char>,
    receiver_id: PlayerID,
    payload: Seq<char>,
    request: RoomRequest,
    before: RoomView<T>,
    after: RoomView<T>,
    notified: Vec<PlayerID>,
    notification: RoomNotification,
    receiver: PlayerInRoom,
    action: InRoomAction,
)
    requires
        before.wf(),
        payload.len() > 0,
        addresses(text@, command, receiver_id, payload),
        in_room::reacts(sender, in_room::text_read(text), InRoomAction::SendRequest(request)),
        before.players.contains_key(sender.player_id),
        before.players.contains_key(receiver_id),
        sender.player_id != receiver_id,
        before.players[sender.player_id].msg_sent.contains_key(receiver_id)
            ==> before.players[sender.player_id].msg_sent[receiver_id] < before.max_message_count,
        before.max_message_count > 0,
        room::room_step(
            before,
            RoomEvent::<S>::Request(request),
            after,
            RoomAction::<S, T>::Notify(notified, notification),
        ),
        in_room::reacts(receiver, InRoomEvent::Notified(notification), action),
    ensures
        notified@ == seq![receiver_id],
        action matches InRoomAction::SendText(message) && addresses(
            message@,
            command,
            sender.player_id,
            payload,
        ),
{
    player::law_addressed_message_is_parsed(receiver_id, payload);
    reveal_strlit("O: ");
    reveal_strlit("A: ");
    reveal_strlit("C: ");
    assert("O: "@[0] == 'O' && "A: "@[0] == 'A' && "C: "@[0] == 'C');
}

} // verus!
