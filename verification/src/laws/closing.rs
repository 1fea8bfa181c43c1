//! What is promised while a room is being closed.

use crate::close_code::CloseCode;
use crate::message::{RoomCommand, RoomRequest};
use crate::player::PlayerID;
use crate::room;
use crate::room::{ClosingAction, ClosingEvent, RoomClosing, RoomClosingView};
use vstd::prelude::*;

verus! {

/// A player that drops its connection is no longer waited for, once its task has
/// finished, and nobody else is affected. No connection has to be closed for it.
pub proof fn law_dropped_players_are_done<S, T>(
    closing: RoomClosingView<S, T>,
    player_id: PlayerID,
    other_id: PlayerID,
)
    ensures
        ({
            let event = ClosingEvent::<S>::Request(
                RoomRequest { player_id, command: RoomCommand::DropConnection },
            );
            let after = closing.after(event);
            &&& closing.to_await.contains_key(player_id) ==> closing.action_for(event)
                == ClosingAction::Await(closing.to_await[player_id])
            &&& !closing.to_await.contains_key(player_id) ==> closing.action_for(event)
                == ClosingAction::<T>::Wait
            &&& !after.to_await.contains_key(player_id)
            &&& other_id != player_id ==> (after.to_await.contains_key(other_id)
                <==> closing.to_await.contains_key(other_id))
            &&& other_id != player_id && closing.to_await.contains_key(other_id)
                ==> after.to_await[other_id] == closing.to_await[other_id]
            &&& after.to_close == closing.to_close
        }),
{
}

/// A player that asks for its connection to be closed is no longer waited for, once
/// its task has finished, and nobody else is affected. Its connection has to be
/// closed with the code that it asked for, after those that asked before.
pub proof fn law_closed_players_are_done<S, T>(
    closing: RoomClosingView<S, T>,
    player_id: PlayerID,
    stream: S,
    close_code: CloseCode,
    other_id: PlayerID,
)
    ensures
        ({
            let event = ClosingEvent::CloseRequest(player_id, stream, close_code);
            let after = closing.after(event);
            &&& closing.to_await.contains_key(player_id) ==> closing.action_for(event)
                == ClosingAction::Await(closing.to_await[player_id])
            &&& !closing.to_await.contains_key(player_id) ==> closing.action_for(event)
                == ClosingAction::<T>::Wait
            &&& !after.to_await.contains_key(player_id)
            &&& other_id != player_id ==> (after.to_await.contains_key(other_id)
                <==> closing.to_await.contains_key(other_id))
            &&& other_id != player_id && closing.to_await.contains_key(other_id)
                ==> after.to_await[other_id] == closing.to_await[other_id]
            &&& after.to_close == closing.to_close.push((player_id, stream, close_code))
        }),
{
}

/// All other requests are taken in, and have no effect. If there is nobody left to
/// send any, then the waiting ends.
pub proof fn law_other_requests_have_no_effect<S, T>(
    closing: RoomClosingView<S, T>,
    event: ClosingEvent<S>,
)
    ensures
        event matches ClosingEvent::Request(request) ==> request.command
            != RoomCommand::DropConnection ==> closing.after(event) == closing
            && closing.action_for(event) == ClosingAction::<T>::Wait,
        event is RequestsGone || event is CloseRequestsGone ==> closing.after(event) == closing
            && closing.action_for(event) == ClosingAction::<T>::Stop,
{
}

/// When a room is closed, everyone is notified, apart from the host if the host is
/// not to be notified.
pub proof fn law_everyone_else_is_notified(player_id: PlayerID, send_to_host: bool, notify: bool)
    requires
        call_ensures(room::should_notify, (player_id, send_to_host), notify),
    ensures
        player_id != 1 ==> notify,
        player_id == 1 ==> notify == send_to_host,
{
}

/// A player that was notified is waited for later, in place of any other player with
/// that ID. A player that could not be notified is waited for at once.
pub proof fn law_notified_players_are_waited_for<S, T>(
    closing: &mut RoomClosing<S, T>,
    player_id: PlayerID,
    task: T,
    sent: bool,
    action: ClosingAction<T>,
    other_id: PlayerID,
)
    requires
        call_ensures(RoomClosing::<S, T>::on_notified, (closing, player_id, task, sent), action),
    ensures
        final(closing)@.to_close == old(closing)@.to_close,
        !sent ==> final(closing)@.to_await == old(closing)@.to_await && action
            == ClosingAction::Await(task),
        sent ==> final(closing)@.to_await.contains_key(player_id)
            && final(closing)@.to_await[player_id] == task,
        sent && other_id != player_id ==> (final(closing)@.to_await.contains_key(other_id)
            <==> old(closing)@.to_await.contains_key(other_id)),
        sent && other_id != player_id && old(closing)@.to_await.contains_key(other_id)
            ==> final(closing)@.to_await[other_id] == old(closing)@.to_await[other_id],
        sent && old(closing)@.to_await.contains_key(player_id) ==> action == ClosingAction::Abort(
            old(closing)@.to_await[player_id],
        ),
        sent && !old(closing)@.to_await.contains_key(player_id) ==> action
            == ClosingAction::<T>::Wait,
{
}

/// A room that is being closed reacts as promised, and ends up in the state that was
/// promised.
pub proof fn law_closing_rooms_react_as_promised<S, T>(
    closing: &mut RoomClosing<S, T>,
    event: ClosingEvent<S>,
    action: ClosingAction<T>,
)
    requires
        call_ensures(RoomClosing::<S, T>::on_event, (closing, event), action),
    ensures
        action == old(closing)@.action_for(event),
        final(closing)@ == old(closing)@.after(event),
{
}

/// It starts with nobody to wait for, it is done exactly if there is nobody left,
/// and then all of the connections can be closed.
pub proof fn law_closing_rooms_start_and_end<S, T>(
    start: RoomClosing<S, T>,
    closing: RoomClosing<S, T>,
    done: bool,
    closes: Vec<(PlayerID, S, CloseCode)>,
    player_id: PlayerID,
)
    requires
        call_ensures(RoomClosing::<S, T>::new, (), start),
        call_ensures(RoomClosing::<S, T>::is_done, (&closing,), done),
        call_ensures(RoomClosing::<S, T>::into_closes, (closing,), closes),
    ensures
        !start@.to_await.contains_key(player_id),
        start@.to_close.len() == 0,
        done <==> forall|id: PlayerID| !(#[trigger] closing@.to_await.contains_key(id)),
        closes@ == closing@.to_close,
{
    if forall|id: PlayerID| !(#[trigger] closing@.to_await.contains_key(id)) {
        assert(closing@.to_await =~= Map::<PlayerID, T>::empty());
    }
}

} // verus!
