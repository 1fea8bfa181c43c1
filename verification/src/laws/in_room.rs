//! What is promised to the players that are in a room.

use crate::close_code::CloseCode;
use crate::config::VariableConfig;
use crate::message::{RoomCommand, RoomNotification};
use crate::player;
use crate::player::in_room::{InRoomAction, InRoomEvent, PlayerInRoom};
use crate::player::{ClientMessage, ParseError, PlayerID, PlayerRequestView, ReadOutcome};
use crate::player::{in_room, WebSocketError};
use crate::room_code::RoomCode;
use crate::{room_code, text};
use vstd::prelude::*;

verus! {

/// Whether a player reacts to an event with the given action.
pub open spec fn reacts(player: PlayerInRoom, event: InRoomEvent, action: InRoomAction) -> bool {
    in_room::is_action(action, player.action_for(event), player.player_id)
}

/// The event that a text was read from the client.
pub open spec fn text_read(text: String) -> InRoomEvent {
    InRoomEvent::Read(ReadOutcome::Message(ClientMessage::Text(text)))
}

/// The event that a pong was read from the client.
pub open spec fn pong_read() -> InRoomEvent {
    InRoomEvent::Read(ReadOutcome::Message(ClientMessage::Pong))
}

/// Whatever state a player is in, an offer, an answer or a candidate for another
/// player is sent to the room, with the same destination and the same payload.
pub proof fn law_payloads_are_sent_in_every_state(
    player: PlayerInRoom,
    text: String,
    id: PlayerID,
    payload: Seq<char>,
    action: InRoomAction,
)
    requires
        payload.len() > 0,
        reacts(player, text_read(text), action),
    ensures
        text@ == "O: "@ + text::decimal(id as nat) + "\n"@ + payload ==> (action matches
            InRoomAction::SendRequest(request) && request.player_id == player.player_id
            && (request.command matches RoomCommand::SendOffer(to, sent) && to == id && sent@
            == payload)),
        text@ == "A: "@ + text::decimal(id as nat) + "\n"@ + payload ==> (action matches
            InRoomAction::SendRequest(request) && request.player_id == player.player_id
            && (request.command matches RoomCommand::SendAnswer(to, sent) && to == id && sent@
            == payload)),
        text@ == "C: "@ + text::decimal(id as nat) + "\n"@ + payload ==> (action matches
            InRoomAction::SendRequest(request) && request.player_id == player.player_id
            && (request.command matches RoomCommand::SendCandidate(to, sent) && to == id && sent@
            == payload)),
{
    player::law_addressed_message_is_parsed(id, payload);
}

/// What is done about a text depends on the text alone, and the text does not
/// change the state of the player.
pub proof fn law_texts_do_not_depend_on_the_state(
    player: PlayerInRoom,
    other: PlayerInRoom,
    text: String,
)
    ensures
        player.action_for(text_read(text)) == other.action_for(text_read(text)),
        player.after(text_read(text)) == player,
{
}

/// A text is dealt with according to what it means: requests that can be made in a
/// room are sent to it, and everything else closes the connection with the code
/// that says what is wrong.
pub proof fn law_texts_are_dealt_with(player: PlayerInRoom, text: String, action: InRoomAction)
    requires
        reacts(player, text_read(text), action),
    ensures
        match player::parsed_request(text@) {
            Ok(PlayerRequestView::Seal) => action matches InRoomAction::SendRequest(request)
                && request.player_id == player.player_id && request.command
                == RoomCommand::SealRoom,
            Ok(PlayerRequestView::Offer(id, payload)) => action matches
                InRoomAction::SendRequest(request) && request.player_id == player.player_id
                && (request.command matches RoomCommand::SendOffer(to, sent) && to == id && sent@
                == payload),
            Ok(PlayerRequestView::Answer(id, payload)) => action matches
                InRoomAction::SendRequest(request) && request.player_id == player.player_id
                && (request.command matches RoomCommand::SendAnswer(to, sent) && to == id && sent@
                == payload),
            Ok(PlayerRequestView::Candidate(id, payload)) => action matches
                InRoomAction::SendRequest(request) && request.player_id == player.player_id
                && (request.command matches RoomCommand::SendCandidate(to, sent) && to == id
                && sent@ == payload),
            Ok(PlayerRequestView::Host) => action == InRoomAction::CloseConnection(
                CloseCode::Library(4006),
            ),
            Ok(PlayerRequestView::Join(_)) => action == InRoomAction::CloseConnection(
                CloseCode::Library(4006),
            ),
            Err(ParseError::InvalidCommand) => action == InRoomAction::CloseConnection(
                CloseCode::Library(4013),
            ),
            Err(ParseError::InvalidArgument) => action == InRoomAction::CloseConnection(
                CloseCode::Library(4012),
            ),
            Err(_) => action == InRoomAction::CloseConnection(CloseCode::Library(4009)),
        },
{
}

/// The client may only send texts, and a pong if one is expected. If it closes the
/// connection, the connection is dropped.
pub proof fn law_other_messages_end_the_connection(
    player: PlayerInRoom,
    message: ClientMessage,
    action: InRoomAction,
)
    requires
        reacts(player, InRoomEvent::Read(ReadOutcome::Message(message)), action),
    ensures
        message is Binary ==> action == InRoomAction::CloseConnection(CloseCode::Unsupported),
        message is Ping ==> action == InRoomAction::CloseConnection(CloseCode::Protocol),
        message is Pong && !player.expecting_pong ==> action == InRoomAction::CloseConnection(
            CloseCode::Protocol,
        ),
        message is Pong && player.expecting_pong ==> action == InRoomAction::Wait,
        message is Close || message is Frame ==> drops(player, action),
{
}

/// Whether the action is to ask the room to drop the connection of the player.
pub open spec fn drops(player: PlayerInRoom, action: InRoomAction) -> bool {
    action matches InRoomAction::DropConnection(request) && request.player_id == player.player_id
        && request.command == RoomCommand::DropConnection
}

/// A client that is gone, that does not respond, or that cannot be sent anything is
/// dropped.
pub proof fn law_lost_clients_are_dropped(
    player: PlayerInRoom,
    event: InRoomEvent,
    action: InRoomAction,
)
    requires
        reacts(player, event, action),
        ({
            ||| event == InRoomEvent::TimedOut
            ||| event == InRoomEvent::SendFailed
            ||| event == InRoomEvent::RoomGone
            ||| event == InRoomEvent::Read(ReadOutcome::Ended)
        }),
    ensures
        action matches InRoomAction::DropConnection(request) && request.player_id
            == player.player_id && request.command == RoomCommand::DropConnection,
        player.after(event) == player,
{
}

/// If reading from the client fails, the connection is closed with a code that says
/// what went wrong, or dropped if a code could not be sent.
pub proof fn law_failed_reads_end_the_connection(
    player: PlayerInRoom,
    error: WebSocketError,
    action: InRoomAction,
)
    requires
        reacts(player, InRoomEvent::Read(ReadOutcome::Failed(error)), action),
    ensures
        error is Tls || error is Protocol || error is Http ==> action
            == InRoomAction::CloseConnection(CloseCode::Protocol),
        error is Capacity ==> action == InRoomAction::CloseConnection(CloseCode::Size),
        error is Utf8 || error is HttpFormat ==> action == InRoomAction::CloseConnection(
            CloseCode::Invalid,
        ),
        error is ConnectionClosed || error is AlreadyClosed || error is Io
            || error is WriteBufferFull || error is AttackAttempt || error is Url ==> (
        action matches InRoomAction::DropConnection(request) && request.player_id
            == player.player_id && request.command == RoomCommand::DropConnection),
        player.after(InRoomEvent::Read(ReadOutcome::Failed(error))) == player,
{
}

/// The client gets to know what happens in the room, whatever state the player is
/// in, and the player does not change because of it.
pub proof fn law_clients_are_told_what_happens(
    player: PlayerInRoom,
    notification: RoomNotification,
    action: InRoomAction,
)
    requires
        reacts(player, InRoomEvent::Notified(notification), action),
    ensures
        player.after(InRoomEvent::Notified(notification)) == player,
        match notification {
            RoomNotification::PlayerJoined(id) => sends(
                action,
                "N: "@ + text::decimal(id as nat) + "\n"@,
            ),
            RoomNotification::PlayerLeft(id) => sends(
                action,
                "D: "@ + text::decimal(id as nat) + "\n"@,
            ),
            RoomNotification::OfferReceived(from, payload) => sends(
                action,
                "O: "@ + text::decimal(from as nat) + "\n"@ + payload@,
            ),
            RoomNotification::AnswerReceived(from, payload) => sends(
                action,
                "A: "@ + text::decimal(from as nat) + "\n"@ + payload@,
            ),
            RoomNotification::CandidateReceived(from, payload) => sends(
                action,
                "C: "@ + text::decimal(from as nat) + "\n"@ + payload@,
            ),
            RoomNotification::HostLeft => action == InRoomAction::CloseConnection(
                CloseCode::Library(4003),
            ),
            RoomNotification::RoomSealed => action == InRoomAction::CloseConnection(
                CloseCode::Library(4008),
            ),
            RoomNotification::Error(code) => action == InRoomAction::CloseConnection(code),
        },
{
}

/// Whether the action is to send the given text to the client.
pub open spec fn sends(action: InRoomAction, text: Seq<char>) -> bool {
    action matches InRoomAction::SendText(message) && message@ == text
}

/// A ping is sent when it is due, missed notifications close the connection, a new
/// configuration starts the pings over, and a shutdown ends everything.
pub proof fn law_the_server_takes_the_lead(
    player: PlayerInRoom,
    event: InRoomEvent,
    action: InRoomAction,
)
    requires
        reacts(player, event, action),
    ensures
        event is PingDue ==> action == InRoomAction::SendPing,
        event is NotificationsMissed ==> action == InRoomAction::CloseConnection(CloseCode::Error),
        event is ConfigChanged ==> action == InRoomAction::RestartPings,
        event is Shutdown ==> action == InRoomAction::Stop,
        event is NotificationsMissed || event is Shutdown ==> player.after(event) == player,
{
}

/// Only a ping makes a pong expected, and only a pong makes it no longer expected.
pub proof fn law_only_pings_and_pongs_matter_to_pongs(player: PlayerInRoom, event: InRoomEvent)
    ensures
        event is PingDue ==> player.after(event).expecting_pong,
        event == pong_read() ==> !player.after(event).expecting_pong,
        !(event is PingDue) && event != pong_read() ==> player.after(event).expecting_pong
            == player.expecting_pong,
{
}

/// The intervals of a player are those of the latest configuration, and nothing
/// else changes them. Who the player is never changes.
pub proof fn law_only_configurations_matter_to_intervals(
    player: PlayerInRoom,
    event: InRoomEvent,
    config: VariableConfig,
)
    ensures
        player.after(InRoomEvent::ConfigChanged(config)).ping_interval_secs
            == config.ping_interval_secs,
        player.after(InRoomEvent::ConfigChanged(config)).response_time_limit_secs
            == config.response_time_limit_secs,
        !(event is ConfigChanged) ==> player.after(event).ping_interval_secs
            == player.ping_interval_secs && player.after(event).response_time_limit_secs
            == player.response_time_limit_secs,
        player.after(event).player_id == player.player_id,
        player.after(event).room_code == player.room_code,
{
}

/// The state after a number of events.
pub open spec fn after_all(player: PlayerInRoom, events: Seq<InRoomEvent>) -> PlayerInRoom
    decreases events.len(),
{
    if events.len() == 0 {
        player
    } else {
        after_all(player, events.drop_last()).after(events.last())
    }
}

/// Whatever happens after a ping, the first pong that follows it is accepted, and
/// if no ping follows that pong, then the next pong closes the connection.
pub proof fn law_the_pong_of_a_ping_is_accepted(
    player: PlayerInRoom,
    before: Seq<InRoomEvent>,
    between: Seq<InRoomEvent>,
    action: InRoomAction,
    next_action: InRoomAction,
)
    requires
        forall|i: int| 0 <= i < before.len() ==> #[trigger] before[i] != pong_read(),
        forall|i: int|
            0 <= i < between.len() ==> #[trigger] between[i] != pong_read() && !(
            between[i] is PingDue),
        ({
            let waiting = after_all(player.after(InRoomEvent::PingDue), before);
            &&& reacts(waiting, pong_read(), action)
            &&& reacts(after_all(waiting.after(pong_read()), between), pong_read(), next_action)
        }),
    ensures
        action == InRoomAction::Wait,
        next_action == InRoomAction::CloseConnection(CloseCode::Protocol),
{
    let pinged = player.after(InRoomEvent::PingDue);
    lemma_pong_stays_expected(pinged, before);
    let answered = after_all(pinged, before).after(pong_read());
    lemma_pong_stays_unexpected(answered, between);
}

proof fn lemma_pong_stays_expected(player: PlayerInRoom, events: Seq<InRoomEvent>)
    requires
        player.expecting_pong,
        forall|i: int| 0 <= i < events.len() ==> #[trigger] events[i] != pong_read(),
    ensures
        after_all(player, events).expecting_pong,
    decreases events.len(),
{
    if events.len() > 0 {
        let shorter = events.drop_last();
        assert forall|i: int| 0 <= i < shorter.len() implies #[trigger] shorter[i]
            != pong_read() by {
            assert(shorter[i] == events[i]);
        }
        lemma_pong_stays_expected(player, shorter);
        assert(events[events.len() - 1] != pong_read());
        law_only_pings_and_pongs_matter_to_pongs(after_all(player, shorter), events.last());
    }
}

proof fn lemma_pong_stays_unexpected(player: PlayerInRoom, events: Seq<InRoomEvent>)
    requires
        !player.expecting_pong,
        forall|i: int|
            0 <= i < events.len() ==> #[trigger] events[i] != pong_read() && !(
            events[i] is PingDue),
    ensures
        !after_all(player, events).expecting_pong,
    decreases events.len(),
{
    if events.len() > 0 {
        let shorter = events.drop_last();
        assert forall|i: int| 0 <= i < shorter.len() implies #[trigger] shorter[i] != pong_read()
            && !(shorter[i] is PingDue) by {
            assert(shorter[i] == events[i]);
        }
        lemma_pong_stays_unexpected(player, shorter);
        assert(events[events.len() - 1] != pong_read());
        law_only_pings_and_pongs_matter_to_pongs(after_all(player, shorter), events.last());
    }
}

/// A player who has joined a room is first told their own ID, then the IDs of the
/// players that were there before, each of them once, and at last the room code.
pub proof fn law_joining_players_are_told_who_is_there(
    player_id: PlayerID,
    other_ids: Seq<PlayerID>,
    code: Seq<u8>,
    i: int,
)
    requires
        code.len() == 4,
        0 <= i < other_ids.len(),
    ensures
        ({
            let texts = in_room::setup_texts(player_id, other_ids, code);
            &&& texts.len() == other_ids.len() + 2
            &&& texts[0] == "I: "@ + text::decimal(player_id as nat) + "\n"@
            &&& texts[i + 1] == "N: "@ + text::decimal(other_ids[i] as nat) + "\n"@
            &&& texts[texts.len() - 1] == "J: "@ + seq![
                code[0] as char,
                code[1] as char,
                code[2] as char,
                code[3] as char,
            ] + "\n"@
        }),
{
    assert(room_code::code_text(code) =~= seq![
        code[0] as char,
        code[1] as char,
        code[2] as char,
        code[3] as char,
    ]);
}

/// The host, who is the first to join, is told their own ID and the room code.
pub proof fn law_hosts_are_told_the_room_code(player_id: PlayerID, code: Seq<u8>)
    requires
        code.len() == 4,
    ensures
        in_room::setup_texts(player_id, Seq::empty(), code) == seq![
            "I: "@ + text::decimal(player_id as nat) + "\n"@,
            "J: "@ + seq![code[0] as char, code[1] as char, code[2] as char, code[3] as char]
                + "\n"@,
        ],
{
    assert(room_code::code_text(code) =~= seq![
        code[0] as char,
        code[1] as char,
        code[2] as char,
        code[3] as char,
    ]);
    assert(in_room::setup_texts(player_id, Seq::empty(), code) =~= seq![
        "I: "@ + text::decimal(player_id as nat) + "\n"@,
        "J: "@ + seq![code[0] as char, code[1] as char, code[2] as char, code[3] as char] + "\n"@,
    ]);
}

/// Whatever happens to a player, the player reacts as promised, and ends up in the
/// state that was promised.
pub proof fn law_players_react_as_promised(
    player: &mut PlayerInRoom,
    event: InRoomEvent,
    action: InRoomAction,
)
    requires
        call_ensures(PlayerInRoom::on_event, (player, event), action),
    ensures
        reacts(*old(player), event, action),
        *final(player) == old(player).after(event),
{
}

/// A player starts with the intervals of the configuration, and does not expect a
/// pong.
pub proof fn law_players_start_without_a_ping(
    code: RoomCode,
    player_id: PlayerID,
    config: VariableConfig,
    player: PlayerInRoom,
)
    requires
        call_ensures(PlayerInRoom::new, (code, player_id, config), player),
    ensures
        player.room_code == code,
        player.player_id == player_id,
        player.ping_interval_secs == config.ping_interval_secs,
        player.response_time_limit_secs == config.response_time_limit_secs,
        !player.expecting_pong,
{
}

/// The messages that are sent to a player at the start are those that tell them who
/// is there.
pub proof fn law_setup_messages_are_sent(
    player: PlayerInRoom,
    other_ids: Vec<PlayerID>,
    messages: Vec<String>,
    i: int,
)
    requires
        call_ensures(PlayerInRoom::setup_messages, (&player, &other_ids), messages),
        0 <= i < messages@.len(),
    ensures
        messages@.len() == other_ids@.len() + 2,
        messages@[i]@ == in_room::setup_texts(
            player.player_id,
            other_ids@,
            player.room_code@,
        )[i],
{
    let texts = messages@.map_values(|message: String| message@);
    assert(texts.len() == messages@.len());
    assert(texts[i] == messages@[i]@);
}

} // verus!
