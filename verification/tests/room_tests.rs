use std::collections::BTreeMap;
use tabletop_club_lobby_server::close_code::{CloseCode, CustomCloseCode};
use tabletop_club_lobby_server::config::VariableConfig;
use tabletop_club_lobby_server::message::{
    LobbyControl, RoomCommand, RoomNotification, RoomRequest,
};
use tabletop_club_lobby_server::player::in_room::{InRoomAction, InRoomEvent, PlayerInRoom};
use tabletop_club_lobby_server::player::{ClientMessage, ReadOutcome};
use tabletop_club_lobby_server::room::{
    should_notify, shutdown_steps, ClosingAction, ClosingEvent, MessageType, PlayerTask, Room,
    RoomAction, RoomClosing, RoomEvent, RoomShutdownStep, HOST_ID,
};
use tabletop_club_lobby_server::room_code::RoomCode;

/// A room with players in it, all of whose clients are at hand.
struct Session {
    room: Room<u32>,
    config: VariableConfig,
    players: BTreeMap<u32, PlayerInRoom>,
    received: BTreeMap<u32, Vec<String>>,
    closed: BTreeMap<u32, CloseCode>,
    refused: Vec<CloseCode>,
    stopped: bool,
}

impl Session {
    fn new(code: &str, config: VariableConfig, max_message_count: usize) -> Session {
        let room_code = RoomCode::try_from(code).unwrap();
        let mut session = Session {
            room: Room::new(room_code, config.max_players_per_room, max_message_count),
            config,
            players: BTreeMap::new(),
            received: BTreeMap::new(),
            closed: BTreeMap::new(),
            refused: Vec::new(),
            stopped: false,
        };
        session.add_player(HOST_ID);
        session
    }

    fn add_player(&mut self, id: u32) {
        let others = self.room.player_ids();
        let player = PlayerInRoom::new(self.room.room_code(), id, self.config);
        self.received.insert(id, player.setup_messages(&others));
        self.players.insert(id, player);
        assert_eq!(self.room.on_connect(id, 100 + id), None);
    }

    fn notify(&mut self, id: u32, notification: RoomNotification) {
        let player = self.players.get_mut(&id).unwrap();
        let action = player.on_event(InRoomEvent::Notified(notification));
        self.player_acts(id, action);
    }

    fn player_acts(&mut self, id: u32, action: InRoomAction) {
        match action {
            InRoomAction::Wait => {}
            InRoomAction::SendText(text) => self.received.get_mut(&id).unwrap().push(text),
            InRoomAction::SendRequest(request) => self.event(RoomEvent::Request(request)),
            InRoomAction::DropConnection(request) => {
                self.players.remove(&id);
                self.event(RoomEvent::Request(request));
            }
            InRoomAction::CloseConnection(close_code) => {
                self.players.remove(&id);
                self.event(RoomEvent::CloseRequest(id, id, close_code));
            }
            _ => panic!("unexpected action"),
        }
    }

    fn client_sends(&mut self, id: u32, message: ClientMessage) {
        let player = self.players.get_mut(&id).unwrap();
        let action = player.on_event(InRoomEvent::Read(ReadOutcome::Message(message)));
        self.player_acts(id, action);
    }

    fn client_says(&mut self, id: u32, text: &str) {
        self.client_sends(id, ClientMessage::Text(text.to_string()));
    }

    fn join(&mut self) -> Option<u32> {
        match self.room.on_event(RoomEvent::NewClient(0)) {
            RoomAction::AddPlayer { player_id, stream, notify, notification } => {
                assert!(player_id >= 2);
                assert_eq!(stream, 0);
                for id in notify {
                    self.notify(id, notification.clone());
                }
                self.add_player(player_id);
                Some(player_id)
            }
            RoomAction::CloseClient(_, close_code) => {
                self.refused.push(close_code);
                None
            }
            _ => panic!("unexpected action"),
        }
    }

    fn change_limits(&mut self, max_players_per_room: usize, max_message_count: usize) {
        self.event(RoomEvent::ConfigChanged { max_players_per_room, max_message_count });
    }

    fn event(&mut self, event: RoomEvent<u32>) {
        match self.room.on_event(event) {
            RoomAction::Wait => {}
            RoomAction::Notify(ids, notification) => {
                for id in ids {
                    self.notify(id, notification.clone());
                }
            }
            RoomAction::RemovePlayer { player_id, task, close, notify, notification } => {
                assert_eq!(task, Some(100 + player_id));
                if let Some((stream, close_code)) = close {
                    self.closed.insert(stream, close_code);
                }
                for id in notify {
                    self.notify(id, notification.clone());
                }
            }
            RoomAction::CloseRoom { notification, send_to_host, host_close } => {
                self.close(notification, send_to_host);
                if let Some((stream, close_code)) = host_close {
                    self.closed.insert(stream, close_code);
                }
                self.stopped = true;
            }
            RoomAction::Stop => self.stopped = true,
            _ => panic!("unexpected action"),
        }
    }

    fn close(&mut self, notification: RoomNotification, send_to_host: bool) {
        let mut closing = RoomClosing::new();
        for (id, task) in self.room.drain() {
            assert_eq!(task, 100 + id);
            if should_notify(id, send_to_host) {
                assert_eq!(closing.on_notified(id, task, true), ClosingAction::Wait);
            }
        }
        while !closing.is_done() {
            let (id, mut player) = self.players.pop_first().unwrap();
            match player.on_event(InRoomEvent::Notified(notification.clone())) {
                InRoomAction::CloseConnection(close_code) => {
                    let event = ClosingEvent::CloseRequest(id, id, close_code);
                    assert_eq!(closing.on_event(event), ClosingAction::Await(100 + id));
                }
                _ => panic!("unexpected action"),
            }
        }
        for (id, stream, close_code) in closing.into_closes() {
            assert_eq!(id, stream);
            self.closed.insert(id, close_code);
        }
    }

    fn take(&mut self, id: u32) -> Vec<String> {
        std::mem::take(self.received.get_mut(&id).unwrap())
    }
}

fn texts(list: &[&str]) -> Vec<String> {
    list.iter().map(|text| text.to_string()).collect()
}

#[test]
fn test_senario() {
    let mut config = VariableConfig::default();
    config.max_players_per_room = 2;
    let mut session = Session::new("ABCD", config, 5);

    // Test that the host joins the room OK.
    assert_eq!(session.take(1), texts(&["I: 1\n", "J: ABCD\n"]));

    // Test that another client can join.
    let id = session.join().unwrap();
    assert_eq!(
        session.take(id),
        texts(&[&format!("I: {}\n", id), "N: 1\n", "J: ABCD\n"])
    );

    // Test that the host is informed of the new player.
    assert_eq!(session.take(1), texts(&[&format!("N: {}\n", id)]));

    // That that another player can't join the room due to the value of
    // `max_players_per_room`.
    assert_eq!(session.join(), None);
    assert_eq!(session.refused, [CustomCloseCode::TooManyPlayers.into()]);

    // Test that lowering the value of `max_players_per_room` will kick players
    // in the room to fit the new value.
    session.change_limits(1, 5);
    assert_eq!(session.closed[&id], CustomCloseCode::TooManyPlayers.into());

    // Test that the host is informed of the player's departure.
    assert_eq!(session.take(1), texts(&[&format!("D: {}\n", id)]));

    // Increase the value of `max_players_per_room`.
    session.change_limits(3, 5);

    // Have two players join now instead of one, which the new config allows for.
    let id_1 = session.join().unwrap();
    let id_1_msg = format!("N: {}\n", id_1);
    assert_eq!(session.take(1), texts(&[&id_1_msg]));
    session.take(id_1);

    let id_2 = session.join().unwrap();

    // Existing players are sent in an arbitrary order.
    let mut received = session.take(id_2);
    received[1..3].sort();
    let mut others = texts(&["N: 1\n", &id_1_msg]);
    others.sort();
    assert_eq!(received.len(), 4);
    assert_eq!(received[0], format!("I: {}\n", id_2));
    assert_eq!(received[1..3], others);
    assert_eq!(received[3], "J: ABCD\n");

    // Test that the first two players are informed of the third's arrival.
    let id_2_msg = format!("N: {}\n", id_2);
    assert_eq!(session.take(1), texts(&[&id_2_msg]));
    assert_eq!(session.take(id_1), texts(&[&id_2_msg]));

    // Test sending messages between players.
    session.client_says(id_2, &format!("O: {}\nhello!", id_1));
    assert_eq!(session.take(id_1), texts(&[&format!("O: {}\nhello!", id_2)]));

    session.client_says(id_1, "A: 1\nhow do you do?");
    assert_eq!(session.take(1), texts(&[&format!("A: {}\nhow do you do?", id_1)]));

    session.client_says(1, &format!("C: {}\nhere you go", id_2));
    assert_eq!(session.take(id_2), texts(&["C: 1\nhere you go"]));

    // Test sending more messages than the allowed limit to a given player.
    for index in 0..5 {
        session.client_says(id_2, &format!("O: 1\n{}", index));
        assert_eq!(session.take(1), texts(&[&format!("O: {}\n{}", id_2, index)]));
    }

    session.client_says(id_2, "C: 1\nThis should fail!");
    assert_eq!(session.closed[&id_2], CloseCode::Policy);

    let id_2_msg = format!("D: {}\n", id_2);
    assert_eq!(session.take(1), texts(&[&id_2_msg]));
    assert_eq!(session.take(id_1), texts(&[&id_2_msg]));

    // Test changing `max_message_count`.
    session.change_limits(3, 10);

    for index in 0..9 {
        session.client_says(id_1, &format!("O: 1\nmessage #{}", index));
        assert_eq!(
            session.take(1),
            texts(&[&format!("O: {}\nmessage #{}", id_1, index)])
        );
    }

    session.client_says(id_1, "A: 1\nGoodbye, sweet prince.");
    assert_eq!(session.closed[&id_1], CloseCode::Policy);
    assert_eq!(session.take(1), texts(&[&format!("D: {}\n", id_1)]));

    let id = session.join().unwrap();
    session.take(1);

    // Test sending a message to a player that doesn't exist.
    let dest_id = match id.checked_add(1) {
        Some(new_id) => new_id,
        None => 2,
    };

    session.client_says(id, &format!("A: {}\nare you there?", dest_id));
    assert_eq!(session.closed[&id], CustomCloseCode::InvalidDestination.into());
    assert_eq!(session.take(1), texts(&[&format!("D: {}\n", id)]));

    let id = session.join().unwrap();
    session.take(1);

    // Test sending a message to self.
    session.client_says(id, &format!("C: {}\nHello, me!", id));
    assert_eq!(session.closed[&id], CustomCloseCode::InvalidDestination.into());
    assert_eq!(session.take(1), texts(&[&format!("D: {}\n", id)]));

    // Have two clients join to help test sealing the room.
    let id_1 = session.join().unwrap();
    let id_2 = session.join().unwrap();
    session.take(1);
    session.take(id_1);

    // Test that a non-host player attempting to seal the room results in their
    // connection being closed.
    session.client_says(id_2, "S: \n");
    assert_eq!(session.closed[&id_2], CustomCloseCode::OnlyHostCanSeal.into());

    let id_2_msg = format!("D: {}\n", id_2);
    assert_eq!(session.take(1), texts(&[&id_2_msg]));
    assert_eq!(session.take(id_1), texts(&[&id_2_msg]));
    assert!(!session.stopped);

    // Test that the host sealing the room leads to it closing.
    session.client_says(1, "S: \n");
    assert!(session.stopped);

    // Test that the correct close code is given to the clients.
    assert_eq!(session.closed[&1], CustomCloseCode::RoomSealed.into());
    assert_eq!(session.closed[&id_1], CustomCloseCode::RoomSealed.into());

    // Test that the room gives the sealed control signal first, and the closed
    // control signal last.
    let room_code = session.room.room_code();
    let steps = shutdown_steps(room_code);
    assert_eq!(
        steps.first(),
        Some(&RoomShutdownStep::SendControl(LobbyControl::SealRoom(room_code)))
    );
    assert_eq!(
        steps.last(),
        Some(&RoomShutdownStep::SendControl(LobbyControl::CloseRoom(room_code)))
    );
}

#[test]
fn test_shutdown() {
    let mut session = Session::new("SHUT", VariableConfig::default(), 10);
    assert_eq!(session.take(1), texts(&["I: 1\n", "J: SHUT\n"]));

    session.event(RoomEvent::Shutdown);
    assert!(session.stopped);

    // The host's connection should just be dropped.
    assert!(session.closed.is_empty());
    let player = session.players.get_mut(&1).unwrap();
    assert_eq!(player.on_event(InRoomEvent::Shutdown), InRoomAction::Stop);

    let room_code = session.room.room_code();
    assert_eq!(
        shutdown_steps(room_code),
        [
            RoomShutdownStep::SendControl(LobbyControl::SealRoom(room_code)),
            RoomShutdownStep::DrainCloseRequests,
            RoomShutdownStep::DrainRequests,
            RoomShutdownStep::AwaitPlayers,
            RoomShutdownStep::CloseLateClients(CustomCloseCode::RoomSealed.into()),
            RoomShutdownStep::AwaitCloses,
            RoomShutdownStep::SendControl(LobbyControl::CloseRoom(room_code)),
        ]
    );
}

#[test]
fn test_host_error() {
    let mut session = Session::new("HOST", VariableConfig::default(), 10);
    assert_eq!(session.take(1), texts(&["I: 1\n", "J: HOST\n"]));

    let id = session.join().unwrap();
    assert_eq!(
        session.take(id),
        texts(&[&format!("I: {}\n", id), "N: 1\n", "J: HOST\n"])
    );
    assert_eq!(session.take(1), texts(&[&format!("N: {}\n", id)]));

    // Test that, if the host does something that causes the room to send them a
    // close code, that the room is closed.
    session.client_says(1, "O: 1\nIt's a me, Mario!");
    assert!(session.stopped);
    assert_eq!(session.closed[&1], CustomCloseCode::InvalidDestination.into());
    assert_eq!(session.closed[&id], CustomCloseCode::HostDisconnected.into());
}

#[test]
fn test_client_close() {
    let mut session = Session::new("CLOS", VariableConfig::default(), 10);
    assert_eq!(session.take(1), texts(&["I: 1\n", "J: CLOS\n"]));

    let id = session.join().unwrap();
    assert_eq!(session.take(1), texts(&[&format!("N: {}\n", id)]));

    // Test that if the joined client sends a close code, that the host is
    // informed of their departure.
    session.client_sends(id, ClientMessage::Close(Some(CloseCode::Normal)));
    assert_eq!(session.take(1), texts(&[&format!("D: {}\n", id)]));
    assert!(!session.closed.contains_key(&id));

    let id = session.join().unwrap();
    assert_eq!(session.take(1), texts(&[&format!("N: {}\n", id)]));

    // Test that the host sending a close code closes the room.
    session.client_sends(1, ClientMessage::Close(Some(CloseCode::Normal)));
    assert!(session.stopped);
    assert_eq!(session.closed[&id], CustomCloseCode::HostDisconnected.into());
    assert!(!session.closed.contains_key(&1));
}

#[test]
fn test_client_drop() {
    let mut session = Session::new("CLOS", VariableConfig::default(), 10);
    let id = session.join().unwrap();
    assert_eq!(
        session.take(1),
        texts(&["I: 1\n", "J: CLOS\n", &format!("N: {}\n", id)])
    );

    // Test that if the joined client's connection is suddenly dropped, that the
    // host is informed of their departure.
    let player = session.players.get_mut(&id).unwrap();
    let action = player.on_event(InRoomEvent::Read(ReadOutcome::Ended));
    session.player_acts(id, action);
    assert_eq!(session.take(1), texts(&[&format!("D: {}\n", id)]));

    // Test that if the host's connection is suddenly dropped, that the room is
    // closed.
    let player = session.players.get_mut(&1).unwrap();
    let action = player.on_event(InRoomEvent::Read(ReadOutcome::Ended));
    session.player_acts(1, action);
    assert!(session.stopped);
    assert!(session.closed.is_empty());
}

#[test]
fn message_counts() {
    let mut player = PlayerTask::new("task");
    assert_eq!(player.get_message_count(7), 0);
    player.increment_message_count(7);
    player.increment_message_count(7);
    player.increment_message_count(8);
    assert_eq!(player.get_message_count(7), 2);
    assert_eq!(player.get_message_count(8), 1);
    player.clear_message_count(7);
    assert_eq!(player.get_message_count(7), 0);
    assert_eq!(player.get_message_count(8), 1);
    assert_eq!(*player.task(), "task");
    assert_eq!(player.into_task(), "task");
}

#[test]
fn message_types() {
    assert_eq!(MessageType::Offer.to_text(), "offer");
    assert_eq!(MessageType::Answer.to_text(), "answer");
    assert_eq!(MessageType::Candidate.to_text(), "candidate");
    assert_eq!(
        MessageType::Answer.notification(3, "x".to_string()),
        RoomNotification::AnswerReceived(3, "x".to_string())
    );
}

fn room_of(ids: &[u32], max_message_count: usize) -> Room<u32> {
    let mut room = Room::new(RoomCode::default(), 99, max_message_count);
    for id in ids {
        assert_eq!(room.on_connect(*id, 100 + *id), None);
    }
    room
}

fn offer(from: u32, to: u32) -> RoomEvent<()> {
    RoomEvent::Request(RoomRequest {
        player_id: from,
        command: RoomCommand::SendOffer(to, "x".to_string()),
    })
}

#[test]
fn leaving_clears_message_counts() {
    let mut room = room_of(&[1, 2, 3], 1);
    let delivered = RoomAction::Notify(
        vec![2],
        RoomNotification::OfferReceived(1, "x".to_string()),
    );
    let refused = RoomAction::Notify(vec![1], RoomNotification::Error(CloseCode::Policy));
    assert_eq!(room.on_event(offer(1, 2)), delivered);
    assert_eq!(room.on_event(offer(1, 2)), refused);

    // Another player does not make a difference.
    assert_eq!(room.on_disconnect(3), Some(103));
    assert_eq!(room.on_event(offer(1, 2)), refused);

    assert_eq!(room.on_disconnect(2), Some(102));
    assert_eq!(room.on_disconnect(2), None);
    assert_eq!(room.on_connect(2, 102), None);
    assert_eq!(room.on_event(offer(1, 2)), delivered);
}

#[test]
fn strangers_are_ignored() {
    let mut room = room_of(&[1, 2], 5);
    assert_eq!(room.on_event(offer(9, 1)), RoomAction::Wait);
    let seal = RoomRequest { player_id: 9, command: RoomCommand::SealRoom };
    assert_eq!(room.on_event(RoomEvent::<()>::Request(seal)), RoomAction::Wait);
    let drop = RoomRequest { player_id: 9, command: RoomCommand::DropConnection };
    match room.on_event(RoomEvent::<()>::Request(drop)) {
        RoomAction::RemovePlayer { player_id, task, close, mut notify, notification } => {
            assert_eq!(player_id, 9);
            assert_eq!(task, None);
            assert_eq!(close, None);
            notify.sort();
            assert_eq!(notify, [1, 2]);
            assert_eq!(notification, RoomNotification::PlayerLeft(9));
        }
        _ => panic!("unexpected action"),
    }
    assert_eq!(room.player_task(9), None);
    assert_eq!(room.player_task(2), Some(&102));
}

#[test]
fn lost_channels_stop_the_room() {
    let mut room = room_of(&[1], 5);
    assert_eq!(room.on_event(RoomEvent::<()>::LobbyGone), RoomAction::Stop);
    assert_eq!(room.on_event(RoomEvent::<()>::RequestsGone), RoomAction::Stop);
    assert_eq!(room.on_event(RoomEvent::<()>::CloseRequestsGone), RoomAction::Stop);
}

#[test]
fn failed_players_are_removed() {
    let mut room = room_of(&[1, 2], 5);
    assert_eq!(room.on_notify_failed(2), Some(102));
    assert_eq!(room.on_notify_failed(2), None);
    assert_eq!(room.player_ids(), [1]);
    assert_eq!(room.on_connect(1, 5), Some(101));
}

#[test]
fn only_as_many_as_needed_are_kicked() {
    let mut room = room_of(&[1, 2, 3, 4, 5, 6], 5);
    match room.on_event(RoomEvent::<()>::ConfigChanged {
        max_players_per_room: 4,
        max_message_count: 5,
    }) {
        RoomAction::Notify(ids, notification) => {
            assert_eq!(ids.len(), 2);
            assert_ne!(ids[0], ids[1]);
            assert!(!ids.contains(&HOST_ID));
            assert_eq!(
                notification,
                RoomNotification::Error(CustomCloseCode::TooManyPlayers.into())
            );
        }
        _ => panic!("unexpected action"),
    }
    // The players are still in the room until they have left by themselves.
    assert_eq!(room.player_ids().len(), 6);
    match room.on_event(RoomEvent::<()>::ConfigChanged {
        max_players_per_room: 0,
        max_message_count: 5,
    }) {
        RoomAction::Notify(ids, _) => assert_eq!(ids.len(), 5),
        _ => panic!("unexpected action"),
    }
    assert_eq!(
        room.on_event(RoomEvent::<()>::ConfigChanged {
            max_players_per_room: 6,
            max_message_count: 5,
        }),
        RoomAction::Wait
    );
}

#[test]
fn closing_takes_in_all_requests() {
    let mut closing: RoomClosing<&str, u32> = RoomClosing::new();
    assert!(closing.is_done());
    assert_eq!(closing.on_notified(2, 102, true), ClosingAction::Wait);
    assert_eq!(closing.on_notified(3, 103, true), ClosingAction::Wait);
    assert_eq!(closing.on_notified(3, 203, true), ClosingAction::Abort(103));
    assert_eq!(closing.on_notified(4, 104, false), ClosingAction::Await(104));

    let seal = RoomRequest { player_id: 2, command: RoomCommand::SealRoom };
    assert_eq!(closing.on_event(ClosingEvent::Request(seal)), ClosingAction::Wait);
    let drop = RoomRequest { player_id: 2, command: RoomCommand::DropConnection };
    assert_eq!(closing.on_event(ClosingEvent::Request(drop)), ClosingAction::Await(102));
    let stranger = ClosingEvent::CloseRequest(9, "nine", CloseCode::Normal);
    assert_eq!(closing.on_event(stranger), ClosingAction::Wait);
    assert!(!closing.is_done());
    let close = ClosingEvent::CloseRequest(3, "three", CloseCode::Policy);
    assert_eq!(closing.on_event(close), ClosingAction::Await(203));
    assert!(closing.is_done());
    assert_eq!(closing.on_event(ClosingEvent::RequestsGone), ClosingAction::Stop);
    assert_eq!(closing.on_event(ClosingEvent::CloseRequestsGone), ClosingAction::Stop);
    assert_eq!(
        closing.into_closes(),
        [(9, "nine", CloseCode::Normal), (3, "three", CloseCode::Policy)]
    );

    assert!(should_notify(HOST_ID, true));
    assert!(!should_notify(HOST_ID, false));
    assert!(should_notify(2, false));
}
