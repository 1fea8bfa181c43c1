use tabletop_club_lobby_server::close_code::{CloseCode, CustomCloseCode};
use tabletop_club_lobby_server::config::VariableConfig;
use tabletop_club_lobby_server::connection::{
    stream_limits, AcceptOutcome, AcceptStep, StreamLimits,
};
use tabletop_club_lobby_server::lobby;
use tabletop_club_lobby_server::lobby::{
    check_feasible, Lobby, LobbyAction, LobbyEvent, LobbyShutdownStep, SendFailure,
};
use tabletop_club_lobby_server::message::{LobbyCommand, LobbyControl, LobbyRequest};
use tabletop_club_lobby_server::player::joining::{JoinOutcome, PlayerJoining};
use tabletop_club_lobby_server::player::{ClientMessage, ClientUniqueID, ReadOutcome};
use tabletop_club_lobby_server::profanity::ProfanityList;
use tabletop_club_lobby_server::room_code::RoomCode;
use tabletop_club_lobby_server::server;
use tabletop_club_lobby_server::server::{
    Server, ServerAction, ServerEvent, ServerShutdownStep,
};

fn profanity() -> ProfanityList {
    ProfanityList::new(b"AAAA\nBOOO\n".to_vec()).unwrap()
}

/// A lobby whose rooms are numbered, as are the clients.
fn lobby_with(config: VariableConfig) -> Lobby<u32, u32> {
    Lobby::new(profanity(), config)
}

fn connect(lobby: &mut Lobby<u32, u32>, client: u32) -> Result<u32, CloseCode> {
    match lobby.on_event(LobbyEvent::Connection(client)) {
        LobbyAction::StartJoining { handle_id, stream, .. } => {
            assert_eq!(stream, client);
            assert_eq!(lobby.add_joining(handle_id, client), None);
            Ok(handle_id)
        }
        LobbyAction::CloseClient { stream, close_code, client_id } => {
            assert_eq!(stream, client);
            assert_eq!(client_id, None);
            Err(close_code)
        }
        _ => panic!("unexpected action"),
    }
}

fn outcome(lobby: &mut Lobby<u32, u32>, handle_id: u32, outcome: JoinOutcome) -> LobbyAction<u32, u32> {
    let request = PlayerJoining { handle_id }.task(outcome);
    lobby.on_event(LobbyEvent::Request(request, 7))
}

fn says(lobby: &mut Lobby<u32, u32>, handle_id: u32, text: &str) -> LobbyAction<u32, u32> {
    let message = ClientMessage::Text(text.to_string());
    outcome(lobby, handle_id, JoinOutcome::Read(ReadOutcome::Message(message)))
}

fn create(lobby: &mut Lobby<u32, u32>, handle_id: u32, task: u32) -> RoomCode {
    match says(lobby, handle_id, "J: \n") {
        LobbyAction::CreateRoom { room_code, stream } => {
            assert_eq!(stream, 7);
            assert!(!room_code.is_profanity(&profanity()));
            assert_eq!(lobby.add_room(room_code, task), None);
            room_code
        }
        _ => panic!("unexpected action"),
    }
}

fn closes(handle_id: u32, close_code: CloseCode) -> LobbyAction<u32, u32> {
    LobbyAction::CloseClient {
        stream: 7,
        close_code,
        client_id: Some(ClientUniqueID::IsJoining(handle_id)),
    }
}

#[test]
fn test_lobby() {
    let config = VariableConfig {
        max_message_size: 200,
        max_payload_size: 100,
        max_players_per_room: 2,
        max_rooms: 1,
        player_queue_capacity: 1,
        join_room_time_limit_secs: 5,
        ping_interval_secs: 7,
        response_time_limit_secs: 30,
        ..VariableConfig::default()
    };
    assert!(config.validate().is_ok());
    let mut lobby = lobby_with(config);

    // Have a client join the queue, but not send a request in time.
    let handle_id = connect(&mut lobby, 1).unwrap();

    // While that client is in the join queue, have another client try to join
    // it while it is full.
    assert_eq!(connect(&mut lobby, 2), Err(CustomCloseCode::JoinQueueFull.into()));

    assert_eq!(
        outcome(&mut lobby, handle_id, JoinOutcome::TimedOut),
        closes(handle_id, CustomCloseCode::DidNotJoinRoom.into())
    );
    assert_eq!(lobby.num_joining(), 0);

    // Test sending a close code while in the join queue.
    let handle_id = connect(&mut lobby, 3).unwrap();
    let message = ClientMessage::Close(Some(CloseCode::Normal));
    assert_eq!(
        outcome(&mut lobby, handle_id, JoinOutcome::Read(ReadOutcome::Message(message))),
        LobbyAction::DropClient(7)
    );

    // Test that a client can create a room.
    let handle_id = connect(&mut lobby, 4).unwrap();
    let room_code = create(&mut lobby, handle_id, 40);
    assert_eq!(lobby.num_rooms(), 1);

    // Test that a client can't create another room, since we have reached the
    // maximum.
    let handle_id = connect(&mut lobby, 5).unwrap();
    assert_eq!(
        says(&mut lobby, handle_id, "J: \n"),
        closes(handle_id, CustomCloseCode::TooManyRooms.into())
    );

    // Test that rooms in the lobby are closed properly.
    assert_eq!(
        lobby.on_event(LobbyEvent::<u32>::Control(LobbyControl::SealRoom(room_code))),
        LobbyAction::Wait
    );
    let handle_id = connect(&mut lobby, 6).unwrap();
    assert_eq!(
        says(&mut lobby, handle_id, &format!("J: {}\n", room_code.to_text())),
        closes(handle_id, CustomCloseCode::RoomSealed.into())
    );
    assert_eq!(
        lobby.on_event(LobbyEvent::<u32>::Control(LobbyControl::CloseRoom(room_code))),
        LobbyAction::AwaitRoom(40)
    );
    assert_eq!(lobby.num_rooms(), 0);

    // Test joining a room that doesn't exist.
    let handle_id = connect(&mut lobby, 7).unwrap();
    assert_eq!(
        says(&mut lobby, handle_id, "J: WHAT\n"),
        closes(handle_id, CustomCloseCode::RoomDoesNotExist.into())
    );

    let handle_id = connect(&mut lobby, 8).unwrap();
    let room_code = create(&mut lobby, handle_id, 80);

    // Test joining a room that exists.
    let handle_id = connect(&mut lobby, 9).unwrap();
    assert_eq!(
        says(&mut lobby, handle_id, &format!("J: {}\n", room_code.to_text())),
        LobbyAction::SendToRoom { room_code, handle_id, stream: 7 }
    );
    assert_eq!(lobby.room_task(room_code), Some(&80));
}

#[test]
fn excess_rooms_are_closed() {
    let mut lobby = lobby_with(VariableConfig::default());
    let mut codes = Vec::new();
    for i in 0..10 {
        let handle_id = connect(&mut lobby, i).unwrap();
        codes.push(create(&mut lobby, handle_id, 1000 + i));
    }
    assert_eq!(lobby.num_rooms(), 10);

    let config = VariableConfig { max_rooms: 10, ..VariableConfig::default() };
    assert_eq!(
        lobby.on_event(LobbyEvent::<u32>::ConfigChanged(config)),
        LobbyAction::Wait
    );
    assert_eq!(lobby.num_rooms(), 10);

    let config = VariableConfig { max_rooms: 5, ..VariableConfig::default() };
    match lobby.on_event(LobbyEvent::<u32>::ConfigChanged(config)) {
        LobbyAction::AbortRooms(rooms) => {
            assert_eq!(rooms.len(), 5);
            for (code, task) in rooms {
                let index = codes.iter().position(|other| *other == code).unwrap();
                assert_eq!(task, 1000 + index as u32);
                assert_eq!(lobby.room_task(code), None);
                codes.remove(index);
                codes.insert(index, RoomCode::default());
            }
        }
        _ => panic!("unexpected action"),
    }
    assert_eq!(lobby.num_rooms(), 5);
    for (index, code) in codes.iter().enumerate() {
        if *code != RoomCode::default() {
            assert_eq!(lobby.room_task(*code), Some(&(1000 + index as u32)));
        }
    }
}

#[test]
fn config_changes_apply_to_new_clients() {
    let mut lobby = lobby_with(VariableConfig::default());
    let config = VariableConfig {
        join_room_time_limit_secs: 8,
        player_queue_capacity: 2,
        ..VariableConfig::default()
    };
    lobby.on_event(LobbyEvent::<u32>::ConfigChanged(config));
    match lobby.on_event(LobbyEvent::Connection(0)) {
        LobbyAction::StartJoining { max_wait_secs, .. } => assert_eq!(max_wait_secs, 8),
        _ => panic!("unexpected action"),
    }
    assert!(connect(&mut lobby, 0).is_ok());
    assert!(connect(&mut lobby, 1).is_ok());
    assert_eq!(connect(&mut lobby, 2), Err(CustomCloseCode::JoinQueueFull.into()));
}

#[test]
fn unknown_rooms_and_players_are_ignored() {
    let mut lobby = lobby_with(VariableConfig::default());
    let code = RoomCode::try_from("WHAT").unwrap();
    assert_eq!(
        lobby.on_event(LobbyEvent::<u32>::Control(LobbyControl::SealRoom(code))),
        LobbyAction::Wait
    );
    assert_eq!(
        lobby.on_event(LobbyEvent::<u32>::Control(LobbyControl::CloseRoom(code))),
        LobbyAction::Wait
    );
    let request = LobbyRequest {
        handle_id: 3,
        command: LobbyCommand::CloseConnection(CloseCode::Size),
    };
    assert_eq!(
        lobby.on_event(LobbyEvent::Request(request, 7)),
        closes(3, CloseCode::Size)
    );
    assert_eq!(lobby.add_room(code, 1), None);
    assert_eq!(lobby.add_room(code, 2), Some(1));
    assert_eq!(lobby.on_event(LobbyEvent::<u32>::Shutdown), LobbyAction::Stop);
}

#[test]
fn there_have_to_be_enough_codes() {
    let config = VariableConfig { max_rooms: 456_974, ..VariableConfig::default() };
    assert!(check_feasible(&config, &profanity()));
    assert!(lobby_with(VariableConfig::default()).can_adopt(&config));
    let config = VariableConfig { max_rooms: 456_975, ..VariableConfig::default() };
    assert!(!check_feasible(&config, &profanity()));
    assert!(!lobby_with(VariableConfig::default()).can_adopt(&config));
    let config = VariableConfig { max_rooms: usize::MAX, ..VariableConfig::default() };
    assert!(!check_feasible(&config, &profanity()));
    let config = VariableConfig { player_queue_capacity: usize::MAX, ..VariableConfig::default() };
    assert!(!check_feasible(&config, &profanity()));
}

#[test]
fn clients_that_cannot_be_sent_are_closed() {
    assert_eq!(
        Lobby::<u32, u32>::on_send_failed(SendFailure::Full, 3, 7),
        closes(3, CloseCode::Again)
    );
    assert_eq!(
        Lobby::<u32, u32>::on_send_failed(SendFailure::Closed, 3, 7),
        closes(3, CustomCloseCode::RoomSealed.into())
    );
}

#[test]
fn shutting_down_the_lobby() {
    let mut lobby = lobby_with(VariableConfig::default());
    let first = connect(&mut lobby, 1).unwrap();
    let second = connect(&mut lobby, 2).unwrap();
    let third = connect(&mut lobby, 3).unwrap();
    let code = create(&mut lobby, third, 30);

    let mut joining = lobby.drain_joining();
    joining.sort();
    let mut expected = vec![(first, 1), (second, 2)];
    expected.sort();
    assert_eq!(joining, expected);
    assert_eq!(lobby.num_joining(), 0);
    assert_eq!(lobby.drain_rooms(), [(code, 30)]);
    assert_eq!(lobby.num_rooms(), 0);

    assert_eq!(
        lobby::shutdown_steps(),
        [
            LobbyShutdownStep::DrainRequests,
            LobbyShutdownStep::DrainControls,
            LobbyShutdownStep::AwaitJoining,
            LobbyShutdownStep::AwaitRooms,
            LobbyShutdownStep::AwaitCloses,
        ]
    );
}

#[test]
fn limits_of_streams() {
    assert_eq!(
        stream_limits(1100, 1000),
        StreamLimits {
            write_buffer_size: 11,
            max_write_buffer_size: 1100,
            max_message_size: 1100,
            max_frame_size: 1000,
            accept_unmasked_frames: false,
        }
    );
    // The maximum message size must not be too small.
    assert_eq!(
        stream_limits(5, 3),
        StreamLimits {
            write_buffer_size: 1,
            max_write_buffer_size: 100,
            max_message_size: 100,
            max_frame_size: 3,
            accept_unmasked_frames: false,
        }
    );
}

#[test]
fn accepting_connections() {
    let plain = AcceptStep::first(false);
    assert_eq!(plain, AcceptStep::AcceptWebSocket);
    assert_eq!(plain.next(AcceptOutcome::Succeeded), AcceptStep::SendToLobby);

    let encrypted = AcceptStep::first(true);
    assert_eq!(encrypted, AcceptStep::AcceptTls);
    assert_eq!(encrypted.next(AcceptOutcome::Succeeded), AcceptStep::AcceptWebSocket);
    assert_eq!(AcceptStep::SendToLobby.next(AcceptOutcome::Succeeded), AcceptStep::Finish);

    for step in [AcceptStep::AcceptTls, AcceptStep::AcceptWebSocket, AcceptStep::SendToLobby] {
        assert_eq!(step.next(AcceptOutcome::Failed), AcceptStep::Finish);
        assert_eq!(step.next(AcceptOutcome::Shutdown), AcceptStep::Finish);
    }
}

#[test]
fn serving_connections() {
    let mut server = Server::new(VariableConfig::default());
    let accept = ServerAction::Accept { max_message_size: 10100, max_payload_size: 10000 };
    assert_eq!(server.on_event(ServerEvent::Incoming), accept);
    assert_eq!(server.on_event(ServerEvent::IncomingFailed), ServerAction::Wait);
    assert_eq!(server.on_event(ServerEvent::Incoming), accept);

    let config = VariableConfig {
        max_message_size: 600,
        max_payload_size: 500,
        ..VariableConfig::default()
    };
    assert_eq!(server.on_event(ServerEvent::ConfigChanged(config)), ServerAction::Wait);
    assert_eq!(
        server.on_event(ServerEvent::Incoming),
        ServerAction::Accept { max_message_size: 600, max_payload_size: 500 }
    );
    assert_eq!(server.on_event(ServerEvent::Shutdown), ServerAction::Stop);
    assert_eq!(
        server::shutdown_steps(),
        [
            ServerShutdownStep::AwaitConnections,
            ServerShutdownStep::AwaitLobby,
            ServerShutdownStep::AwaitConfig,
        ]
    );
}
