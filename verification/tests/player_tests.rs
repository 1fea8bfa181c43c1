use tabletop_club_lobby_server::close_code::{CloseCode, CustomCloseCode};
use tabletop_club_lobby_server::config::VariableConfig;
use tabletop_club_lobby_server::message::{
    LobbyCommand, LobbyControl, LobbyRequest, RoomCommand, RoomNotification, RoomRequest,
};
use tabletop_club_lobby_server::player::in_room::{InRoomAction, InRoomEvent, PlayerInRoom};
use tabletop_club_lobby_server::player::joining::{JoinOutcome, PlayerJoining};
use tabletop_club_lobby_server::player::{
    check_echo, client_text, parse_error_to_close_code, parse_player_request,
    read_until_close_frame, websocket_error_to_close_code, ClientMessage, ClientUniqueID,
    CloseOutcome, EchoStep, ParseError, PlayerRequest, ReadOutcome, WebSocketError,
};
use tabletop_club_lobby_server::room_code::RoomCode;

fn code(text: &str) -> RoomCode {
    RoomCode::try_from(text).unwrap()
}

fn text(text: &str) -> ReadOutcome {
    ReadOutcome::Message(ClientMessage::Text(text.to_string()))
}

fn message(message: ClientMessage) -> ReadOutcome {
    ReadOutcome::Message(message)
}

fn joining_cases() -> Vec<(JoinOutcome, LobbyCommand)> {
    vec![
        // Don't send a request - server should time us out.
        (
            JoinOutcome::TimedOut,
            LobbyCommand::CloseConnection(CustomCloseCode::DidNotJoinRoom.into()),
        ),
        // Drop the connection as soon as we can.
        (
            JoinOutcome::Read(ReadOutcome::Failed(WebSocketError::Protocol)),
            LobbyCommand::CloseConnection(CloseCode::Protocol),
        ),
        // Send an invalid UTF-8 string.
        (
            JoinOutcome::Read(ReadOutcome::Failed(WebSocketError::Utf8)),
            LobbyCommand::CloseConnection(CloseCode::Invalid),
        ),
        // Send a close code.
        (
            JoinOutcome::Read(message(ClientMessage::Close(Some(CloseCode::Normal)))),
            LobbyCommand::DropConnection,
        ),
        // Send a ping.
        (
            JoinOutcome::Read(message(ClientMessage::Ping)),
            LobbyCommand::CloseConnection(CloseCode::Protocol),
        ),
        // Send a pong.
        (
            JoinOutcome::Read(message(ClientMessage::Pong)),
            LobbyCommand::CloseConnection(CloseCode::Protocol),
        ),
        // Send a binary message.
        (
            JoinOutcome::Read(message(ClientMessage::Binary)),
            LobbyCommand::CloseConnection(CloseCode::Unsupported),
        ),
        // Send a request without a newline.
        (
            JoinOutcome::Read(text("J: ")),
            LobbyCommand::CloseConnection(CustomCloseCode::InvalidFormat.into()),
        ),
        // Send a request without a space.
        (
            JoinOutcome::Read(text("J:\n")),
            LobbyCommand::CloseConnection(CustomCloseCode::InvalidFormat.into()),
        ),
        // Send a request with an unexpected payload.
        (
            JoinOutcome::Read(text("J: \nHey!")),
            LobbyCommand::CloseConnection(CustomCloseCode::InvalidFormat.into()),
        ),
        // Send a request with an invalid command.
        (
            JoinOutcome::Read(text("B: \n")),
            LobbyCommand::CloseConnection(CustomCloseCode::InvalidCommand.into()),
        ),
        // Send a request with a room code that is the wrong length.
        (
            JoinOutcome::Read(text("J: ABCDEF\n")),
            LobbyCommand::CloseConnection(CustomCloseCode::InvalidDestination.into()),
        ),
        // Send a request with a room code that has invalid characters.
        (
            JoinOutcome::Read(text("J: abcd\n")),
            LobbyCommand::CloseConnection(CustomCloseCode::InvalidDestination.into()),
        ),
        // Try sealing a room before we have joined one.
        (
            JoinOutcome::Read(text("S: \n")),
            LobbyCommand::CloseConnection(CustomCloseCode::NotInRoom.into()),
        ),
        // Try sending messages to other players before joining a room.
        (
            JoinOutcome::Read(text("O: 1\noffer")),
            LobbyCommand::CloseConnection(CustomCloseCode::NotInRoom.into()),
        ),
        (
            JoinOutcome::Read(text("A: 1\nanswer")),
            LobbyCommand::CloseConnection(CustomCloseCode::NotInRoom.into()),
        ),
        (
            JoinOutcome::Read(text("C: 1\ncandidate")),
            LobbyCommand::CloseConnection(CustomCloseCode::NotInRoom.into()),
        ),
        // Send a request to host a room.
        (JoinOutcome::Read(text("J: \n")), LobbyCommand::CreateRoom),
        // Send a request to join a room.
        (
            JoinOutcome::Read(text("J: GGEZ\n")),
            LobbyCommand::JoinRoom(code("GGEZ")),
        ),
    ]
}

#[test]
fn joining_player_joining() {
    for (outcome, command) in joining_cases() {
        let request = PlayerJoining { handle_id: 1 }.task(outcome);
        assert_eq!(request, LobbyRequest { handle_id: 1, command });
    }
}

#[test]
fn joining_drops_lost_connections() {
    let outcomes = [
        ReadOutcome::Ended,
        ReadOutcome::Failed(WebSocketError::ConnectionClosed),
        ReadOutcome::Failed(WebSocketError::Io),
        message(ClientMessage::Close(None)),
        message(ClientMessage::Frame),
    ];
    for outcome in outcomes {
        let request = PlayerJoining { handle_id: 7 }.task(JoinOutcome::Read(outcome));
        assert_eq!(request.handle_id, 7);
        assert_eq!(request.command, LobbyCommand::DropConnection);
    }
}

#[test]
fn parsing_requests() {
    assert_eq!(parse_player_request("J: \n"), Ok(PlayerRequest::Host));
    assert_eq!(
        parse_player_request("J: ABCD\n"),
        Ok(PlayerRequest::Join(code("ABCD")))
    );
    assert_eq!(parse_player_request("S: \n"), Ok(PlayerRequest::Seal));
    assert_eq!(
        parse_player_request("O: 12\nline\nline"),
        Ok(PlayerRequest::Offer(12, "line\nline".to_string()))
    );
    assert_eq!(
        parse_player_request("A: +3\n "),
        Ok(PlayerRequest::Answer(3, " ".to_string()))
    );
    assert_eq!(
        parse_player_request("C: 4294967295\né"),
        Ok(PlayerRequest::Candidate(u32::MAX, "é".to_string()))
    );
}

#[test]
fn parsing_errors() {
    let cases = [
        ("", ParseError::NoNewline, CustomCloseCode::InvalidFormat),
        ("J: ", ParseError::NoNewline, CustomCloseCode::InvalidFormat),
        ("\n", ParseError::NoSpace, CustomCloseCode::InvalidFormat),
        ("J:\n ", ParseError::NoSpace, CustomCloseCode::InvalidFormat),
        ("J: \nx", ParseError::UnexpectedPayload, CustomCloseCode::InvalidFormat),
        ("S: 1\nx", ParseError::UnexpectedPayload, CustomCloseCode::InvalidFormat),
        ("O: 1\n", ParseError::ExpectedPayload, CustomCloseCode::InvalidFormat),
        ("A: 1\n", ParseError::ExpectedPayload, CustomCloseCode::InvalidFormat),
        ("C: 1\n", ParseError::ExpectedPayload, CustomCloseCode::InvalidFormat),
        ("X: 1\n", ParseError::InvalidCommand, CustomCloseCode::InvalidCommand),
        (" J: \n", ParseError::InvalidCommand, CustomCloseCode::InvalidCommand),
        ("j: \n", ParseError::InvalidCommand, CustomCloseCode::InvalidCommand),
        ("J: ABC\n", ParseError::InvalidArgument, CustomCloseCode::InvalidDestination),
        ("J:  \n", ParseError::InvalidArgument, CustomCloseCode::InvalidDestination),
        ("S: x\n", ParseError::InvalidArgument, CustomCloseCode::InvalidDestination),
        ("O: x\n", ParseError::InvalidArgument, CustomCloseCode::InvalidDestination),
        ("O: \nx", ParseError::InvalidArgument, CustomCloseCode::InvalidDestination),
        ("A: -1\nx", ParseError::InvalidArgument, CustomCloseCode::InvalidDestination),
        ("C: 4294967296\nx", ParseError::InvalidArgument, CustomCloseCode::InvalidDestination),
    ];
    for (message, error, close_code) in cases {
        assert_eq!(parse_player_request(message), Err(error), "{}", message);
        assert_eq!(parse_error_to_close_code(error), close_code.into());
    }
}

#[test]
fn websocket_errors() {
    let cases = [
        (WebSocketError::ConnectionClosed, None),
        (WebSocketError::AlreadyClosed, None),
        (WebSocketError::Io, None),
        (WebSocketError::Tls, Some(CloseCode::Protocol)),
        (WebSocketError::Capacity, Some(CloseCode::Size)),
        (WebSocketError::Protocol, Some(CloseCode::Protocol)),
        (WebSocketError::WriteBufferFull, None),
        (WebSocketError::Utf8, Some(CloseCode::Invalid)),
        (WebSocketError::AttackAttempt, None),
        (WebSocketError::Url, None),
        (WebSocketError::Http, Some(CloseCode::Protocol)),
        (WebSocketError::HttpFormat, Some(CloseCode::Invalid)),
    ];
    for (error, close_code) in cases {
        assert_eq!(websocket_error_to_close_code(error), close_code);
    }
}

#[test]
fn waiting_for_an_echo() {
    let others = [
        text("J: \n"),
        message(ClientMessage::Binary),
        message(ClientMessage::Ping),
        message(ClientMessage::Pong),
        message(ClientMessage::Frame),
    ];
    for outcome in others {
        assert_eq!(read_until_close_frame(&outcome), EchoStep::KeepReading);
    }
    assert_eq!(
        read_until_close_frame(&message(ClientMessage::Close(Some(CloseCode::Library(4000))))),
        EchoStep::Received(CloseCode::Library(4000))
    );
    let ends = [
        message(ClientMessage::Close(None)),
        ReadOutcome::Ended,
        ReadOutcome::Failed(WebSocketError::Io),
    ];
    for outcome in ends {
        assert_eq!(read_until_close_frame(&outcome), EchoStep::GiveUp);
    }

    let expected = CustomCloseCode::Error.into();
    assert_eq!(check_echo(expected, CloseCode::Library(4000)), CloseOutcome::Echoed);
    assert_eq!(
        check_echo(expected, CloseCode::Normal),
        CloseOutcome::Mismatch { expected, got: CloseCode::Normal }
    );
}

fn player() -> PlayerInRoom {
    PlayerInRoom::new(code("ABCD"), 5, VariableConfig::default())
}

fn request(command: RoomCommand) -> InRoomAction {
    InRoomAction::SendRequest(RoomRequest { player_id: 5, command })
}

fn drop_request() -> InRoomAction {
    InRoomAction::DropConnection(RoomRequest {
        player_id: 5,
        command: RoomCommand::DropConnection,
    })
}

#[test]
fn setup_messages_are_in_order() {
    assert_eq!(player().setup_messages(&vec![]), ["I: 5\n", "J: ABCD\n"]);
    assert_eq!(
        player().setup_messages(&vec![1, 4294967295]),
        ["I: 5\n", "N: 1\n", "N: 4294967295\n", "J: ABCD\n"]
    );
}

#[test]
fn players_in_rooms_make_requests() {
    let mut player = player();
    let cases = [
        ("S: \n", request(RoomCommand::SealRoom)),
        ("O: 1\nx", request(RoomCommand::SendOffer(1, "x".to_string()))),
        ("A: 2\ny", request(RoomCommand::SendAnswer(2, "y".to_string()))),
        ("C: 3\nz", request(RoomCommand::SendCandidate(3, "z".to_string()))),
        ("J: \n", InRoomAction::CloseConnection(CustomCloseCode::AlreadyInRoom.into())),
        ("J: ABCD\n", InRoomAction::CloseConnection(CustomCloseCode::AlreadyInRoom.into())),
        ("B: \n", InRoomAction::CloseConnection(CustomCloseCode::InvalidCommand.into())),
        ("O: \nx", InRoomAction::CloseConnection(CustomCloseCode::InvalidDestination.into())),
        ("S:\n", InRoomAction::CloseConnection(CustomCloseCode::InvalidFormat.into())),
    ];
    for (message, action) in cases {
        assert_eq!(player.on_event(InRoomEvent::Read(text(message))), action);
    }
}

#[test]
fn players_in_rooms_react_to_their_clients() {
    let mut player = player();
    let cases = [
        (message(ClientMessage::Binary), InRoomAction::CloseConnection(CloseCode::Unsupported)),
        (message(ClientMessage::Ping), InRoomAction::CloseConnection(CloseCode::Protocol)),
        (message(ClientMessage::Pong), InRoomAction::CloseConnection(CloseCode::Protocol)),
        (message(ClientMessage::Close(None)), drop_request()),
        (message(ClientMessage::Close(Some(CloseCode::Normal))), drop_request()),
        (message(ClientMessage::Frame), drop_request()),
        (ReadOutcome::Ended, drop_request()),
        (ReadOutcome::Failed(WebSocketError::Io), drop_request()),
        (
            ReadOutcome::Failed(WebSocketError::Capacity),
            InRoomAction::CloseConnection(CloseCode::Size),
        ),
    ];
    for (outcome, action) in cases {
        assert_eq!(player.on_event(InRoomEvent::Read(outcome)), action);
    }
    assert_eq!(player.on_event(InRoomEvent::TimedOut), drop_request());
    assert_eq!(player.on_event(InRoomEvent::SendFailed), drop_request());
    assert_eq!(player.on_event(InRoomEvent::RoomGone), drop_request());
    assert_eq!(
        player.on_event(InRoomEvent::NotificationsMissed),
        InRoomAction::CloseConnection(CloseCode::Error)
    );
    assert_eq!(player.on_event(InRoomEvent::Shutdown), InRoomAction::Stop);
}

#[test]
fn one_pong_per_ping() {
    let mut player = player();
    let pong = || InRoomEvent::Read(message(ClientMessage::Pong));
    assert_eq!(player.on_event(InRoomEvent::PingDue), InRoomAction::SendPing);
    assert!(player.expecting_pong);
    assert_eq!(player.on_event(pong()), InRoomAction::Wait);
    assert!(!player.expecting_pong);
    assert_eq!(
        player.on_event(pong()),
        InRoomAction::CloseConnection(CloseCode::Protocol)
    );
}

#[test]
fn config_changes_restart_the_pings() {
    let mut player = player();
    assert_eq!(player.ping_interval_secs, 10);
    assert_eq!(player.response_time_limit_secs, 30);
    let config = VariableConfig {
        ping_interval_secs: 7,
        response_time_limit_secs: 21,
        ..VariableConfig::default()
    };
    assert_eq!(
        player.on_event(InRoomEvent::ConfigChanged(config)),
        InRoomAction::RestartPings
    );
    assert_eq!(player.ping_interval_secs, 7);
    assert_eq!(player.response_time_limit_secs, 21);
    assert_eq!(player.player_id, 5);
}

#[test]
fn players_in_rooms_react_to_notifications() {
    let mut player = player();
    let cases = [
        (RoomNotification::PlayerJoined(9), InRoomAction::SendText("N: 9\n".to_string())),
        (RoomNotification::PlayerLeft(9), InRoomAction::SendText("D: 9\n".to_string())),
        (
            RoomNotification::OfferReceived(9, "hello!".to_string()),
            InRoomAction::SendText("O: 9\nhello!".to_string()),
        ),
        (
            RoomNotification::AnswerReceived(9, "how do you do?".to_string()),
            InRoomAction::SendText("A: 9\nhow do you do?".to_string()),
        ),
        (
            RoomNotification::CandidateReceived(9, "here you go".to_string()),
            InRoomAction::SendText("C: 9\nhere you go".to_string()),
        ),
        (
            RoomNotification::HostLeft,
            InRoomAction::CloseConnection(CustomCloseCode::HostDisconnected.into()),
        ),
        (
            RoomNotification::RoomSealed,
            InRoomAction::CloseConnection(CustomCloseCode::RoomSealed.into()),
        ),
        (
            RoomNotification::Error(CloseCode::Policy),
            InRoomAction::CloseConnection(CloseCode::Policy),
        ),
    ];
    for (notification, action) in cases {
        assert_eq!(player.on_event(InRoomEvent::Notified(notification)), action);
    }
}

#[test]
fn relayed_messages_read_like_requests() {
    let mut player = player();
    let notification = RoomNotification::OfferReceived(42, "a b\nc".to_string());
    match player.on_event(InRoomEvent::Notified(notification)) {
        InRoomAction::SendText(text) => assert_eq!(
            parse_player_request(&text),
            Ok(PlayerRequest::Offer(42, "a b\nc".to_string()))
        ),
        _ => panic!("expected text"),
    }
}

#[test]
fn descriptions() {
    let joining = ClientUniqueID::IsJoining(12);
    let joined = ClientUniqueID::HasJoined { room_code: code("ABCD"), player_id: 2 };
    assert_eq!(joining.to_text(), "handle_id=12");
    assert_eq!(joined.to_text(), "room_code=ABCD player_id=2");
    assert_eq!(client_text(Some(joining)), "handle_id=12");
    assert_eq!(client_text(None), "none");

    assert_eq!(PlayerRequest::Host.to_text(), "host");
    assert_eq!(PlayerRequest::Join(code("ABCD")).to_text(), "join ABCD");
    assert_eq!(PlayerRequest::Seal.to_text(), "seal");
    assert_eq!(PlayerRequest::Offer(1, "secret".to_string()).to_text(), "offer 1");
    assert_eq!(PlayerRequest::Answer(2, "secret".to_string()).to_text(), "answer 2");
    assert_eq!(PlayerRequest::Candidate(3, "secret".to_string()).to_text(), "candidate 3");

    assert_eq!(ParseError::NoNewline.to_text(), "no new line character in message");
    assert_eq!(
        ParseError::NoSpace.to_text(),
        "no space character between command and argument"
    );
    assert_eq!(
        ParseError::UnexpectedPayload.to_text(),
        "received a payload when we did not expect one"
    );
    assert_eq!(
        ParseError::ExpectedPayload.to_text(),
        "did not receive a payload when we expected one"
    );
    assert_eq!(ParseError::InvalidCommand.to_text(), "invalid command");
    assert_eq!(ParseError::InvalidArgument.to_text(), "invalid argument");

    assert_eq!(LobbyCommand::CreateRoom.to_text(), "create room");
    assert_eq!(LobbyCommand::JoinRoom(code("ABCD")).to_text(), "join room ABCD");
    assert_eq!(
        LobbyCommand::CloseConnection(CloseCode::Policy).to_text(),
        "close connection (code: 1008)"
    );
    assert_eq!(LobbyCommand::DropConnection.to_text(), "drop connection");

    assert_eq!(LobbyControl::SealRoom(code("ABCD")).to_text(), "seal room ABCD");
    assert_eq!(LobbyControl::CloseRoom(code("ABCD")).to_text(), "close room ABCD");

    assert_eq!(RoomCommand::SealRoom.to_text(), "seal room");
    let offer = RoomCommand::SendOffer(1, "secret".to_string());
    assert_eq!(offer.to_text(), "send offer to: 1");
    assert_eq!(offer.clone(), offer);
    assert_eq!(
        RoomCommand::SendAnswer(2, "secret".to_string()).to_text(),
        "send answer to: 2"
    );
    assert_eq!(
        RoomCommand::SendCandidate(3, "secret".to_string()).to_text(),
        "send candidate to: 3"
    );
    assert_eq!(RoomCommand::DropConnection.to_text(), "drop connection");

    assert_eq!(RoomNotification::PlayerJoined(1).to_text(), "player joined: 1");
    assert_eq!(RoomNotification::PlayerLeft(1).to_text(), "player left: 1");
    let offer = RoomNotification::OfferReceived(1, "secret".to_string());
    assert_eq!(offer.to_text(), "offer from: 1");
    assert_eq!(offer.clone(), offer);
    assert_eq!(
        RoomNotification::AnswerReceived(2, "secret".to_string()).to_text(),
        "answer from: 2"
    );
    assert_eq!(
        RoomNotification::CandidateReceived(3, "secret".to_string()).to_text(),
        "candidate from: 3"
    );
    assert_eq!(RoomNotification::HostLeft.to_text(), "host left");
    assert_eq!(RoomNotification::RoomSealed.to_text(), "room sealed");
    assert_eq!(
        RoomNotification::Error(CloseCode::Library(4014)).to_text(),
        "error (close: 4014)"
    );
}
