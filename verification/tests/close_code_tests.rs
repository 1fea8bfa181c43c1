use tabletop_club_lobby_server::close_code::{CloseCode, CustomCloseCode};
use tokio_tungstenite::tungstenite::protocol::frame::coding::CloseCode as FrameCode;

const ALL: [CustomCloseCode; 19] = [
    CustomCloseCode::Error,
    CustomCloseCode::Unreachable,
    CustomCloseCode::DidNotJoinRoom,
    CustomCloseCode::HostDisconnected,
    CustomCloseCode::OnlyHostCanSeal,
    CustomCloseCode::TooManyRooms,
    CustomCloseCode::AlreadyInRoom,
    CustomCloseCode::RoomDoesNotExist,
    CustomCloseCode::RoomSealed,
    CustomCloseCode::InvalidFormat,
    CustomCloseCode::NotInRoom,
    CustomCloseCode::ServerError,
    CustomCloseCode::InvalidDestination,
    CustomCloseCode::InvalidCommand,
    CustomCloseCode::TooManyPlayers,
    CustomCloseCode::InvalidMode,
    CustomCloseCode::TooManyConnections,
    CustomCloseCode::ReconnectTooQuickly,
    CustomCloseCode::JoinQueueFull,
];

#[test]
fn custom_codes_have_consecutive_numbers() {
    for (index, code) in ALL.iter().enumerate() {
        let number = 4000 + index as u16;
        assert_eq!(u16::from(*code), number);
        assert_eq!(CustomCloseCode::try_from(number), Ok(*code));
        assert_eq!(CloseCode::from(*code), CloseCode::Library(number));
        assert_eq!(CustomCloseCode::try_from(CloseCode::from(*code)), Ok(*code));
    }
}

#[test]
fn other_codes_are_not_custom_codes() {
    assert_eq!(CustomCloseCode::try_from(3999u16), Err(()));
    assert_eq!(CustomCloseCode::try_from(4019u16), Err(()));
    assert_eq!(CustomCloseCode::try_from(CloseCode::Normal), Err(()));
    assert_eq!(CustomCloseCode::try_from(CloseCode::Library(4019)), Err(()));
    assert_eq!(CustomCloseCode::try_from(CloseCode::Iana(4000)), Err(()));
}

#[test]
fn numbers_are_those_of_the_frames() {
    let pairs = [
        (CloseCode::Normal, FrameCode::Normal),
        (CloseCode::Away, FrameCode::Away),
        (CloseCode::Protocol, FrameCode::Protocol),
        (CloseCode::Unsupported, FrameCode::Unsupported),
        (CloseCode::Status, FrameCode::Status),
        (CloseCode::Abnormal, FrameCode::Abnormal),
        (CloseCode::Invalid, FrameCode::Invalid),
        (CloseCode::Policy, FrameCode::Policy),
        (CloseCode::Size, FrameCode::Size),
        (CloseCode::Extension, FrameCode::Extension),
        (CloseCode::Error, FrameCode::Error),
        (CloseCode::Restart, FrameCode::Restart),
        (CloseCode::Again, FrameCode::Again),
        (CloseCode::Tls, FrameCode::Tls),
        (CloseCode::Reserved(1016), FrameCode::Reserved(1016)),
        (CloseCode::Iana(3000), FrameCode::Iana(3000)),
        (CloseCode::Library(4018), FrameCode::Library(4018)),
        (CloseCode::Bad(5000), FrameCode::Bad(5000)),
    ];
    for (code, frame_code) in pairs {
        assert_eq!(code.number(), u16::from(frame_code));
        let mut text = String::new();
        code.push_text(&mut text);
        assert_eq!(text, frame_code.to_string());
    }
}
