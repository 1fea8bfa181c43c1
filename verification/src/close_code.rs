//! The codes that are sent to a client when its connection is closed.

use crate::text;
use crate::text::push_decimal;
use vstd::prelude::*;
use vstd::std_specs::convert::{FromSpecImpl, TryFromSpecImpl};

verus! {

/// The status codes of a WebSocket close frame.
///
/// The variants are those of the WebSocket library that carries the frames, so
/// that a code can be handed over in either direction without loss.
#[derive(Debug, Clone, Copy, PartialEq, Eq, Structural)]
pub enum CloseCode {
    /// The connection has fulfilled its purpose.
    Normal,
    /// The endpoint is going away.
    Away,
    /// The other side violated the protocol.
    Protocol,
    /// The kind of data received is not accepted.
    Unsupported,
    /// The close frame held no status code.
    Status,
    /// The connection ended without a close frame.
    Abnormal,
    /// The data received does not fit the type of the message.
    Invalid,
    /// The message received violates a policy of the server.
    Policy,
    /// The message received is too large.
    Size,
    /// The server did not negotiate an extension that the client needs.
    Extension,
    /// The server met an unexpected condition.
    Error,
    /// The server is restarting.
    Restart,
    /// The server is overloaded, and the client should try again.
    Again,
    /// The TLS handshake failed.
    Tls,
    /// A code that is reserved by the protocol.
    Reserved(u16),
    /// A code that is registered for applications.
    Iana(u16),
    /// A code that is free for private use.
    Library(u16),
    /// A code that is not allowed.
    Bad(u16),
}

impl CloseCode {
    /// The number that stands for the code in a close frame.
    pub open spec fn spec_number(self) -> u16 {
        match self {
            CloseCode::Normal => 1000,
            CloseCode::Away => 1001,
            CloseCode::Protocol => 1002,
            CloseCode::Unsupported => 1003,
            CloseCode::Status => 1005,
            CloseCode::Abnormal => 1006,
            CloseCode::Invalid => 1007,
            CloseCode::Policy => 1008,
            CloseCode::Size => 1009,
            CloseCode::Extension => 1010,
            CloseCode::Error => 1011,
            CloseCode::Restart => 1012,
            CloseCode::Again => 1013,
            CloseCode::Tls => 1015,
            CloseCode::Reserved(number) => number,
            CloseCode::Iana(number) => number,
            CloseCode::Library(number) => number,
            CloseCode::Bad(number) => number,
        }
    }

    /// The number that stands for the code in a close frame.
    pub fn number(&self) -> (number: u16)
        ensures
            number == self.spec_number(),
    {
        match *self {
            CloseCode::Normal => 1000,
            CloseCode::Away => 1001,
            CloseCode::Protocol => 1002,
            CloseCode::Unsupported => 1003,
            CloseCode::Status => 1005,
            CloseCode::Abnormal => 1006,
            CloseCode::Invalid => 1007,
            CloseCode::Policy => 1008,
            CloseCode::Size => 1009,
            CloseCode::Extension => 1010,
            CloseCode::Error => 1011,
            CloseCode::Restart => 1012,
            CloseCode::Again => 1013,
            CloseCode::Tls => 1015,
            CloseCode::Reserved(number) => number,
            CloseCode::Iana(number) => number,
            CloseCode::Library(number) => number,
            CloseCode::Bad(number) => number,
        }
    }

    /// Append the number of the code to `text`.
    pub fn push_text(&self, text: &mut String)
        ensures
            final(text)@ == old(text)@ + text::decimal(self.spec_number() as nat),
    {
        push_decimal(text, self.number() as u64);
    }
}

/// A custom set of close codes that the server can send to the players.
#[derive(Debug, Clone, Copy, PartialEq, Eq, Structural)]
pub enum CustomCloseCode {
    /// A generic error occured.
    ///
    /// **NOTE:** This close code should never be used. Always try to use a more
    /// descriptive close code.
    Error,
    /// Failed to connect to the lobby server.
    ///
    /// **NOTE:** This close code should never be used. This is meant as an
    /// error code for clients, and is here only for reference.
    Unreachable,
    /// The client did not create or join a room in time.
    DidNotJoinRoom,
    /// The host disconnected from the room the player was in.
    HostDisconnected,
    /// Only the host of the room is allowed to seal it.
    OnlyHostCanSeal,
    /// The maximum number of rooms has been reached.
    TooManyRooms,
    /// Tried to do something that can only be done when not in a room.
    AlreadyInRoom,
    /// The room that was given by the client does not exist.
    RoomDoesNotExist,
    /// The room that was given by the client has been sealed.
    RoomSealed,
    /// The message that was given was incorrectly formatted.
    InvalidFormat,
    /// Tried to do something that can only be done while in a room.
    NotInRoom,
    /// An internal server error occured.
    ///
    /// **NOTE:** This close code is redundant, [`CloseCode::Error`] should be
    /// used instead.
    ServerError,
    /// The message that was given contained an invalid destination ID.
    InvalidDestination,
    /// The message that was given contained an invalid command.
    InvalidCommand,
    /// The maximum number of players within a room has been reached.
    TooManyPlayers,
    /// A binary message was received when only text messages are allowed.
    ///
    /// **NOTE:** This close code is redundant, [`CloseCode::Unsupported`]
    /// should be used instead.
    InvalidMode,
    /// Too many connections from the same IP address.
    ///
    /// **NOTE:** This code is redundant, as connection limiting should ideally
    /// be implemented via a reverse proxy.
    TooManyConnections,
    /// Established another connection too quickly after the last one.
    ///
    /// **NOTE:** This code is redundant, as rate limiting should ideally be
    /// implemented via a reverse proxy.
    ReconnectTooQuickly,
    /// The queue of players trying to create or join rooms is at capacity.
    JoinQueueFull,
}

impl CustomCloseCode {
    /// The number that stands for the custom code.
    pub open spec fn spec_number(self) -> u16 {
        match self {
            CustomCloseCode::Error => 4000,
            CustomCloseCode::Unreachable => 4001,
            CustomCloseCode::DidNotJoinRoom => 4002,
            CustomCloseCode::HostDisconnected => 4003,
            CustomCloseCode::OnlyHostCanSeal => 4004,
            CustomCloseCode::TooManyRooms => 4005,
            CustomCloseCode::AlreadyInRoom => 4006,
            CustomCloseCode::RoomDoesNotExist => 4007,
            CustomCloseCode::RoomSealed => 4008,
            CustomCloseCode::InvalidFormat => 4009,
            CustomCloseCode::NotInRoom => 4010,
            CustomCloseCode::ServerError => 4011,
            CustomCloseCode::InvalidDestination => 4012,
            CustomCloseCode::InvalidCommand => 4013,
            CustomCloseCode::TooManyPlayers => 4014,
            CustomCloseCode::InvalidMode => 4015,
            CustomCloseCode::TooManyConnections => 4016,
            CustomCloseCode::ReconnectTooQuickly => 4017,
            CustomCloseCode::JoinQueueFull => 4018,
        }
    }

    /// The custom code with the given number, if there is one.
    pub open spec fn with_number(number: u16) -> Option<CustomCloseCode> {
        match number {
            4000 => Some(CustomCloseCode::Error),
            4001 => Some(CustomCloseCode::Unreachable),
            4002 => Some(CustomCloseCode::DidNotJoinRoom),
            4003 => Some(CustomCloseCode::HostDisconnected),
            4004 => Some(CustomCloseCode::OnlyHostCanSeal),
            4005 => Some(CustomCloseCode::TooManyRooms),
            4006 => Some(CustomCloseCode::AlreadyInRoom),
            4007 => Some(CustomCloseCode::RoomDoesNotExist),
            4008 => Some(CustomCloseCode::RoomSealed),
            4009 => Some(CustomCloseCode::InvalidFormat),
            4010 => Some(CustomCloseCode::NotInRoom),
            4011 => Some(CustomCloseCode::ServerError),
            4012 => Some(CustomCloseCode::InvalidDestination),
            4013 => Some(CustomCloseCode::InvalidCommand),
            4014 => Some(CustomCloseCode::TooManyPlayers),
            4015 => Some(CustomCloseCode::InvalidMode),
            4016 => Some(CustomCloseCode::TooManyConnections),
            4017 => Some(CustomCloseCode::ReconnectTooQuickly),
            4018 => Some(CustomCloseCode::JoinQueueFull),
            _ => None,
        }
    }

    /// The code of a close frame that carries the custom code.
    pub open spec fn spec_close_code(self) -> CloseCode {
        CloseCode::Library(self.spec_number())
    }
}

impl From<CustomCloseCode> for u16 {
    fn from(value: CustomCloseCode) -> (number: Self) {
        match value {
            CustomCloseCode::Error => 4000,
            CustomCloseCode::Unreachable => 4001,
            CustomCloseCode::DidNotJoinRoom => 4002,
            CustomCloseCode::HostDisconnected => 4003,
            CustomCloseCode::OnlyHostCanSeal => 4004,
            CustomCloseCode::TooManyRooms => 4005,
            CustomCloseCode::AlreadyInRoom => 4006,
            CustomCloseCode::RoomDoesNotExist => 4007,
            CustomCloseCode::RoomSealed => 4008,
            CustomCloseCode::InvalidFormat => 4009,
            CustomCloseCode::NotInRoom => 4010,
            CustomCloseCode::ServerError => 4011,
            CustomCloseCode::InvalidDestination => 4012,
            CustomCloseCode::InvalidCommand => 4013,
            CustomCloseCode::TooManyPlayers => 4014,
            CustomCloseCode::InvalidMode => 4015,
            CustomCloseCode::TooManyConnections => 4016,
            CustomCloseCode::ReconnectTooQuickly => 4017,
            CustomCloseCode::JoinQueueFull => 4018,
        }
    }
}

impl FromSpecImpl<CustomCloseCode> for u16 {
    open spec fn obeys_from_spec() -> bool {
        true
    }

    open spec fn from_spec(value: CustomCloseCode) -> u16 {
        value.spec_number()
    }
}

impl TryFrom<u16> for CustomCloseCode {
    type Error = ();

    fn try_from(value: u16) -> (code: Result<Self, ()>) {
        match value {
            4000 => Ok(CustomCloseCode::Error),
            4001 => Ok(CustomCloseCode::Unreachable),
            4002 => Ok(CustomCloseCode::DidNotJoinRoom),
            4003 => Ok(CustomCloseCode::HostDisconnected),
            4004 => Ok(CustomCloseCode::OnlyHostCanSeal),
            4005 => Ok(CustomCloseCode::TooManyRooms),
            4006 => Ok(CustomCloseCode::AlreadyInRoom),
            4007 => Ok(CustomCloseCode::RoomDoesNotExist),
            4008 => Ok(CustomCloseCode::RoomSealed),
            4009 => Ok(CustomCloseCode::InvalidFormat),
            4010 => Ok(CustomCloseCode::NotInRoom),
            4011 => Ok(CustomCloseCode::ServerError),
            4012 => Ok(CustomCloseCode::InvalidDestination),
            4013 => Ok(CustomCloseCode::InvalidCommand),
            4014 => Ok(CustomCloseCode::TooManyPlayers),
            4015 => Ok(CustomCloseCode::InvalidMode),
            4016 => Ok(CustomCloseCode::TooManyConnections),
            4017 => Ok(CustomCloseCode::ReconnectTooQuickly),
            4018 => Ok(CustomCloseCode::JoinQueueFull),
            _ => Err(()),
        }
    }
}

impl TryFromSpecImpl<u16> for CustomCloseCode {
    open spec fn obeys_try_from_spec() -> bool {
        true
    }

    open spec fn try_from_spec(value: u16) -> Result<Self, ()> {
        match CustomCloseCode::with_number(value) {
            Some(code) => Ok(code),
            None => Err(()),
        }
    }
}

impl From<CustomCloseCode> for CloseCode {
    fn from(value: CustomCloseCode) -> (code: Self) {
        CloseCode::Library(u16::from(value))
    }
}

impl FromSpecImpl<CustomCloseCode> for CloseCode {
    open spec fn obeys_from_spec() -> bool {
        true
    }

    open spec fn from_spec(value: CustomCloseCode) -> CloseCode {
        value.spec_close_code()
    }
}

impl TryFrom<CloseCode> for CustomCloseCode {
    type Error = ();

    fn try_from(value: CloseCode) -> (code: Result<Self, ()>) {
        if let CloseCode::Library(number) = value {
            CustomCloseCode::try_from(number)
        } else {
            Err(())
        }
    }
}

impl TryFromSpecImpl<CloseCode> for CustomCloseCode {
    open spec fn obeys_try_from_spec() -> bool {
        true
    }

    open spec fn try_from_spec(value: CloseCode) -> Result<Self, ()> {
        match value {
            CloseCode::Library(number) => match CustomCloseCode::with_number(number) {
                Some(code) => Ok(code),
                None => Err(()),
            },
            _ => Err(()),
        }
    }
}

/// A custom close code survives the way to its number and back.
pub proof fn law_custom_code_from_number_of_code(code: CustomCloseCode)
    ensures
        CustomCloseCode::with_number(code.spec_number()) == Some(code),
{
}

/// A number that stands for a custom close code survives the way to the code
/// and back, and exactly the numbers from 4000 to 4018 stand for one.
pub proof fn law_number_of_custom_code_with_number(number: u16)
    ensures
        CustomCloseCode::with_number(number) is Some <==> 4000 <= number <= 4018,
        CustomCloseCode::with_number(number) matches Some(code) ==> code.spec_number() == number,
{
}

/// A custom close code survives the way into a close frame and back.
pub proof fn law_custom_code_from_close_code(code: CustomCloseCode)
    ensures
        <CustomCloseCode as vstd::std_specs::convert::TryFromSpec<CloseCode>>::try_from_spec(
            code.spec_close_code(),
        ) == Ok::<CustomCloseCode, ()>(code),
{
}

} // verus!
