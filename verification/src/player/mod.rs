//! The players, and how the server talks to their clients.

pub mod in_room;
pub mod joining;

use crate::close_code::{CloseCode, CustomCloseCode};
use crate::room_code::RoomCode;
use crate::text::{parse_u32, push_decimal, same_text, split_once};
use crate::{room_code, text};
use vstd::prelude::*;
use vstd::string::*;
use vstd::utf8::*;

verus! {

/// The type used for handle IDs, which are for players that have yet to join a
/// room.
pub type HandleID = u32;

/// The type used for player IDs, which are for players that are currently in a
/// room. This is the ID clients use to communicate with each other.
pub type PlayerID = u32;

/// The maximum amount of time to wait for the client to send back an echoed
/// close frame after we have sent one, in seconds.
pub const WAIT_FOR_CLOSE_ECHO_SECS: u64 = 5;

/// Data which uniquely identifies a client within the server.
#[derive(Debug, Clone, Copy, PartialEq, Eq)]
pub enum ClientUniqueID {
    /// The [`HandleID`] of the player if they are waiting to join a room.
    IsJoining(HandleID),
    /// The [`RoomCode`] and [`PlayerID`] of the player if they are in a room.
    HasJoined { room_code: RoomCode, player_id: PlayerID },
}

impl ClientUniqueID {
    /// The description of the client for the logs.
    pub open spec fn spec_text(self) -> Seq<char> {
        match self {
            ClientUniqueID::IsJoining(handle_id) => "handle_id="@ + text::decimal(handle_id as nat),
            ClientUniqueID::HasJoined { room_code, player_id } => {
                "room_code="@ + room_code::code_text(room_code@) + " player_id="@ + text::decimal(
                    player_id as nat,
                )
            },
        }
    }

    /// The description of the client for the logs.
    pub fn to_text(&self) -> (text: String)
        ensures
            text@ == self.spec_text(),
    {
        match self {
            ClientUniqueID::IsJoining(handle_id) => {
                let mut text = "handle_id=".to_owned();
                push_decimal(&mut text, *handle_id as u64);
                text
            },
            ClientUniqueID::HasJoined { room_code, player_id } => {
                let mut text = "room_code=".to_owned();
                room_code.push_text(&mut text);
                text.append(" player_id=");
                push_decimal(&mut text, *player_id as u64);
                text
            },
        }
    }
}

/// The description of a client that may not have an ID yet.
pub fn client_text(client_id: Option<ClientUniqueID>) -> (text: String)
    ensures
        text@ == match client_id {
            Some(client_id) => client_id.spec_text(),
            None => "none"@,
        },
{
    match client_id {
        Some(client_id) => client_id.to_text(),
        None => "none".to_owned(),
    }
}

/// The requests that players can make to the server.
#[derive(Debug, PartialEq, Eq)]
pub enum PlayerRequest {
    /// Host a new room.
    Host,
    /// Join the room with the given code.
    Join(RoomCode),
    /// Seal the room.
    Seal,
    /// Send a WebRTC offer to the given player.
    Offer(PlayerID, String),
    /// Send a WebRTC answer to the given player.
    Answer(PlayerID, String),
    /// Send a WebRTC candidate to the given player.
    Candidate(PlayerID, String),
}

/// A [`PlayerRequest`] in terms of the characters of its payload.
pub enum PlayerRequestView {
    Host,
    Join(RoomCode),
    Seal,
    Offer(PlayerID, Seq<char>),
    Answer(PlayerID, Seq<char>),
    Candidate(PlayerID, Seq<char>),
}

impl View for PlayerRequest {
    type V = PlayerRequestView;

    open spec fn view(&self) -> PlayerRequestView {
        match *self {
            PlayerRequest::Host => PlayerRequestView::Host,
            PlayerRequest::Join(code) => PlayerRequestView::Join(code),
            PlayerRequest::Seal => PlayerRequestView::Seal,
            PlayerRequest::Offer(id, payload) => PlayerRequestView::Offer(id, payload@),
            PlayerRequest::Answer(id, payload) => PlayerRequestView::Answer(id, payload@),
            PlayerRequest::Candidate(id, payload) => PlayerRequestView::Candidate(id, payload@),
        }
    }
}

impl PlayerRequest {
    /// The description of the request for the logs. It does not contain the
    /// payloads, as they contain sensitive information.
    pub open spec fn spec_text(self) -> Seq<char> {
        match self {
            PlayerRequest::Host => "host"@,
            PlayerRequest::Join(code) => "join "@ + room_code::code_text(code@),
            PlayerRequest::Seal => "seal"@,
            PlayerRequest::Offer(id, _) => "offer "@ + text::decimal(id as nat),
            PlayerRequest::Answer(id, _) => "answer "@ + text::decimal(id as nat),
            PlayerRequest::Candidate(id, _) => "candidate "@ + text::decimal(id as nat),
        }
    }

    /// The description of the request for the logs.
    pub fn to_text(&self) -> (text: String)
        ensures
            text@ == self.spec_text(),
    {
        match self {
            PlayerRequest::Host => "host".to_owned(),
            PlayerRequest::Join(code) => {
                let mut text = "join ".to_owned();
                code.push_text(&mut text);
                text
            },
            PlayerRequest::Seal => "seal".to_owned(),
            PlayerRequest::Offer(id, _) => {
                let mut text = "offer ".to_owned();
                push_decimal(&mut text, *id as u64);
                text
            },
            PlayerRequest::Answer(id, _) => {
                let mut text = "answer ".to_owned();
                push_decimal(&mut text, *id as u64);
                text
            },
            PlayerRequest::Candidate(id, _) => {
                let mut text = "candidate ".to_owned();
                push_decimal(&mut text, *id as u64);
                text
            },
        }
    }
}

/// The types of errors that can occur when parsing player messages.
#[derive(Debug, Clone, Copy, PartialEq, Eq, Structural)]
pub enum ParseError {
    /// There is no new line after the command and its argument.
    NoNewline,
    /// There is no space between the command and its argument.
    NoSpace,
    /// The command does not take a payload.
    UnexpectedPayload,
    /// The command takes a payload.
    ExpectedPayload,
    /// There is no such command.
    InvalidCommand,
    /// The command does not take such an argument.
    InvalidArgument,
}

impl ParseError {
    /// The error message.
    pub open spec fn spec_text(self) -> Seq<char> {
        match self {
            ParseError::NoNewline => "no new line character in message"@,
            ParseError::NoSpace => "no space character between command and argument"@,
            ParseError::UnexpectedPayload => "received a payload when we did not expect one"@,
            ParseError::ExpectedPayload => "did not receive a payload when we expected one"@,
            ParseError::InvalidCommand => "invalid command"@,
            ParseError::InvalidArgument => "invalid argument"@,
        }
    }

    /// The error message.
    pub fn to_text(&self) -> (text: String)
        ensures
            text@ == self.spec_text(),
    {
        match self {
            ParseError::NoNewline => "no new line character in message".to_owned(),
            ParseError::NoSpace => "no space character between command and argument".to_owned(),
            ParseError::UnexpectedPayload => {
                "received a payload when we did not expect one".to_owned()
            },
            ParseError::ExpectedPayload => {
                "did not receive a payload when we expected one".to_owned()
            },
            ParseError::InvalidCommand => "invalid command".to_owned(),
            ParseError::InvalidArgument => "invalid argument".to_owned(),
        }
    }
}

/// The player and the payload of a command that sends a payload to a player.
pub open spec fn addressed_payload(argument: Seq<char>, payload: Seq<char>) -> Result<
    (PlayerID, Seq<char>),
    ParseError,
> {
    match text::parsed_u32(argument) {
        Some(id) => if payload.len() == 0 {
            Err(ParseError::ExpectedPayload)
        } else {
            Ok((id, payload))
        },
        None => Err(ParseError::InvalidArgument),
    }
}

/// The request that a command, its argument, and its payload stand for.
pub open spec fn command_request(
    command: Seq<char>,
    argument: Seq<char>,
    payload: Seq<char>,
) -> Result<PlayerRequestView, ParseError> {
    if command == "J:"@ {
        if payload.len() > 0 {
            Err(ParseError::UnexpectedPayload)
        } else if argument.len() == 0 {
            Ok(PlayerRequestView::Host)
        } else {
            match RoomCode::from_bytes(encode_utf8(argument)) {
                Ok(code) => Ok(PlayerRequestView::Join(code)),
                Err(_) => Err(ParseError::InvalidArgument),
            }
        }
    } else if command == "S:"@ {
        if payload.len() > 0 {
            Err(ParseError::UnexpectedPayload)
        } else if argument.len() > 0 {
            Err(ParseError::InvalidArgument)
        } else {
            Ok(PlayerRequestView::Seal)
        }
    } else if command == "O:"@ {
        match addressed_payload(argument, payload) {
            Ok((id, payload)) => Ok(PlayerRequestView::Offer(id, payload)),
            Err(error) => Err(error),
        }
    } else if command == "A:"@ {
        match addressed_payload(argument, payload) {
            Ok((id, payload)) => Ok(PlayerRequestView::Answer(id, payload)),
            Err(error) => Err(error),
        }
    } else if command == "C:"@ {
        match addressed_payload(argument, payload) {
            Ok((id, payload)) => Ok(PlayerRequestView::Candidate(id, payload)),
            Err(error) => Err(error),
        }
    } else {
        Err(ParseError::InvalidCommand)
    }
}

/// The request that a message stands for. The first line of a message consists
/// of a command and its argument, with a space between them, and the payload is
/// what follows the first line.
pub open spec fn parsed_request(msg: Seq<char>) -> Result<PlayerRequestView, ParseError> {
    match text::split_parts(msg, '\n') {
        Some((first_line, payload)) => match text::split_parts(first_line, ' ') {
            Some((command, argument)) => command_request(command, argument, payload),
            None => Err(ParseError::NoSpace),
        },
        None => Err(ParseError::NoNewline),
    }
}

/// Parse the argument and the payload of a command that sends a payload to a
/// player.
fn parse_addressed_payload(argument: &str, payload: &str) -> (result: Result<
    (PlayerID, String),
    ParseError,
>)
    ensures
        match result {
            Ok((id, text)) => addressed_payload(argument@, payload@) == Ok::<
                (PlayerID, Seq<char>),
                ParseError,
            >((id, text@)),
            Err(error) => addressed_payload(argument@, payload@) == Err::<
                (PlayerID, Seq<char>),
                ParseError,
            >(error),
        },
{
    match parse_u32(argument) {
        Some(player_id) => if payload.is_empty() {
            Err(ParseError::ExpectedPayload)
        } else {
            Ok((player_id, payload.to_owned()))
        },
        None => Err(ParseError::InvalidArgument),
    }
}

/// Parse a command, with its argument and its payload.
fn parse_command(command: &str, argument: &str, payload: &str) -> (request: Result<
    PlayerRequest,
    ParseError,
>)
    ensures
        match request {
            Ok(request) => command_request(command@, argument@, payload@) == Ok::<
                PlayerRequestView,
                ParseError,
            >(request@),
            Err(error) => command_request(command@, argument@, payload@) == Err::<
                PlayerRequestView,
                ParseError,
            >(error),
        },
{
    if same_text(command, "J:") {
        if !payload.is_empty() {
            return Err(ParseError::UnexpectedPayload);
        }
        if argument.is_empty() {
            Ok(PlayerRequest::Host)
        } else {
            match RoomCode::try_from(argument) {
                Ok(code) => Ok(PlayerRequest::Join(code)),
                Err(_) => Err(ParseError::InvalidArgument),
            }
        }
    } else if same_text(command, "S:") {
        if !payload.is_empty() {
            return Err(ParseError::UnexpectedPayload);
        }
        if !argument.is_empty() {
            return Err(ParseError::InvalidArgument);
        }
        Ok(PlayerRequest::Seal)
    } else if same_text(command, "O:") {
        match parse_addressed_payload(argument, payload) {
            Ok((player_id, payload)) => Ok(PlayerRequest::Offer(player_id, payload)),
            Err(error) => Err(error),
        }
    } else if same_text(command, "A:") {
        match parse_addressed_payload(argument, payload) {
            Ok((player_id, payload)) => Ok(PlayerRequest::Answer(player_id, payload)),
            Err(error) => Err(error),
        }
    } else if same_text(command, "C:") {
        match parse_addressed_payload(argument, payload) {
            Ok((player_id, payload)) => Ok(PlayerRequest::Candidate(player_id, payload)),
            Err(error) => Err(error),
        }
    } else {
        Err(ParseError::InvalidCommand)
    }
}

/// Parse the text message given by a player into a [`PlayerRequest`].
pub fn parse_player_request(msg: &str) -> (request: Result<PlayerRequest, ParseError>)
    ensures
        match request {
            Ok(request) => parsed_request(msg@) == Ok::<PlayerRequestView, ParseError>(request@),
            Err(error) => parsed_request(msg@) == Err::<PlayerRequestView, ParseError>(error),
        },
{
    match split_once(msg, '\n') {
        Some((first_line, payload)) => match split_once(first_line, ' ') {
            Some((command, argument)) => parse_command(command, argument, payload),
            None => Err(ParseError::NoSpace),
        },
        None => Err(ParseError::NoNewline),
    }
}

/// The close code for a message that could not be parsed.
pub open spec fn parse_error_code(error: ParseError) -> CloseCode {
    match error {
        ParseError::InvalidCommand => CustomCloseCode::InvalidCommand.spec_close_code(),
        ParseError::InvalidArgument => CustomCloseCode::InvalidDestination.spec_close_code(),
        _ => CustomCloseCode::InvalidFormat.spec_close_code(),
    }
}

/// Convert a [`ParseError`] into a [`CloseCode`] that can be sent back to the
/// client, so that they know what went wrong.
pub fn parse_error_to_close_code(error: ParseError) -> (code: CloseCode)
    ensures
        code == parse_error_code(error),
{
    match error {
        ParseError::NoNewline => CustomCloseCode::InvalidFormat.into(),
        ParseError::NoSpace => CustomCloseCode::InvalidFormat.into(),
        ParseError::UnexpectedPayload => CustomCloseCode::InvalidFormat.into(),
        ParseError::ExpectedPayload => CustomCloseCode::InvalidFormat.into(),
        ParseError::InvalidCommand => CustomCloseCode::InvalidCommand.into(),
        ParseError::InvalidArgument => CustomCloseCode::InvalidDestination.into(),
    }
}

/// The kinds of errors that can occur while reading from a client's stream.
#[derive(Debug, Clone, Copy, PartialEq, Eq, Structural)]
pub enum WebSocketError {
    /// The connection has been closed normally.
    ConnectionClosed,
    /// The stream was used after the connection had been closed.
    AlreadyClosed,
    /// The connection failed.
    Io,
    /// The encryption failed.
    Tls,
    /// A buffer is full, or a message is too large.
    Capacity,
    /// The client violated the protocol.
    Protocol,
    /// The buffer for outgoing messages is full.
    WriteBufferFull,
    /// A text message is not valid UTF-8.
    Utf8,
    /// An attack attempt was detected.
    AttackAttempt,
    /// The address is not valid.
    Url,
    /// The HTTP request failed.
    Http,
    /// The HTTP request is not formatted correctly.
    HttpFormat,
}

/// The close code for an error while reading from a client's stream, if there is
/// any point in sending one.
pub open spec fn websocket_error_code(error: WebSocketError) -> Option<CloseCode> {
    match error {
        WebSocketError::Tls => Some(CloseCode::Protocol),
        WebSocketError::Capacity => Some(CloseCode::Size),
        WebSocketError::Protocol => Some(CloseCode::Protocol),
        WebSocketError::Utf8 => Some(CloseCode::Invalid),
        WebSocketError::Http => Some(CloseCode::Protocol),
        WebSocketError::HttpFormat => Some(CloseCode::Invalid),
        _ => None,
    }
}

/// Potentially convert a WebSocket error into a [`CloseCode`] that can be sent
/// back to the client, so that they know what went wrong.
///
/// If `None` is returned, then the connection should just be dropped.
pub fn websocket_error_to_close_code(error: WebSocketError) -> (code: Option<CloseCode>)
    ensures
        code == websocket_error_code(error),
{
    match error {
        WebSocketError::ConnectionClosed => None,
        WebSocketError::AlreadyClosed => None,
        // Error in connection is fatal.
        WebSocketError::Io => None,
        WebSocketError::Tls => Some(CloseCode::Protocol),
        WebSocketError::Capacity => Some(CloseCode::Size),
        WebSocketError::Protocol => Some(CloseCode::Protocol),
        // Can't send close message.
        WebSocketError::WriteBufferFull => None,
        WebSocketError::Utf8 => Some(CloseCode::Invalid),
        // If I can't see it, it's not there...
        WebSocketError::AttackAttempt => None,
        // Can't send any message.
        WebSocketError::Url => None,
        WebSocketError::Http => Some(CloseCode::Protocol),
        WebSocketError::HttpFormat => Some(CloseCode::Invalid),
    }
}

/// A message that was read from a client's stream.
#[derive(Debug, PartialEq, Eq)]
pub enum ClientMessage {
    /// A text message.
    Text(String),
    /// A binary message.
    Binary,
    /// A ping.
    Ping,
    /// A pong.
    Pong,
    /// A close message, with the code of its close frame if it has one.
    Close(Option<CloseCode>),
    /// A raw frame, which should never come out of a stream.
    Frame,
}

/// The outcome of reading the next message from a client's stream.
#[derive(Debug, PartialEq, Eq)]
pub enum ReadOutcome {
    /// A message was read.
    Message(ClientMessage),
    /// There was an error.
    Failed(WebSocketError),
    /// The stream has ended.
    Ended,
}

/// What to do after reading from a client's stream, while waiting for the client
/// to echo a close frame.
#[derive(Debug, Clone, Copy, PartialEq, Eq, Structural)]
pub enum EchoStep {
    /// The message is not a close message, so the next one has to be read.
    KeepReading,
    /// The client sent a close frame with the given code.
    Received(CloseCode),
    /// There will be no close frame.
    GiveUp,
}

/// Find out if a message that was read from a client's stream is the close frame
/// that we are waiting for.
pub fn read_until_close_frame(outcome: &ReadOutcome) -> (step: EchoStep)
    ensures
        step == match *outcome {
            ReadOutcome::Message(ClientMessage::Close(Some(code))) => EchoStep::Received(code),
            ReadOutcome::Message(ClientMessage::Close(None)) => EchoStep::GiveUp,
            ReadOutcome::Message(_) => EchoStep::KeepReading,
            ReadOutcome::Failed(_) => EchoStep::GiveUp,
            ReadOutcome::Ended => EchoStep::GiveUp,
        },
{
    match outcome {
        ReadOutcome::Message(ClientMessage::Close(Some(code))) => EchoStep::Received(*code),
        ReadOutcome::Message(ClientMessage::Close(None)) => EchoStep::GiveUp,
        // If the message is not a close frame, then we need to keep reading
        // until we get one.
        ReadOutcome::Message(_) => EchoStep::KeepReading,
        ReadOutcome::Failed(_) => EchoStep::GiveUp,
        ReadOutcome::Ended => EchoStep::GiveUp,
    }
}

/// What became of closing the connection with a client.
#[derive(Debug, Clone, Copy, PartialEq, Eq, Structural)]
pub enum CloseOutcome {
    /// The client echoed the close code.
    Echoed,
    /// The client sent a different close code.
    Mismatch { expected: CloseCode, got: CloseCode },
}

/// Compare the close code that a client sent with the one that was sent to it.
pub fn check_echo(expected: CloseCode, got: CloseCode) -> (outcome: CloseOutcome)
    ensures
        outcome == if got == expected {
            CloseOutcome::Echoed
        } else {
            CloseOutcome::Mismatch { expected, got }
        },
{
    if got == expected {
        CloseOutcome::Echoed
    } else {
        CloseOutcome::Mismatch { expected, got }
    }
}

/// A message that consists of a command, an argument and a payload, of which the
/// command holds neither a space nor a new line, and the argument holds no new
/// line, is parsed as just that.
pub proof fn lemma_parsed_parts(command: Seq<char>, argument: Seq<char>, payload: Seq<char>)
    requires
        !command.contains(' '),
        !command.contains('\n'),
        !argument.contains('\n'),
    ensures
        parsed_request(command + seq![' '] + argument + seq!['\n'] + payload) == command_request(
            command,
            argument,
            payload,
        ),
{
    let first_line = command + seq![' '] + argument;
    assert(!first_line.contains('\n')) by {
        if first_line.contains('\n') {
            let i = choose|i: int| 0 <= i < first_line.len() && first_line[i] == '\n';
            if i < command.len() {
                assert(command[i] == '\n');
            } else {
                assert(i > command.len());
                assert(argument[i - command.len() - 1] == '\n');
            }
        }
    }
    text::lemma_split_joined(first_line, '\n', payload);
    text::lemma_split_joined(command, ' ', argument);
}

/// A decimal number holds no new line.
pub proof fn lemma_decimal_is_one_line(id: PlayerID)
    ensures
        !text::decimal(id as nat).contains('\n'),
{
    text::lemma_decimal_value(id as nat);
    let digits = text::decimal(id as nat);
    if digits.contains('\n') {
        let i = choose|i: int| 0 <= i < digits.len() && digits[i] == '\n';
        assert(text::is_digit(digits[i]));
    }
}

/// A message that names a player and holds a payload is understood as a request
/// to send that payload to that player.
pub proof fn law_addressed_message_is_parsed(id: PlayerID, payload: Seq<char>)
    requires
        payload.len() > 0,
    ensures
        parsed_request("O: "@ + text::decimal(id as nat) + "\n"@ + payload) == Ok::<
            PlayerRequestView,
            ParseError,
        >(PlayerRequestView::Offer(id, payload)),
        parsed_request("A: "@ + text::decimal(id as nat) + "\n"@ + payload) == Ok::<
            PlayerRequestView,
            ParseError,
        >(PlayerRequestView::Answer(id, payload)),
        parsed_request("C: "@ + text::decimal(id as nat) + "\n"@ + payload) == Ok::<
            PlayerRequestView,
            ParseError,
        >(PlayerRequestView::Candidate(id, payload)),
{
    reveal_strlit("J:");
    reveal_strlit("S:");
    reveal_strlit("O:");
    reveal_strlit("A:");
    reveal_strlit("C:");
    reveal_strlit("O: ");
    reveal_strlit("A: ");
    reveal_strlit("C: ");
    reveal_strlit("\n");
    let argument = text::decimal(id as nat);
    lemma_decimal_is_one_line(id);
    text::lemma_decimal_parses_back(id);
    assert("O: "@ =~= "O:"@ + seq![' ']);
    assert("A: "@ =~= "A:"@ + seq![' ']);
    assert("C: "@ =~= "C:"@ + seq![' ']);
    assert("\n"@ =~= seq!['\n']);
    assert("J:"@[0] == 'J' && "S:"@[0] == 'S' && "O:"@[0] == 'O' && "A:"@[0] == 'A' && "C:"@[0]
        == 'C');
    lemma_parsed_parts("O:"@, argument, payload);
    lemma_parsed_parts("A:"@, argument, payload);
    lemma_parsed_parts("C:"@, argument, payload);
}

/// A message that names a room is understood as a request to join that room.
pub proof fn law_join_message_is_parsed(code: RoomCode)
    requires
        room_code::is_code(code@),
    ensures
        parsed_request("J: "@ + room_code::code_text(code@) + "\n"@) == Ok::<
            PlayerRequestView,
            ParseError,
        >(PlayerRequestView::Join(code)),
{
    reveal_strlit("J:");
    reveal_strlit("J: ");
    reveal_strlit("\n");
    let argument = room_code::code_text(code@);
    let empty = Seq::<char>::empty();
    room_code::law_text_of_code_converts_back(code);
    room_code::law_code_of_text_converts_back(argument);
    if argument.contains('\n') {
        let i = choose|i: int| 0 <= i < argument.len() && argument[i] == '\n';
        assert('A' <= argument[i] <= 'Z');
    }
    assert("J: "@ + argument + "\n"@ =~= "J:"@ + seq![' '] + argument + seq!['\n'] + empty);
    lemma_parsed_parts("J:"@, argument, empty);
}

} // verus!
