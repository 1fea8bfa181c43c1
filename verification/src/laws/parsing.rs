//! What is promised of the messages of clients.

use crate::close_code::CloseCode;
use crate::player;
use crate::player::{
    CloseOutcome, EchoStep, ParseError, PlayerRequest, ReadOutcome, WebSocketError,
};
use crate::{room_code, text};
use vstd::prelude::*;
use vstd::string::*;

verus! {

/// A message without a new line, or without a space in its first line, is not
/// understood.
pub proof fn law_messages_have_a_first_line(
    msg: &str,
    first_line: Seq<char>,
    payload: Seq<char>,
    request: Result<PlayerRequest, ParseError>,
)
    requires
        call_ensures(player::parse_player_request, (msg,), request),
    ensures
        !msg@.contains('\n') <==> request == Err::<PlayerRequest, ParseError>(
            ParseError::NoNewline,
        ),
        msg@ == first_line + seq!['\n'] + payload && !first_line.contains('\n')
            && !first_line.contains(' ') ==> request == Err::<PlayerRequest, ParseError>(
            ParseError::NoSpace,
        ),
{
    msg@.index_of_first_ensures('\n');
    if msg@ == first_line + seq!['\n'] + payload && !first_line.contains('\n')
        && !first_line.contains(' ') {
        text::lemma_split_joined(first_line, '\n', payload);
        first_line.index_of_first_ensures(' ');
    }
}

/// Whether the texts are the command, the argument and the payload of a message:
/// the first line ends where the payload starts, and the command ends at the first
/// space.
pub open spec fn consists_of(
    msg: Seq<char>,
    command: Seq<char>,
    argument: Seq<char>,
    payload: Seq<char>,
) -> bool {
    &&& msg == command + seq![' '] + argument + seq!['\n'] + payload
    &&& !command.contains(' ')
    &&& !command.contains('\n')
    &&& !argument.contains('\n')
}

/// The commands to host, to join and to seal a room do not take a payload. Hosting
/// and sealing take no argument, and joining takes four letters.
pub proof fn law_room_commands_are_understood(
    msg: &str,
    command: Seq<char>,
    argument: Seq<char>,
    payload: Seq<char>,
    request: Result<PlayerRequest, ParseError>,
)
    requires
        call_ensures(player::parse_player_request, (msg,), request),
        consists_of(msg@, command, argument, payload),
    ensures
        command == "J:"@ || command == "S:"@ ==> payload.len() > 0 ==> request == Err::<
            PlayerRequest,
            ParseError,
        >(ParseError::UnexpectedPayload),
        command == "J:"@ && payload.len() == 0 && argument.len() == 0 ==> request == Ok::<
            PlayerRequest,
            ParseError,
        >(PlayerRequest::Host),
        command == "J:"@ && payload.len() == 0 && argument.len() > 0 ==> match request {
            Ok(PlayerRequest::Join(code)) => {
                &&& code@.len() == 4
                &&& argument == seq![
                    code@[0] as char,
                    code@[1] as char,
                    code@[2] as char,
                    code@[3] as char,
                ]
                &&& 65 <= code@[0] <= 90 && 65 <= code@[1] <= 90 && 65 <= code@[2] <= 90 && 65
                    <= code@[3] <= 90
            },
            Err(ParseError::InvalidArgument) => !(argument.len() == 4 && 'A' <= argument[0] <= 'Z'
                && 'A' <= argument[1] <= 'Z' && 'A' <= argument[2] <= 'Z' && 'A' <= argument[3]
                <= 'Z'),
            _ => false,
        },
        command == "S:"@ && payload.len() == 0 && argument.len() == 0 ==> request == Ok::<
            PlayerRequest,
            ParseError,
        >(PlayerRequest::Seal),
        command == "S:"@ && payload.len() == 0 && argument.len() > 0 ==> request == Err::<
            PlayerRequest,
            ParseError,
        >(ParseError::InvalidArgument),
{
    reveal_strlit("J:");
    reveal_strlit("S:");
    assert("J:"@[0] == 'J' && "S:"@[0] == 'S');
    player::lemma_parsed_parts(command, argument, payload);
    room_code::law_code_of_text_converts_back(argument);
    if let Ok(PlayerRequest::Join(code)) = request {
        if command == "J:"@ {
            assert(room_code::is_code_letter(code@[0]) && room_code::is_code_letter(code@[1])
                && room_code::is_code_letter(code@[2]) && room_code::is_code_letter(code@[3]));
            assert(room_code::code_text(code@) =~= seq![
                code@[0] as char,
                code@[1] as char,
                code@[2] as char,
                code@[3] as char,
            ]);
        }
    }
}

/// The commands to send something to another player take the number of the player
/// and a payload.
pub proof fn law_player_commands_are_understood(
    msg: &str,
    command: Seq<char>,
    argument: Seq<char>,
    payload: Seq<char>,
    request: Result<PlayerRequest, ParseError>,
)
    requires
        call_ensures(player::parse_player_request, (msg,), request),
        consists_of(msg@, command, argument, payload),
    ensures
        command == "O:"@ || command == "A:"@ || command == "C:"@ ==> match text::parsed_u32(
            argument,
        ) {
            Some(id) => if payload.len() == 0 {
                request == Err::<PlayerRequest, ParseError>(ParseError::ExpectedPayload)
            } else {
                match request {
                    Ok(PlayerRequest::Offer(to, sent)) => command == "O:"@ && to == id && sent@
                        == payload,
                    Ok(PlayerRequest::Answer(to, sent)) => command == "A:"@ && to == id && sent@
                        == payload,
                    Ok(PlayerRequest::Candidate(to, sent)) => command == "C:"@ && to == id && sent@
                        == payload,
                    _ => false,
                }
            },
            None => request == Err::<PlayerRequest, ParseError>(ParseError::InvalidArgument),
        },
        command != "J:"@ && command != "S:"@ && command != "O:"@ && command != "A:"@ && command
            != "C:"@ ==> request == Err::<PlayerRequest, ParseError>(ParseError::InvalidCommand),
{
    reveal_strlit("J:");
    reveal_strlit("S:");
    reveal_strlit("O:");
    reveal_strlit("A:");
    reveal_strlit("C:");
    assert("J:"@[0] == 'J' && "S:"@[0] == 'S' && "O:"@[0] == 'O' && "A:"@[0] == 'A' && "C:"@[0]
        == 'C');
    player::lemma_parsed_parts(command, argument, payload);
}

/// A client whose message is not understood is told whether it was the command, the
/// argument or the format that was wrong.
pub proof fn law_errors_have_codes(error: ParseError, code: CloseCode)
    requires
        call_ensures(player::parse_error_to_close_code, (error,), code),
    ensures
        error is InvalidCommand ==> code == CloseCode::Library(4013),
        error is InvalidArgument ==> code == CloseCode::Library(4012),
        !(error is InvalidCommand) && !(error is InvalidArgument) ==> code == CloseCode::Library(
            4009,
        ),
{
}

/// A client is told what went wrong with its stream if it can still be told
/// anything.
pub proof fn law_failures_have_codes(error: WebSocketError, code: Option<CloseCode>)
    requires
        call_ensures(player::websocket_error_to_close_code, (error,), code),
    ensures
        error is Tls || error is Protocol || error is Http <==> code == Some(CloseCode::Protocol),
        error is Capacity <==> code == Some(CloseCode::Size),
        error is Utf8 || error is HttpFormat <==> code == Some(CloseCode::Invalid),
        error is ConnectionClosed || error is AlreadyClosed || error is Io
            || error is WriteBufferFull || error is AttackAttempt || error is Url <==> code
            is None,
{
}

/// Whatever else the client sends is skipped until it closes the connection. If it
/// does so without a code, or if nothing can be read, there is no more to wait for.
pub proof fn law_close_frames_are_waited_for(outcome: ReadOutcome, step: EchoStep)
    requires
        call_ensures(player::read_until_close_frame, (&outcome,), step),
    ensures
        outcome matches ReadOutcome::Message(message) ==> {
            &&& step is KeepReading <==> !(message is Close)
            &&& message is Close ==> step == match message->Close_0 {
                Some(code) => EchoStep::Received(code),
                None => EchoStep::GiveUp,
            }
        },
        !(outcome is Message) ==> step == EchoStep::GiveUp,
{
}

/// A client echoes a code by sending the same one.
pub proof fn law_echoes_are_the_same(expected: CloseCode, got: CloseCode, outcome: CloseOutcome)
    requires
        call_ensures(player::check_echo, (expected, got), outcome),
    ensures
        outcome is Echoed <==> expected == got,
        outcome matches CloseOutcome::Mismatch { expected: e, got: g } ==> e == expected && g
            == got,
{
}

} // verus!
