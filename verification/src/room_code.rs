//! The codes that identify the rooms within the lobby.

use crate::profanity::ProfanityList;
use crate::random::random_u8;
use vstd::prelude::*;
use vstd::std_specs::convert::{FromSpecImpl, TryFromSpecImpl};
use vstd::string::*;
use vstd::utf8::*;

verus! {

/// The number of room codes.
pub const NUM_ROOM_CODES: usize = 456_976;

/// Whether the byte is one of the ASCII letters from 'A' to 'Z'.
pub open spec fn is_code_letter(byte: u8) -> bool {
    65 <= byte <= 90
}

/// Whether the bytes make up a valid room code.
pub open spec fn is_code(bytes: Seq<u8>) -> bool {
    bytes.len() == 4 && forall|i: int| 0 <= i < 4 ==> is_code_letter(#[trigger] bytes[i])
}

/// The four bytes of a room code as a number, with the first byte as the most
/// significant one.
pub open spec fn code_value(bytes: Seq<u8>) -> int {
    16_777_216 * bytes[0] + 65_536 * bytes[1] + 256 * bytes[2] + bytes[3]
}

/// The four bytes of a number, with the most significant one first.
pub open spec fn value_bytes(value: u32) -> Seq<u8> {
    seq![
        (value / 16_777_216) as u8,
        (value / 65_536 % 256) as u8,
        (value / 256 % 256) as u8,
        (value % 256) as u8,
    ]
}

/// The room code as text.
pub open spec fn code_text(bytes: Seq<u8>) -> Seq<char> {
    bytes.map_values(|byte: u8| byte as char)
}

/// Whether the text is a valid room code.
pub open spec fn is_code_text(text: Seq<char>) -> bool {
    text.len() == 4 && forall|i: int| 0 <= i < 4 ==> 'A' <= #[trigger] text[i] <= 'Z'
}

/// A human-readable unique identifier for rooms within the lobby.
///
/// The current format is four ASCII characters, from 'A' to 'Z'.
#[derive(Debug, Clone, Copy, PartialEq, Eq)]
pub struct RoomCode {
    bytes: [u8; 4],
}

/// A list of reasons why a room code might be invalid.
#[derive(Debug, Clone, Copy, PartialEq, Eq, Structural)]
pub enum RoomCodeError {
    /// The room code contains invalid characters.
    InvalidCharacters,
    /// The room code is the wrong length.
    InvalidLength,
}

impl View for RoomCode {
    type V = Seq<u8>;

    closed spec fn view(&self) -> Seq<u8> {
        self.bytes@
    }
}

impl RoomCode {
    #[verifier::type_invariant]
    spec fn well_formed(self) -> bool {
        is_code(self@)
    }

    /// The room code that consists of the given four bytes.
    pub closed spec fn with_bytes(bytes: Seq<u8>) -> RoomCode {
        RoomCode { bytes: [bytes[0], bytes[1], bytes[2], bytes[3]] }
    }

    /// The room code that the given bytes make up, or what is wrong with them.
    pub open spec fn from_bytes(bytes: Seq<u8>) -> Result<RoomCode, RoomCodeError> {
        if bytes.len() != 4 {
            Err(RoomCodeError::InvalidLength)
        } else if is_code(bytes) {
            Ok(RoomCode::with_bytes(bytes))
        } else {
            Err(RoomCodeError::InvalidCharacters)
        }
    }

    /// Two room codes with the same bytes are the same room code.
    pub proof fn lemma_same_bytes(a: RoomCode, b: RoomCode)
        requires
            a@ == b@,
        ensures
            a == b,
    {
        assert(a.bytes =~= b.bytes);
    }

    /// The room code with the given four bytes holds those bytes.
    pub proof fn lemma_with_bytes(bytes: Seq<u8>)
        requires
            bytes.len() == 4,
        ensures
            RoomCode::with_bytes(bytes)@ == bytes,
    {
        assert(RoomCode::with_bytes(bytes)@ =~= bytes);
    }

    /// Every room code is valid.
    pub(crate) fn check(&self)
        ensures
            is_code(self@),
    {
        proof {
            use_type_invariant(self);
        }
    }

    /// Generate a random, valid room code.
    pub fn random() -> (code: RoomCode)
        ensures
            is_code(code@),
    {
        Self::from_letters(
            [random_u8(65, 91), random_u8(65, 91), random_u8(65, 91), random_u8(65, 91)],
        )
    }

    /// The room code that consists of the given four letters.
    pub fn from_letters(letters: [u8; 4]) -> (code: RoomCode)
        requires
            is_code(letters@),
        ensures
            code@ == letters@,
    {
        RoomCode { bytes: letters }
    }

    /// Check if the given sequence of `bytes` would make a valid room code.
    pub fn valid_bytes(bytes: [u8; 4]) -> (valid: bool)
        ensures
            valid == is_code(bytes@),
    {
        for i in 0..4usize
            invariant
                forall|j: int| 0 <= j < i ==> is_code_letter(#[trigger] bytes@[j]),
        {
            if bytes[i] < 65 || bytes[i] > 90 {
                assert(!is_code_letter(bytes@[i as int]));
                return false;
            }
        }
        true
    }

    /// Check if the current room code is valid, which it always is.
    pub fn is_valid(&self) -> (valid: bool)
        ensures
            valid == is_code(self@),
            valid,
    {
        proof {
            use_type_invariant(self);
        }
        Self::valid_bytes(self.bytes)
    }

    /// Check if the room code is considered profanity.
    ///
    /// This should be used to make sure that lobbies are not given lobby codes
    /// with profanity. The list is in order, so a binary search finds the code.
    pub fn is_profanity(&self, list: &ProfanityList) -> (profane: bool)
        ensures
            profane == list@.contains(self@),
    {
        let mut left: usize = 0;
        let mut right: usize = list.get_profanity_len();
        while left < right
            invariant
                0 <= left <= right <= list@.len(),
                list.valid(),
                self@.len() == 4,
                forall|i: int|
                    0 <= i < left ==> code_value(#[trigger] list@[i]) < code_value(self@),
                forall|i: int|
                    right <= i < list@.len() ==> code_value(#[trigger] list@[i]) > code_value(
                        self@,
                    ),
            decreases right - left,
        {
            let middle: usize = left + (right - left) / 2;
            let order: i8 = Self::compare_to_profanity(self, list, middle);
            if order < 0 {
                right = middle;
            } else if order > 0 {
                left = middle + 1;
            } else {
                return true;
            }
        }
        false
    }

    /// Compare the given lobby code to the profanity at the given `index`.
    /// Returns `-1` if less than, `0` if equal, and `1` if greater than.
    pub fn compare_to_profanity(code: &RoomCode, list: &ProfanityList, index: usize) -> (order: i8)
        requires
            index < list@.len(),
        ensures
            order == -1 <==> code_value(code@) < code_value(list@[index as int]),
            order == 0 <==> code@ == list@[index as int],
            order == 0 <==> code_value(code@) == code_value(list@[index as int]),
            order == 1 <==> code_value(code@) > code_value(list@[index as int]),
            -1 <= order <= 1,
    {
        let profanity: [u8; 4] = list.get_profanity_at(index);
        for i in 0..4usize
            invariant
                profanity@ == list@[index as int],
                forall|j: int| 0 <= j < i ==> code.bytes@[j] == profanity@[j],
        {
            if code.bytes[i] < profanity[i] {
                return -1;
            } else if code.bytes[i] > profanity[i] {
                return 1;
            }
        }
        assert(code@ =~= profanity@);
        0
    }

    /// The room code at the given `index`, if all room codes were sorted.
    pub(crate) fn nth(index: u32) -> (code: RoomCode)
        requires
            index < 456_976,
        ensures
            is_code(code@),
            code_value(code@) == nth_code_value(index as int),
    {
        RoomCode {
            bytes: [
                (65 + index / 17_576) as u8,
                (65 + index / 676 % 26) as u8,
                (65 + index / 26 % 26) as u8,
                (65 + index % 26) as u8,
            ],
        }
    }

    /// Append the room code to `text`.
    pub fn push_text(&self, text: &mut String)
        ensures
            final(text)@ == old(text)@ + code_text(self@),
    {
        text.push(self.bytes[0] as char);
        text.push(self.bytes[1] as char);
        text.push(self.bytes[2] as char);
        text.push(self.bytes[3] as char);
        assert(text@ =~= old(text)@ + code_text(self@));
    }

    /// The room code as text.
    pub fn to_text(&self) -> (text: String)
        ensures
            text@ == code_text(self@),
    {
        let mut text = String::new();
        self.push_text(&mut text);
        assert(text@ =~= code_text(self@));
        text
    }
}

/// The number that stands for the room code at the given `index`, if all room
/// codes were sorted.
pub open spec fn nth_code_value(index: int) -> int {
    16_777_216 * (65 + index / 17_576) + 65_536 * (65 + index / 676 % 26) + 256 * (65 + index / 26
        % 26) + (65 + index % 26)
}

/// The room code at the given `index`, if all room codes were sorted.
pub open spec fn nth_code(index: int) -> Seq<u8> {
    seq![
        (65 + index / 17_576) as u8,
        (65 + index / 676 % 26) as u8,
        (65 + index / 26 % 26) as u8,
        (65 + index % 26) as u8,
    ]
}

/// There is a valid room code at every index.
pub proof fn lemma_nth_code(index: int)
    requires
        0 <= index < 456_976,
    ensures
        is_code(nth_code(index)),
        code_value(nth_code(index)) == nth_code_value(index),
        0 <= nth_code_value(index) <= u32::MAX,
{
    lemma_nth_code_letters(index);
}

/// The letters of the room code at the given `index` determine the index.
proof fn lemma_nth_code_letters(index: int)
    requires
        0 <= index < 456_976,
    ensures
        0 <= index / 17_576 < 26,
        index == 17_576 * (index / 17_576) + 676 * (index / 676 % 26) + 26 * (index / 26 % 26)
            + index % 26,
{
    assert(index / 676 == index / 26 / 26);
    assert(index / 17_576 == index / 26 / 26 / 26);
}

/// The room codes are in ascending order.
pub proof fn lemma_nth_code_ascending(a: int, b: int)
    requires
        0 <= a < b < 456_976,
    ensures
        nth_code_value(a) < nth_code_value(b),
{
    lemma_nth_code_letters(a);
    lemma_nth_code_letters(b);
    let (a0, a1, a2, a3) = (a % 26, a / 26 % 26, a / 676 % 26, a / 17_576);
    let (b0, b1, b2, b3) = (b % 26, b / 26 % 26, b / 676 % 26, b / 17_576);
    lemma_letters_ascending(a0, a1, a2, a3, b0, b1, b2, b3);
}

/// Four letters that come later in the alphabet also make a larger number.
proof fn lemma_letters_ascending(
    a0: int,
    a1: int,
    a2: int,
    a3: int,
    b0: int,
    b1: int,
    b2: int,
    b3: int,
)
    requires
        0 <= a0 < 26 && 0 <= a1 < 26 && 0 <= a2 < 26 && 0 <= a3 < 26,
        0 <= b0 < 26 && 0 <= b1 < 26 && 0 <= b2 < 26 && 0 <= b3 < 26,
        17_576 * a3 + 676 * a2 + 26 * a1 + a0 < 17_576 * b3 + 676 * b2 + 26 * b1 + b0,
    ensures
        16_777_216 * (65 + a3) + 65_536 * (65 + a2) + 256 * (65 + a1) + (65 + a0) < 16_777_216 * (65
            + b3) + 65_536 * (65 + b2) + 256 * (65 + b1) + (65 + b0),
{
    assert(a3 <= b3);
    if a3 == b3 {
        assert(a2 <= b2);
        if a2 == b2 {
            assert(a1 <= b1);
        }
    }
}

impl Default for RoomCode {
    fn default() -> (code: Self)
        ensures
            code@ == seq![65u8, 65u8, 65u8, 65u8],
    {
        let code = RoomCode { bytes: [65, 65, 65, 65] };
        assert(code@ =~= seq![65u8, 65u8, 65u8, 65u8]);
        code
    }
}

impl TryFrom<u32> for RoomCode {
    type Error = RoomCodeError;

    fn try_from(value: u32) -> (code: Result<Self, RoomCodeError>) {
        let bytes: [u8; 4] = [
            (value / 16_777_216) as u8,
            (value / 65_536 % 256) as u8,
            (value / 256 % 256) as u8,
            (value % 256) as u8,
        ];
        assert(bytes@ =~= value_bytes(value));
        if Self::valid_bytes(bytes) {
            let code = RoomCode { bytes };
            proof {
                RoomCode::lemma_with_bytes(bytes@);
                RoomCode::lemma_same_bytes(code, RoomCode::with_bytes(bytes@));
            }
            Ok(code)
        } else {
            Err(RoomCodeError::InvalidCharacters)
        }
    }
}

impl TryFromSpecImpl<u32> for RoomCode {
    open spec fn obeys_try_from_spec() -> bool {
        true
    }

    open spec fn try_from_spec(value: u32) -> Result<Self, RoomCodeError> {
        RoomCode::from_bytes(value_bytes(value))
    }
}

impl From<RoomCode> for u32 {
    fn from(value: RoomCode) -> (number: Self) {
        16_777_216 * value.bytes[0] as u32 + 65_536 * value.bytes[1] as u32 + 256
            * value.bytes[2] as u32 + value.bytes[3] as u32
    }
}

impl FromSpecImpl<RoomCode> for u32 {
    open spec fn obeys_from_spec() -> bool {
        true
    }

    open spec fn from_spec(value: RoomCode) -> u32 {
        code_value(value@) as u32
    }
}

impl TryFrom<&str> for RoomCode {
    type Error = RoomCodeError;

    fn try_from(value: &str) -> (code: Result<Self, RoomCodeError>) {
        let bytes = value.as_bytes();
        if bytes.len() != 4 {
            return Err(RoomCodeError::InvalidLength);
        }
        let fixed_length: [u8; 4] = [bytes[0], bytes[1], bytes[2], bytes[3]];
        assert(fixed_length@ =~= bytes@);
        if Self::valid_bytes(fixed_length) {
            let code = RoomCode { bytes: fixed_length };
            proof {
                RoomCode::lemma_with_bytes(bytes@);
                RoomCode::lemma_same_bytes(code, RoomCode::with_bytes(bytes@));
            }
            Ok(code)
        } else {
            Err(RoomCodeError::InvalidCharacters)
        }
    }
}

impl TryFromSpecImpl<&str> for RoomCode {
    open spec fn obeys_try_from_spec() -> bool {
        true
    }

    open spec fn try_from_spec(value: &str) -> Result<Self, RoomCodeError> {
        RoomCode::from_bytes(encode_utf8(value@))
    }
}

impl TryFrom<String> for RoomCode {
    type Error = RoomCodeError;

    fn try_from(value: String) -> (code: Result<Self, RoomCodeError>) {
        RoomCode::try_from(value.as_str())
    }
}

impl TryFromSpecImpl<String> for RoomCode {
    open spec fn obeys_try_from_spec() -> bool {
        true
    }

    open spec fn try_from_spec(value: String) -> Result<Self, RoomCodeError> {
        RoomCode::from_bytes(encode_utf8(value@))
    }
}

impl From<&RoomCode> for String {
    fn from(value: &RoomCode) -> (text: Self)
        ensures
            text@ == code_text(value@),
    {
        value.to_text()
    }
}

impl FromSpecImpl<&RoomCode> for String {
    open spec fn obeys_from_spec() -> bool {
        false
    }

    open spec fn from_spec(value: &RoomCode) -> String {
        arbitrary()
    }
}

impl From<RoomCode> for String {
    fn from(value: RoomCode) -> (text: Self)
        ensures
            text@ == code_text(value@),
    {
        value.to_text()
    }
}

impl FromSpecImpl<RoomCode> for String {
    open spec fn obeys_from_spec() -> bool {
        false
    }

    open spec fn from_spec(value: RoomCode) -> String {
        arbitrary()
    }
}

/// A number that is put together from four bytes can be taken apart again.
proof fn lemma_bytes_of_value(value: int, a: int, b: int, c: int, d: int)
    requires
        0 <= a < 256 && 0 <= b < 256 && 0 <= c < 256 && 0 <= d < 256,
        value == 16_777_216 * a + 65_536 * b + 256 * c + d,
    ensures
        value / 16_777_216 == a,
        value / 65_536 % 256 == b,
        value / 256 % 256 == c,
        value % 256 == d,
{
    assert(value / 16_777_216 == a);
    assert(value / 65_536 == 256 * a + b);
    assert(value / 256 == 65_536 * a + 256 * b + c);
    assert((256 * a + b) % 256 == b);
    assert((65_536 * a + 256 * b + c) % 256 == c);
}

/// A number that is taken apart into four bytes can be put together again.
proof fn lemma_value_of_bytes(value: int)
    requires
        0 <= value <= u32::MAX,
    ensures
        0 <= value / 16_777_216 < 256,
        value == 16_777_216 * (value / 16_777_216) + 65_536 * (value / 65_536 % 256) + 256 * (value
            / 256 % 256) + value % 256,
{
    assert(value / 65_536 == value / 256 / 256);
    assert(value / 16_777_216 == value / 256 / 256 / 256);
}

/// The bytes of the number that four bytes make up are those bytes.
pub proof fn lemma_value_bytes_of_value(bytes: Seq<u8>)
    requires
        bytes.len() == 4,
    ensures
        0 <= code_value(bytes) <= u32::MAX,
        value_bytes(code_value(bytes) as u32) == bytes,
{
    lemma_bytes_of_value(
        code_value(bytes),
        bytes[0] as int,
        bytes[1] as int,
        bytes[2] as int,
        bytes[3] as int,
    );
    assert(value_bytes(code_value(bytes) as u32) =~= bytes);
}

/// The number that the bytes of a number make up is that number.
pub proof fn lemma_value_of_value_bytes(value: u32)
    ensures
        code_value(value_bytes(value)) == value,
{
    lemma_value_of_bytes(value as int);
}

/// Converting a room code to a number, and back again, gives the same code.
pub proof fn law_number_of_code_converts_back(code: RoomCode)
    requires
        is_code(code@),
    ensures
        0 <= code_value(code@) <= u32::MAX,
        RoomCode::from_bytes(value_bytes(code_value(code@) as u32)) == Ok::<
            RoomCode,
            RoomCodeError,
        >(code),
{
    let bytes = code@;
    lemma_value_bytes_of_value(bytes);
    RoomCode::lemma_with_bytes(bytes);
    RoomCode::lemma_same_bytes(code, RoomCode::with_bytes(bytes));
}

/// If a number converts to a room code, then the code converts back to the
/// same number.
pub proof fn law_code_of_number_converts_back(value: u32)
    ensures
        match RoomCode::from_bytes(value_bytes(value)) {
            Ok(code) => is_code(code@) && code_value(code@) == value,
            Err(error) => error == RoomCodeError::InvalidCharacters,
        },
{
    lemma_value_of_bytes(value as int);
    RoomCode::lemma_with_bytes(value_bytes(value));
}

/// Different room codes have different numbers.
pub proof fn law_numbers_identify_codes(a: RoomCode, b: RoomCode)
    requires
        is_code(a@),
        is_code(b@),
        code_value(a@) == code_value(b@),
    ensures
        a == b,
{
    law_number_of_code_converts_back(a);
    law_number_of_code_converts_back(b);
}

/// The bytes of the text of a room code are the bytes of the code.
proof fn lemma_code_text_bytes(bytes: Seq<u8>)
    requires
        is_code(bytes),
    ensures
        is_code_text(code_text(bytes)),
        encode_utf8(code_text(bytes)) == bytes,
{
    let text = code_text(bytes);
    assert forall|i: int| 0 <= i < text.len() implies '\0' <= #[trigger] text[i] <= '\u{7f}' by {
        assert(is_code_letter(bytes[i]));
    }
    assert forall|i: int| 0 <= i < 4 implies 'A' <= #[trigger] text[i] <= 'Z' by {
        assert(is_code_letter(bytes[i]));
    }
    is_ascii_chars_encode_utf8(text);
    assert(encode_utf8(text) =~= bytes);
}

/// Converting a room code to text, and back again, gives the same code.
pub proof fn law_text_of_code_converts_back(code: RoomCode)
    requires
        is_code(code@),
    ensures
        RoomCode::from_bytes(encode_utf8(code_text(code@))) == Ok::<RoomCode, RoomCodeError>(code),
{
    lemma_code_text_bytes(code@);
    RoomCode::lemma_with_bytes(code@);
    RoomCode::lemma_same_bytes(code, RoomCode::with_bytes(code@));
}

/// Text converts to a room code exactly if it consists of four characters from
/// 'A' to 'Z', and the code then converts back to the same text.
pub proof fn law_code_of_text_converts_back(text: Seq<char>)
    ensures
        RoomCode::from_bytes(encode_utf8(text)) is Ok <==> is_code_text(text),
        RoomCode::from_bytes(encode_utf8(text)) matches Ok(code) ==> is_code(code@) && code_text(
            code@,
        ) == text,
{
    let bytes = encode_utf8(text);
    if is_code_text(text) {
        assert forall|i: int| 0 <= i < text.len() implies '\0' <= #[trigger] text[i]
            <= '\u{7f}' by {}
        is_ascii_chars_encode_utf8(text);
        assert forall|i: int| 0 <= i < 4 implies is_code_letter(#[trigger] bytes[i]) by {
            assert('A' <= text[i] <= 'Z');
        }
    }
    if is_code(bytes) {
        lemma_code_text_bytes(bytes);
        encode_utf8_decode_utf8(text);
        encode_utf8_decode_utf8(code_text(bytes));
        RoomCode::lemma_with_bytes(bytes);
    }
}

} // verus!
