//! What is promised of room codes, of the codes that must not be used, and of the
//! codes with which connections are closed.

use crate::close_code::{CloseCode, CustomCloseCode};
use crate::identifiers;
use crate::profanity;
use crate::profanity::{ProfanityList, ProfanityListError};
use crate::room_code;
use crate::room_code::{RoomCode, RoomCodeError};
use crate::text;
use nohash_hasher::IntMap;
use vstd::prelude::*;
use vstd::utf8::*;

verus! {

/// Whether the bytes are four letters from 'A' to 'Z'.
pub open spec fn four_letters(bytes: Seq<u8>) -> bool {
    bytes.len() == 4 && 65 <= bytes[0] <= 90 && 65 <= bytes[1] <= 90 && 65 <= bytes[2] <= 90 && 65
        <= bytes[3] <= 90
}

/// The number that four bytes make up, with the first one as the most significant.
pub open spec fn number_of_bytes(bytes: Seq<u8>) -> int {
    16_777_216 * bytes[0] + 65_536 * bytes[1] + 256 * bytes[2] + bytes[3]
}

proof fn lemma_four_letters(bytes: Seq<u8>)
    ensures
        room_code::is_code(bytes) <==> four_letters(bytes),
        room_code::code_value(bytes) == number_of_bytes(bytes),
{
    if room_code::is_code(bytes) {
        assert(room_code::is_code_letter(bytes[0]) && room_code::is_code_letter(bytes[1])
            && room_code::is_code_letter(bytes[2]) && room_code::is_code_letter(bytes[3]));
    }
    if four_letters(bytes) {
        assert forall|i: int| 0 <= i < 4 implies room_code::is_code_letter(#[trigger] bytes[i]) by {
            assert(i == 0 || i == 1 || i == 2 || i == 3);
        }
    }
}

/// Text is a room code exactly if it consists of four letters from 'A' to 'Z'. The
/// length is that of the encoded text, and is looked at first.
pub proof fn law_codes_are_read_from_text(value: &str, code: Result<RoomCode, RoomCodeError>)
    requires
        call_ensures(<RoomCode as TryFrom<&str>>::try_from, (value,), code),
    ensures
        code matches Ok(code) ==> four_letters(code@) && value@ == seq![
            code@[0] as char,
            code@[1] as char,
            code@[2] as char,
            code@[3] as char,
        ],
        code is Ok <==> value@.len() == 4 && 'A' <= value@[0] <= 'Z' && 'A' <= value@[1] <= 'Z'
            && 'A' <= value@[2] <= 'Z' && 'A' <= value@[3] <= 'Z',
        code == Err::<RoomCode, RoomCodeError>(RoomCodeError::InvalidLength) <==> encode_utf8(
            value@,
        ).len() != 4,
{
    room_code::law_code_of_text_converts_back(value@);
    if let Ok(code) = code {
        lemma_four_letters(code@);
        assert(value@ =~= seq![
            code@[0] as char,
            code@[1] as char,
            code@[2] as char,
            code@[3] as char,
        ]);
    }
}

/// A number is a room code exactly if its four bytes are letters from 'A' to 'Z',
/// which are those of the code.
pub proof fn law_codes_are_read_from_numbers(value: u32, code: Result<RoomCode, RoomCodeError>)
    requires
        call_ensures(<RoomCode as TryFrom<u32>>::try_from, (value,), code),
    ensures
        code matches Ok(code) ==> four_letters(code@) && number_of_bytes(code@) == value,
        code matches Err(error) ==> error == RoomCodeError::InvalidCharacters && forall|
            bytes: Seq<u8>,
        |
            #[trigger] four_letters(bytes) ==> number_of_bytes(bytes) != value,
{
    room_code::law_code_of_number_converts_back(value);
    match code {
        Ok(code) => {
            lemma_four_letters(code@);
        },
        Err(_) => {
            assert forall|bytes: Seq<u8>| #[trigger] four_letters(bytes) implies number_of_bytes(
                bytes,
            ) != value by {
                lemma_four_letters(bytes);
                room_code::lemma_value_bytes_of_value(bytes);
            }
        },
    }
}

/// The number of a room code is the one that its letters make up.
pub proof fn law_codes_are_numbers(code: RoomCode, number: u32)
    requires
        code@.len() == 4,
        call_ensures(<u32 as From<RoomCode>>::from, (code,), number),
    ensures
        number == number_of_bytes(code@),
{
    room_code::lemma_value_bytes_of_value(code@);
}

/// Four bytes are valid exactly if they are four letters from 'A' to 'Z', and a
/// code that is made of them consists of them.
pub proof fn law_codes_consist_of_letters(
    bytes: [u8; 4],
    valid: bool,
    code: RoomCode,
    random: RoomCode,
    first: RoomCode,
)
    requires
        call_ensures(RoomCode::valid_bytes, (bytes,), valid),
        call_ensures(RoomCode::from_letters, (bytes,), code),
        call_ensures(RoomCode::random, (), random),
        call_ensures(<RoomCode as Default>::default, (), first),
    ensures
        valid <==> four_letters(bytes@),
        four_letters(bytes@) ==> code@ == bytes@,
        four_letters(random@),
        first@ == seq![65u8, 65u8, 65u8, 65u8],
{
    lemma_four_letters(bytes@);
    lemma_four_letters(random@);
}

/// A room code is considered profanity exactly if it is in the list.
pub proof fn law_profanity_is_found(code: RoomCode, list: ProfanityList, profane: bool)
    requires
        call_ensures(RoomCode::is_profanity, (&code, &list), profane),
    ensures
        profane <==> exists|i: int| 0 <= i < list@.len() && list@[i] == code@,
{
}

/// A room code comes before an entry of the list if the first letter in which they
/// differ does.
pub proof fn law_codes_are_in_order(
    code: RoomCode,
    list: ProfanityList,
    index: usize,
    k: int,
    order: i8,
)
    requires
        index < list@.len(),
        code@.len() == 4,
        list@[index as int].len() == 4,
        0 <= k < 4,
        forall|j: int| 0 <= j < k ==> code@[j] == list@[index as int][j],
        call_ensures(RoomCode::compare_to_profanity, (&code, &list, index), order),
    ensures
        code@[k] < list@[index as int][k] ==> order == -1,
        code@[k] > list@[index as int][k] ==> order == 1,
        code@ == list@[index as int] <==> order == 0,
{
    let entry = list@[index as int];
    assert(k == 0 || k == 1 || k == 2 || k == 3);
    assert(k > 0 ==> code@[0] == entry[0]);
    assert(k > 1 ==> code@[1] == entry[1]);
    assert(k > 2 ==> code@[2] == entry[2]);
}

/// The number of the entry at the given index in the contents of a profanity file,
/// in which every entry takes up five bytes.
pub open spec fn entry_number(bytes: Seq<u8>, i: int) -> int {
    16_777_216 * bytes[5 * i] + 65_536 * bytes[5 * i + 1] + 256 * bytes[5 * i + 2] + bytes[5 * i
        + 3]
}

/// The contents of a profanity file can be used exactly if there is an entry in it,
/// and if the entries are sorted. The list then holds the entries in order.
pub proof fn law_profanity_lists_are_read(
    bytes: Vec<u8>,
    list: Result<ProfanityList, ProfanityListError>,
    i: int,
)
    requires
        call_ensures(ProfanityList::new, (bytes,), list),
    ensures
        list == Err::<ProfanityList, ProfanityListError>(ProfanityListError::Empty)
            <==> bytes@.len() < 5,
        list is Ok <==> bytes@.len() >= 5 && forall|a: int, b: int|
            0 <= a <= b < bytes@.len() / 5 ==> #[trigger] entry_number(bytes@, a)
                <= #[trigger] entry_number(bytes@, b),
        list matches Ok(list) ==> list@.len() == bytes@.len() / 5 && (0 <= i < list@.len()
            ==> list@[i] == seq![
            bytes@[5 * i],
            bytes@[5 * i + 1],
            bytes@[5 * i + 2],
            bytes@[5 * i + 3],
        ]),
{
    let entries = profanity::profanity_entries(bytes@);
    assert forall|a: int| 0 <= a < entries.len() implies room_code::code_value(
        #[trigger] entries[a],
    ) == entry_number(bytes@, a) by {}
    if profanity::is_sorted_list(entries) {
        assert forall|a: int, b: int| 0 <= a <= b < bytes@.len() / 5 implies
            #[trigger] entry_number(bytes@, a) <= #[trigger] entry_number(bytes@, b) by {
            assert(room_code::code_value(entries[a]) <= room_code::code_value(entries[b]));
        }
    }
    if forall|a: int, b: int|
        0 <= a <= b < bytes@.len() / 5 ==> #[trigger] entry_number(bytes@, a)
            <= #[trigger] entry_number(bytes@, b) {
        assert forall|a: int, b: int| 0 <= a <= b < entries.len() implies room_code::code_value(
            #[trigger] entries[a],
        ) <= room_code::code_value(#[trigger] entries[b]) by {
            assert(entry_number(bytes@, a) <= entry_number(bytes@, b));
        }
    }
    if 0 <= i < entries.len() {
        assert(entries[i] =~= seq![
            bytes@[5 * i],
            bytes@[5 * i + 1],
            bytes@[5 * i + 2],
            bytes@[5 * i + 3],
        ]);
    }
}

/// The entries of a list can be asked for.
pub proof fn law_profanity_is_listed(
    list: ProfanityList,
    index: usize,
    entry: [u8; 4],
    len: usize,
    count: usize,
)
    requires
        index < list@.len(),
        call_ensures(ProfanityList::get_profanity_at, (&list, index), entry),
        call_ensures(ProfanityList::get_profanity_len, (&list,), len),
        call_ensures(ProfanityList::count_codes, (&list,), count),
    ensures
        entry@ == list@[index as int],
        len == list@.len(),
        count == profanity::profane_numbers(list@).len(),
{
}

/// The numbers that must not be used are those of the entries that consist of four
/// letters from 'A' to 'Z'.
pub proof fn law_profane_numbers_are_listed(list: Seq<Seq<u8>>, entry: Seq<u8>, number: u32)
    ensures
        list.contains(entry) && four_letters(entry) ==> profanity::profane_numbers(list).contains(
            number_of_bytes(entry) as u32,
        ),
        profanity::profane_numbers(list).contains(number) ==> exists|i: int|
            {
                &&& 0 <= i < list.len()
                &&& four_letters(#[trigger] list[i])
                &&& number_of_bytes(list[i]) == number
            },
{
    lemma_four_letters(entry);
    if list.contains(entry) && four_letters(entry) {
        room_code::lemma_value_bytes_of_value(entry);
    }
    if profanity::profane_numbers(list).contains(number) {
        let bytes = room_code::value_bytes(number);
        let i = choose|i: int| 0 <= i < list.len() && list[i] == bytes;
        lemma_four_letters(bytes);
        room_code::lemma_value_of_value_bytes(number);
        assert(four_letters(list[i]) && number_of_bytes(list[i]) == number);
    }
}

/// An identifier that is chosen is not in use, and a room code that is chosen is
/// not considered profanity either.
pub proof fn law_chosen_identifiers_are_free<V>(
    map: IntMap<u32, V>,
    start: u32,
    id: u32,
    list: ProfanityList,
    code: RoomCode,
)
    requires
        call_ensures(identifiers::unused_id::<V>, (&map, start), id),
        call_ensures(identifiers::unused_room_code::<V>, (&map, &list), code),
    ensures
        id >= start,
        !map@.contains_key(id),
        four_letters(code@),
        !map@.contains_key(number_of_bytes(code@) as u32),
        !list@.contains(code@),
{
    lemma_four_letters(code@);
}

/// Every close code has its number, which is the one that the WebSocket protocol
/// gives to it.
pub proof fn law_close_codes_have_numbers(code: CloseCode, number: u16)
    requires
        call_ensures(CloseCode::number, (&code,), number),
    ensures
        number == match code {
            CloseCode::Normal => 1000,
            CloseCode::Away => 1001,
            CloseCode::Protocol => 1002,
            CloseCode::Unsupported => 1003,
            CloseCode::Status => 1005,
            CloseCode::Abnormal => 1006,
            CloseCode::Invalid => 1007,
            CloseCode::Policy => 1008,
            CloseCode::Size => 1009,
            CloseCode::Extension => 1010,
            CloseCode::Error => 1011,
            CloseCode::Restart => 1012,
            CloseCode::Again => 1013,
            CloseCode::Tls => 1015,
            CloseCode::Reserved(number) => number,
            CloseCode::Iana(number) => number,
            CloseCode::Library(number) => number,
            CloseCode::Bad(number) => number,
        },
{
}

/// A custom code and its number stand for each other, within a close frame as well
/// as by themselves. The numbers are those from 4000 to 4018.
pub proof fn law_custom_codes_have_numbers(
    custom: CustomCloseCode,
    number: u16,
    code: CloseCode,
    value: u16,
    of_number: Result<CustomCloseCode, ()>,
    frame: CloseCode,
    of_frame: Result<CustomCloseCode, ()>,
)
    requires
        call_ensures(<u16 as From<CustomCloseCode>>::from, (custom,), number),
        call_ensures(<CloseCode as From<CustomCloseCode>>::from, (custom,), code),
        call_ensures(<CustomCloseCode as TryFrom<u16>>::try_from, (value,), of_number),
        call_ensures(<CustomCloseCode as TryFrom<CloseCode>>::try_from, (frame,), of_frame),
    ensures
        4000 <= number <= 4018,
        code == CloseCode::Library(number),
        of_number is Ok <==> 4000 <= value <= 4018,
        of_number == Ok::<CustomCloseCode, ()>(custom) <==> value == number,
        of_frame == Ok::<CustomCloseCode, ()>(custom) <==> frame == code,
        of_frame is Ok <==> (frame matches CloseCode::Library(n) && 4000 <= n <= 4018),
{
}

/// Owned text is read as a room code just like borrowed text.
pub proof fn law_codes_are_read_from_owned_text(
    value: String,
    code: Result<RoomCode, RoomCodeError>,
    borrowed: &str,
    same_code: Result<RoomCode, RoomCodeError>,
)
    requires
        borrowed@ == value@,
        call_ensures(<RoomCode as TryFrom<String>>::try_from, (value,), code),
        call_ensures(<RoomCode as TryFrom<&str>>::try_from, (borrowed,), same_code),
    ensures
        code == same_code,
{
}

/// A room code is valid, and is written as its four letters, in every way in which it
/// can be written.
pub proof fn law_codes_are_written(
    code: RoomCode,
    valid: bool,
    text: &mut String,
    owned: String,
    borrowed: String,
)
    requires
        call_ensures(RoomCode::is_valid, (&code,), valid),
        call_ensures(RoomCode::push_text, (&code, text), ()),
        call_ensures(<String as From<RoomCode>>::from, (code,), owned),
        call_ensures(<String as From<&RoomCode>>::from, (&code,), borrowed),
    ensures
        valid,
        four_letters(code@),
        final(text)@ == old(text)@ + seq![
            code@[0] as char,
            code@[1] as char,
            code@[2] as char,
            code@[3] as char,
        ],
        owned@ == seq![code@[0] as char, code@[1] as char, code@[2] as char, code@[3] as char],
        borrowed@ == owned@,
{
    lemma_four_letters(code@);
    assert(room_code::code_text(code@) =~= seq![
        code@[0] as char,
        code@[1] as char,
        code@[2] as char,
        code@[3] as char,
    ]);
}

/// A close code is written as its number.
pub proof fn law_close_codes_are_written(code: CloseCode, number: u16, text: &mut String)
    requires
        call_ensures(CloseCode::number, (&code,), number),
        call_ensures(CloseCode::push_text, (&code, text), ()),
    ensures
        final(text)@ == old(text)@ + text::decimal(number as nat),
{
}

} // verus!
