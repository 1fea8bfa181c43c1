//! The list of room codes that must not be given to a room.

use crate::room_code;
use crate::room_code::RoomCode;
use vstd::prelude::*;

verus! {

/// The entries in the contents of a profanity file: every entry takes up five
/// bytes, four for the room code and one for the end of the line.
pub open spec fn profanity_entries(bytes: Seq<u8>) -> Seq<Seq<u8>> {
    Seq::new(bytes.len() / 5, |i: int| bytes.subrange(5 * i, 5 * i + 4))
}

/// Whether the entries are in ascending order.
pub open spec fn is_sorted_list(entries: Seq<Seq<u8>>) -> bool {
    forall|i: int, j: int|
        0 <= i <= j < entries.len() ==> room_code::code_value(#[trigger] entries[i]) <= room_code::code_value(
            #[trigger] entries[j],
        )
}

/// A sorted list of room codes that are considered profanity.
#[derive(Debug)]
pub struct ProfanityList {
    bytes: Vec<u8>,
}

/// The reasons why the contents of a profanity file might not be usable.
#[derive(Debug, Clone, Copy, PartialEq, Eq, Structural)]
pub enum ProfanityListError {
    /// The file has no entries.
    Empty,
    /// The entries are not in ascending order.
    NotSorted,
}

impl View for ProfanityList {
    type V = Seq<Seq<u8>>;

    closed spec fn view(&self) -> Seq<Seq<u8>> {
        profanity_entries(self.bytes@)
    }
}

impl ProfanityList {
    /// Whether the list has at least one entry, all of them of four bytes, and is
    /// sorted.
    pub open spec fn valid(self) -> bool {
        &&& 0 < self@.len()
        &&& forall|i: int| 0 <= i < self@.len() ==> (#[trigger] self@[i]).len() == 4
        &&& is_sorted_list(self@)
    }

    #[verifier::type_invariant]
    spec fn well_formed(self) -> bool {
        self.valid()
    }

    /// Read a profanity list from the contents of a profanity file.
    pub fn new(bytes: Vec<u8>) -> (list: Result<ProfanityList, ProfanityListError>)
        ensures
            match list {
                Ok(list) => list@ == profanity_entries(bytes@) && list.valid(),
                Err(ProfanityListError::Empty) => profanity_entries(bytes@).len() == 0,
                Err(ProfanityListError::NotSorted) => {
                    &&& 0 < profanity_entries(bytes@).len()
                    &&& !is_sorted_list(profanity_entries(bytes@))
                },
            },
    {
        let len: usize = bytes.len() / 5;
        if len == 0 {
            return Err(ProfanityListError::Empty);
        }
        let ghost entries = profanity_entries(bytes@);
        for i in 1..len
            invariant
                len == bytes@.len() / 5,
                0 < len,
                entries == profanity_entries(bytes@),
                is_sorted_list(entries.take(i as int)),
        {
            let previous: u32 = Self::value_at(&bytes, i - 1);
            let current: u32 = Self::value_at(&bytes, i);
            if previous > current {
                assert(room_code::code_value(entries[i - 1]) > room_code::code_value(entries[i as int]));
                return Err(ProfanityListError::NotSorted);
            }
            assert(is_sorted_list(entries.take(i + 1))) by {
                assert forall|a: int, b: int| 0 <= a <= b < i + 1 implies room_code::code_value(
                    #[trigger] entries.take(i + 1)[a],
                ) <= room_code::code_value(#[trigger] entries.take(i + 1)[b]) by {
                    let shorter = entries.take(i as int);
                    assert(shorter[i - 1] == entries[i - 1]);
                    if a < i {
                        assert(shorter[a] == entries[a]);
                    }
                    if b < i {
                        assert(shorter[b] == entries[b]);
                    }
                }
            }
        }
        assert(entries.take(len as int) =~= entries);
        Ok(ProfanityList { bytes })
    }

    /// The value of the entry at `index`, as a number.
    fn value_at(bytes: &Vec<u8>, index: usize) -> (value: u32)
        requires
            index < bytes@.len() / 5,
        ensures
            value == room_code::code_value(profanity_entries(bytes@)[index as int]),
    {
        let total: usize = bytes.len();
        assert(5 * index + 5 <= total);
        let start: usize = 5 * index;
        16_777_216 * bytes[start] as u32 + 65_536 * bytes[start + 1] as u32 + 256 * bytes[start
            + 2] as u32 + bytes[start + 3] as u32
    }

    /// Get the profanity room code at the given `index`.
    pub fn get_profanity_at(&self, index: usize) -> (entry: [u8; 4])
        requires
            index < self@.len(),
        ensures
            entry@ == self@[index as int],
    {
        let total: usize = self.bytes.len();
        assert(5 * index + 5 <= total);
        let start: usize = 5 * index;
        let entry: [u8; 4] = [
            self.bytes[start],
            self.bytes[start + 1],
            self.bytes[start + 2],
            self.bytes[start + 3],
        ];
        assert(entry@ =~= self@[index as int]);
        entry
    }

    /// Get the total number of lobby codes that are considered profanity.
    pub fn get_profanity_len(&self) -> (len: usize)
        ensures
            len == self@.len(),
            self.valid(),
    {
        proof {
            use_type_invariant(self);
        }
        self.bytes.len() / 5
    }

    /// Count the room codes that are considered profanity. Entries that occur
    /// more than once are counted once, and those that are no valid room codes are
    /// not counted at all.
    pub fn count_codes(&self) -> (count: usize)
        ensures
            count == profane_numbers(self@).len(),
            profane_numbers(self@).finite(),
    {
        let len: usize = self.get_profanity_len();
        let ghost entries = self@;
        let mut count: usize = 0;
        assert(profane_numbers(entries.take(0)) =~= Set::<u32>::empty());
        for i in 0..len
            invariant
                len == self@.len(),
                entries == self@,
                self@ == profanity_entries(self.bytes@),
                is_sorted_list(entries),
                count <= i,
                profane_numbers(entries.take(i as int)).finite(),
                count == profane_numbers(entries.take(i as int)).len(),
        {
            let entry: [u8; 4] = self.get_profanity_at(i);
            let repeated = i > 0 && Self::value_at(&self.bytes, i - 1) == Self::value_at(
                &self.bytes,
                i,
            );
            proof {
                assert(entries.take(i + 1) =~= entries.take(i as int).push(entry@));
                lemma_profane_numbers_push(entries.take(i as int), entry@);
                lemma_repeated_entry(entries, i as int);
            }
            if RoomCode::valid_bytes(entry) && !repeated {
                count = count + 1;
            }
        }
        assert(entries.take(len as int) =~= entries);
        count
    }
}

/// The numbers of the valid room codes in the list.
pub open spec fn profane_numbers(list: Seq<Seq<u8>>) -> Set<u32> {
    Set::new(
        |number: u32|
            room_code::is_code(room_code::value_bytes(number)) && list.contains(
                room_code::value_bytes(number),
            ),
    )
}

/// An entry that is added to the list adds its number, if it is a valid room code.
proof fn lemma_profane_numbers_push(list: Seq<Seq<u8>>, entry: Seq<u8>)
    requires
        entry.len() == 4,
    ensures
        profane_numbers(list.push(entry)) == if room_code::is_code(entry) {
            profane_numbers(list).insert(room_code::code_value(entry) as u32)
        } else {
            profane_numbers(list)
        },
{
    let longer = list.push(entry);
    room_code::lemma_value_bytes_of_value(entry);
    assert forall|code: Seq<u8>| longer.contains(code) <==> list.contains(code) || code == entry by {
        if list.contains(code) {
            let i = choose|i: int| 0 <= i < list.len() && list[i] == code;
            assert(longer[i] == code);
        }
        assert(longer[list.len() as int] == entry);
    }
    assert forall|number: u32| room_code::value_bytes(number) == entry implies number
        == room_code::code_value(entry) by {
        room_code::lemma_value_of_value_bytes(number);
    }
    assert(profane_numbers(longer) =~= if room_code::is_code(entry) {
        profane_numbers(list).insert(room_code::code_value(entry) as u32)
    } else {
        profane_numbers(list)
    });
}

/// In a sorted list, an entry occurs before the given index exactly if it is the
/// one right before it.
proof fn lemma_repeated_entry(entries: Seq<Seq<u8>>, index: int)
    requires
        is_sorted_list(entries),
        0 <= index < entries.len(),
        entries[index].len() == 4,
        index > 0 ==> entries[index - 1].len() == 4,
    ensures
        entries.take(index).contains(entries[index]) <==> index > 0 && room_code::code_value(
            entries[index - 1],
        ) == room_code::code_value(entries[index]),
        room_code::is_code(entries[index]) ==> (profane_numbers(entries.take(index)).contains(
            room_code::code_value(entries[index]) as u32,
        ) <==> entries.take(index).contains(entries[index])),
{
    let earlier = entries.take(index);
    room_code::lemma_value_bytes_of_value(entries[index]);
    if earlier.contains(entries[index]) {
        let i = choose|i: int| 0 <= i < earlier.len() && earlier[i] == entries[index];
        assert(entries[i] == entries[index]);
        assert(room_code::code_value(entries[i]) <= room_code::code_value(entries[index - 1]));
        assert(room_code::code_value(entries[index - 1]) <= room_code::code_value(entries[index]));
    }
    if index > 0 && room_code::code_value(entries[index - 1]) == room_code::code_value(
        entries[index],
    ) {
        room_code::lemma_value_bytes_of_value(entries[index - 1]);
        assert(earlier[index - 1] == entries[index]);
    }
}

/// There are not more room codes in a list than entries.
pub proof fn lemma_profane_numbers_finite(list: Seq<Seq<u8>>)
    requires
        forall|i: int| 0 <= i < list.len() ==> (#[trigger] list[i]).len() == 4,
    ensures
        profane_numbers(list).finite(),
        profane_numbers(list).len() <= list.len(),
    decreases list.len(),
{
    if list.len() == 0 {
        assert(profane_numbers(list) =~= Set::<u32>::empty());
    } else {
        lemma_profane_numbers_finite(list.drop_last());
        lemma_profane_numbers_push(list.drop_last(), list.last());
        assert(list =~= list.drop_last().push(list.last()));
    }
}

/// If the list holds valid room codes, none of them twice, then the number of
/// room codes that are considered profanity is the length of the list.
pub proof fn law_profanity_count(list: Seq<Seq<u8>>)
    requires
        list.no_duplicates(),
        forall|i: int| 0 <= i < list.len() ==> room_code::is_code(#[trigger] list[i]),
    ensures
        profane_numbers(list).finite(),
        profane_numbers(list).len() == list.len(),
    decreases list.len(),
{
    if list.len() == 0 {
        assert(profane_numbers(list) =~= Set::<u32>::empty());
    } else {
        let shorter = list.drop_last();
        law_profanity_count(shorter);
        lemma_profane_numbers_push(shorter, list.last());
        room_code::lemma_value_bytes_of_value(list.last());
        assert(list =~= shorter.push(list.last()));
        assert(!shorter.contains(list.last()));
    }
}

} // verus!
