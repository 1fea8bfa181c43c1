//! Choosing identifiers that are not in use yet.
//!
//! Identifiers are chosen at random, so that nobody can tell from one identifier
//! what the next one is going to be. If chance keeps on giving identifiers that
//! are already in use, then the first one that is free is taken instead.

use crate::int_map::int_map_contains_key;
use crate::profanity::ProfanityList;
use crate::random::random_u32;
use crate::room_code::RoomCode;
use crate::{profanity, room_code};
use nohash_hasher::IntMap;
use vstd::prelude::*;

verus! {

/// How many identifiers are drawn at random before they are tried in order.
pub const MAX_RANDOM_DRAWS: u32 = 10_000;

/// Choose an identifier of at least `start` that is not a key of the map.
pub fn unused_id<V>(map: &IntMap<u32, V>, start: u32) -> (id: u32)
    requires
        map@.dom().finite(),
        start + map@.len() <= u32::MAX,
    ensures
        start <= id,
        !map@.contains_key(id),
{
    for _draw in 0..MAX_RANDOM_DRAWS {
        let id: u32 = random_u32(start);
        if !int_map_contains_key(map, id) {
            return id;
        }
    }
    let mut id: u32 = start;
    let ghost mut taken = Set::<u32>::empty();
    while int_map_contains_key(map, id)
        invariant
            map@.dom().finite(),
            start + map@.len() <= u32::MAX,
            start <= id,
            taken.finite(),
            taken.len() == id - start,
            taken.subset_of(map@.dom()),
            forall|other: u32| taken.contains(other) ==> other < id,
        decreases u32::MAX - id,
    {
        proof {
            taken = taken.insert(id);
            vstd::set_lib::lemma_len_subset(taken, map@.dom());
        }
        id = id + 1;
    }
    id
}

/// Choose a room code whose number is not a key of the map, and which is not
/// considered profanity. There have to be more room codes than rooms and codes
/// that are considered profanity, or else there might be no such code.
pub fn unused_room_code<V>(rooms: &IntMap<u32, V>, list: &ProfanityList) -> (code: RoomCode)
    requires
        rooms@.dom().finite(),
        rooms@.len() + profanity::profane_numbers(list@).len() < room_code::NUM_ROOM_CODES,
    ensures
        room_code::is_code(code@),
        !rooms@.contains_key(room_code::code_value(code@) as u32),
        !list@.contains(code@),
{
    for _draw in 0..MAX_RANDOM_DRAWS {
        let code = RoomCode::random();
        if !int_map_contains_key(rooms, u32::from(code)) && !code.is_profanity(list) {
            return code;
        }
    }
    let _len: usize = list.get_profanity_len();
    let mut index: u32 = 0;
    let mut code = RoomCode::nth(index);
    let ghost mut taken = Set::<u32>::empty();
    let ghost blocked = rooms@.dom().union(profanity::profane_numbers(list@));
    proof {
        profanity::lemma_profane_numbers_finite(list@);
        lemma_blocked_count(rooms@.dom(), list@);
    }
    while int_map_contains_key(rooms, u32::from(code)) || code.is_profanity(list)
        invariant
            blocked == rooms@.dom().union(profanity::profane_numbers(list@)),
            blocked.finite(),
            blocked.len() < 456_976,
            index < 456_976,
            room_code::is_code(code@),
            room_code::code_value(code@) == room_code::nth_code_value(index as int),
            taken.finite(),
            taken.len() == index,
            taken.subset_of(blocked),
            forall|number: u32|
                taken.contains(number) ==> number < room_code::nth_code_value(index as int),
        decreases 456_976 - index,
    {
        let ghost number = room_code::code_value(code@) as u32;
        proof {
            room_code::lemma_value_bytes_of_value(code@);
            assert(blocked.contains(number));
            taken = taken.insert(number);
            vstd::set_lib::lemma_len_subset(taken, blocked);
            if index + 1 < 456_976 {
                room_code::lemma_nth_code_ascending(index as int, index + 1);
            }
        }
        index = index + 1;
        code = RoomCode::nth(index);
    }
    code
}

/// There are more room codes than those of the rooms and those in the profanity
/// list.
proof fn lemma_blocked_count(rooms: Set<u32>, list: Seq<Seq<u8>>)
    requires
        rooms.finite(),
        profanity::profane_numbers(list).finite(),
        rooms.len() + profanity::profane_numbers(list).len() < room_code::NUM_ROOM_CODES,
    ensures
        rooms.union(profanity::profane_numbers(list)).finite(),
        rooms.union(profanity::profane_numbers(list)).len() < 456_976,
{
    vstd::set_lib::lemma_len_union(rooms, profanity::profane_numbers(list));
}

/// If the first `count` room codes are all blocked, then that many are.
proof fn lemma_first_codes_blocked(blocked: Set<u32>, count: int) -> (taken: Set<u32>)
    requires
        0 <= count <= 456_976,
        blocked.finite(),
        forall|index: int|
            0 <= index < count ==> blocked.contains(
                #[trigger] room_code::nth_code_value(index) as u32,
            ),
    ensures
        taken.finite(),
        taken.len() == count,
        taken.subset_of(blocked),
        forall|number: u32|
            taken.contains(number) ==> exists|index: int|
                0 <= index < count && number == #[trigger] room_code::nth_code_value(index),
    decreases count,
{
    if count == 0 {
        Set::empty()
    } else {
        let taken = lemma_first_codes_blocked(blocked, count - 1);
        let number = room_code::nth_code_value(count - 1) as u32;
        room_code::lemma_nth_code(count - 1);
        assert(blocked.contains(number));
        if taken.contains(number) {
            let index = choose|index: int|
                0 <= index < count - 1 && number == #[trigger] room_code::nth_code_value(index);
            room_code::lemma_nth_code_ascending(index, count - 1);
        }
        taken.insert(number)
    }
}

/// As long as there are more room codes than rooms and codes that are considered
/// profanity, there is a room code left that is neither.
pub proof fn law_a_room_code_is_always_left(rooms: Set<u32>, list: Seq<Seq<u8>>)
    requires
        rooms.finite(),
        forall|i: int| 0 <= i < list.len() ==> (#[trigger] list[i]).len() == 4,
        rooms.len() + profanity::profane_numbers(list).len() < room_code::NUM_ROOM_CODES,
    ensures
        exists|code: Seq<u8>| #[trigger]
            room_code::is_code(code) && !rooms.contains(room_code::code_value(code) as u32)
                && !list.contains(code),
{
    let blocked = rooms.union(profanity::profane_numbers(list));
    profanity::lemma_profane_numbers_finite(list);
    lemma_blocked_count(rooms, list);
    if forall|index: int|
        0 <= index < 456_976 ==> blocked.contains(
            #[trigger] room_code::nth_code_value(index) as u32,
        ) {
        let taken = lemma_first_codes_blocked(blocked, 456_976);
        vstd::set_lib::lemma_len_subset(taken, blocked);
    } else {
        let index = choose|index: int|
            0 <= index < 456_976 && !blocked.contains(
                #[trigger] room_code::nth_code_value(index) as u32,
            );
        room_code::lemma_nth_code(index);
        let code = room_code::nth_code(index);
        room_code::lemma_value_bytes_of_value(code);
        assert(room_code::is_code(code));
    }
}

} // verus!
