use tabletop_club_lobby_server::identifiers::{unused_id, unused_room_code};
use tabletop_club_lobby_server::profanity::{ProfanityList, ProfanityListError};
use tabletop_club_lobby_server::room_code::{RoomCode, RoomCodeError, NUM_ROOM_CODES};

/// A list of room codes that starts with the given code, and goes on with those
/// that follow it in steps of 2000.
fn list_of(count: u32) -> Vec<u8> {
    let mut bytes = Vec::new();
    for i in 0..count {
        let index = 2000 * i + 17;
        bytes.push(65 + (index / 17_576) as u8);
        bytes.push(65 + (index / 676 % 26) as u8);
        bytes.push(65 + (index / 26 % 26) as u8);
        bytes.push(65 + (index % 26) as u8);
        bytes.push(b'\n');
    }
    bytes
}

#[test]
fn check_default() {
    assert!(RoomCode::default().is_valid());
    assert_eq!(RoomCode::default().to_text(), "AAAA");
}

#[test]
fn check_random() {
    for _ in 0..10_000_000 {
        assert!(RoomCode::random().is_valid());
    }
}

#[test]
fn letters_make_up_the_code() {
    assert_eq!(RoomCode::from_letters(*b"GGEZ").to_text(), "GGEZ");
    assert_eq!(u32::from(RoomCode::from_letters([65, 66, 67, 90])), 0x4142435a);

    // Draws do not always give the same letters.
    let first = RoomCode::random();
    assert!((0..1000).any(|_| RoomCode::random() != first));
}

#[test]
fn check_profanity() {
    let list = ProfanityList::new(list_of(160)).expect("list considered invalid");
    assert_eq!(list.get_profanity_len(), 160);
    assert_eq!(list.count_codes(), 160);

    let mut profanity_count = 0;
    for c1 in 65..91 {
        for c2 in 65..91 {
            for c3 in 65..91 {
                for c4 in 65..91 {
                    let code_int = u32::from_be_bytes([c1, c2, c3, c4]);
                    let room_code =
                        RoomCode::try_from(code_int).expect("room code considered invalid");

                    if room_code.is_profanity(&list) {
                        profanity_count += 1;
                    }
                }
            }
        }
    }

    assert_eq!(profanity_count, 160);
}

fn str_and_u32_test(s: &str, u: u32, valid: bool) {
    // Check the string and the u32 values are equivalent.
    assert_eq!(s.len(), 4);

    let mut chars = s.chars();
    let mut str_as_u32: u32 = 0;
    for index in 0..4 {
        let char_as_u32 = chars.next().unwrap() as u32;
        str_as_u32 |= char_as_u32 << (8 * (3 - index));
    }
    assert_eq!(str_as_u32, u);

    // Convert to and from u32.
    let res = RoomCode::try_from(u);
    if valid {
        let code = res.expect("valid u32 considered invalid");
        let same: u32 = code.into();
        assert_eq!(same, u);
    } else {
        res.expect_err("invalid u32 considered valid");
    }

    // Convert from &str.
    let res = RoomCode::try_from(s);
    if valid {
        res.expect("valid &str considered invalid");
    } else {
        res.expect_err("invalid &str considered valid");
    }

    // Convert to and from String.
    let full_str = String::from(s);
    let res = RoomCode::try_from(full_str.clone());
    if valid {
        let code = res.expect("valid string considered invalid");
        let same: String = code.into();
        assert_eq!(same, full_str);
    } else {
        res.expect_err("invalid string considered valid");
    }
}

#[test]
fn check_conversion() {
    // Valid room codes.
    str_and_u32_test("AAAA", 0x41414141, true);
    str_and_u32_test("ABCD", 0x41424344, true);
    str_and_u32_test("PLZZ", 0x504c5a5a, true);
    str_and_u32_test("DNTE", 0x444e5445, true);
    str_and_u32_test("TOMY", 0x544f4d59, true);
    str_and_u32_test("KOFI", 0x4b4f4649, true);
    str_and_u32_test("ZZZZ", 0x5a5a5a5a, true);

    // Lowercase characters.
    str_and_u32_test("aaaa", 0x61616161, false);
    str_and_u32_test("AAAa", 0x41414161, false);
    str_and_u32_test("KoFi", 0x4b6f4669, false);
    str_and_u32_test("ISdr", 0x49536472, false);
    str_and_u32_test("whut", 0x77687574, false);
    str_and_u32_test("dOOT", 0x644f4f54, false);

    // Numbers.
    str_and_u32_test("0000", 0x30303030, false);
    str_and_u32_test("1234", 0x31323334, false);
    str_and_u32_test("1JKL", 0x314a4b4c, false);
    str_and_u32_test("5678", 0x35363738, false);
    str_and_u32_test("9999", 0x39393939, false);

    // Other ASCII characters.
    str_and_u32_test("NEW\n", 0x4e45570a, false);
    str_and_u32_test("ABC ", 0x41424320, false);
    str_and_u32_test("BOB!", 0x424f4221, false);
    str_and_u32_test("\"QUA", 0x22515541, false);
    str_and_u32_test("#LOL", 0x234c4f4c, false);
    str_and_u32_test("AUS$", 0x41555324, false);
    str_and_u32_test("%%%%", 0x25252525, false);
    str_and_u32_test("N&SW", 0x4e265357, false);
    str_and_u32_test("WA'A", 0x57412741, false);
    str_and_u32_test("(HI)", 0x28484929, false);
    str_and_u32_test("F***", 0x462a2a2a, false);
    str_and_u32_test("A+B=", 0x412b423d, false);
    str_and_u32_test("Q,G.", 0x512c472e, false);
    str_and_u32_test("/SAY", 0x2f534159, false);
    str_and_u32_test("VAR:", 0x5641523a, false);
    str_and_u32_test("CMD;", 0x434d443b, false);
    str_and_u32_test("<ME>", 0x3c4d453e, false);
    str_and_u32_test("WHA?", 0x5748413f, false);
    str_and_u32_test("@.@ ", 0x402e4020, false);
    str_and_u32_test("[WO]", 0x5b574f5d, false);
    str_and_u32_test("\\^UP", 0x5c5e5550, false);
    str_and_u32_test("_``_", 0x5f60605f, false);
    str_and_u32_test("{|~}", 0x7b7c7e7d, false);
}

#[test]
fn room_code_errors() {
    assert_eq!(RoomCode::try_from(""), Err(RoomCodeError::InvalidLength));
    assert_eq!(RoomCode::try_from("ABC"), Err(RoomCodeError::InvalidLength));
    assert_eq!(RoomCode::try_from("ABCDE"), Err(RoomCodeError::InvalidLength));
    assert_eq!(RoomCode::try_from("AB1D"), Err(RoomCodeError::InvalidCharacters));
    // Four bytes, but only two characters.
    assert_eq!(RoomCode::try_from("éé"), Err(RoomCodeError::InvalidCharacters));
    // Four characters, but five bytes.
    assert_eq!(RoomCode::try_from("ABCé"), Err(RoomCodeError::InvalidLength));
    assert_eq!(RoomCode::try_from(0u32), Err(RoomCodeError::InvalidCharacters));
    assert_eq!(RoomCode::try_from(u32::MAX), Err(RoomCodeError::InvalidCharacters));
}

#[test]
fn numbers_and_texts_identify_codes() {
    let first = RoomCode::try_from("GGEZ").unwrap();
    let second = RoomCode::try_from("GGEY").unwrap();
    assert_ne!(first, second);
    assert_ne!(u32::from(first), u32::from(second));
    assert_eq!(u32::from(first), 0x4747455a);
    assert_eq!(String::from(&first), "GGEZ");
    assert_eq!(RoomCode::try_from(u32::from(first)), Ok(first));
    assert_eq!(RoomCode::try_from(first.to_text()), Ok(first));
}

#[test]
fn profanity_is_found_anywhere_in_the_list() {
    let list = ProfanityList::new(b"AAAA\nBOOO\nDRAT\nZZZZ\n".to_vec()).unwrap();
    for text in ["AAAA", "BOOO", "DRAT", "ZZZZ"] {
        assert!(RoomCode::try_from(text).unwrap().is_profanity(&list));
    }
    for text in ["AAAB", "BOON", "BOOP", "DRAS", "ZZZY", "MMMM"] {
        assert!(!RoomCode::try_from(text).unwrap().is_profanity(&list));
    }
    let drat = RoomCode::try_from("DRAT").unwrap();
    assert_eq!(RoomCode::compare_to_profanity(&drat, &list, 0), 1);
    assert_eq!(RoomCode::compare_to_profanity(&drat, &list, 2), 0);
    assert_eq!(RoomCode::compare_to_profanity(&drat, &list, 3), -1);
    assert_eq!(list.get_profanity_at(1), *b"BOOO");
}

#[test]
fn profanity_list_errors() {
    assert_eq!(
        ProfanityList::new(Vec::new()).err(),
        Some(ProfanityListError::Empty)
    );
    assert_eq!(
        ProfanityList::new(b"AAAA".to_vec()).err(),
        Some(ProfanityListError::Empty)
    );
    assert_eq!(
        ProfanityList::new(b"BBBB\nAAAA\n".to_vec()).err(),
        Some(ProfanityListError::NotSorted)
    );
}

#[test]
fn profanity_lists_can_be_long() {
    let list = ProfanityList::new(vec![65; 5 * 1_000_000]).unwrap();
    assert_eq!(list.get_profanity_len(), 1_000_000);
    assert_eq!(list.count_codes(), 1);

    // Entries that occur twice are counted once, and those that are not valid
    // room codes are not counted.
    let list = ProfanityList::new(b"A1AA\nAAAA\nAAAA\nBOOO\nBOOO\nBOOO\naaaa\n".to_vec());
    assert_eq!(list.unwrap().count_codes(), 2);
}

#[test]
fn unused_identifiers() {
    let mut map = nohash_hasher::IntMap::default();
    for i in 0..1000 {
        let id = unused_id(&map, 2);
        assert!(id >= 2);
        assert!(!map.contains_key(&id));
        map.insert(id, i);
    }

    // The first codes are on the list, the others belong to rooms, and only a
    // single code is left.
    let mut entries: Vec<u8> = Vec::new();
    let mut rooms = nohash_hasher::IntMap::default();
    for c1 in 65..91 {
        for c2 in 65..91 {
            for c3 in 65..91 {
                for c4 in 65..91 {
                    if entries.len() < 5 * 100_000 {
                        entries.extend([c1, c2, c3, c4, 10]);
                    } else if rooms.len() < NUM_ROOM_CODES - 100_001 {
                        rooms.insert(u32::from_be_bytes([c1, c2, c3, c4]), ());
                    }
                }
            }
        }
    }
    let list = ProfanityList::new(entries).unwrap();
    for _ in 0..5 {
        assert_eq!(unused_room_code(&rooms, &list).to_text(), "ZZZZ");
    }
}
