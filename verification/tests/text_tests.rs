use tabletop_club_lobby_server::text::{parse_u32, push_decimal, same_text, split_once};

#[test]
fn decimals() {
    for number in [0, 1, 9, 10, 99, 100, 4_294_967_295, u64::MAX] {
        let mut text = String::from("n=");
        push_decimal(&mut text, number);
        assert_eq!(text, format!("n={}", number));
    }
}

#[test]
fn parsing_agrees_with_the_standard_library() {
    let texts = [
        "", "+", "-", "0", "1", "+1", "++1", "-1", "00012", "4294967295", "4294967296",
        "42949672950", "1 ", " 1", "1a", "é", "+4294967295", "99999999999999999999", "１",
    ];
    for text in texts {
        assert_eq!(parse_u32(text), text.parse::<u32>().ok(), "{}", text);
    }
}

#[test]
fn decimals_parse_back() {
    for number in [0, 7, 1234, u32::MAX] {
        let mut text = String::new();
        push_decimal(&mut text, number as u64);
        assert_eq!(parse_u32(&text), Some(number));
    }
}

#[test]
fn splitting_agrees_with_the_standard_library() {
    for text in ["", " ", "a b", "a b c", " a", "a ", "ab", "é ü", "\n"] {
        assert_eq!(split_once(text, ' '), text.split_once(' '));
        assert_eq!(split_once(text, '\n'), text.split_once('\n'));
    }
}

#[test]
fn comparing() {
    assert!(same_text("", ""));
    assert!(same_text("J:", "J:"));
    assert!(!same_text("J:", "S:"));
    assert!(!same_text("J:", "J"));
    assert!(!same_text("J", "J:"));
}
