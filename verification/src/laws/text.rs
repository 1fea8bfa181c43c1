//! What is promised of numbers and of text.

use crate::text;
use vstd::prelude::*;

verus! {

/// The decimal representation of a number consists of that of its tenth, if there
/// is one, and its last digit.
pub proof fn law_decimals_are_built_digit_by_digit(n: nat)
    ensures
        n < 10 ==> text::decimal(n) == seq![(48 + n) as char],
        n >= 10 ==> text::decimal(n) == text::decimal(n / 10).push((48 + n % 10) as char),
{
}

/// Writing a number appends its decimal representation, and nothing else.
pub proof fn law_numbers_are_appended(text: &mut String, n: u64)
    requires
        call_ensures(text::push_decimal, (text, n), ()),
    ensures
        final(text)@ == old(text)@ + text::decimal(n as nat),
{
}

/// A single digit stands for its own value, also after a plus sign. Nothing else of
/// that length is a number.
pub proof fn law_digits_are_numbers(c: char)
    ensures
        text::parsed_u32(Seq::empty()) is None,
        '0' <= c <= '9' ==> text::parsed_u32(seq![c]) == Some((c as int - 48) as u32),
        '0' <= c <= '9' ==> text::parsed_u32(seq!['+', c]) == Some((c as int - 48) as u32),
        !('0' <= c <= '9') ==> text::parsed_u32(seq![c]) is None,
        !('0' <= c <= '9') ==> text::parsed_u32(seq!['+', c]) is None,
{
    let one = seq![c];
    let two = seq!['+', c];
    reveal_with_fuel(text::digits_value, 2);
    assert(one.drop_last() =~= Seq::<char>::empty());
    assert(two.skip(1) =~= one);
    assert(one[0] == c);
    if c == '+' {
        assert(text::without_plus(one) =~= Seq::<char>::empty());
    }
}

/// A digit at the end of a number makes the number ten times as large, and adds its
/// own value, as long as the result fits into 32 bits. Anything else at the end of
/// a number makes it no number, and no text becomes a number by what follows it,
/// apart from a plus sign.
pub proof fn law_numbers_are_read_digit_by_digit(s: Seq<char>, c: char)
    requires
        s.len() > 0,
        s != seq!['+'],
    ensures
        !('0' <= c <= '9') ==> text::parsed_u32(s.push(c)) is None,
        text::parsed_u32(s) is None ==> text::parsed_u32(s.push(c)) is None,
        text::parsed_u32(s) matches Some(value) ==> '0' <= c <= '9' ==> text::parsed_u32(s.push(c))
            == if 10 * value + (c as int - 48) <= u32::MAX {
            Some((10 * value + (c as int - 48)) as u32)
        } else {
            None
        },
{
    let digits = text::without_plus(s);
    let longer = text::without_plus(s.push(c));
    assert(longer =~= digits.push(c));
    assert(longer.drop_last() =~= digits);
    assert(longer.last() == c);
    assert(longer[digits.len() as int] == c);
    if digits.len() == 0 {
        assert(s =~= seq!['+']);
    }
    if text::all_digits(longer) {
        assert forall|i: int| 0 <= i < digits.len() implies text::is_digit(
            #[trigger] digits[i],
        ) by {
            assert(longer[i] == digits[i]);
        }
    }
    if text::all_digits(digits) && text::is_digit(c) {
        assert forall|i: int| 0 <= i < longer.len() implies text::is_digit(
            #[trigger] longer[i],
        ) by {
            if i < digits.len() {
                assert(longer[i] == digits[i]);
            }
        }
    }
}

/// Text is read as the number that it stands for.
pub proof fn law_numbers_are_read(s: &str, number: Option<u32>)
    requires
        call_ensures(text::parse_u32, (s,), number),
    ensures
        number == text::parsed_u32(s@),
{
}

/// Text can be split exactly if it contains the separator. The parts are then what
/// comes before and what comes after the first separator.
pub proof fn law_text_is_split_at_the_first_separator(
    s: &str,
    separator: char,
    parts: Option<(&str, &str)>,
)
    requires
        call_ensures(text::split_once, (s, separator), parts),
    ensures
        parts is Some <==> s@.contains(separator),
        parts matches Some((before, after)) ==> s@ == before@ + seq![separator] + after@
            && !before@.contains(separator),
{
    let text = s@;
    text.index_of_first_ensures(separator);
    if let Some((before, after)) = parts {
        let index = text.index_of_first(separator).unwrap();
        assert(text =~= before@ + seq![separator] + after@);
        if before@.contains(separator) {
            let i = choose|i: int| 0 <= i < before@.len() && before@[i] == separator;
            assert(text[i] == separator);
        }
    }
}

/// Two texts are the same exactly if all of their characters are.
pub proof fn law_same_texts_are_equal(a: &str, b: &str, same: bool)
    requires
        call_ensures(text::same_text, (a, b), same),
    ensures
        same <==> a@ == b@,
{
}

} // verus!
