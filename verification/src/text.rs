//! Text helpers: decimal numbers, splitting and comparing strings.

use vstd::prelude::*;
use vstd::string::*;
use vstd::utf8::*;

verus! {

/// `String::push` of the standard library appends the given character.
pub assume_specification[ String::push ](string: &mut String, ch: char)
    ensures
        final(string)@ == old(string)@.push(ch),
;

/// The character that stands for the decimal digit `d`.
pub open spec fn digit_char(d: int) -> char {
    (48 + d) as char
}

/// The decimal representation of `n`, without leading zeros.
pub open spec fn decimal(n: nat) -> Seq<char>
    decreases n,
{
    if n < 10 {
        seq![digit_char(n as int)]
    } else {
        decimal(n / 10).push(digit_char((n % 10) as int))
    }
}

/// Whether `c` is one of the ten ASCII digits.
pub open spec fn is_digit(c: char) -> bool {
    '0' <= c <= '9'
}

/// Whether every character of `s` is a digit.
pub open spec fn all_digits(s: Seq<char>) -> bool {
    forall|i: int| 0 <= i < s.len() ==> is_digit(#[trigger] s[i])
}

/// The number that a sequence of digits stands for.
pub open spec fn digits_value(s: Seq<char>) -> nat
    decreases s.len(),
{
    if s.len() == 0 {
        0
    } else {
        10 * digits_value(s.drop_last()) + (s.last() as nat - 48) as nat
    }
}

/// `s` without one leading plus sign, if it has one.
pub open spec fn without_plus(s: Seq<char>) -> Seq<char> {
    if s.len() > 0 && s[0] == '+' {
        s.skip(1)
    } else {
        s
    }
}

/// The number that the text `s` stands for: an optional plus sign, followed by
/// at least one digit and nothing else, with a value that fits into 32 bits.
pub open spec fn parsed_u32(s: Seq<char>) -> Option<u32> {
    let digits = without_plus(s);
    if digits.len() > 0 && all_digits(digits) && digits_value(digits) <= u32::MAX {
        Some(digits_value(digits) as u32)
    } else {
        None
    }
}

/// Append the decimal representation of `n` to `text`.
pub fn push_decimal(text: &mut String, n: u64)
    ensures
        final(text)@ == old(text)@ + decimal(n as nat),
    decreases n,
{
    if n >= 10 {
        push_decimal(text, n / 10);
    }
    let digit: u8 = (n % 10) as u8;
    text.push((48 + digit) as char);
    assert(text@ == old(text)@ + decimal(n as nat));
}

/// The number of characters of `s` before the first `separator`.
fn find_char(s: &str, separator: char) -> (index: Option<usize>)
    ensures
        match index {
            Some(i) => {
                &&& i < s@.len()
                &&& s@[i as int] == separator
                &&& forall|j: int| 0 <= j < i ==> s@[j] != separator
            },
            None => forall|j: int| 0 <= j < s@.len() ==> s@[j] != separator,
        },
{
    let total: usize = s.unicode_len();
    let mut count: usize = 0;
    for c in it: s.chars()
        invariant
            count == it.index(),
            total == s@.len(),
            it.seq() == s@,
            forall|j: int| 0 <= j < it.index() ==> s@[j] != separator,
    {
        if c == separator {
            return Some(count);
        }
        count += 1;
    }
    None
}

/// The parts of `s` before and after the first `separator`, if it has one.
pub open spec fn split_parts(s: Seq<char>, separator: char) -> Option<(Seq<char>, Seq<char>)> {
    match s.index_of_first(separator) {
        Some(index) => Some((s.take(index), s.skip(index + 1))),
        None => None,
    }
}

/// Split `s` at the first `separator`, which belongs to neither part.
pub fn split_once(s: &str, separator: char) -> (parts: Option<(&str, &str)>)
    ensures
        match parts {
            Some((before, after)) => split_parts(s@, separator) == Some((before@, after@)),
            None => split_parts(s@, separator) is None,
        },
{
    proof {
        s@.index_of_first_ensures(separator);
    }
    match find_char(s, separator) {
        Some(index) => {
            let total: usize = s.unicode_len();
            let before = s.substring_char(0, index);
            let after = s.substring_char(index + 1, total);
            assert(before@ =~= s@.take(index as int));
            assert(after@ =~= s@.skip(index + 1));
            Some((before, after))
        },
        None => None,
    }
}

/// Splitting text at the first separator gives back the parts that it was put
/// together from, if the first part does not contain the separator.
pub proof fn lemma_split_joined(before: Seq<char>, separator: char, after: Seq<char>)
    requires
        !before.contains(separator),
    ensures
        split_parts(before + seq![separator] + after, separator) == Some((before, after)),
{
    let joined = before + seq![separator] + after;
    joined.index_of_first_ensures(separator);
    let index = joined.index_of_first(separator).unwrap();
    assert(joined[before.len() as int] == separator);
    assert forall|i: int| 0 <= i < before.len() implies joined[i] != separator by {
        assert(before.contains(before[i]));
    }
    assert(joined.take(index) =~= before);
    assert(joined.skip(index + 1) =~= after);
}

/// Whether two strings hold the same characters.
pub fn same_text(a: &str, b: &str) -> (same: bool)
    ensures
        same == (a@ == b@),
{
    let left = a.as_bytes();
    let right = b.as_bytes();
    if left.len() != right.len() {
        return false;
    }
    for i in 0..left.len()
        invariant
            left.len() == right.len(),
            left@ == a.spec_bytes(),
            right@ == b.spec_bytes(),
            forall|j: int| 0 <= j < i ==> left@[j] == right@[j],
    {
        if left[i] != right[i] {
            return false;
        }
    }
    proof {
        assert(left@ == right@);
        encode_utf8_decode_utf8(a@);
        encode_utf8_decode_utf8(b@);
    }
    true
}

/// Parse `s` as a decimal number of 32 bits.
pub fn parse_u32(s: &str) -> (number: Option<u32>)
    ensures
        number == parsed_u32(s@),
{
    let ghost digits = without_plus(s@);
    if !s.is_ascii() {
        proof {
            if all_digits(digits) {
                assert forall|i: int| 0 <= i < s@.len() implies '\0' <= #[trigger] s@[i] <= '\u{7f}' by {
                    if s@[0] == '+' && i > 0 {
                        assert(digits[i - 1] == s@[i]);
                    }
                }
                assert(is_ascii_chars(s@));
            }
        }
        return None;
    }
    let bytes = s.as_bytes();
    let len: usize = bytes.len();
    proof {
        is_ascii_spec_bytes(s);
    }
    let start: usize = if len > 0 && bytes[0] == 43 {
        1
    } else {
        0
    };
    if start == len {
        return None;
    }
    let mut value: u32 = 0;
    for i in start..len
        invariant
            len == bytes@.len(),
            bytes@ =~= Seq::new(s@.len(), |k: int| s@[k] as u8),
            is_ascii_chars(s@),
            0 <= start < len,
            digits == without_plus(s@),
            digits == s@.skip(start as int),
            all_digits(digits.take(i - start)),
            value == digits_value(digits.take(i - start)),
    {
        let byte = bytes[i];
        let ghost before = digits.take(i - start);
        let ghost after = digits.take(i + 1 - start);
        assert(after.drop_last() =~= before);
        assert(after.last() == s@[i as int]);
        if byte < 48 || byte > 57 {
            assert(!is_digit(digits[i - start]));
            return None;
        }
        assert(digits_value(after) == 10 * digits_value(before) + (byte - 48));
        proof {
            lemma_digits_value_prefix(digits, i + 1 - start);
        }
        if value > 429_496_729 || (value == 429_496_729 && byte > 53) {
            return None;
        }
        value = 10 * value + (byte - 48) as u32;
    }
    assert(digits.take(len - start) =~= digits);
    Some(value)
}

/// A prefix of a sequence of digits stands for a number that is not larger.
proof fn lemma_digits_value_prefix(s: Seq<char>, n: int)
    requires
        0 <= n <= s.len(),
    ensures
        digits_value(s.take(n)) <= digits_value(s),
    decreases s.len() - n,
{
    if n < s.len() {
        lemma_digits_value_prefix(s, n + 1);
        assert(s.take(n + 1).drop_last() =~= s.take(n));
    } else {
        assert(s.take(n) =~= s);
    }
}

/// Parsing the decimal representation of a number gives the number back.
pub proof fn lemma_decimal_parses_back(n: u32)
    ensures
        parsed_u32(decimal(n as nat)) == Some(n),
{
    lemma_decimal_value(n as nat);
    assert(without_plus(decimal(n as nat)) == decimal(n as nat)) by {
        assert(is_digit(decimal(n as nat)[0]));
    }
}

/// The decimal representation of `n` consists of digits that stand for `n`.
pub proof fn lemma_decimal_value(n: nat)
    ensures
        decimal(n).len() > 0,
        all_digits(decimal(n)),
        digits_value(decimal(n)) == n,
    decreases n,
{
    reveal_with_fuel(digits_value, 2);
    if n >= 10 {
        lemma_decimal_value(n / 10);
        assert(decimal(n).drop_last() =~= decimal(n / 10));
    } else {
        assert(decimal(n).drop_last() =~= Seq::<char>::empty());
    }
}

} // verus!
