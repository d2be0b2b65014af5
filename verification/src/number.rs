//! Decimal and hexadecimal numerals.

use crate::text::chars_of;
use vstd::prelude::*;

verus! {

/// Whether a character is one of `0` to `9`.
pub open spec fn is_digit(c: char) -> bool {
    '0' <= c <= '9'
}

/// The number that a decimal digit stands for.
pub open spec fn digit_value(c: char) -> int {
    c as int - '0' as int
}

/// The number that a run of decimal digits stands for.
pub open spec fn digits_value(digits: Seq<char>) -> int
    decreases digits.len(),
{
    if digits.len() == 0 {
        0
    } else {
        10 * digits_value(digits.drop_last()) + digit_value(digits.last())
    }
}

/// The value of an unsigned decimal numeral: at least one digit and nothing else.
pub open spec fn numeral(text: Seq<char>) -> Option<int> {
    if text.len() > 0 && (forall|i: int| 0 <= i < text.len() ==> is_digit(#[trigger] text[i])) {
        Some(digits_value(text))
    } else {
        None
    }
}

/// The value of a decimal numeral with an optional `+`.
pub open spec fn unsigned_numeral(text: Seq<char>) -> Option<int> {
    if text.len() > 0 && text[0] == '+' {
        numeral(text.drop_first())
    } else {
        numeral(text)
    }
}

/// The value of a decimal numeral with an optional `+` or `-`.
pub open spec fn signed_numeral(text: Seq<char>) -> Option<int> {
    if text.len() > 0 && text[0] == '-' {
        match numeral(text.drop_first()) {
            Some(value) => Some(-value),
            None => None,
        }
    } else {
        unsigned_numeral(text)
    }
}

/// `value` where it lies in the range, nothing otherwise.
pub open spec fn in_range(value: Option<int>, low: int, high: int) -> Option<int> {
    match value {
        Some(value) if low <= value <= high => Some(value),
        _ => None,
    }
}

/// A magnitude that no supported integer type can hold.
pub const MAGNITUDE_LIMIT: u128 = 0x2_0000_0000_0000_0000;

/// Reads the digits from `start` to the end; values past the limit are reported as the limit.
fn parse_magnitude(chars: &Vec<char>, start: usize) -> (value: Option<u128>)
    requires
        start <= chars@.len(),
    ensures
        match (value, numeral(chars@.skip(start as int))) {
            (Some(value), Some(exact)) => {
                &&& exact >= 0
                &&& value == if exact < MAGNITUDE_LIMIT { exact } else { MAGNITUDE_LIMIT as int }
            },
            (None, None) => true,
            _ => false,
        },
{
    let ghost digits = chars@.skip(start as int);
    if start == chars.len() {
        return None;
    }
    let mut value: u128 = 0;
    let mut i: usize = start;
    while i < chars.len()
        invariant
            start <= i <= chars@.len(),
            digits == chars@.skip(start as int),
            forall|j: int| 0 <= j < i - start ==> is_digit(#[trigger] digits[j]),
            digits_value(digits.take(i - start)) >= 0,
            value == if digits_value(digits.take(i - start)) < MAGNITUDE_LIMIT {
                digits_value(digits.take(i - start))
            } else {
                MAGNITUDE_LIMIT as int
            },
        decreases chars@.len() - i,
    {
        let c = chars[i];
        assert(digits[i - start] == c);
        if !(c >= '0' && c <= '9') {
            return None;
        }
        proof {
            assert(digits.take(i + 1 - start).drop_last() =~= digits.take(i - start));
            assert(digits.take(i + 1 - start).last() == c);
        }
        let digit: u128 = (c as u32 - '0' as u32) as u128;
        let next: u128 = 10 * value + digit;
        value = if next < MAGNITUDE_LIMIT {
            next
        } else {
            MAGNITUDE_LIMIT
        };
        i = i + 1;
    }
    assert(digits.take(i - start) =~= digits);
    Some(value)
}

/// Reads a text as an `i64`.
pub fn parse_i64(text: &str) -> (value: Option<i64>)
    ensures
        match value {
            Some(value) => in_range(signed_numeral(text@), i64::MIN as int, i64::MAX as int) == Some(
                value as int,
            ),
            None => in_range(signed_numeral(text@), i64::MIN as int, i64::MAX as int) is None,
        },
{
    let chars = chars_of(text);
    assert(chars@.skip(0) =~= chars@);
    assert(chars@.len() > 0 ==> chars@.skip(1) =~= chars@.drop_first());
    if chars.len() > 0 && chars[0] == '-' {
        match parse_magnitude(&chars, 1) {
            Some(value) => {
                if value <= 0x8000_0000_0000_0000u128 {
                    Some((-(value as i128)) as i64)
                } else {
                    None
                }
            },
            None => None,
        }
    } else {
        let start: usize = if chars.len() > 0 && chars[0] == '+' {
            1
        } else {
            0
        };
        match parse_magnitude(&chars, start) {
            Some(value) => {
                if value <= 0x7fff_ffff_ffff_ffffu128 {
                    Some(value as i64)
                } else {
                    None
                }
            },
            None => None,
        }
    }
}

/// Reads a text as a `u64`.
pub fn parse_u64(text: &str) -> (value: Option<u64>)
    ensures
        match value {
            Some(value) => in_range(unsigned_numeral(text@), 0, u64::MAX as int) == Some(
                value as int,
            ),
            None => in_range(unsigned_numeral(text@), 0, u64::MAX as int) is None,
        },
{
    let chars = chars_of(text);
    assert(chars@.skip(0) =~= chars@);
    assert(chars@.len() > 0 ==> chars@.skip(1) =~= chars@.drop_first());
    let start: usize = if chars.len() > 0 && chars[0] == '+' {
        1
    } else {
        0
    };
    match parse_magnitude(&chars, start) {
        Some(value) => {
            if value <= 0xffff_ffff_ffff_ffffu128 {
                Some(value as u64)
            } else {
                None
            }
        },
        None => None,
    }
}

/// Reads a text as an `i32`.
pub fn parse_i32(text: &str) -> (value: Option<i32>)
    ensures
        match value {
            Some(value) => in_range(signed_numeral(text@), i32::MIN as int, i32::MAX as int) == Some(
                value as int,
            ),
            None => in_range(signed_numeral(text@), i32::MIN as int, i32::MAX as int) is None,
        },
{
    match parse_i64(text) {
        Some(value) => {
            if -0x8000_0000i64 <= value && value <= 0x7fff_ffffi64 {
                Some(value as i32)
            } else {
                None
            }
        },
        None => None,
    }
}

/// Reads a text as a `u8`.
pub fn parse_u8(text: &str) -> (value: Option<u8>)
    ensures
        match value {
            Some(value) => in_range(unsigned_numeral(text@), 0, u8::MAX as int) == Some(
                value as int,
            ),
            None => in_range(unsigned_numeral(text@), 0, u8::MAX as int) is None,
        },
{
    match parse_u64(text) {
        Some(value) => {
            if value <= 255 {
                Some(value as u8)
            } else {
                None
            }
        },
        None => None,
    }
}

/// The digit for a number below sixteen, in lower case.
pub open spec fn digit_char(value: int) -> char {
    if value < 10 {
        ('0' as int + value) as char
    } else {
        ('a' as int + (value - 10)) as char
    }
}

/// The shortest decimal numeral of a number.
pub open spec fn decimal(value: nat) -> Seq<char>
    decreases value,
{
    if value < 10 {
        seq![digit_char(value as int)]
    } else {
        decimal(value / 10).push(digit_char((value % 10) as int))
    }
}

/// The shortest decimal numeral of an integer, with `-` before a negative one.
pub open spec fn signed_decimal(value: int) -> Seq<char> {
    if value < 0 {
        seq!['-'] + decimal((-value) as nat)
    } else {
        decimal(value as nat)
    }
}

/// The digit for a number below sixteen.
fn digit(value: u8) -> (c: char)
    requires
        value < 16,
    ensures
        c == digit_char(value as int),
{
    if value < 10 {
        (48u8 + value) as char
    } else {
        (97u8 + (value - 10)) as char
    }
}

/// Appends the decimal numeral of a number.
pub fn push_decimal(text: &mut String, value: u64)
    ensures
        final(text)@ == old(text)@ + decimal(value as nat),
    decreases value,
{
    if value >= 10 {
        push_decimal(text, value / 10);
    }
    text.push(digit((value % 10) as u8));
    proof {
        if value >= 10 {
            assert(text@ =~= old(text)@ + decimal((value / 10) as nat).push(
                digit_char((value % 10) as int),
            ));
        }
    }
}

/// The decimal numeral of a signed number.
pub fn signed_decimal_text(value: i64) -> (text: String)
    ensures
        text@ == signed_decimal(value as int),
{
    let mut text = String::new();
    if value < 0 {
        text.push('-');
        let magnitude: u64 = (-(value as i128)) as u64;
        push_decimal(&mut text, magnitude);
        assert(text@ =~= seq!['-'] + decimal(magnitude as nat));
    } else {
        push_decimal(&mut text, value as u64);
        assert(text@ =~= decimal(value as nat));
    }
    text
}

/// The last `width` lower-case hexadecimal digits of a number.
pub open spec fn hexadecimal(value: nat, width: nat) -> Seq<char>
    decreases width,
{
    if width == 0 {
        Seq::empty()
    } else {
        hexadecimal(value / 16, (width - 1) as nat).push(digit_char((value % 16) as int))
    }
}

/// Appends the last `width` lower-case hexadecimal digits of a number.
pub fn push_hexadecimal(text: &mut String, value: u64, width: usize)
    ensures
        final(text)@ == old(text)@ + hexadecimal(value as nat, width as nat),
    decreases width,
{
    if width > 0 {
        push_hexadecimal(text, value / 16, width - 1);
        text.push(digit((value % 16) as u8));
    }
    assert(text@ =~= old(text)@ + hexadecimal(value as nat, width as nat));
}

/// The lower-case hexadecimal form of bytes, two digits for each.
pub open spec fn hexadecimal_bytes(bytes: Seq<u8>) -> Seq<char>
    decreases bytes.len(),
{
    if bytes.len() == 0 {
        Seq::empty()
    } else {
        hexadecimal_bytes(bytes.drop_last()) + hexadecimal(bytes.last() as nat, 2)
    }
}

/// The lower-case hexadecimal form of bytes.
pub fn hexadecimal_text(bytes: &Vec<u8>) -> (text: String)
    ensures
        text@ == hexadecimal_bytes(bytes@),
{
    let mut text = String::new();
    let mut i: usize = 0;
    while i < bytes.len()
        invariant
            0 <= i <= bytes@.len(),
            text@ == hexadecimal_bytes(bytes@.take(i as int)),
        decreases bytes@.len() - i,
    {
        assert(bytes@.take(i + 1).drop_last() =~= bytes@.take(i as int));
        push_hexadecimal(&mut text, bytes[i] as u64, 2);
        i = i + 1;
    }
    assert(bytes@.take(i as int) =~= bytes@);
    text
}

/// A decimal numeral is made of digits and gives its number back.
pub proof fn decimal_round_trip(value: nat)
    ensures
        numeral(decimal(value)) == Some(value as int),
        unsigned_numeral(decimal(value)) == Some(value as int),
        is_digit(decimal(value)[0]),
    decreases value,
{
    let text = decimal(value);
    if value >= 10 {
        decimal_round_trip(value / 10);
        assert(text.drop_last() =~= decimal(value / 10));
        assert forall|i: int| 0 <= i < text.len() implies is_digit(#[trigger] text[i]) by {
            if i < text.len() - 1 {
                assert(text[i] == decimal(value / 10)[i]);
            }
        }
        assert(text[0] == decimal(value / 10)[0]);
    } else {
        assert(text.drop_last() =~= Seq::<char>::empty());
        assert(digits_value(text.drop_last()) == 0);
    }
    assert(digits_value(text) == 10 * digits_value(text.drop_last()) + digit_value(text.last()));
}

/// Reading the numeral of an integer gives the integer back.
pub proof fn signed_decimal_round_trip(value: int)
    ensures
        signed_numeral(signed_decimal(value)) == Some(value),
{
    if value < 0 {
        decimal_round_trip((-value) as nat);
        assert(signed_decimal(value).drop_first() =~= decimal((-value) as nat));
    } else {
        decimal_round_trip(value as nat);
    }
}

/// Fixed-width hexadecimal forms of different numbers that fit the width differ.
pub proof fn hexadecimal_injective(a: nat, b: nat, width: nat)
    requires
        hexadecimal(a, width) == hexadecimal(b, width),
        a < vstd::arithmetic::power::pow(16, width),
        b < vstd::arithmetic::power::pow(16, width),
    ensures
        a == b,
    decreases width,
{
    reveal(vstd::arithmetic::power::pow);
    if width > 0 {
        let shorter = (width - 1) as nat;
        let left = hexadecimal(a, width);
        let right = hexadecimal(b, width);
        assert(left.drop_last() =~= hexadecimal(a / 16, shorter));
        assert(right.drop_last() =~= hexadecimal(b / 16, shorter));
        assert(left.last() == right.last());
        assert(a % 16 == b % 16);
        hexadecimal_injective(a / 16, b / 16, shorter);
    }
}

/// Whether a character is the lower-case hexadecimal digit of a number below sixteen.
pub open spec fn writes_digit(c: char, value: int) -> bool {
    if value < 10 {
        c as int == '0' as int + value
    } else {
        c as int == 'a' as int + value - 10
    }
}

/// Bytes are written with two digits each, in order: the upper four bits first.
pub proof fn hexadecimal_bytes_read_back(bytes: Seq<u8>, i: int)
    requires
        0 <= i < bytes.len(),
    ensures
        hexadecimal_bytes(bytes).len() == 2 * bytes.len(),
        writes_digit(hexadecimal_bytes(bytes)[2 * i], bytes[i] as int / 16),
        writes_digit(hexadecimal_bytes(bytes)[2 * i + 1], bytes[i] as int % 16),
    decreases bytes.len(),
{
    let earlier = bytes.drop_last();
    let last = bytes.last() as nat;
    assert(hexadecimal(last, 2) =~= seq![
        digit_char((last / 16 % 16) as int),
        digit_char((last % 16) as int),
    ]) by {
        reveal_with_fuel(hexadecimal, 3);
    }
    if earlier.len() > 0 {
        hexadecimal_bytes_read_back(earlier, if i < earlier.len() { i } else { 0 });
        if i < earlier.len() {
            assert(earlier[i] == bytes[i]);
        }
    } else {
        assert(hexadecimal_bytes(earlier) =~= Seq::<char>::empty());
    }
}

/// Digests that are written alike are alike.
pub proof fn hexadecimal_bytes_injective(a: Seq<u8>, b: Seq<u8>)
    requires
        hexadecimal_bytes(a) == hexadecimal_bytes(b),
    ensures
        a == b,
{
    if a.len() > 0 {
        hexadecimal_bytes_read_back(a, 0);
    }
    if b.len() > 0 {
        hexadecimal_bytes_read_back(b, 0);
    }
    assert(a.len() == b.len());
    assert forall|i: int| 0 <= i < a.len() implies a[i] == b[i] by {
        hexadecimal_bytes_read_back(a, i);
        hexadecimal_bytes_read_back(b, i);
    }
    assert(a =~= b);
}

/// Decimal numerals are positional: the last digit is the remainder by ten, what stands before it is
/// the numeral of the quotient, and a number below ten is one digit.
pub proof fn decimals_are_positional(value: nat)
    ensures
        decimal(value).len() > 0,
        decimal(value).last() as int == '0' as int + value % 10,
        value < 10 ==> decimal(value).len() == 1,
        value >= 10 ==> decimal(value).drop_last() == decimal(value / 10),
{
    if value >= 10 {
        assert(decimal(value).drop_last() =~= decimal(value / 10));
    }
}

/// What counts as a numeral: digits with at most one sign before them, and nothing else.
pub proof fn numerals_are_digits(text: Seq<char>)
    ensures
        text.len() == 0 ==> signed_numeral(text) is None,
        (exists|i: int| 1 <= i < text.len() && !('0' <= #[trigger] text[i] && text[i] <= '9'))
            ==> signed_numeral(text) is None,
        text.len() > 0 && text[0] != '+' && text[0] != '-' && !('0' <= text[0] && text[0] <= '9')
            ==> signed_numeral(text) is None,
        text.len() == 1 && '0' <= text[0] && text[0] <= '9' ==> signed_numeral(text) == Some(
            text[0] as int - '0' as int,
        ),
{
    if exists|i: int| 1 <= i < text.len() && !('0' <= #[trigger] text[i] && text[i] <= '9') {
        let i = choose|i: int| 1 <= i < text.len() && !('0' <= #[trigger] text[i] && text[i] <= '9');
        assert(text.drop_first()[i - 1] == text[i]);
        assert(!is_digit(text[i]));
    }
    if text.len() > 0 && !('0' <= text[0] && text[0] <= '9') {
        assert(!is_digit(text[0]));
    }
    if text.len() == 1 && '0' <= text[0] && text[0] <= '9' {
        assert(text.drop_last() =~= Seq::<char>::empty());
        assert(digits_value(text.drop_last()) == 0);
        assert(is_digit(text[0]));
    }
}

} // verus!
