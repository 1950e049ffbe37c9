//! Types whose values can be read from text.

use crate::text::same_text;
use vstd::prelude::*;
use vstd::string::is_ascii_spec_bytes;
use vstd::string::StrSliceExecFns;
use vstd::string::StringSliceAdditionalSpecFns;
use vstd::utf8::is_ascii_chars;

verus! {

/// A type whose values are written as text.
///
/// The integers, `bool`, `char` and `String` are read as the standard library
/// writes them.
pub trait FromText: Sized + View {
    /// The value that `text` stands for, or `None` where it stands for none.
    spec fn parsed(text: Seq<char>) -> Option<Self::V>;

    /// Reads a value from `text`.
    fn from_text(text: &str) -> (value: Option<Self>)
        ensures
            match value {
                Some(v) => Self::parsed(text@) == Some(v@),
                None => Self::parsed(text@) is None,
            },
    ;
}

/// The byte that writes `+`.
const PLUS: u8 = 43;

/// The byte that writes `-`.
const MINUS: u8 = 45;

/// The byte that writes `0`.
const ZERO: u8 = 48;

/// The byte that writes `9`.
const NINE: u8 = 57;

/// How far the least signed number of 128 bits is from 0.
const MIN_MAGNITUDE: u128 = 170141183460469231731687303715884105728;

/// Whether every character of `s` is a decimal digit.
pub open spec fn all_digits(s: Seq<char>) -> bool {
    forall|i: int| 0 <= i < s.len() ==> '0' <= #[trigger] s[i] <= '9'
}

/// The number that the decimal digits `s` write; the empty sequence writes 0.
pub open spec fn decimal_value(s: Seq<char>) -> nat
    decreases s.len(),
{
    if s.len() == 0 {
        0
    } else {
        (10 * decimal_value(s.drop_last()) + (s.last() as nat - '0' as nat)) as nat
    }
}

/// The number that the digits of `text` from `start` on write: one or more
/// decimal digits and nothing else.
pub open spec fn digits_from(text: Seq<char>, start: int) -> Option<nat> {
    let digits = text.subrange(start, text.len() as int);
    if digits.len() > 0 && all_digits(digits) {
        Some(decimal_value(digits))
    } else {
        None
    }
}

/// The number that `text` writes: an optional `+`, then one or more decimal
/// digits and nothing else.
pub open spec fn unsigned(text: Seq<char>) -> Option<nat> {
    if text.len() > 0 && text[0] == '+' {
        digits_from(text, 1)
    } else {
        digits_from(text, 0)
    }
}

/// The number that `text` writes, where it is at most `max`.
pub open spec fn unsigned_up_to(text: Seq<char>, max: nat) -> Option<nat> {
    match unsigned(text) {
        Some(v) => if v <= max {
            Some(v)
        } else {
            None
        },
        None => None,
    }
}

/// The number that `text` writes: an optional `+` or `-`, then one or more
/// decimal digits and nothing else.
pub open spec fn signed(text: Seq<char>) -> Option<int> {
    if text.len() > 0 && text[0] == '-' {
        match digits_from(text, 1) {
            Some(v) => Some(-(v as int)),
            None => None,
        }
    } else {
        match unsigned(text) {
            Some(v) => Some(v as int),
            None => None,
        }
    }
}

/// The number that `text` writes, where it is at least `min` and at most `max`.
pub open spec fn signed_between(text: Seq<char>, min: int, max: int) -> Option<int> {
    match signed(text) {
        Some(v) => if min <= v <= max {
            Some(v)
        } else {
            None
        },
        None => None,
    }
}

/// A number does not get smaller when digits are written after it.
proof fn decimal_value_grows(s: Seq<char>, k: int)
    requires
        0 <= k <= s.len(),
        all_digits(s),
    ensures
        decimal_value(s.subrange(0, k)) <= decimal_value(s),
    decreases s.len() - k,
{
    if k == s.len() {
        assert(s.subrange(0, k) =~= s);
    } else {
        let front = s.drop_last();
        decimal_value_grows(front, k);
        assert(front.subrange(0, k) =~= s.subrange(0, k));
    }
}

/// Text that writes a number, with or without a sign, is made of the
/// characters that one byte holds.
proof fn numbers_are_ascii(text: Seq<char>)
    requires
        unsigned(text) is Some || signed(text) is Some,
    ensures
        is_ascii_chars(text),
{
    let start: int = if digits_from(text, 0) is Some {
        0
    } else {
        1
    };
    if start == 1 && text.len() > 0 {
        assert(text[0] == '+' || text[0] == '-');
    }
    let digits = text.subrange(start, text.len() as int);
    assert forall|i: int| 0 <= i < text.len() implies '\0' <= #[trigger] text[i] <= '\u{7f}' by {
        if i >= start {
            assert(text[i] == digits[i - start]);
        }
    }
}

/// Reads the digits of `text` from `start` on as a number of at most `max`.
fn read_digits(text: &str, start: usize, max: u128) -> (value: Option<u128>)
    requires
        is_ascii_chars(text@),
        start <= text@.len(),
    ensures
        match value {
            Some(v) => digits_from(text@, start as int) == Some(v as nat) && v <= max,
            None => digits_from(text@, start as int) matches Some(v) ==> v > max,
        },
{
    let bytes = text.as_bytes();
    proof {
        is_ascii_spec_bytes(text);
    }
    let n: usize = bytes.len();
    let ghost digits = text@.subrange(start as int, n as int);
    if start == n {
        return None;
    }
    let mut acc: u128 = 0;
    let mut i: usize = start;
    while i < n
        invariant
            start <= i <= n,
            n == text@.len(),
            n == bytes@.len(),
            is_ascii_chars(text@),
            forall|k: int| 0 <= k < n ==> bytes@[k] == #[trigger] text@[k] as u8,
            digits == text@.subrange(start as int, n as int),
            all_digits(digits.subrange(0, i - start)),
            acc as nat == decimal_value(digits.subrange(0, i - start)),
            acc <= max,
        decreases n - i,
    {
        let b: u8 = bytes[i];
        let ghost c = text@[i as int];
        assert(c == digits[i - start]);
        if b < ZERO || b > NINE {
            return None;
        }
        let d: u128 = (b - ZERO) as u128;
        proof {
            let upto = digits.subrange(0, i + 1 - start);
            assert(upto.drop_last() =~= digits.subrange(0, i - start));
            assert(decimal_value(upto) == 10 * acc + d);
        }
        if d > max || acc > (max - d) / 10 {
            proof {
                if all_digits(digits) {
                    decimal_value_grows(digits, i + 1 - start);
                }
            }
            return None;
        }
        acc = acc * 10 + d;
        i += 1;
    }
    assert(digits.subrange(0, n - start) =~= digits);
    Some(acc)
}

/// Reads an unsigned decimal number of at most `max`.
pub fn parse_unsigned(text: &str, max: u128) -> (value: Option<u128>)
    ensures
        match value {
            Some(v) => unsigned_up_to(text@, max as nat) == Some(v as nat),
            None => unsigned_up_to(text@, max as nat) is None,
        },
{
    if !text.is_ascii() {
        proof {
            if unsigned(text@) is Some {
                numbers_are_ascii(text@);
            }
        }
        return None;
    }
    let bytes = text.as_bytes();
    proof {
        is_ascii_spec_bytes(text);
    }
    let start: usize = if bytes.len() > 0 && bytes[0] == PLUS {
        1
    } else {
        0
    };
    read_digits(text, start, max)
}

/// Reads a signed decimal number of at least `min` and at most `max`.
pub fn parse_signed(text: &str, min: i128, max: i128) -> (value: Option<i128>)
    ensures
        match value {
            Some(v) => signed_between(text@, min as int, max as int) == Some(v as int),
            None => signed_between(text@, min as int, max as int) is None,
        },
{
    if !text.is_ascii() {
        proof {
            if signed(text@) is Some {
                numbers_are_ascii(text@);
            }
        }
        return None;
    }
    let bytes = text.as_bytes();
    proof {
        is_ascii_spec_bytes(text);
    }
    let negative = bytes.len() > 0 && bytes[0] == MINUS;
    let start: usize = if bytes.len() > 0 && (bytes[0] == PLUS || bytes[0] == MINUS) {
        1
    } else {
        0
    };
    let bound: u128 = if negative {
        MIN_MAGNITUDE
    } else {
        i128::MAX as u128
    };
    match read_digits(text, start, bound) {
        None => None,
        Some(magnitude) => {
            let v: i128 = if !negative {
                magnitude as i128
            } else if magnitude == MIN_MAGNITUDE {
                i128::MIN
            } else {
                0 - (magnitude as i128)
            };
            if min <= v && v <= max {
                Some(v)
            } else {
                None
            }
        },
    }
}

impl FromText for String {
    /// Every text is a string: itself.
    open spec fn parsed(text: Seq<char>) -> Option<Seq<char>> {
        Some(text)
    }

    fn from_text(text: &str) -> (value: Option<String>) {
        Some(text.to_owned())
    }
}

impl FromText for bool {
    /// `true` and `false` are written as these two words, and in no other way.
    open spec fn parsed(text: Seq<char>) -> Option<bool> {
        if text == "true"@ {
            Some(true)
        } else if text == "false"@ {
            Some(false)
        } else {
            None
        }
    }

    fn from_text(text: &str) -> (value: Option<bool>) {
        if same_text(text, "true") {
            Some(true)
        } else if same_text(text, "false") {
            Some(false)
        } else {
            None
        }
    }
}

impl FromText for u8 {
    /// An unsigned decimal number that fits in 8 bits.
    open spec fn parsed(text: Seq<char>) -> Option<u8> {
        match unsigned_up_to(text, u8::MAX as nat) {
            Some(v) => Some(v as u8),
            None => None,
        }
    }

    fn from_text(text: &str) -> (value: Option<u8>) {
        match parse_unsigned(text, u8::MAX as u128) {
            Some(v) => Some(v as u8),
            None => None,
        }
    }
}

impl FromText for u16 {
    /// An unsigned decimal number that fits in 16 bits.
    open spec fn parsed(text: Seq<char>) -> Option<u16> {
        match unsigned_up_to(text, u16::MAX as nat) {
            Some(v) => Some(v as u16),
            None => None,
        }
    }

    fn from_text(text: &str) -> (value: Option<u16>) {
        match parse_unsigned(text, u16::MAX as u128) {
            Some(v) => Some(v as u16),
            None => None,
        }
    }
}

impl FromText for u32 {
    /// An unsigned decimal number that fits in 32 bits.
    open spec fn parsed(text: Seq<char>) -> Option<u32> {
        match unsigned_up_to(text, u32::MAX as nat) {
            Some(v) => Some(v as u32),
            None => None,
        }
    }

    fn from_text(text: &str) -> (value: Option<u32>) {
        match parse_unsigned(text, u32::MAX as u128) {
            Some(v) => Some(v as u32),
            None => None,
        }
    }
}

impl FromText for u64 {
    /// An unsigned decimal number that fits in 64 bits.
    open spec fn parsed(text: Seq<char>) -> Option<u64> {
        match unsigned_up_to(text, u64::MAX as nat) {
            Some(v) => Some(v as u64),
            None => None,
        }
    }

    fn from_text(text: &str) -> (value: Option<u64>) {
        match parse_unsigned(text, u64::MAX as u128) {
            Some(v) => Some(v as u64),
            None => None,
        }
    }
}

impl FromText for u128 {
    /// An unsigned decimal number that fits in 128 bits.
    open spec fn parsed(text: Seq<char>) -> Option<u128> {
        match unsigned_up_to(text, u128::MAX as nat) {
            Some(v) => Some(v as u128),
            None => None,
        }
    }

    fn from_text(text: &str) -> (value: Option<u128>) {
        parse_unsigned(text, u128::MAX)
    }
}

impl FromText for usize {
    /// An unsigned decimal number that fits in an address.
    open spec fn parsed(text: Seq<char>) -> Option<usize> {
        match unsigned_up_to(text, usize::MAX as nat) {
            Some(v) => Some(v as usize),
            None => None,
        }
    }

    fn from_text(text: &str) -> (value: Option<usize>) {
        match parse_unsigned(text, usize::MAX as u128) {
            Some(v) => Some(v as usize),
            None => None,
        }
    }
}

impl FromText for i8 {
    /// A signed decimal number that fits in 8 bits.
    open spec fn parsed(text: Seq<char>) -> Option<i8> {
        match signed_between(text, i8::MIN as int, i8::MAX as int) {
            Some(v) => Some(v as i8),
            None => None,
        }
    }

    fn from_text(text: &str) -> (value: Option<i8>) {
        match parse_signed(text, i8::MIN as i128, i8::MAX as i128) {
            Some(v) => Some(v as i8),
            None => None,
        }
    }
}

impl FromText for i16 {
    /// A signed decimal number that fits in 16 bits.
    open spec fn parsed(text: Seq<char>) -> Option<i16> {
        match signed_between(text, i16::MIN as int, i16::MAX as int) {
            Some(v) => Some(v as i16),
            None => None,
        }
    }

    fn from_text(text: &str) -> (value: Option<i16>) {
        match parse_signed(text, i16::MIN as i128, i16::MAX as i128) {
            Some(v) => Some(v as i16),
            None => None,
        }
    }
}

impl FromText for i32 {
    /// A signed decimal number that fits in 32 bits.
    open spec fn parsed(text: Seq<char>) -> Option<i32> {
        match signed_between(text, i32::MIN as int, i32::MAX as int) {
            Some(v) => Some(v as i32),
            None => None,
        }
    }

    fn from_text(text: &str) -> (value: Option<i32>) {
        match parse_signed(text, i32::MIN as i128, i32::MAX as i128) {
            Some(v) => Some(v as i32),
            None => None,
        }
    }
}

impl FromText for i64 {
    /// A signed decimal number that fits in 64 bits.
    open spec fn parsed(text: Seq<char>) -> Option<i64> {
        match signed_between(text, i64::MIN as int, i64::MAX as int) {
            Some(v) => Some(v as i64),
            None => None,
        }
    }

    fn from_text(text: &str) -> (value: Option<i64>) {
        match parse_signed(text, i64::MIN as i128, i64::MAX as i128) {
            Some(v) => Some(v as i64),
            None => None,
        }
    }
}

impl FromText for i128 {
    /// A signed decimal number that fits in 128 bits.
    open spec fn parsed(text: Seq<char>) -> Option<i128> {
        match signed_between(text, i128::MIN as int, i128::MAX as int) {
            Some(v) => Some(v as i128),
            None => None,
        }
    }

    fn from_text(text: &str) -> (value: Option<i128>) {
        match parse_signed(text, i128::MIN as i128, i128::MAX as i128) {
            Some(v) => Some(v as i128),
            None => None,
        }
    }
}

impl FromText for isize {
    /// A signed decimal number that fits in an offset between addresses.
    open spec fn parsed(text: Seq<char>) -> Option<isize> {
        match signed_between(text, isize::MIN as int, isize::MAX as int) {
            Some(v) => Some(v as isize),
            None => None,
        }
    }

    fn from_text(text: &str) -> (value: Option<isize>) {
        match parse_signed(text, isize::MIN as i128, isize::MAX as i128) {
            Some(v) => Some(v as isize),
            None => None,
        }
    }
}

impl FromText for char {
    /// A character is written as itself: a text of that one character.
    open spec fn parsed(text: Seq<char>) -> Option<char> {
        if text.len() == 1 {
            Some(text[0])
        } else {
            None
        }
    }

    fn from_text(text: &str) -> (value: Option<char>) {
        if text.unicode_len() == 1 {
            Some(text.get_char(0))
        } else {
            None
        }
    }
}

} // verus!
