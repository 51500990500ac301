//! The version of the blit engine's library, as the library spells it.

use vstd::prelude::*;
use vstd::slice::slice_subrange;

verus! {

/// A version: three numbers and a build number.
#[derive(Clone, Copy, Debug, PartialEq, Eq, Structural, PartialOrd, Ord)]
pub struct Version {
    pub major: i64,
    pub minor: i64,
    pub patch: i64,
    pub num: i64,
}

impl Default for Version {
    /// The version whose every number is zero.
    fn default() -> (v: Version)
        ensures
            v == (Version { major: 0, minor: 0, patch: 0, num: 0 }),
    {
        Version { major: 0, minor: 0, patch: 0, num: 0 }
    }
}

impl Version {
    /// The version of the given numbers.
    pub fn new(major: i64, minor: i64, patch: i64, num: i64) -> (v: Version)
        ensures
            v == (Version { major, minor, patch, num }),
    {
        Version { major, minor, patch, num }
    }
}

/// The length of the tag that stands before the numbers, `$VERSION$`.
pub const TAG_LEN: usize = 9;

/// The byte `:`, which parts a version text.
pub const COLON: u8 = 0x3a;

/// The byte `.`, which parts the numbers.
pub const DOT: u8 = 0x2e;

/// Whether the first field of a text is `n` bytes long: there is no
/// separator before `n`, and the text ends at `n` or has a separator there.
pub open spec fn field_ends(text: Seq<u8>, separator: u8, n: int) -> bool {
    &&& 0 <= n <= text.len()
    &&& forall|j: int| 0 <= j < n ==> text[j] != separator
    &&& n == text.len() || text[n] == separator
}

/// The length of the first field of a text.
pub open spec fn first_len(text: Seq<u8>, separator: u8) -> int {
    choose|n: int| field_ends(text, separator, n)
}

/// The field of a text at `index`, counted from zero, where separators
/// part the text into fields. A text without separators is one field; a
/// text has one field more than it has separators.
pub open spec fn field(text: Seq<u8>, separator: u8, index: nat) -> Option<Seq<u8>>
    decreases index,
{
    let n = first_len(text, separator);
    if index == 0 {
        Some(text.take(n))
    } else if n >= text.len() {
        None
    } else {
        field(text.skip(n + 1), separator, (index - 1) as nat)
    }
}

/// Whether a byte is a decimal digit.
pub open spec fn is_digit(byte: u8) -> bool {
    0x30 <= byte <= 0x39
}

/// Whether every byte of a text is a decimal digit.
pub open spec fn all_digits(text: Seq<u8>) -> bool {
    forall|i: int| 0 <= i < text.len() ==> is_digit(#[trigger] text[i])
}

/// The number that decimal digits spell.
pub open spec fn digits_value(digits: Seq<u8>) -> int
    decreases digits.len(),
{
    if digits.len() == 0 {
        0
    } else {
        10 * digits_value(digits.drop_last()) + (digits.last() - 0x30)
    }
}

/// The number that a text spells: decimal digits, at least one, after an
/// optional `+` or `-`, with a value that fits 64 bits. `None` for any
/// other text.
pub open spec fn number(text: Seq<u8>) -> Option<i64> {
    if text.len() == 0 {
        None
    } else {
        let signed = text[0] == 0x2d || text[0] == 0x2b;
        let digits = if signed {
            text.skip(1)
        } else {
            text
        };
        let value = if text[0] == 0x2d {
            -digits_value(digits)
        } else {
            digits_value(digits)
        };
        if digits.len() > 0 && all_digits(digits) && i64::MIN <= value <= i64::MAX {
            Some(value as i64)
        } else {
            None
        }
    }
}

/// The number that a field spells, and zero where there is no such field or
/// it spells no number.
pub open spec fn number_or_zero(text: Option<Seq<u8>>) -> i64 {
    match text {
        Some(text) => match number(text) {
            Some(value) => value,
            None => 0,
        },
        None => 0,
    }
}

/// The version that a version text spells. After the tag the text has
/// fields parted by `:`. The first holds major, minor and patch number,
/// parted by `.`; the second holds the build number. A number that is not
/// there, or is not spelt as a number, is zero. A text shorter than the tag
/// spells no version.
pub open spec fn version_of(text: Seq<u8>) -> Option<Version> {
    if text.len() < TAG_LEN {
        None
    } else {
        let body = text.skip(TAG_LEN as int);
        let numbers = field(body, COLON, 0).unwrap();
        Some(
            Version {
                major: number_or_zero(field(numbers, DOT, 0)),
                minor: number_or_zero(field(numbers, DOT, 1)),
                patch: number_or_zero(field(numbers, DOT, 2)),
                num: number_or_zero(field(body, COLON, 1)),
            },
        )
    }
}

/// The first field of a text is as long as any length at which a first
/// field can end.
pub proof fn lemma_first_len(text: Seq<u8>, separator: u8, n: int)
    requires
        field_ends(text, separator, n),
    ensures
        first_len(text, separator) == n,
{
    let m = first_len(text, separator);
    if m < n {
        assert(text[m] != separator);
    }
    if n < m {
        assert(text[n] != separator);
    }
}

/// Digits spell at least what any of their prefixes spells.
pub proof fn lemma_digits_grow(digits: Seq<u8>, k: int)
    requires
        all_digits(digits),
        0 <= k <= digits.len(),
    ensures
        0 <= digits_value(digits.take(k)) <= digits_value(digits),
    decreases digits.len(),
{
    if k == digits.len() {
        assert(digits.take(k) =~= digits);
        if digits.len() > 0 {
            assert(is_digit(digits.last()));
            assert(all_digits(digits.drop_last()));
            lemma_digits_grow(digits.drop_last(), k - 1);
        }
    } else {
        assert(is_digit(digits.last()));
        assert(all_digits(digits.drop_last()));
        assert(digits.drop_last().take(k) =~= digits.take(k));
        lemma_digits_grow(digits.drop_last(), k);
    }
}

/// Where the first field of `text` ends, counted from `start`.
fn field_stop(text: &[u8], separator: u8, start: usize) -> (stop: usize)
    requires
        start <= text@.len(),
    ensures
        start <= stop <= text@.len(),
        stop - start == first_len(text@.skip(start as int), separator),
{
    let mut stop = start;
    while stop < text.len() && text[stop] != separator
        invariant
            start <= stop <= text@.len(),
            forall|j: int| start <= j < stop ==> text@[j] != separator,
        decreases text@.len() - stop,
    {
        stop = stop + 1;
    }
    proof {
        lemma_first_len(text@.skip(start as int), separator, stop - start);
    }
    stop
}

/// The field of a text at `index`.
pub fn field_at(text: &[u8], separator: u8, index: usize) -> (r: Option<&[u8]>)
    ensures
        match r {
            Some(found) => field(text@, separator, index as nat) == Some(found@),
            None => field(text@, separator, index as nat) is None,
        },
{
    let mut start: usize = 0;
    let mut passed: usize = 0;
    assert(text@.skip(0) =~= text@);
    while passed < index
        invariant
            passed <= index,
            start <= text@.len(),
            field(text@, separator, index as nat) == field(
                text@.skip(start as int),
                separator,
                (index - passed) as nat,
            ),
        decreases index - passed,
    {
        let stop = field_stop(text, separator, start);
        if stop >= text.len() {
            return None;
        }
        assert(text@.skip(start as int).skip(stop - start + 1) =~= text@.skip(stop + 1));
        start = stop + 1;
        passed = passed + 1;
    }
    let stop = field_stop(text, separator, start);
    let found = slice_subrange(text, start, stop);
    assert(found@ =~= text@.skip(start as int).take(stop - start));
    Some(found)
}

/// The number that a text spells.
pub fn parse_number(text: &[u8]) -> (r: Option<i64>)
    ensures
        r == number(text@),
{
    let len = text.len();
    if len == 0 {
        return None;
    }
    let negative = text[0] == 0x2d;
    let start: usize = if text[0] == 0x2d || text[0] == 0x2b {
        1
    } else {
        0
    };
    let ghost digits = text@.skip(start as int);
    assert(text@.skip(0) =~= text@);
    if start == len {
        return None;
    }
    let mut value: i128 = 0;
    let mut i: usize = start;
    assert(digits.take(0) =~= Seq::<u8>::empty());
    while i < len
        invariant
            start <= i <= len,
            start < len,
            len == text@.len(),
            negative == (text@[0] == 0x2d),
            start == if text@[0] == 0x2d || text@[0] == 0x2b {
                1usize
            } else {
                0usize
            },
            digits == text@.skip(start as int),
            start == 0 ==> digits == text@,
            all_digits(digits.take(i - start)),
            value == digits_value(digits.take(i - start)),
            0 <= value <= 0x8000_0000_0000_0000,
        decreases len - i,
    {
        let byte = text[i];
        if byte < 0x30 || byte > 0x39 {
            assert(!is_digit(digits[i - start]));
            return None;
        }
        let ghost shorter = digits.take(i - start);
        let ghost longer = digits.take(i - start + 1);
        assert(longer.drop_last() =~= shorter);
        assert(longer.last() == byte);
        assert(all_digits(longer)) by {
            assert forall|j: int| 0 <= j < longer.len() implies is_digit(#[trigger] longer[j]) by {
                if j < shorter.len() {
                    assert(is_digit(shorter[j]));
                }
            }
        }
        value = value * 10 + (byte - 0x30) as i128;
        i = i + 1;
        assert(value == digits_value(longer));
        if value > 0x8000_0000_0000_0000 {
            proof {
                if all_digits(digits) {
                    lemma_digits_grow(digits, i - start);
                    assert(digits_value(digits) > 0x8000_0000_0000_0000);
                }
            }
            return None;
        }
    }
    assert(digits.take(i - start) =~= digits);
    if negative {
        Some((-value) as i64)
    } else if value > 0x7fff_ffff_ffff_ffff {
        None
    } else {
        Some(value as i64)
    }
}

/// The number that a field spells, or zero.
fn field_number(text: Option<&[u8]>) -> (value: i64)
    ensures
        value == number_or_zero(
            match text {
                Some(text) => Some(text@),
                None => None,
            },
        ),
{
    match text {
        Some(text) => match parse_number(text) {
            Some(value) => value,
            None => 0,
        },
        None => 0,
    }
}

/// Reads the version out of a version text, such as
/// `$VERSION$6.4.3:398061:d3dac3f35d$`.
pub fn guess_version(text: &[u8]) -> (r: Option<Version>)
    ensures
        r == version_of(text@),
{
    if text.len() < TAG_LEN {
        return None;
    }
    let body = slice_subrange(text, TAG_LEN, text.len());
    assert(body@ =~= text@.skip(TAG_LEN as int));
    let numbers = match field_at(body, COLON, 0) {
        Some(numbers) => numbers,
        None => body,
    };
    let major = field_number(field_at(numbers, DOT, 0));
    let minor = field_number(field_at(numbers, DOT, 1));
    let patch = field_number(field_at(numbers, DOT, 2));
    let num = field_number(field_at(body, COLON, 1));
    Some(Version { major, minor, patch, num })
}

} // verus!
