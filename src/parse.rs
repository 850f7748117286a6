use vstd::prelude::*;
use vstd::string::StringSliceAdditionalSpecFns;

use crate::hex::{hex_value, is_hex_digit, ASCII_LOWER_A, ASCII_LOWER_F, ASCII_NINE, ASCII_UPPER_A, ASCII_UPPER_F, ASCII_ZERO};
use crate::layout::Uuid;

verus! {

/// ASCII `-`, which separates the groups of the hyphenated form.
pub const SEPARATOR: u8 = 0x2d;

/// Length of the hyphenated text form.
pub const HYPHENATED_LEN: usize = 36;

/// Length of the compact text form.
pub const COMPACT_LEN: usize = 32;

/// Lengths of the five groups of the hyphenated form, in order.
const GROUP_LENS: [usize; 5] = [8, 4, 4, 4, 12];

/// Why a text could not be read as an identifier.
#[derive(Debug, PartialEq, Eq, Clone, Copy, Structural)]
pub enum ParseError {
    /// The text is neither 36 nor 32 bytes long; holds its length.
    InvalidLength(usize),
    /// A group of the hyphenated form has the wrong length: the group's
    /// number (counted from 1), the length it must have, and its length.
    InvalidGroupLen(u8, usize, usize),
    /// A byte that is not a hex digit: the byte, and its offset in the text.
    InvalidByte(u8, usize),
}

/// Offset in the hyphenated form at which group `g` (counted from 0) starts,
/// when the groups before it have their right lengths.
pub open spec fn group_start(g: int) -> int {
    if g == 0 {
        0
    } else if g == 1 {
        9
    } else if g == 2 {
        14
    } else if g == 3 {
        19
    } else {
        24
    }
}

/// The length that group `g` (counted from 0) must have.
pub open spec fn group_len(g: int) -> int {
    if g == 0 {
        8
    } else if g == 4 {
        12
    } else {
        4
    }
}

/// Index of the first separator in `s` at or after `i`, or the length of
/// `s` when there is none: where a group that starts at `i` ends.
pub open spec fn group_end(s: Seq<u8>, i: int) -> int
    decreases s.len() - i,
{
    if i >= s.len() {
        s.len() as int
    } else if s[i] == SEPARATOR {
        i
    } else {
        group_end(s, i + 1)
    }
}

/// The first group, from group `g` on, whose length is wrong, as an error.
pub open spec fn group_error(s: Seq<u8>, g: int) -> Option<ParseError>
    decreases 5 - g,
{
    if g >= 5 {
        None
    } else {
        let actual = group_end(s, group_start(g)) - group_start(g);
        if actual != group_len(g) {
            Some(ParseError::InvalidGroupLen((g + 1) as u8, group_len(g) as usize, actual as usize))
        } else {
            group_error(s, g + 1)
        }
    }
}

/// Offset of the `j`-th hex digit (counted from 0) in the hyphenated form,
/// or in the compact form.
pub open spec fn digit_pos(hyphenated: bool, j: int) -> int {
    if hyphenated {
        j + (if j >= 8 {
            1int
        } else {
            0
        }) + (if j >= 12 {
            1int
        } else {
            0
        }) + (if j >= 16 {
            1int
        } else {
            0
        }) + (if j >= 20 {
            1int
        } else {
            0
        })
    } else {
        j
    }
}

/// Offset of the first of the digits `j..32` that is not a hex digit.
pub open spec fn first_bad_digit(s: Seq<u8>, hyphenated: bool, j: int) -> Option<int>
    decreases 32 - j,
{
    if j >= 32 {
        None
    } else if !is_hex_digit(s[digit_pos(hyphenated, j)]) {
        Some(digit_pos(hyphenated, j))
    } else {
        first_bad_digit(s, hyphenated, j + 1)
    }
}

/// The byte spelled by the two hex digits at offset `c` and `c + 1`, or the
/// first of them that is not a hex digit, reported at its offset plus `base`.
pub open spec fn hex_pair(s: Seq<u8>, c: int, base: int) -> Result<u8, ParseError> {
    if !is_hex_digit(s[c]) {
        Err(ParseError::InvalidByte(s[c], (c + base) as usize))
    } else if !is_hex_digit(s[c + 1]) {
        Err(ParseError::InvalidByte(s[c + 1], (c + 1 + base) as usize))
    } else {
        Ok((hex_value(s[c]) * 16 + hex_value(s[c + 1])) as u8)
    }
}

/// The sixteen bytes spelled by the 32 hex digits of `s`.
pub open spec fn decoded(s: Seq<u8>, hyphenated: bool) -> Seq<u8> {
    Seq::new(
        16,
        |i: int|
            (hex_value(s[digit_pos(hyphenated, 2 * i)]) * 16 + hex_value(
                s[digit_pos(hyphenated, 2 * i + 1)],
            )) as u8,
    )
}

/// The bytes spelled by the digits of `s`, or the first byte that is not a
/// hex digit.
pub open spec fn decode_digits(s: Seq<u8>, hyphenated: bool) -> Result<Seq<u8>, ParseError> {
    match first_bad_digit(s, hyphenated, 0) {
        Some(p) => Err(ParseError::InvalidByte(s[p], p as usize)),
        None => Ok(decoded(s, hyphenated)),
    }
}

/// What reading the text `s` gives: the sixteen bytes, or the error.
/// The length decides the form; in the hyphenated form the group lengths are
/// checked from left to right before any digit is read.
pub open spec fn parse_text(s: Seq<u8>) -> Result<Seq<u8>, ParseError> {
    if s.len() == HYPHENATED_LEN {
        match group_error(s, 0) {
            Some(e) => Err(e),
            None => decode_digits(s, true),
        }
    } else if s.len() == COMPACT_LEN {
        decode_digits(s, false)
    } else {
        Err(ParseError::InvalidLength(s.len() as usize))
    }
}

/// The value of an ASCII hex digit, or `None` for any other byte.
fn hex_digit_value(chr: u8) -> (r: Option<u8>)
    ensures
        r is Some <==> is_hex_digit(chr),
        r matches Some(v) ==> v == hex_value(chr) && v < 16,
{
    if ASCII_ZERO <= chr && chr <= ASCII_NINE {
        Some(chr - ASCII_ZERO)
    } else if ASCII_LOWER_A <= chr && chr <= ASCII_LOWER_F {
        Some(chr - ASCII_LOWER_A + 10)
    } else if ASCII_UPPER_A <= chr && chr <= ASCII_UPPER_F {
        Some(chr - ASCII_UPPER_A + 10)
    } else {
        None
    }
}

/// Reads the two hex digits at `cursor` as one byte. An error reports the
/// offending byte at its offset plus `error_offset`.
fn hex_to_byte(hex: &[u8], cursor: usize, error_offset: usize) -> (r: Result<u8, ParseError>)
    requires
        cursor + 1 < hex@.len(),
        cursor + 1 + error_offset <= usize::MAX,
    ensures
        r == hex_pair(hex@, cursor as int, error_offset as int),
{
    let left = match hex_digit_value(hex[cursor]) {
        Some(v) => v,
        None => return Err(ParseError::InvalidByte(hex[cursor], cursor + error_offset)),
    };
    let right = match hex_digit_value(hex[cursor + 1]) {
        Some(v) => v,
        None => return Err(ParseError::InvalidByte(hex[cursor + 1], cursor + 1 + error_offset)),
    };
    Ok(left * 16 + right)
}

/// Offset of the `j`-th hex digit in the hyphenated or the compact form.
fn digit_offset(hyphenated: bool, j: usize) -> (r: usize)
    requires
        j < 32,
    ensures
        r == digit_pos(hyphenated, j as int),
{
    if !hyphenated {
        return j;
    }
    let mut r = j;
    if j >= 8 {
        r = r + 1;
    }
    if j >= 12 {
        r = r + 1;
    }
    if j >= 16 {
        r = r + 1;
    }
    if j >= 20 {
        r = r + 1;
    }
    r
}

/// Where the group that starts at `start` ends: the next separator, or the
/// end of the input.
fn group_end_from(input: &[u8], start: usize) -> (r: usize)
    requires
        start <= input@.len(),
    ensures
        r == group_end(input@, start as int),
        start <= r <= input@.len(),
{
    let mut i = start;
    while i < input.len() && input[i] != SEPARATOR
        invariant
            start <= i <= input@.len(),
            group_end(input@, start as int) == group_end(input@, i as int),
        decreases input@.len() - i,
    {
        i = i + 1;
    }
    i
}

/// Checks the lengths of the five groups of a 36-byte text, from left to
/// right, and reports the first one that is wrong.
fn check_groups(input: &[u8]) -> (r: Option<ParseError>)
    requires
        input@.len() == HYPHENATED_LEN,
    ensures
        r == group_error(input@, 0),
{
    let mut g: usize = 0;
    let mut start: usize = 0;
    while g < 5
        invariant
            input@.len() == HYPHENATED_LEN,
            g <= 5,
            g < 5 ==> start == group_start(g as int),
            group_error(input@, 0) == group_error(input@, g as int),
        decreases 5 - g,
    {
        let expected = GROUP_LENS[g];
        assert(expected == group_len(g as int));
        let end = group_end_from(input, start);
        if end - start != expected {
            return Some(ParseError::InvalidGroupLen((g + 1) as u8, expected, end - start));
        }
        start = end + 1;
        g = g + 1;
    }
    None
}

/// Reads the 32 hex digits of a text in the given form, pairwise, into
/// sixteen bytes; stops at the first byte that is not a hex digit.
fn decode_text(input: &[u8], hyphenated: bool) -> (r: Result<[u8; 16], ParseError>)
    requires
        input@.len() == if hyphenated {
            HYPHENATED_LEN
        } else {
            COMPACT_LEN
        },
    ensures
        match r {
            Ok(b) => decode_digits(input@, hyphenated) == Ok::<Seq<u8>, ParseError>(b@),
            Err(e) => decode_digits(input@, hyphenated) == Err::<Seq<u8>, ParseError>(e),
        },
{
    let ghost s = input@;
    let mut out = [0u8; 16];
    let mut i: usize = 0;
    while i < 16
        invariant
            s == input@,
            s.len() == if hyphenated {
                HYPHENATED_LEN
            } else {
                COMPACT_LEN
            },
            i <= 16,
            first_bad_digit(s, hyphenated, 0) == first_bad_digit(s, hyphenated, 2 * i),
            forall|k: int| 0 <= k < i ==> out@[k] == #[trigger] decoded(s, hyphenated)[k],
        decreases 16 - i,
    {
        let cursor = digit_offset(hyphenated, 2 * i);
        assert(digit_pos(hyphenated, 2 * i + 1) == cursor + 1);
        match hex_to_byte(input, cursor, 0) {
            Ok(b) => {
                assert(first_bad_digit(s, hyphenated, 2 * i + 1) == first_bad_digit(
                    s,
                    hyphenated,
                    2 * i + 2,
                ));
                out[i] = b;
            },
            Err(e) => {
                assert(is_hex_digit(s[cursor as int]) ==> first_bad_digit(s, hyphenated, 2 * i)
                    == first_bad_digit(s, hyphenated, 2 * i + 1));
                return Err(e);
            },
        }
        i = i + 1;
    }
    assert(out@ =~= decoded(s, hyphenated));
    Ok(out)
}

impl Uuid {
    /// Reads an identifier from ASCII text: 36 bytes in five hyphen-separated
    /// groups of 8, 4, 4, 4 and 12 hex digits, or 32 hex digits. Upper and
    /// lower case digits are both accepted.
    pub fn parse_ascii_bytes(input: &[u8]) -> (r: Result<Uuid, ParseError>)
        ensures
            match r {
                Ok(u) => parse_text(input@) == Ok::<Seq<u8>, ParseError>(u@),
                Err(e) => parse_text(input@) == Err::<Seq<u8>, ParseError>(e),
            },
    {
        let len = input.len();
        let decoded = if len == HYPHENATED_LEN {
            match check_groups(input) {
                Some(e) => return Err(e),
                None => decode_text(input, true),
            }
        } else if len == COMPACT_LEN {
            decode_text(input, false)
        } else {
            return Err(ParseError::InvalidLength(len));
        };
        match decoded {
            Ok(bytes) => Ok(Uuid::from_bytes(bytes)),
            Err(e) => Err(e),
        }
    }

    /// Reads an identifier from its hyphenated or compact text form; see
    /// `parse_ascii_bytes`.
    pub fn parse_str(input: &str) -> (r: Result<Uuid, ParseError>)
        ensures
            match r {
                Ok(u) => parse_text(input.spec_bytes()) == Ok::<Seq<u8>, ParseError>(u@),
                Err(e) => parse_text(input.spec_bytes()) == Err::<Seq<u8>, ParseError>(e),
            },
    {
        Uuid::parse_ascii_bytes(input.as_bytes())
    }
}

impl core::str::FromStr for Uuid {
    type Err = ParseError;

    fn from_str(input: &str) -> Result<Uuid, ParseError> {
        Uuid::parse_str(input)
    }
}

} // verus!
