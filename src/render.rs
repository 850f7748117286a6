use vstd::prelude::*;

use crate::hex::{byte_to_hex, hex_digit, hex_value, is_hex_digit, nibble};
use crate::layout::Uuid;
use crate::parse::{
    decode_digits, decoded, digit_pos, first_bad_digit, group_end, group_error, group_len,
    group_start, parse_text, ParseError, SEPARATOR,
};

verus! {

#[verifier::external_type_specification]
#[verifier::external_body]
#[verifier::reject_recursive_types(S)]
pub struct ExStrBuf<S>(str_buf::StrBuf<S>);

/// The bytes written so far into a 36-byte text buffer.
pub uninterp spec fn text_bytes(buf: str_buf::StrBuf<[u8; 36]>) -> Seq<u8>;

/// Relies on str_buf's `StrBuf::new`: a buffer with nothing written.
#[verifier::external_body]
fn empty_text() -> (r: str_buf::StrBuf<[u8; 36]>)
    ensures
        text_bytes(r) == Seq::<u8>::empty(),
{
    str_buf::StrBuf::new()
}

/// Relies on `core::fmt::Write::write_char` for `StrBuf`, which encodes the
/// character and hands it to `StrBuf::push_str`: an ASCII character takes
/// one byte and is appended whole while the 36-byte buffer has room.
#[verifier::external_body]
fn push_ascii(buf: &mut str_buf::StrBuf<[u8; 36]>, c: u8)
    requires
        c < 128,
        text_bytes(*old(buf)).len() < 36,
    ensures
        text_bytes(*final(buf)) == text_bytes(*old(buf)).push(c),
{
    let _ = core::fmt::Write::write_char(buf, c as char);
}

/// Whether offset `k` of the hyphenated form holds a separator.
pub open spec fn is_separator_pos(k: int) -> bool {
    k == 8 || k == 13 || k == 18 || k == 23
}

/// For an offset `k` of the hyphenated form that holds a digit, which digit
/// (counted from 0) it is.
pub open spec fn digit_index(k: int) -> int {
    k - (if k > 8 {
        1int
    } else {
        0
    }) - (if k > 13 {
        1int
    } else {
        0
    }) - (if k > 18 {
        1int
    } else {
        0
    }) - (if k > 23 {
        1int
    } else {
        0
    })
}

/// The `j`-th nibble of `b`, high nibble of each byte first.
pub open spec fn nibble_at(b: Seq<u8>, j: int) -> u8 {
    nibble(
        b[j / 2],
        if j % 2 == 0 {
            1usize
        } else {
            0usize
        },
    )
}

/// The canonical text of the bytes `b`: 36 ASCII bytes, lowercase hex digits
/// for bytes 0-3, 4-5, 6-7, 8-9 and 10-15, separated by hyphens.
pub open spec fn canonical_text(b: Seq<u8>) -> Seq<u8> {
    Seq::new(
        36,
        |k: int|
            if is_separator_pos(k) {
                SEPARATOR
            } else {
                hex_digit(nibble_at(b, digit_index(k)))
            },
    )
}

proof fn lemma_nibble_bound(x: u8)
    ensures
        nibble(x, 0) < 16,
        nibble(x, 1) < 16,
        nibble(x, 1) * 16 + nibble(x, 0) == x,
{
    assert(x & 0x0fu8 < 16) by (bit_vector);
    assert(x >> 4u8 < 16) by (bit_vector);
    assert((x >> 4u8) * 16 + (x & 0x0fu8) == x) by (bit_vector);
}

proof fn lemma_hex_digit(n: u8)
    requires
        n < 16,
    ensures
        is_hex_digit(hex_digit(n)),
        hex_value(hex_digit(n)) == n,
        hex_digit(n) != SEPARATOR,
        hex_digit(n) < 128,
{
}

impl Uuid {
    /// The canonical text of the identifier: 36 characters, lowercase hex
    /// digits in groups of 8, 4, 4, 4 and 12, separated by hyphens.
    pub fn to_str(&self) -> (r: str_buf::StrBuf<[u8; 36]>)
        ensures
            text_bytes(r) == canonical_text(self@),
    {
        let data = self.bytes();
        let mut buf = empty_text();
        let mut k: usize = 0;
        while k < 36
            invariant
                data@ == self@,
                data@.len() == 16,
                k <= 36,
                text_bytes(buf) == canonical_text(self@).take(k as int),
            decreases 36 - k,
        {
            let c = if k == 8 || k == 13 || k == 18 || k == 23 {
                SEPARATOR
            } else {
                let mut j = k;
                if k > 8 {
                    j = j - 1;
                }
                if k > 13 {
                    j = j - 1;
                }
                if k > 18 {
                    j = j - 1;
                }
                if k > 23 {
                    j = j - 1;
                }
                assert(j == digit_index(k as int));
                let idx: usize = if j % 2 == 0 {
                    1
                } else {
                    0
                };
                proof {
                    lemma_nibble_bound(data@[(j / 2) as int]);
                    lemma_hex_digit(nibble(data@[(j / 2) as int], idx));
                }
                byte_to_hex(data[j / 2], idx)
            };
            assert(c == canonical_text(self@)[k as int]);
            push_ascii(&mut buf, c);
            assert(canonical_text(self@).take(k as int).push(c) =~= canonical_text(self@).take(
                k + 1,
            ));
            k = k + 1;
        }
        assert(canonical_text(self@).take(36) =~= canonical_text(self@));
        buf
    }
}

/// The canonical text is 36 bytes long, with hyphens at offsets 8, 13, 18
/// and 23 and a lowercase hex digit everywhere else.
pub proof fn lemma_canonical_shape(b: Seq<u8>)
    requires
        b.len() == 16,
    ensures
        canonical_text(b).len() == 36,
        canonical_text(b)[8] == SEPARATOR,
        canonical_text(b)[13] == SEPARATOR,
        canonical_text(b)[18] == SEPARATOR,
        canonical_text(b)[23] == SEPARATOR,
        forall|k: int|
            0 <= k < 36 && !is_separator_pos(k) ==> {
                let c = #[trigger] canonical_text(b)[k];
                ||| 0x30 <= c <= 0x39
                ||| 0x61 <= c <= 0x66
            },
{
    assert forall|k: int| 0 <= k < 36 && !is_separator_pos(k) implies {
        let c = #[trigger] canonical_text(b)[k];
        ||| 0x30 <= c <= 0x39
        ||| 0x61 <= c <= 0x66
    } by {
        lemma_nibble_bound(b[digit_index(k) / 2]);
    }
}

proof fn lemma_group_end(s: Seq<u8>, a: int, e: int)
    requires
        0 <= a <= e <= s.len(),
        forall|i: int| a <= i < e ==> s[i] != SEPARATOR,
        e == s.len() || s[e] == SEPARATOR,
    ensures
        group_end(s, a) == e,
    decreases e - a,
{
    if a < e {
        lemma_group_end(s, a + 1, e);
    }
}

proof fn lemma_no_bad_digit(s: Seq<u8>, hyphenated: bool, j: int)
    requires
        0 <= j <= 32,
        forall|i: int| j <= i < 32 ==> is_hex_digit(#[trigger] s[digit_pos(hyphenated, i)]),
    ensures
        first_bad_digit(s, hyphenated, j) == None::<int>,
    decreases 32 - j,
{
    if j < 32 {
        lemma_no_bad_digit(s, hyphenated, j + 1);
    }
}

/// Reading the canonical text of any sixteen bytes gives those bytes back.
pub proof fn lemma_round_trip(b: Seq<u8>)
    requires
        b.len() == 16,
    ensures
        parse_text(canonical_text(b)) == Ok::<Seq<u8>, ParseError>(b),
{
    let t = canonical_text(b);
    assert forall|k: int| 0 <= k < 36 && !is_separator_pos(k) implies t[k] != SEPARATOR && t[k]
        == hex_digit(nibble_at(b, digit_index(k))) && nibble_at(b, digit_index(k)) < 16 by {
        lemma_nibble_bound(b[digit_index(k) / 2]);
    }
    lemma_group_end(t, 0, 8);
    lemma_group_end(t, 9, 13);
    lemma_group_end(t, 14, 18);
    lemma_group_end(t, 19, 23);
    lemma_group_end(t, 24, 36);
    assert(group_error(t, 5) == None::<ParseError>);
    assert(group_error(t, 4) == None::<ParseError>);
    assert(group_error(t, 3) == None::<ParseError>);
    assert(group_error(t, 2) == None::<ParseError>);
    assert(group_error(t, 1) == None::<ParseError>);
    assert(group_error(t, 0) == None::<ParseError>);
    assert forall|j: int| 0 <= j < 32 implies is_hex_digit(#[trigger] t[digit_pos(true, j)])
        && hex_value(t[digit_pos(true, j)]) == nibble_at(b, j) by {
        let k = digit_pos(true, j);
        assert(!is_separator_pos(k) && digit_index(k) == j);
        lemma_hex_digit(nibble_at(b, j));
    }
    lemma_no_bad_digit(t, true, 0);
    assert forall|i: int| 0 <= i < 16 implies #[trigger] decoded(t, true)[i] == b[i] by {
        assert((2 * i) / 2 == i && (2 * i) % 2 == 0);
        assert((2 * i + 1) / 2 == i && (2 * i + 1) % 2 == 1);
        lemma_nibble_bound(b[i]);
    }
    assert(decoded(t, true) =~= b);
    assert(decode_digits(t, true) == Ok::<Seq<u8>, ParseError>(b));
}

} // verus!
