use vstd::prelude::*;

verus! {

/// ASCII `0`.
pub const ASCII_ZERO: u8 = 0x30;

/// ASCII `9`.
pub const ASCII_NINE: u8 = 0x39;

/// ASCII `a`.
pub const ASCII_LOWER_A: u8 = 0x61;

/// ASCII `f`.
pub const ASCII_LOWER_F: u8 = 0x66;

/// ASCII `A`.
pub const ASCII_UPPER_A: u8 = 0x41;

/// ASCII `F`.
pub const ASCII_UPPER_F: u8 = 0x46;

/// Lowercase hex digits (`0`-`9`, `a`-`f`), indexed by their value.
const HEX_DIGITS: [u8; 16] = [
    0x30, 0x31, 0x32, 0x33, 0x34, 0x35, 0x36, 0x37, 0x38, 0x39, 0x61, 0x62, 0x63, 0x64, 0x65, 0x66,
];

/// The lowercase ASCII hex digit of a value below 16.
pub open spec fn hex_digit(n: u8) -> u8 {
    if n < 10 {
        (ASCII_ZERO + n) as u8
    } else {
        (ASCII_LOWER_A + n - 10) as u8
    }
}

/// The low nibble of `byt` when `idx` is 0, the high nibble when it is 1.
pub open spec fn nibble(byt: u8, idx: usize) -> u8 {
    if idx == 0 {
        byt & 0x0fu8
    } else {
        byt >> 4u8
    }
}

/// Whether `c` is an ASCII hex digit, in either case.
pub open spec fn is_hex_digit(c: u8) -> bool {
    (ASCII_ZERO <= c <= ASCII_NINE) || (ASCII_LOWER_A <= c <= ASCII_LOWER_F) || (ASCII_UPPER_A <= c
        <= ASCII_UPPER_F)
}

/// The value of an ASCII hex digit.
pub open spec fn hex_value(c: u8) -> u8 {
    if c <= ASCII_NINE {
        (c - ASCII_ZERO) as u8
    } else if c >= ASCII_LOWER_A {
        (c - ASCII_LOWER_A + 10) as u8
    } else {
        (c - ASCII_UPPER_A + 10) as u8
    }
}

/// The lowercase hex digit of one nibble of `byt`: the high one for `idx`
/// 1, the low one for `idx` 0.
pub fn byte_to_hex(byt: u8, idx: usize) -> (r: u8)
    requires
        idx <= 1,
    ensures
        r == hex_digit(nibble(byt, idx)),
{
    let k = ((byt as usize) >> (4 * idx)) & 0xf;
    assert(k < 16 && k == nibble(byt, idx) as usize) by (bit_vector)
        requires
            idx <= 1,
            k == ((byt as usize) >> (4 * idx)) & 0xf,
            nibble(byt, idx) == if idx == 0 {
                byt & 0x0fu8
            } else {
                byt >> 4u8
            },
    ;
    HEX_DIGITS[k]
}

} // verus!
