use vstd::prelude::*;

use crate::layout::{has_variant, has_version, Uuid, Version};

verus! {

/// 100-nanosecond intervals from 1582-10-15 00:00:00 to the Unix epoch.
pub const V1_NS_TICKS: u64 = 0x01B2_1DD2_1381_4000;

/// 100-nanosecond intervals in a second.
pub const TICKS_PER_SECOND: u64 = 10_000_000;

/// Nanoseconds in a second.
pub const NANOS_PER_SECOND: u32 = 1_000_000_000;

/// The ticks since 1582-10-15 of the instant `secs` seconds and `nanos`
/// nanoseconds after the Unix epoch, nanoseconds below 100 dropped.
pub open spec fn unix_ticks(secs: u64, nanos: u32) -> int {
    V1_NS_TICKS + secs * TICKS_PER_SECOND + nanos / 100
}

/// A time for the `v1` algorithm: 100-nanosecond ticks since 1582-10-15
/// 00:00:00, and a counter that tells apart identifiers made within one tick.
#[derive(Clone, Debug, Copy)]
pub struct Timestamp {
    ticks: u64,
    counter: u16,
}

impl View for Timestamp {
    type V = (u64, u16);

    /// The ticks and the counter.
    closed spec fn view(&self) -> (u64, u16) {
        (self.ticks, self.counter)
    }
}

/// Relies on `std::time::SystemTime::now` and `SystemTime::duration_since`
/// the Unix epoch: the whole seconds and the sub-second nanoseconds elapsed
/// (the latter below one billion), or `None` when the clock reads earlier
/// than the epoch.
#[verifier::external_body]
fn unix_time_now() -> (r: Option<(u64, u32)>)
    ensures
        r matches Some(t) ==> t.1 < NANOS_PER_SECOND,
{
    match std::time::SystemTime::now().duration_since(std::time::UNIX_EPOCH) {
        Ok(elapsed) => Some((elapsed.as_secs(), elapsed.subsec_nanos())),
        Err(_) => None,
    }
}

impl Timestamp {
    /// A timestamp from its ticks since 1582-10-15 and its counter.
    pub fn from_parts(ticks: u64, counter: u16) -> (r: Self)
        ensures
            r@ == (ticks, counter),
    {
        Self { ticks, counter }
    }

    /// The timestamp `secs` seconds and `nanos` nanoseconds after the Unix
    /// epoch, with counter 0.
    pub fn from_unix(secs: u64, nanos: u32) -> (r: Self)
        requires
            unix_ticks(secs, nanos) <= u64::MAX,
        ensures
            r@ == (unix_ticks(secs, nanos) as u64, 0u16),
    {
        let ticks = V1_NS_TICKS + secs * TICKS_PER_SECOND + (nanos as u64) / 100;
        Self::from_parts(ticks, 0)
    }

    /// The timestamp of the system clock now, with counter 0; `None` when
    /// the clock reads before the Unix epoch or too far ahead for the ticks
    /// to fit in 64 bits.
    pub fn now() -> (r: Option<Self>)
        ensures
            r matches Some(t) ==> t@.1 == 0 && exists|secs: u64, nanos: u32|
                nanos < NANOS_PER_SECOND && t@.0 == unix_ticks(secs, nanos),
    {
        match unix_time_now() {
            Some((secs, nanos)) => {
                let limit = (u64::MAX - V1_NS_TICKS - (nanos as u64) / 100) / TICKS_PER_SECOND;
                if secs <= limit {
                    let ghost room: int = u64::MAX - V1_NS_TICKS - (nanos as u64) / 100;
                    assert(secs * 10_000_000 <= room) by (nonlinear_arith)
                        requires
                            secs <= limit,
                            limit == room / 10_000_000,
                            room >= 0,
                    ;
                    Some(Self::from_unix(secs, nanos))
                } else {
                    None
                }
            },
            None => None,
        }
    }

    /// The same time with the counter replaced.
    pub fn set_counter(self, counter: u16) -> (r: Self)
        ensures
            r@ == (self@.0, counter),
    {
        Self { ticks: self.ticks, counter }
    }

    /// The ticks and the counter.
    pub fn into_parts(self) -> (r: (u64, u16))
        ensures
            r == self@,
    {
        (self.ticks, self.counter)
    }
}

/// The bytes of a version-1 identifier: bits 0-31 of `ticks` (time-low),
/// bits 32-47 (time-mid) and bits 48-59 (time-high) under the version
/// nibble 1, each big-endian; then the low 14 bits of `counter` under the
/// variant bits `10`; then the six bytes of `node`.
pub open spec fn v1_bytes(ticks: u64, counter: u16, node: Seq<u8>) -> Seq<u8> {
    seq![
        ((ticks >> 24u64) & 0xff) as u8,
        ((ticks >> 16u64) & 0xff) as u8,
        ((ticks >> 8u64) & 0xff) as u8,
        (ticks & 0xff) as u8,
        ((ticks >> 40u64) & 0xff) as u8,
        ((ticks >> 32u64) & 0xff) as u8,
        (((ticks >> 56u64) & 0x0f) | 0x10) as u8,
        ((ticks >> 48u64) & 0xff) as u8,
        (((counter >> 8u16) & 0x3f) | 0x80) as u8,
        (counter & 0xff) as u8,
        node[0],
        node[1],
        node[2],
        node[3],
        node[4],
        node[5],
    ]
}

impl Uuid {
    /// A version-1 identifier from a timestamp and a node (MAC) address. It
    /// comes with its version and variant fields already set.
    pub fn v1(timestamp: Timestamp, mac: [u8; 6]) -> (r: Self)
        ensures
            r@ == v1_bytes(timestamp@.0, timestamp@.1, mac@),
            has_version(r@, Version::Mac),
            has_variant(r@),
    {
        let (ticks, counter) = timestamp.into_parts();
        let time_low = (ticks & 0xFFFF_FFFF) as u32;
        let time_mid = ((ticks >> 32u64) & 0xFFFF) as u16;
        let time_high_and_version = (((ticks >> 48u64) & 0x0FFF) as u16) | (1u16 << 12u16);
        let r = Self::from_bytes(
            [
                (time_low >> 24u32) as u8,
                (time_low >> 16u32) as u8,
                (time_low >> 8u32) as u8,
                time_low as u8,
                (time_mid >> 8u16) as u8,
                time_mid as u8,
                (time_high_and_version >> 8u16) as u8,
                time_high_and_version as u8,
                (((counter & 0x3F00) >> 8u16) as u8) | 0x80,
                (counter & 0xFF) as u8,
                mac[0],
                mac[1],
                mac[2],
                mac[3],
                mac[4],
                mac[5],
            ],
        );
        assert(((time_low >> 24u32) as u8) == ((ticks >> 24u64) & 0xff) as u8
            && ((time_low >> 16u32) as u8) == ((ticks >> 16u64) & 0xff) as u8
            && ((time_low >> 8u32) as u8) == ((ticks >> 8u64) & 0xff) as u8
            && (time_low as u8) == (ticks & 0xff) as u8
            && ((time_mid >> 8u16) as u8) == ((ticks >> 40u64) & 0xff) as u8
            && (time_mid as u8) == ((ticks >> 32u64) & 0xff) as u8
            && ((time_high_and_version >> 8u16) as u8) == (((ticks >> 56u64) & 0x0f) | 0x10) as u8
            && (time_high_and_version as u8) == ((ticks >> 48u64) & 0xff) as u8) by (bit_vector)
            requires
                time_low == (ticks & 0xFFFF_FFFF) as u32,
                time_mid == ((ticks >> 32u64) & 0xFFFF) as u16,
                time_high_and_version == (((ticks >> 48u64) & 0x0FFF) as u16) | (1u16 << 12u16),
        ;
        assert(((((counter & 0x3F00) >> 8u16) as u8) | 0x80) == (((counter >> 8u16) & 0x3f)
            | 0x80) as u8 && ((counter & 0xFF) as u8) == (counter & 0xff) as u8) by (bit_vector);
        let ghost b = v1_bytes(ticks, counter, mac@);
        assert(r@ =~= b);
        assert(((((ticks >> 56u64) & 0x0f) | 0x10) as u8) >> 4u8 == 1u8) by (bit_vector);
        assert(((((counter >> 8u16) & 0x3f) | 0x80) as u8) & 0xc0u8 == 0x80u8) by (bit_vector);
        r
    }
}

} // verus!
