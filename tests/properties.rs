use lolid::timestamp::V1_NS_TICKS;
use lolid::{ParseError, Timestamp, Uuid, Version, NAMESPACE_DNS};

const SAMPLE: [u8; 16] = [254, 255, 100, 1, 0, 255, 255, 253, 40, 20, 150, 125, 130, 140, 200, 99];

const ALL_VERSIONS: [Version; 6] =
    [Version::Nil, Version::Mac, Version::Dce, Version::Md5, Version::Random, Version::Sha1];

#[test]
fn round_trip_through_text() {
    let values: [[u8; 16]; 4] = [[0; 16], [0xff; 16], SAMPLE, NAMESPACE_DNS];
    for bytes in values.iter() {
        let uuid = Uuid::from_bytes(*bytes);
        let text = uuid.to_str();
        assert_eq!(Uuid::parse_str(text.as_str()).unwrap(), uuid);
        assert_eq!(Uuid::parse_ascii_bytes(text.as_str().as_bytes()).unwrap().bytes(), *bytes);
    }
}

#[test]
fn stamping_is_idempotent() {
    let uuid = Uuid::from_bytes(SAMPLE);
    for version in ALL_VERSIONS.iter() {
        let once = uuid.set_version(*version);
        assert_eq!(once.set_version(*version), once);
        assert!(once.is_version(*version));
    }
    let once = uuid.set_variant();
    assert_eq!(once.set_variant(), once);
    assert!(once.is_variant());
}

#[test]
fn stamping_touches_only_its_byte() {
    let uuid = Uuid::from_bytes(SAMPLE);
    let versioned = uuid.set_version(Version::Md5).bytes();
    let marked = uuid.set_variant().bytes();
    for i in 0..16 {
        if i != 6 {
            assert_eq!(versioned[i], SAMPLE[i]);
        }
        if i != 8 {
            assert_eq!(marked[i], SAMPLE[i]);
        }
    }
    assert_eq!(versioned[6], 0x3f);
    assert_eq!(marked[8], 0xa8);
}

#[test]
fn canonical_text_shape() {
    for bytes in [[0u8; 16], [0xff; 16], SAMPLE].iter() {
        let text = Uuid::from_bytes(*bytes).to_str();
        let text = text.as_str().as_bytes();
        assert_eq!(text.len(), 36);
        for (i, c) in text.iter().enumerate() {
            if i == 8 || i == 13 || i == 18 || i == 23 {
                assert_eq!(*c, b'-');
            } else {
                assert!(c.is_ascii_digit() || (b'a'..=b'f').contains(c));
            }
        }
    }
}

#[test]
fn version_and_variant_are_isolated() {
    let plain = Uuid::from_bytes(SAMPLE);
    let marked = plain.set_variant();
    for version in ALL_VERSIONS.iter() {
        assert_eq!(plain.set_version(*version).is_variant(), plain.is_variant());
        assert_eq!(marked.set_version(*version).is_variant(), marked.is_variant());
        assert_eq!(plain.set_variant().is_version(*version), plain.is_version(*version));
    }
}

#[test]
fn nil_identity() {
    let nil = Uuid::nil();
    assert!(nil.is_version(Version::Nil));
    assert!(!nil.is_variant());
    assert_eq!(nil.bytes(), [0; 16]);
    assert_eq!(Uuid::default(), nil);
}

#[test]
fn parse_accepts_upper_and_mixed_case() {
    let lower = Uuid::parse_str("60ecb7b6-ba34-5aad-a9ef-9020b1ea210a").unwrap();
    let upper = Uuid::parse_str("60ECB7B6-BA34-5AAD-A9EF-9020B1EA210A").unwrap();
    let mixed = Uuid::parse_str("60EcB7b6bA345aAdA9eF9020B1eA210A").unwrap();
    assert_eq!(lower, upper);
    assert_eq!(lower, mixed);
    assert_eq!(
        lower.bytes(),
        [0x60, 0xec, 0xb7, 0xb6, 0xba, 0x34, 0x5a, 0xad, 0xa9, 0xef, 0x90, 0x20, 0xb1, 0xea, 0x21, 0x0a]
    );
    assert_eq!(upper.to_str(), "60ecb7b6-ba34-5aad-a9ef-9020b1ea210a");
}

#[test]
fn parse_errors() {
    assert_eq!(Uuid::parse_str("").unwrap_err(), ParseError::InvalidLength(0));
    assert_eq!(
        Uuid::parse_str("60ecb7b6-ba34-5aad-a9ef-9020b1ea210-").unwrap_err(),
        ParseError::InvalidGroupLen(5, 12, 11)
    );
    assert_eq!(
        Uuid::parse_str("60ecb7b6-ba34-5aad-a9ef9-020b1ea210a").unwrap_err(),
        ParseError::InvalidGroupLen(4, 4, 5)
    );
    assert_eq!(
        Uuid::parse_str("60ecb7b6-ba345aadaa9ef-9020b1ea210a").unwrap_err(),
        ParseError::InvalidLength(35)
    );
    assert_eq!(
        Uuid::parse_str("60ecb7b6-ba345aada9ef9020b1ea210").unwrap_err(),
        ParseError::InvalidByte(b'-', 8)
    );
    assert_eq!(
        Uuid::parse_str("60ecb7b6-ba34-5aad-a9ef-9020b1ea21g,").unwrap_err(),
        ParseError::InvalidByte(b'g', 34)
    );
    assert_eq!(
        Uuid::parse_ascii_bytes(&[0xc3u8; 32]).unwrap_err(),
        ParseError::InvalidByte(0xc3, 0)
    );
    assert_eq!("60ecb7b6ba345aada9ef9020b1ea210a".parse::<Uuid>().unwrap().to_str(), "60ecb7b6-ba34-5aad-a9ef-9020b1ea210a");
}

#[test]
fn timestamp_from_unix_ticks() {
    assert_eq!(Timestamp::from_unix(0, 0).into_parts(), (V1_NS_TICKS, 0));
    assert_eq!(Timestamp::from_unix(1, 299).into_parts(), (V1_NS_TICKS + 10_000_000 + 2, 0));
    assert_eq!(Timestamp::from_parts(7, 9).set_counter(3).into_parts(), (7, 3));
    let now = Timestamp::now().unwrap().into_parts();
    assert_eq!(now.1, 0);
    assert!(now.0 > Timestamp::from_unix(1_600_000_000, 0).into_parts().0);
}

#[test]
fn v1_layout() {
    let uuid = Uuid::v1(Timestamp::from_parts(0x0123_4567_89ab_cdef, 0xffff), [0xa, 0xb, 0xc, 0xd, 0xe, 0xf]);
    assert_eq!(uuid.to_str(), "89abcdef-4567-1123-bfff-0a0b0c0d0e0f");
    assert!(uuid.is_version(Version::Mac));
    assert!(uuid.is_variant());
}

#[test]
fn digest_and_random_stamping() {
    let digest: Vec<u8> = (0u8..20).collect();
    let uuid = Uuid::from_digest(&digest, Version::Sha1);
    assert_eq!(uuid.to_str(), "00010203-0405-5607-8809-0a0b0c0d0e0f");
    let uuid = Uuid::from_random_bytes([0xff; 16]);
    assert_eq!(uuid.to_str(), "ffffffff-ffff-4fff-bfff-ffffffffffff");
}

#[test]
fn byte_access() {
    let uuid = Uuid::from_bytes(SAMPLE);
    assert_eq!(uuid.as_bytes(), &SAMPLE[..]);
    let borrowed: &[u8] = uuid.as_ref();
    assert_eq!(borrowed, &SAMPLE[..]);
    assert_eq!(uuid.bytes(), SAMPLE);
    assert_eq!(Uuid::from_slice(&SAMPLE).unwrap(), uuid);
    assert!(Uuid::from_slice(&[]).is_none());
}
