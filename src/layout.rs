use vstd::prelude::*;

verus! {

/// The version of an identifier, naming the algorithm that generated it.
#[derive(Clone, Copy, Debug, PartialEq, Eq, Structural)]
pub enum Version {
    /// The all-zero identifier.
    Nil,
    /// Version 1: time and node (MAC address).
    Mac,
    /// Version 2: DCE security.
    Dce,
    /// Version 3: MD5 of a namespace and a name.
    Md5,
    /// Version 4: random.
    Random,
    /// Version 5: SHA-1 of a namespace and a name.
    Sha1,
}

/// The number written into the high nibble of byte 6 for `v`.
pub open spec fn version_tag(v: Version) -> u8 {
    match v {
        Version::Nil => 0,
        Version::Mac => 1,
        Version::Dce => 2,
        Version::Md5 => 3,
        Version::Random => 4,
        Version::Sha1 => 5,
    }
}

impl Version {
    /// The numeric tag of this version.
    pub fn tag(self) -> (r: u8)
        ensures
            r == version_tag(self),
    {
        match self {
            Version::Nil => 0,
            Version::Mac => 1,
            Version::Dce => 2,
            Version::Md5 => 3,
            Version::Random => 4,
            Version::Sha1 => 5,
        }
    }
}

/// A 128-bit identifier, as laid out by RFC4122 (network byte order).
#[derive(Debug, Clone, Copy, PartialEq, Eq, Hash, PartialOrd, Ord)]
pub struct Uuid {
    data: [u8; 16],
}

impl View for Uuid {
    type V = Seq<u8>;

    closed spec fn view(&self) -> Seq<u8> {
        self.data@
    }
}

/// Every identifier holds exactly sixteen bytes.
pub broadcast proof fn lemma_uuid_len(u: Uuid)
    ensures
        #[trigger] u@.len() == 16,
{
}

/// Bytes of the namespace in which a name is a fully-qualified domain name.
pub const NAMESPACE_DNS: [u8; 16] = [
    0x6b, 0xa7, 0xb8, 0x10, 0x9d, 0xad, 0x11, 0xd1, 0x80, 0xb4, 0x00, 0xc0, 0x4f, 0xd4, 0x30, 0xc8,
];

/// Bytes of the namespace in which a name is a URL.
pub const NAMESPACE_URL: [u8; 16] = [
    0x6b, 0xa7, 0xb8, 0x11, 0x9d, 0xad, 0x11, 0xd1, 0x80, 0xb4, 0x00, 0xc0, 0x4f, 0xd4, 0x30, 0xc8,
];

/// Bytes of the namespace in which a name is an ISO OID.
pub const NAMESPACE_OID: [u8; 16] = [
    0x6b, 0xa7, 0xb8, 0x12, 0x9d, 0xad, 0x11, 0xd1, 0x80, 0xb4, 0x00, 0xc0, 0x4f, 0xd4, 0x30, 0xc8,
];

/// Bytes of the namespace in which a name is an X.500 DN, in DER or a text
/// output format.
pub const NAMESPACE_X500: [u8; 16] = [
    0x6b, 0xa7, 0xb8, 0x14, 0x9d, 0xad, 0x11, 0xd1, 0x80, 0xb4, 0x00, 0xc0, 0x4f, 0xd4, 0x30, 0xc8,
];

/// True iff the high nibble of byte 6 holds the tag of `v`.
pub open spec fn has_version(b: Seq<u8>, v: Version) -> bool {
    b[6] >> 4u8 == version_tag(v)
}

/// True iff the top two bits of byte 8 are `10`, the RFC4122 variant.
pub open spec fn has_variant(b: Seq<u8>) -> bool {
    b[8] & 0xc0u8 == 0x80u8
}

/// `b` with the top two bits of byte 8 cleared and then set to `10`.
pub open spec fn with_variant(b: Seq<u8>) -> Seq<u8> {
    b.update(8, (b[8] & 0x3fu8) | 0x80u8)
}

/// `b` with the high nibble of byte 6 replaced by the tag of `v`.
pub open spec fn with_version(b: Seq<u8>, v: Version) -> Seq<u8> {
    b.update(6, (b[6] & 0x0fu8) | (version_tag(v) << 4u8))
}

/// The sixteen zero bytes of the nil identifier.
pub open spec fn nil_bytes() -> Seq<u8> {
    Seq::new(16, |_i: int| 0u8)
}

impl Uuid {
    /// The all-zero identifier.
    pub fn nil() -> (r: Self)
        ensures
            r@ == nil_bytes(),
    {
        let r = Self::from_bytes([0u8; 16]);
        assert(r@ =~= nil_bytes());
        r
    }

    /// Wraps the given bytes as they are, without any check.
    pub fn from_bytes(data: [u8; 16]) -> (r: Self)
        ensures
            r@ == data@,
    {
        Self { data }
    }

    /// Takes the bytes of a slice that holds exactly sixteen of them.
    pub fn from_slice(data: &[u8]) -> (r: Option<Self>)
        ensures
            r is Some <==> data@.len() == 16,
            r matches Some(u) ==> u@ == data@,
    {
        if data.len() != 16 {
            return None;
        }
        let mut bytes = [0u8; 16];
        let mut i: usize = 0;
        while i < 16
            invariant
                data@.len() == 16,
                i <= 16,
                forall|k: int| 0 <= k < i ==> bytes@[k] == data@[k],
            decreases 16 - i,
        {
            bytes[i] = data[i];
            i = i + 1;
        }
        assert(bytes@ =~= data@);
        Some(Self::from_bytes(bytes))
    }

    /// The bytes, borrowed.
    pub fn as_bytes(&self) -> (r: &[u8])
        ensures
            r@ == self@,
    {
        self.data.as_slice()
    }

    /// The bytes, copied.
    pub fn bytes(&self) -> (r: [u8; 16])
        ensures
            r@ == self@,
    {
        self.data
    }

    /// Whether the version field holds `version`.
    pub fn is_version(&self, version: Version) -> (r: bool)
        ensures
            r == has_version(self@, version),
    {
        (self.data[6] >> 4u8) == version.tag()
    }

    /// Whether the variant field marks an RFC4122 identifier. Other variants
    /// are not told apart.
    pub fn is_variant(&self) -> (r: bool)
        ensures
            r == has_variant(self@),
    {
        (self.data[8] & 0xc0u8) == 0x80u8
    }

    /// Marks the identifier as RFC4122 variant; only byte 8 changes.
    pub fn set_variant(self) -> (r: Self)
        ensures
            r@ == with_variant(self@),
    {
        let mut data = self.data;
        data[8] = (data[8] & 0x3fu8) | 0x80u8;
        Self { data }
    }

    /// Writes `version` into the version field; only byte 6 changes.
    pub fn set_version(self, version: Version) -> (r: Self)
        ensures
            r@ == with_version(self@, version),
    {
        let mut data = self.data;
        data[6] = (data[6] & 0x0fu8) | (version.tag() << 4u8);
        Self { data }
    }
}

impl Default for Uuid {
    /// The nil identifier.
    fn default() -> (r: Self)
        ensures
            r@ == nil_bytes(),
    {
        Self::nil()
    }
}

impl AsRef<[u8]> for Uuid {
    fn as_ref(&self) -> &[u8] {
        self.as_bytes()
    }
}

/// Stamping a version a second time changes nothing, and neither does
/// marking the variant a second time.
pub proof fn lemma_stamp_idempotent(b: Seq<u8>, v: Version)
    requires
        b.len() == 16,
    ensures
        with_version(with_version(b, v), v) == with_version(b, v),
        with_variant(with_variant(b)) == with_variant(b),
{
    let t = version_tag(v);
    let x6 = b[6];
    let x8 = b[8];
    assert(((((x6 & 0x0fu8) | (t << 4u8)) & 0x0fu8) | (t << 4u8)) == ((x6 & 0x0fu8) | (t << 4u8)))
        by (bit_vector);
    assert(((((x8 & 0x3fu8) | 0x80u8) & 0x3fu8) | 0x80u8) == ((x8 & 0x3fu8) | 0x80u8))
        by (bit_vector);
    assert(with_version(with_version(b, v), v) =~= with_version(b, v));
    assert(with_variant(with_variant(b)) =~= with_variant(b));
}

/// Stamping the version leaves the variant test as it was, and marking the
/// variant leaves every version test as it was.
pub proof fn lemma_stamp_isolation(b: Seq<u8>, v: Version, w: Version)
    requires
        b.len() == 16,
    ensures
        has_variant(with_version(b, v)) == has_variant(b),
        has_version(with_variant(b), w) == has_version(b, w),
{
}

/// After marking the variant and then stamping `v`, both tests succeed.
pub proof fn lemma_stamped(b: Seq<u8>, v: Version)
    requires
        b.len() == 16,
    ensures
        has_variant(with_version(with_variant(b), v)),
        has_version(with_version(with_variant(b), v), v),
{
    let t = version_tag(v);
    let x6 = b[6];
    let x8 = b[8];
    assert(t <= 5);
    assert(t <= 5 ==> ((x6 & 0x0fu8) | (t << 4u8)) >> 4u8 == t) by (bit_vector);
    assert(((x8 & 0x3fu8) | 0x80u8) & 0xc0u8 == 0x80u8) by (bit_vector);
}

/// The nil identifier carries the nil version and no RFC4122 variant mark.
pub proof fn lemma_nil_identity()
    ensures
        has_version(nil_bytes(), Version::Nil),
        !has_variant(nil_bytes()),
{
    assert(0u8 >> 4u8 == 0u8) by (bit_vector);
    assert(0u8 & 0xc0u8 == 0u8) by (bit_vector);
}

} // verus!
