use vstd::prelude::*;

use crate::layout::{
    has_variant, has_version, lemma_stamped, with_variant, with_version, Uuid, Version,
};

verus! {

#[verifier::external_type_specification]
#[verifier::external_body]
pub struct ExGetrandomError(getrandom::Error);

#[verifier::external_type_specification]
#[verifier::external_body]
pub struct ExAtomicRandom(wy::AtomicRandom);

/// The SHA-1 digest of a byte sequence.
pub uninterp spec fn sha1_of(data: Seq<u8>) -> Seq<u8>;

/// The MD5 digest of a byte sequence.
pub uninterp spec fn md5_of(data: Seq<u8>) -> Seq<u8>;

/// Relies on sha1's `Sha1` (`new`, `update`, `digest`, `Digest::bytes`): the
/// SHA-1 digest of `namespace` followed by `name`.
#[verifier::external_body]
fn sha1_digest(namespace: &[u8; 16], name: &[u8]) -> (r: [u8; 20])
    ensures
        r@ == sha1_of(namespace@ + name@),
{
    let mut hasher = sha1::Sha1::new();
    hasher.update(namespace);
    hasher.update(name);
    hasher.digest().bytes()
}

/// Relies on md5's `Context` (`new`, `consume`, `compute`): the MD5 digest of
/// `namespace` followed by `name`.
#[verifier::external_body]
fn md5_digest(namespace: &[u8; 16], name: &[u8]) -> (r: [u8; 16])
    ensures
        r@ == md5_of(namespace@ + name@),
{
    let mut context = md5::Context::new();
    context.consume(namespace);
    context.consume(name);
    context.compute().0
}

/// Relies on `getrandom::getrandom`: fills `dest` from the operating
/// system's random source, or says why it could not.
#[verifier::external_body]
fn fill_from_os(dest: &mut [u8; 16]) -> (r: Result<(), getrandom::Error>) {
    getrandom::getrandom(dest)
}

/// Relies on `getrandom::Error::code`: the error's code, which is never 0.
#[verifier::external_body]
fn error_code(error: getrandom::Error) -> (r: u32)
    ensures
        r != 0,
{
    error.code().get()
}

/// Relies on `wy::AtomicRandom::gen`: the next number of the generator's
/// sequence, which depends on the calls made before.
#[verifier::external_body]
fn next_random(rng: &wy::AtomicRandom) -> u64 {
    rng.gen()
}

/// The operating system's random source could not be used; holds the code of
/// its error.
#[derive(Debug, PartialEq, Eq, Clone, Copy, Structural)]
pub struct RandomUnavailable {
    /// The error code reported by the random source, never 0.
    pub code: u32,
}

/// The bytes of a name-based identifier: the first sixteen bytes of
/// `digest`, marked RFC4122 variant and stamped with `version`.
pub open spec fn name_based(digest: Seq<u8>, version: Version) -> Seq<u8> {
    with_version(with_variant(digest.take(16)), version)
}

/// The bytes of a random identifier made from the sixteen bytes `b`.
pub open spec fn random_based(b: Seq<u8>) -> Seq<u8> {
    with_version(with_variant(b), Version::Random)
}

impl Uuid {
    /// A name-based identifier from a digest of at least sixteen bytes: its
    /// first sixteen bytes, marked RFC4122 variant and stamped with
    /// `version`.
    pub fn from_digest(digest: &[u8], version: Version) -> (r: Self)
        requires
            digest@.len() >= 16,
        ensures
            r@ == name_based(digest@, version),
            has_version(r@, version),
            has_variant(r@),
    {
        let mut bytes = [0u8; 16];
        let mut i: usize = 0;
        while i < 16
            invariant
                digest@.len() >= 16,
                i <= 16,
                forall|k: int| 0 <= k < i ==> bytes@[k] == digest@[k],
            decreases 16 - i,
        {
            bytes[i] = digest[i];
            i = i + 1;
        }
        assert(bytes@ =~= digest@.take(16));
        proof {
            lemma_stamped(bytes@, version);
        }
        Self::from_bytes(bytes).set_variant().set_version(version)
    }

    /// A random identifier from sixteen random bytes: marked RFC4122 variant
    /// and stamped with the random version.
    pub fn from_random_bytes(bytes: [u8; 16]) -> (r: Self)
        ensures
            r@ == random_based(bytes@),
            has_version(r@, Version::Random),
            has_variant(r@),
    {
        proof {
            lemma_stamped(bytes@, Version::Random);
        }
        Self::from_bytes(bytes).set_variant().set_version(Version::Random)
    }

    /// A version-4 identifier from the operating system's random source, or
    /// the source's error when it cannot be used; weaker randomness is never
    /// put in its place.
    pub fn v4() -> (r: Result<Self, RandomUnavailable>)
        ensures
            r matches Ok(u) ==> exists|b: Seq<u8>| b.len() == 16 && u@ == random_based(b),
            r matches Ok(u) ==> has_version(u@, Version::Random) && has_variant(u@),
            r matches Err(e) ==> e.code != 0,
    {
        let mut bytes = [0u8; 16];
        match fill_from_os(&mut bytes) {
            Ok(()) => {
                let u = Self::from_random_bytes(bytes);
                assert(bytes@.len() == 16 && u@ == random_based(bytes@));
                Ok(u)
            },
            Err(error) => Err(RandomUnavailable { code: error_code(error) }),
        }
    }

    /// A version-4 identifier from two numbers of a wyhash generator. The
    /// sequence is fixed by the generator's seed: identifiers do not repeat
    /// within it, but a generator seeded alike gives them again.
    pub fn prng_from(rng: &wy::AtomicRandom) -> (r: Self)
        ensures
            exists|b: Seq<u8>| b.len() == 16 && r@ == random_based(b),
            has_version(r@, Version::Random),
            has_variant(r@),
    {
        let right = next_random(rng);
        let left = next_random(rng);
        let bytes = [
            right as u8,
            (right >> 8u64) as u8,
            (right >> 16u64) as u8,
            (right >> 24u64) as u8,
            (right >> 32u64) as u8,
            (right >> 40u64) as u8,
            (right >> 48u64) as u8,
            (right >> 56u64) as u8,
            left as u8,
            (left >> 8u64) as u8,
            (left >> 16u64) as u8,
            (left >> 24u64) as u8,
            (left >> 32u64) as u8,
            (left >> 40u64) as u8,
            (left >> 48u64) as u8,
            (left >> 56u64) as u8,
        ];
        let u = Self::from_random_bytes(bytes);
        assert(bytes@.len() == 16 && u@ == random_based(bytes@));
        u
    }

    /// A version-3 identifier: the MD5 digest of the namespace's bytes
    /// followed by `name`, marked and stamped.
    pub fn v3(namespace: Uuid, name: &[u8]) -> (r: Self)
        ensures
            r@ == name_based(md5_of(namespace@ + name@), Version::Md5),
            has_version(r@, Version::Md5),
            has_variant(r@),
    {
        let digest = md5_digest(&namespace.bytes(), name);
        Self::from_digest(digest.as_slice(), Version::Md5)
    }

    /// A version-5 identifier: the SHA-1 digest of the namespace's bytes
    /// followed by `name`, cut to sixteen bytes, marked and stamped.
    pub fn v5(namespace: Uuid, name: &[u8]) -> (r: Self)
        ensures
            r@ == name_based(sha1_of(namespace@ + name@), Version::Sha1),
            has_version(r@, Version::Sha1),
            has_variant(r@),
    {
        let digest = sha1_digest(&namespace.bytes(), name);
        Self::from_digest(digest.as_slice(), Version::Sha1)
    }
}

} // verus!
