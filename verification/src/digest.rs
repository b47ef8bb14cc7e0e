//! SHA-256 digests of Asset bytes, taken in one piece or piece by piece.

use sha2::Digest;
use vstd::prelude::*;

verus! {

/// The hasher of the `sha2` crate.
#[verifier::external_type_specification]
#[verifier::external_body]
pub struct ExSha256(sha2::Sha256);

/// The bytes that a hasher has taken in so far.
pub uninterp spec fn hashed_bytes(hasher: sha2::Sha256) -> Seq<u8>;

/// The SHA-256 digest of `bytes`.
pub uninterp spec fn sha256(bytes: Seq<u8>) -> Seq<u8>;

/// The number of bytes from which on their number of bits no longer fits the 64 bits that the
/// digest has for it.
pub const DIGEST_LIMIT: u64 = 0x2000_0000_0000_0000;

/// Creates a hasher: one made by `Sha256::new` has taken in nothing.
#[verifier::external_body]
fn new_hasher() -> (r: sha2::Sha256)
    ensures
        hashed_bytes(r) == Seq::<u8>::empty(),
{
    sha2::Sha256::new()
}

/// Takes in more bytes: `Sha256::update` adds them behind those taken in before.
#[verifier::external_body]
fn update_hasher(hasher: &mut sha2::Sha256, bytes: &[u8])
    ensures
        hashed_bytes(*final(hasher)) == hashed_bytes(*old(hasher)) + bytes@,
{
    hasher.update(bytes);
}

/// Ends a hasher: `Sha256::finalize` gives the 32 bytes of the digest of all that was taken in, as
/// long as the number of bits can be told.
#[verifier::external_body]
fn finish_hasher(hasher: sha2::Sha256) -> (r: Vec<u8>)
    requires
        hashed_bytes(hasher).len() < DIGEST_LIMIT,
    ensures
        r@ == sha256(hashed_bytes(hasher)),
        r@.len() == 32,
{
    hasher.finalize().to_vec()
}

/// Takes the digest of bytes in one piece: `Sha256::digest` gives the 32 bytes that a hasher gives
/// for them, as long as the number of bits can be told.
#[verifier::external_body]
fn hash_bytes(bytes: &[u8]) -> (r: Vec<u8>)
    requires
        bytes@.len() < DIGEST_LIMIT,
    ensures
        r@ == sha256(bytes@),
        r@.len() == 32,
{
    sha2::Sha256::digest(bytes).to_vec()
}

/// The digest of bytes that arrive piece by piece.
pub struct ContentDigest {
    hasher: sha2::Sha256,
}

impl View for ContentDigest {
    type V = Seq<u8>;

    closed spec fn view(&self) -> Seq<u8> {
        hashed_bytes(self.hasher)
    }
}

impl ContentDigest {
    /// Creates the digest of no bytes.
    pub fn new() -> (r: ContentDigest)
        ensures
            r@ == Seq::<u8>::empty(),
    {
        ContentDigest { hasher: new_hasher() }
    }

    /// Takes in the next piece.
    pub fn update(&mut self, bytes: &[u8])
        ensures
            final(self)@ == old(self)@ + bytes@,
    {
        update_hasher(&mut self.hasher, bytes);
    }

    /// Returns the digest of all pieces, however they were cut.
    pub fn finish(self) -> (r: Vec<u8>)
        requires
            self@.len() < DIGEST_LIMIT,
        ensures
            r@ == sha256(self@),
            r@.len() == 32,
    {
        finish_hasher(self.hasher)
    }
}

/// Returns the digest of `bytes`, or none where their number of bits cannot be told.
pub fn digest(bytes: &[u8]) -> (r: Option<Vec<u8>>)
    ensures
        match r {
            Some(digest) => bytes@.len() < DIGEST_LIMIT && digest@ == sha256(bytes@)
                && digest@.len() == 32,
            None => bytes@.len() >= DIGEST_LIMIT,
        },
{
    if bytes.len() as u64 >= DIGEST_LIMIT {
        return None;
    }
    Some(hash_bytes(bytes))
}

} // verus!
