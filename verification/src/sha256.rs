//! SHA-256 hashing, provided by the `sha2` crate behind trusted contracts.
//!
//! The digest itself is not restated here: `spec_sha256` names the function
//! the crate computes, and every contract in the library speaks of the
//! digest through that name.

use vstd::prelude::*;

use sha2::{Digest, Sha256};

verus! {

/// The SHA-256 digest of a byte sequence, as the `sha2` crate computes it.
/// The digest depends on the bytes alone.
pub uninterp spec fn spec_sha256(data: Seq<u8>) -> Seq<u8>;

/// A transaction id: the double SHA-256 of the canonical serialization.
pub open spec fn spec_txid(ser: Seq<u8>) -> Seq<u8> {
    spec_sha256(spec_sha256(ser))
}

#[verifier::external_type_specification]
#[verifier::external_body]
pub struct ExSha256(Sha256);

/// An incremental SHA-256 hasher; its view is the byte stream fed so far.
pub struct Sha256Ctx {
    inner: Sha256,
    fed: Ghost<Seq<u8>>,
}

impl View for Sha256Ctx {
    type V = Seq<u8>;

    closed spec fn view(&self) -> Seq<u8> {
        self.fed@
    }
}

/// Relies on sha2::Sha256::new: a fresh hasher into which nothing has been
/// fed. What "nothing fed" means for the digest is carried by the contracts
/// of `update` and `finalize_reset` over the hasher's view.
#[verifier::external_body]
fn sha256_new_raw() -> Sha256 {
    Sha256::new()
}

impl Sha256Ctx {
    /// A fresh hasher into which nothing has been fed.
    pub fn new() -> (r: Self)
        ensures
            r@ == Seq::<u8>::empty(),
    {
        Sha256Ctx { inner: sha256_new_raw(), fed: Ghost(Seq::empty()) }
    }

    /// Relies on sha2::Sha256::update: appends the bytes to the stream
    /// being hashed.
    #[verifier::external_body]
    pub fn update(&mut self, data: &[u8])
        ensures
            final(self)@ == old(self)@ + data@,
    {
        self.inner.update(data);
    }

    /// Relies on sha2::Sha256::finalize_reset: returns the 32-byte SHA-256
    /// digest of every byte fed so far and puts the hasher back into its
    /// fresh state.
    #[verifier::external_body]
    pub fn finalize_reset(&mut self) -> (r: Vec<u8>)
        ensures
            r@ == spec_sha256(old(self)@),
            r@.len() == 32,
            final(self)@ == Seq::<u8>::empty(),
    {
        self.inner.finalize_reset().to_vec()
    }
}

/// Relies on sha2::Sha256::digest: the 32-byte SHA-256 digest of the bytes.
#[verifier::external_body]
pub fn sha256(data: &[u8]) -> (r: Vec<u8>)
    ensures
        r@ == spec_sha256(data@),
        r@.len() == 32,
{
    Sha256::digest(data).to_vec()
}

} // verus!
