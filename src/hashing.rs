//! SHA-256 over bytes, computed by the `sha2` crate.
use vstd::prelude::*;
use sha2::Digest;

verus! {

/// The SHA-256 digest of `data`.
pub uninterp spec fn sha256_of(data: Seq<u8>) -> Seq<u8>;

/// The bytes fed so far to a running SHA-256 computation.
pub uninterp spec fn absorbed(h: Sha256Hasher) -> Seq<u8>;

/// A running SHA-256 computation. Relies on `sha2::Sha256`, whose state it
/// holds unseen; what it has been fed is `absorbed`.
#[verifier::external_body]
pub struct Sha256Hasher {
    inner: sha2::Sha256,
}

impl Sha256Hasher {
    /// Relies on `sha2::Sha256::new` (`Digest::new`): a computation fed nothing yet.
    #[verifier::external_body]
    pub(crate) fn new() -> (r: Self)
        ensures
            absorbed(r) == Seq::<u8>::empty(),
    {
        Sha256Hasher { inner: sha2::Sha256::new() }
    }

    /// Relies on `Digest::update` of `sha2::Sha256`: `data` is fed after what came before.
    #[verifier::external_body]
    pub(crate) fn update(&mut self, data: &[u8])
        ensures
            absorbed(*final(self)) == absorbed(*old(self)) + data@,
    {
        self.inner.update(data)
    }

    /// Relies on `Digest::finalize` of `sha2::Sha256`: the 32-byte digest of
    /// everything fed.
    #[verifier::external_body]
    pub(crate) fn finalize(self) -> (r: Vec<u8>)
        ensures
            r@ == sha256_of(absorbed(self)),
            r@.len() == 32,
    {
        self.inner.finalize().to_vec()
    }
}

/// The SHA-256 digest of `data`, fed in one piece.
pub fn sha256(data: &[u8]) -> (r: Vec<u8>)
    ensures
        r@ == sha256_of(data@),
{
    let mut h = Sha256Hasher::new();
    h.update(data);
    assert(absorbed(h) =~= data@);
    h.finalize()
}

} // verus!
