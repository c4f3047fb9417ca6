use sha2::Digest;
use sha2::Sha256;
use vstd::prelude::*;

verus! {

/// An incremental SHA-256 computation.
///
/// The hasher type of `sha2` is an alias over several generic layers that Verus cannot
/// take as a declared type, so it is held here, hidden, and described by `absorbed`.
#[verifier::external_body]
pub struct Sha256State {
    inner: Sha256,
}

/// The bytes that a SHA-256 state has absorbed since it was created.
pub uninterp spec fn absorbed(h: Sha256State) -> Seq<u8>;

/// The SHA-256 digest of a byte sequence.
pub uninterp spec fn sha256_of(b: Seq<u8>) -> Seq<u8>;

/// Relies on `Digest::new` for `sha2::Sha256`: a fresh hasher has absorbed nothing.
#[verifier::external_body]
pub(crate) fn sha256_new() -> (r: Sha256State)
    ensures
        absorbed(r) == Seq::<u8>::empty(),
{
    Sha256State { inner: <Sha256 as Digest>::new() }
}

/// Relies on `Digest::update` for `sha2::Sha256`: the data is appended to what the
/// hasher has absorbed.
#[verifier::external_body]
pub(crate) fn sha256_update(h: &mut Sha256State, data: &[u8])
    ensures
        absorbed(*final(h)) == absorbed(*old(h)) + data@,
{
    h.inner.update(data);
}

/// Relies on `Digest::finalize` for `sha2::Sha256`: the 32-byte digest of all the
/// absorbed bytes.
#[verifier::external_body]
pub(crate) fn sha256_finalize(h: Sha256State) -> (r: Vec<u8>)
    ensures
        r@ == sha256_of(absorbed(h)),
        r@.len() == 32,
{
    h.inner.finalize().to_vec()
}

} // verus!

verus! {

/// The SHA-256 digest of `bytes`, 32 bytes long.
pub fn sha256(bytes: &[u8]) -> (r: Vec<u8>)
    ensures
        r@ == sha256_of(bytes@),
        r@.len() == 32,
{
    let mut h = sha256_new();
    sha256_update(&mut h, bytes);
    assert(Seq::<u8>::empty() + bytes@ =~= bytes@);
    sha256_finalize(h)
}

} // verus!
