//! The SHA-256 accumulator, seen as the sequence of bytes it has absorbed.
use vstd::prelude::*;

verus! {

/// A running SHA-256 computation. Verus cannot declare `sha2::Sha256`
/// itself (an alias of nested generic wrappers), so the state is held here.
#[verifier::external_body]
pub struct Sha256State {
    inner: sha2::Sha256,
}

/// The bytes fed into a SHA-256 state since it was created.
pub uninterp spec fn absorbed(h: Sha256State) -> Seq<u8>;

/// The SHA-256 digest of a byte sequence.
pub uninterp spec fn sha256_of(data: Seq<u8>) -> Seq<u8>;

/// Relies on sha2's `Digest::new` for Sha256: a fresh state has absorbed nothing.
#[verifier::external_body]
pub(crate) fn hasher_new() -> (h: Sha256State)
    ensures
        absorbed(h) == Seq::<u8>::empty(),
{
    Sha256State { inner: <sha2::Sha256 as sha2::Digest>::new() }
}

/// Relies on sha2's `Digest::update` for Sha256: the bytes are absorbed after
/// those already seen; it cannot fail.
#[verifier::external_body]
pub(crate) fn hasher_update(h: &mut Sha256State, data: &[u8])
    ensures
        absorbed(*final(h)) == absorbed(*old(h)) + data@,
{
    sha2::Digest::update(&mut h.inner, data)
}

/// Relies on sha2's `Digest::finalize` for Sha256: the 32-byte digest of all
/// absorbed bytes.
#[verifier::external_body]
pub(crate) fn hasher_finalize(h: Sha256State) -> (r: Vec<u8>)
    ensures
        r@ == sha256_of(absorbed(h)),
        r@.len() == 32,
{
    sha2::Digest::finalize(h.inner).to_vec()
}

} // verus!
