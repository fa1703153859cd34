//! The accumulator: one running SHA-1 hash state for a whole digest
//! computation.
//!
//! The accumulator is created fresh for each computation, absorbs the
//! canonical byte stream append-only, and is finalized exactly once. Its
//! ghost view is the sequence of bytes absorbed so far; the SHA-1 primitive
//! itself is an external collaborator and its output is only named, never
//! restated.

use vstd::prelude::*;
use sha1::Digest;

verus! {

#[verifier::external_type_specification]
#[verifier::external_body]
pub struct ExSha1(sha1::Sha1);

/// The SHA-1 digest (20 bytes) of a byte stream. The hash is a fixed public
/// function of the stream alone; its value is not restated here, only named,
/// and the library's contracts speak of the stream that is hashed.
pub uninterp spec fn sha1_of(stream: Seq<u8>) -> Seq<u8>;

/// A running SHA-1 hash state together with the ghost stream of bytes it
/// has absorbed since it was created.
pub struct Accumulator {
    inner: sha1::Sha1,
    stream: Ghost<Seq<u8>>,
}

impl View for Accumulator {
    type V = Seq<u8>;

    closed spec fn view(&self) -> Seq<u8> {
        self.stream@
    }
}

impl Accumulator {
    /// Relies on sha1's `Sha1::new` (the `digest::Digest` trait): a fresh
    /// hasher that has absorbed nothing.
    #[verifier::external_body]
    pub(crate) fn new() -> (r: Accumulator)
        ensures
            r@ == Seq::<u8>::empty(),
    {
        Accumulator { inner: sha1::Sha1::new(), stream: Ghost(arbitrary()) }
    }

    /// Relies on sha1's `Sha1::update` (the `digest::Digest` trait): absorbs
    /// the given bytes after everything absorbed before.
    #[verifier::external_body]
    pub(crate) fn update(&mut self, bytes: &Vec<u8>)
        ensures
            final(self)@ == old(self)@ + bytes@,
    {
        self.inner.update(bytes.as_slice());
    }

    /// Relies on sha1's `Sha1::finalize` (the `digest::Digest` trait): the
    /// SHA-1 digest of every byte absorbed, in order.
    #[verifier::external_body]
    pub(crate) fn finalize(self) -> (r: [u8; 20])
        ensures
            r@ == sha1_of(self@),
    {
        self.inner.finalize().into()
    }
}

} // verus!
