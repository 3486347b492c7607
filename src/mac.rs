use vstd::prelude::*;
use vstd::pervasive::arbitrary;
use crypto_common::InvalidLength;
use crate::error::MacError;
use crate::output::{CtOutput, full_match, left_match, right_match, verdict};

verus! {

/// The key-length error of crypto-common: a key was not of a length that the
/// algorithm accepts.
#[verifier::external_type_specification]
#[verifier::external_body]
pub struct ExInvalidLength(InvalidLength);

/// Marker for the types that are message authentication algorithms.
pub trait MacMarker {}

/// The capability set of a message authentication algorithm, with the
/// verification protocol on top of it.
///
/// An algorithm is modelled by its key and output sizes, the key an instance
/// was built with, the message it has absorbed since construction or the
/// last reset, and its tag function `spec_mac`. Each of these defaults to an
/// unknown value, which no verified implementation can meet the contracts
/// below over: an algorithm defines them, and its methods meet the contracts
/// over its own definitions. The provided methods compute the full tag and
/// hand it to the comparisons of [`CtOutput`], which decide the verdict.
pub trait Mac: MacMarker + Sized {
    /// The key length that [`Mac::new`] takes.
    open spec fn spec_key_size() -> nat {
        arbitrary()
    }

    /// The length in bytes of every tag.
    open spec fn spec_output_size() -> nat {
        arbitrary()
    }

    /// The key this instance was built with.
    open spec fn spec_key(&self) -> Seq<u8> {
        arbitrary()
    }

    /// The message absorbed since construction or the last reset.
    open spec fn spec_message(&self) -> Seq<u8> {
        arbitrary()
    }

    /// The algorithm's tag of `message` under `key`.
    open spec fn spec_mac(key: Seq<u8>, message: Seq<u8>) -> Seq<u8> {
        arbitrary()
    }

    /// The key length that [`Mac::new`] takes.
    fn key_size() -> (r: usize)
        ensures
            r == Self::spec_key_size(),
    ;

    /// The length in bytes of every tag this algorithm produces; never zero.
    fn output_size() -> (r: usize)
        ensures
            r == Self::spec_output_size(),
            r > 0,
    ;

    /// Creates an instance from a key of exactly the algorithm's key length.
    fn new(key: &[u8]) -> (r: Self)
        requires
            key@.len() == Self::spec_key_size(),
        ensures
            r.spec_key() == key@,
            r.spec_message() == Seq::<u8>::empty(),
    ;

    /// Creates an instance keyed with `key`, or fails when the algorithm does
    /// not accept a key of that length. A key of the algorithm's key length
    /// is always accepted.
    fn new_from_slice(key: &[u8]) -> (r: Result<Self, InvalidLength>)
        ensures
            key@.len() == Self::spec_key_size() ==> r is Ok,
            r matches Ok(m) ==> m.spec_key() == key@ && m.spec_message() == Seq::<u8>::empty(),
    ;

    /// Absorbs `data` into the state.
    fn update(&mut self, data: &[u8])
        ensures
            final(self).spec_key() == old(self).spec_key(),
            final(self).spec_message() == old(self).spec_message() + data@,
    ;

    /// Consumes the instance and produces the tag of everything absorbed.
    fn finalize_fixed(self) -> (r: Vec<u8>)
        ensures
            r@ == Self::spec_mac(self.spec_key(), self.spec_message()),
            r@.len() == Self::spec_output_size(),
    ;

    /// Produces the tag of everything absorbed and returns the instance to the
    /// state right after construction.
    fn finalize_fixed_reset(&mut self) -> (r: Vec<u8>)
        ensures
            r@ == Self::spec_mac(old(self).spec_key(), old(self).spec_message()),
            r@.len() == Self::spec_output_size(),
            final(self).spec_key() == old(self).spec_key(),
            final(self).spec_message() == Seq::<u8>::empty(),
    ;

    /// Returns the instance to the state right after construction.
    fn reset(&mut self)
        ensures
            final(self).spec_key() == old(self).spec_key(),
            final(self).spec_message() == Seq::<u8>::empty(),
    ;

    /// Consumes the instance and wraps its tag for constant-time comparison.
    fn finalize(self) -> (r: CtOutput)
        ensures
            r@ == Self::spec_mac(self.spec_key(), self.spec_message()),
            r@.len() == Self::spec_output_size(),
    {
        CtOutput::new(self.finalize_fixed())
    }

    /// Wraps the tag for constant-time comparison and resets the instance.
    fn finalize_reset(&mut self) -> (r: CtOutput)
        ensures
            r@ == Self::spec_mac(old(self).spec_key(), old(self).spec_message()),
            r@.len() == Self::spec_output_size(),
            final(self).spec_key() == old(self).spec_key(),
            final(self).spec_message() == Seq::<u8>::empty(),
    {
        CtOutput::new(self.finalize_fixed_reset())
    }

    /// Checks a full expected tag against the tag of the absorbed message.
    fn verify(self, tag: &CtOutput) -> (r: Result<(), MacError>)
        ensures
            r == verdict(full_match(Self::spec_mac(self.spec_key(), self.spec_message()), tag@)),
    {
        self.finalize().verify(tag)
    }

    /// Checks an expected tag given as bytes; one whose length is not the
    /// algorithm's output size fails without a byte comparison.
    fn verify_slice(self, tag: &[u8]) -> (r: Result<(), MacError>)
        ensures
            r == verdict(full_match(Self::spec_mac(self.spec_key(), self.spec_message()), tag@)),
            tag@.len() != Self::spec_output_size() ==> r is Err,
    {
        self.finalize().verify_slice(tag)
    }

    /// Checks a truncated tag against the first bytes of the computed tag;
    /// an empty one, or one longer than a tag, fails without a byte
    /// comparison.
    fn verify_truncated_left(self, tag: &[u8]) -> (r: Result<(), MacError>)
        ensures
            r == verdict(left_match(Self::spec_mac(self.spec_key(), self.spec_message()), tag@)),
            tag@.len() == 0 || tag@.len() > Self::spec_output_size() ==> r is Err,
    {
        self.finalize().verify_truncated_left(tag)
    }

    /// Checks a truncated tag against the last bytes of the computed tag;
    /// an empty one, or one longer than a tag, fails without a byte
    /// comparison.
    fn verify_truncated_right(self, tag: &[u8]) -> (r: Result<(), MacError>)
        ensures
            r == verdict(right_match(Self::spec_mac(self.spec_key(), self.spec_message()), tag@)),
            tag@.len() == 0 || tag@.len() > Self::spec_output_size() ==> r is Err,
    {
        self.finalize().verify_truncated_right(tag)
    }
}

} // verus!
