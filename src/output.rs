use vstd::prelude::*;
use vstd::slice::slice_subrange;
use subtle::ConstantTimeEq;
use crate::error::MacError;

verus! {

/// Relies on subtle's `ConstantTimeEq` for `[u8]` and `Choice::unwrap_u8`:
/// 1 when both slices have the same length and the same bytes, else 0,
/// in time independent of where the bytes first differ.
#[verifier::external_body]
fn ct_eq_bytes(a: &[u8], b: &[u8]) -> (r: u8)
    ensures
        r == (if a@ == b@ { 1u8 } else { 0u8 }),
{
    a.ct_eq(b).unwrap_u8()
}

/// A computed tag whose equality runs in constant time.
#[derive(Clone)]
pub struct CtOutput {
    bytes: Vec<u8>,
}

impl View for CtOutput {
    type V = Seq<u8>;

    closed spec fn view(&self) -> Seq<u8> {
        self.bytes@
    }
}

/// A full tag `expected` is accepted against the computed tag `computed`.
pub open spec fn full_match(computed: Seq<u8>, expected: Seq<u8>) -> bool {
    computed == expected
}

/// A truncated tag is accepted against the first bytes of `computed`.
pub open spec fn left_match(computed: Seq<u8>, expected: Seq<u8>) -> bool {
    &&& 0 < expected.len() <= computed.len()
    &&& computed.subrange(0, expected.len() as int) == expected
}

/// A truncated tag is accepted against the last bytes of `computed`.
pub open spec fn right_match(computed: Seq<u8>, expected: Seq<u8>) -> bool {
    &&& 0 < expected.len() <= computed.len()
    &&& computed.subrange(computed.len() - expected.len(), computed.len() as int) == expected
}

/// The verdict that a comparison gives.
pub open spec fn verdict(accepted: bool) -> Result<(), MacError> {
    if accepted { Ok(()) } else { Err(MacError) }
}

impl CtOutput {
    /// Wraps the bytes of a computed tag.
    pub fn new(bytes: Vec<u8>) -> (r: CtOutput)
        ensures
            r@ == bytes@,
    {
        CtOutput { bytes }
    }

    /// Wraps a copy of the bytes of a computed tag.
    pub fn from_slice(bytes: &[u8]) -> (r: CtOutput)
        ensures
            r@ == bytes@,
    {
        CtOutput { bytes: vstd::slice::slice_to_vec(bytes) }
    }

    /// The bytes that this value wraps.
    pub fn into_bytes(self) -> (r: Vec<u8>)
        ensures
            r@ == self@,
    {
        self.bytes
    }

    /// The number of bytes of the tag.
    pub fn len(&self) -> (r: usize)
        ensures
            r == self@.len(),
    {
        self.bytes.len()
    }

    /// Constant-time equality: 1 when both tags hold the same bytes, else 0.
    pub fn ct_eq(&self, other: &CtOutput) -> (r: u8)
        ensures
            r == (if self@ == other@ { 1u8 } else { 0u8 }),
    {
        ct_eq_bytes(self.bytes.as_slice(), other.bytes.as_slice())
    }

    /// Accepts `tag` when it is the whole computed tag, compared in
    /// constant time.
    pub fn verify(&self, tag: &CtOutput) -> (r: Result<(), MacError>)
        ensures
            r == verdict(full_match(self@, tag@)),
    {
        if self.ct_eq(tag) == 1 {
            Ok(())
        } else {
            Err(MacError)
        }
    }

    /// Accepts `tag` when it has the length of the computed tag and the same
    /// bytes. A length mismatch fails at once; the bytes are compared in
    /// constant time.
    pub fn verify_slice(&self, tag: &[u8]) -> (r: Result<(), MacError>)
        ensures
            r == verdict(full_match(self@, tag@)),
            tag@.len() != self@.len() ==> r is Err,
    {
        if tag.len() != self.bytes.len() {
            return Err(MacError);
        }
        if ct_eq_bytes(self.bytes.as_slice(), tag) == 1 {
            Ok(())
        } else {
            Err(MacError)
        }
    }

    /// Accepts a non-empty `tag` no longer than the computed tag when it
    /// equals the computed tag's first `tag.len()` bytes, compared in
    /// constant time.
    pub fn verify_truncated_left(&self, tag: &[u8]) -> (r: Result<(), MacError>)
        ensures
            r == verdict(left_match(self@, tag@)),
    {
        let n = tag.len();
        if n == 0 || n > self.bytes.len() {
            return Err(MacError);
        }
        let head = slice_subrange(self.bytes.as_slice(), 0, n);
        if ct_eq_bytes(head, tag) == 1 {
            Ok(())
        } else {
            Err(MacError)
        }
    }

    /// Accepts a non-empty `tag` no longer than the computed tag when it
    /// equals the computed tag's last `tag.len()` bytes, compared in
    /// constant time.
    pub fn verify_truncated_right(&self, tag: &[u8]) -> (r: Result<(), MacError>)
        ensures
            r == verdict(right_match(self@, tag@)),
    {
        let n = tag.len();
        let size = self.bytes.len();
        if n == 0 || n > size {
            return Err(MacError);
        }
        let m = size - n;
        let tail = slice_subrange(self.bytes.as_slice(), m, size);
        if ct_eq_bytes(tail, tag) == 1 {
            Ok(())
        } else {
            Err(MacError)
        }
    }
}

impl PartialEq for CtOutput {
    fn eq(&self, other: &CtOutput) -> (r: bool) {
        self.ct_eq(other) == 1
    }
}

impl vstd::std_specs::cmp::PartialEqSpecImpl for CtOutput {
    open spec fn obeys_eq_spec() -> bool {
        true
    }

    open spec fn eq_spec(&self, other: &CtOutput) -> bool {
        self@ == other@
    }
}

impl Eq for CtOutput {}

impl From<Vec<u8>> for CtOutput {
    fn from(bytes: Vec<u8>) -> (r: CtOutput)
        ensures
            r@ == bytes@,
    {
        CtOutput { bytes }
    }
}

impl vstd::std_specs::convert::FromSpecImpl<Vec<u8>> for CtOutput {
    open spec fn obeys_from_spec() -> bool {
        true
    }

    closed spec fn from_spec(bytes: Vec<u8>) -> CtOutput {
        CtOutput { bytes }
    }
}

} // verus!
