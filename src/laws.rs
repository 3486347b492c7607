use vstd::prelude::*;
use crate::error::MacError;
use crate::mac::Mac;
use crate::output::{full_match, left_match, right_match, verdict};

verus! {

/// The tag that an instance computes verifies on another instance built
/// with the same key and fed the same message.
pub proof fn lemma_own_tag_verifies<M: Mac>(producer: &M, verifier: &M)
    requires
        producer.spec_key() == verifier.spec_key(),
        producer.spec_message() == verifier.spec_message(),
    ensures
        verdict(
            full_match(
                M::spec_mac(verifier.spec_key(), verifier.spec_message()),
                M::spec_mac(producer.spec_key(), producer.spec_message()),
            ),
        ) == Ok::<(), MacError>(()),
{
}

/// After a reset, absorbing a message gives the tag that a fresh instance
/// with the same key gives for that message.
pub proof fn lemma_reset_reproduces<M: Mac>(after_reset: &M, fresh: &M, data: Seq<u8>)
    requires
        after_reset.spec_key() == fresh.spec_key(),
        after_reset.spec_message() == Seq::<u8>::empty(),
        fresh.spec_message() == Seq::<u8>::empty(),
    ensures
        M::spec_mac(after_reset.spec_key(), after_reset.spec_message() + data) == M::spec_mac(
            fresh.spec_key(),
            fresh.spec_message() + data,
        ),
{
}

/// Flipping any single bit of a tag makes the full comparison fail.
pub proof fn lemma_flipped_bit_fails(tag: Seq<u8>, i: int, bit: u8)
    requires
        0 <= i < tag.len(),
        bit < 8,
    ensures
        verdict(full_match(tag, tag.update(i, tag[i] ^ (1u8 << bit)))) is Err,
{
    let b: u8 = tag[i];
    assert(b ^ (1u8 << bit) != b) by (bit_vector)
        requires
            bit < 8,
    ;
    assert(tag.update(i, b ^ (1u8 << bit))[i] != tag[i]);
}

/// A candidate whose length differs from the computed tag's never passes a
/// slice comparison, whatever bytes it holds.
pub proof fn lemma_slice_length_mismatch_fails(tag: Seq<u8>, candidate: Seq<u8>)
    requires
        candidate.len() != tag.len(),
    ensures
        verdict(full_match(tag, candidate)) is Err,
{
}

/// Every non-empty prefix of the true tag is accepted by the left-truncated
/// comparison; a prefix of that length is accepted only if it is exactly that
/// prefix; and the bytes of the computed tag past it play no part.
pub proof fn lemma_truncated_left(tag: Seq<u8>, other: Seq<u8>, candidate: Seq<u8>, n: int)
    requires
        1 <= n <= tag.len(),
        n <= other.len(),
        other.subrange(0, n) == tag.subrange(0, n),
        candidate.len() == n,
    ensures
        left_match(tag, tag.subrange(0, n)),
        left_match(tag, candidate) <==> candidate == tag.subrange(0, n),
        left_match(tag, candidate) == left_match(other, candidate),
{
}

/// Every non-empty suffix of the true tag is accepted by the right-truncated
/// comparison; a suffix of that length is accepted only if it is exactly that
/// suffix; and the bytes of the computed tag before it play no part.
pub proof fn lemma_truncated_right(tag: Seq<u8>, other: Seq<u8>, candidate: Seq<u8>, n: int)
    requires
        1 <= n <= tag.len(),
        n <= other.len(),
        other.subrange(other.len() - n, other.len() as int) == tag.subrange(
            tag.len() - n,
            tag.len() as int,
        ),
        candidate.len() == n,
    ensures
        right_match(tag, tag.subrange(tag.len() - n, tag.len() as int)),
        right_match(tag, candidate) <==> candidate == tag.subrange(
            tag.len() - n,
            tag.len() as int,
        ),
        right_match(tag, candidate) == right_match(other, candidate),
{
}

/// An empty candidate, or one longer than the computed tag, fails both
/// truncated comparisons.
pub proof fn lemma_truncated_bad_length_fails(tag: Seq<u8>, candidate: Seq<u8>)
    requires
        candidate.len() == 0 || candidate.len() > tag.len(),
    ensures
        verdict(left_match(tag, candidate)) is Err,
        verdict(right_match(tag, candidate)) is Err,
{
}

} // verus!
