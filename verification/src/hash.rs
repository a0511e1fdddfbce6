//! The hash accumulator of a download.
//!
//! A download may be given an accumulator. It then takes in every chunk that
//! is handed on to the destination, once and in the order of the stream, so
//! that its digest is the digest of what the destination holds.

use openssl::hash::Hasher;
use vstd::prelude::*;

verus! {

/// `openssl::hash::Hasher`, an incremental message digest.
#[verifier::external_type_specification]
#[verifier::external_body]
pub struct ExHasher(openssl::hash::Hasher);

/// `openssl::error::ErrorStack`, what a failed call into OpenSSL reports.
#[verifier::external_type_specification]
#[verifier::external_body]
pub struct ExErrorStack(openssl::error::ErrorStack);

/// The bytes that a hasher has taken in since it was made or last finished:
/// the message that its next digest covers.
pub uninterp spec fn absorbed(hasher: openssl::hash::Hasher) -> Seq<u8>;

/// `Hasher::update` feeds `data` into the hasher. Where it returns `Ok`, the
/// hasher has taken in `data` after all that it held before. Where it
/// returns an error nothing is said of what the hasher holds.
pub assume_specification[ openssl::hash::Hasher::update ](
    hasher: &mut openssl::hash::Hasher,
    data: &[u8],
) -> (fed: Result<(), openssl::error::ErrorStack>)
    ensures
        fed is Ok ==> absorbed(*final(hasher)) == absorbed(*old(hasher)) + data@,
;

/// Whether a hasher that was `before` has become `after` by taking in
/// `chunk`.
pub open spec fn took_in(before: Hasher, chunk: Seq<u8>, after: Hasher) -> bool {
    absorbed(after) == absorbed(before) + chunk
}

/// The bytes of a stream that arrived as `chunks`: what a destination holds
/// to which each chunk was written in turn.
pub open spec fn stream(chunks: Seq<Seq<u8>>) -> Seq<u8>
    decreases chunks.len(),
{
    if chunks.len() == 0 {
        Seq::empty()
    } else {
        stream(chunks.drop_last()) + chunks.last()
    }
}

/// An accumulator that took in the chunks of a stream one by one has taken
/// in the stream: after all that it held before come the bytes that the
/// destination holds, all of them, once and in order. `states` holds the
/// accumulator before the first chunk and after each chunk.
pub proof fn lemma_accumulator_holds_stream(states: Seq<Hasher>, chunks: Seq<Seq<u8>>)
    requires
        states.len() == chunks.len() + 1,
        forall|i: int|
            0 <= i < chunks.len() ==> took_in(#[trigger] states[i], chunks[i], states[i + 1]),
    ensures
        absorbed(states.last()) == absorbed(states[0]) + stream(chunks),
    decreases chunks.len(),
{
    if chunks.len() == 0 {
        assert(absorbed(states[0]) + stream(chunks) =~= absorbed(states[0]));
    } else {
        let n = chunks.len() as int;
        let earlier_states = states.drop_last();
        let earlier_chunks = chunks.drop_last();
        assert forall|i: int| 0 <= i < earlier_chunks.len() implies took_in(
            #[trigger] earlier_states[i],
            earlier_chunks[i],
            earlier_states[i + 1],
        ) by {
            assert(took_in(states[i], chunks[i], states[i + 1]));
        }
        lemma_accumulator_holds_stream(earlier_states, earlier_chunks);
        assert(took_in(states[n - 1], chunks[n - 1], states[n]));
        assert(earlier_states.last() == states[n - 1]);
        assert(absorbed(states[n]) =~= absorbed(states[0]) + stream(chunks));
    }
}

} // verus!
