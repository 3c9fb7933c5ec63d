//! Read-back of a pipeline-statistics query set whose counters are copied
//! into a buffer of exactly their size.

use vstd::prelude::*;
use crate::words::{collect_words, native_words, zero_padded};
use crate::query::ReadbackError;

verus! {

/// Number of queries in the pipeline-statistics query set, and of counters
/// read back.
pub const NUM_QUERIES: u64 = 3;

/// Size in bytes of the resolve and destination buffers: one `u64` per query.
pub const READBACK_SIZE: u64 = 24;

/// The counters stored from read-back words: the first three.
pub open spec fn results_from_words(words: Seq<u64>) -> QueryResults {
    QueryResults { vertex_shader_invocs: words[0], clipper_invocs: words[1], clipper_prims_out: words[2] }
}

/// The counters of the last read-back.
#[derive(Debug, Clone, Copy, PartialEq, Eq, Structural)]
pub struct QueryResults {
    pub vertex_shader_invocs: u64,
    pub clipper_invocs: u64,
    pub clipper_prims_out: u64,
}

impl QueryResults {
    /// Stores the first three read-back counters.
    pub fn store_calls(&mut self, calls: &[u64])
        requires
            calls@.len() >= NUM_QUERIES,
        ensures
            final(self).vertex_shader_invocs == calls@[0],
            final(self).clipper_invocs == calls@[1],
            final(self).clipper_prims_out == calls@[2],
    {
        self.vertex_shader_invocs = calls[0];
        self.clipper_invocs = calls[1];
        self.clipper_prims_out = calls[2];
    }

    /// Copies the mapped read-back bytes into words and stores the counters;
    /// fails, leaving the results as they were, when the bytes hold fewer
    /// than three words.
    pub fn store_readback(&mut self, bytes: &[u8]) -> (r: Result<(), ReadbackError>)
        ensures
            r is Ok <==> bytes@.len() > 8 * (NUM_QUERIES - 1),
            r is Ok ==> *final(self) == results_from_words(native_words(zero_padded(bytes@))),
            r is Ok ==> final(self).vertex_shader_invocs == native_words(zero_padded(bytes@))[0],
            r is Ok ==> final(self).clipper_invocs == native_words(zero_padded(bytes@))[1],
            r is Ok ==> final(self).clipper_prims_out == native_words(zero_padded(bytes@))[2],
            r is Err ==> r == Err::<(), ReadbackError>(ReadbackError::TooShort) && *final(self) == *old(self),
    {
        let calls = collect_words(bytes);
        if calls.len() < 3 {
            Err(ReadbackError::TooShort)
        } else {
            self.store_calls(calls.as_slice());
            Ok(())
        }
    }
}

/// Each stored counter is the read-back word at its own index (the first
/// three words, in order), whatever the other words hold.
pub proof fn results_take_first_three_words(words: Seq<u64>)
    requires
        words.len() >= NUM_QUERIES,
    ensures
        results_from_words(words).vertex_shader_invocs == words[0],
        results_from_words(words).clipper_invocs == words[1],
        results_from_words(words).clipper_prims_out == words[2],
        forall|i: int| 3 <= i < words.len() ==> #[trigger] results_from_words(words.update(i, 0)) == results_from_words(words),
{
    assert forall|i: int| 3 <= i < words.len() implies #[trigger] results_from_words(words.update(i, 0)) == results_from_words(words) by {
        let w = words.update(i, 0);
        assert(w[0] == words[0] && w[1] == words[1] && w[2] == words[2]);
    }
}

/// The read-back buffer holds exactly one word per query, so the read-back of
/// a full buffer always yields every counter.
pub proof fn readback_size_holds_every_query()
    ensures
        READBACK_SIZE == 8 * NUM_QUERIES,
        (READBACK_SIZE + 7) / 8 == NUM_QUERIES,
        READBACK_SIZE > 8 * (NUM_QUERIES - 1),
{
}

} // verus!
