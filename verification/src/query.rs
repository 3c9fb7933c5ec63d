//! Read-back of one render pass's GPU queries: a pipeline-statistics query
//! (three counters) resolved at the start of the buffer and two timestamps
//! resolved at a 256-byte aligned offset.

use vstd::prelude::*;
use crate::words::{collect_words, lemma_whole_words_unpadded, native_words};

verus! {

/// Number of timestamp queries written around the render pass.
pub const NUM_TIMESTAMP_QUERIES: u64 = 2;

/// Number of counters the pipeline-statistics query writes.
pub const NUM_PIPELINE_COUNTERS: u64 = 3;

/// Byte offset at which the timestamps are resolved; resolve targets must be
/// 256-byte aligned.
pub const TIMESTAMP_OFFSET: u64 = 256;

/// Size in bytes of the resolve and destination buffers: the aligned
/// statistics block followed by the timestamps.
pub const QUERY_BUFFER_SIZE: u64 = 272;

/// Word index of the first timestamp in the read-back buffer.
pub const TIMESTAMP_WORD: usize = 32;

/// Number of words a read-back must hold.
pub const READBACK_WORDS: usize = 34;

/// The `u64` difference `end - start`, wrapping around on underflow.
pub open spec fn wrapping_delta(start: u64, end: u64) -> u64 {
    if start <= end {
        (end - start) as u64
    } else {
        (end + 0x1_0000_0000_0000_0000 - start) as u64
    }
}

/// The results stored from read-back words: the three counters, then the
/// time between the two timestamps.
pub open spec fn results_from_words(words: Seq<u64>) -> QueryResults {
    QueryResults {
        vertex_shader_invocs: words[0],
        clipper_invocs: words[1],
        clipper_prims_out: words[2],
        rpass_delta: wrapping_delta(words[TIMESTAMP_WORD as int], words[TIMESTAMP_WORD + 1]),
    }
}

/// The results of the last read-back.
#[derive(Debug, Clone, Copy, PartialEq, Eq, Structural)]
pub struct QueryResults {
    pub vertex_shader_invocs: u64,
    pub clipper_invocs: u64,
    pub clipper_prims_out: u64,
    /// Ticks between the timestamp written before and after the render pass.
    pub rpass_delta: u64,
}

/// What went wrong reading the query buffer back.
#[derive(Debug, Clone, Copy, PartialEq, Eq, Structural)]
pub enum ReadbackError {
    /// The bytes are not a whole number of `u64` words.
    PartialWord,
    /// Fewer words than the statistics block and the timestamps need.
    TooShort,
}

impl QueryResults {
    /// Stores the three pipeline counters and the time between the two
    /// timestamps (`data[3]` before the pass, `data[4]` after it).
    pub fn store_data(&mut self, data: &[u64; 5])
        ensures
            final(self).vertex_shader_invocs == data@[0],
            final(self).clipper_invocs == data@[1],
            final(self).clipper_prims_out == data@[2],
            final(self).rpass_delta == wrapping_delta(data@[3], data@[4]),
            (data@[3] + final(self).rpass_delta) % 0x1_0000_0000_0000_0000 == data@[4],
    {
        self.vertex_shader_invocs = data[0];
        self.clipper_invocs = data[1];
        self.clipper_prims_out = data[2];
        self.rpass_delta = data[4].wrapping_sub(data[3]);
    }

    /// Decodes a mapped read-back buffer and stores its results; on an error
    /// the results are left as they were.
    pub fn store_readback(&mut self, bytes: &[u8]) -> (r: Result<(), ReadbackError>)
        ensures
            r is Ok <==> (bytes@.len() % 8 == 0 && bytes@.len() >= QUERY_BUFFER_SIZE),
            bytes@.len() % 8 != 0 ==> r == Err::<(), ReadbackError>(ReadbackError::PartialWord),
            bytes@.len() % 8 == 0 && bytes@.len() < QUERY_BUFFER_SIZE
                ==> r == Err::<(), ReadbackError>(ReadbackError::TooShort),
            r is Ok ==> *final(self) == results_from_words(native_words(bytes@)),
            r is Ok ==> final(self).vertex_shader_invocs == native_words(bytes@)[0],
            r is Ok ==> final(self).clipper_invocs == native_words(bytes@)[1],
            r is Ok ==> final(self).clipper_prims_out == native_words(bytes@)[2],
            r is Err ==> *final(self) == *old(self),
    {
        if bytes.len() % 8 != 0 {
            return Err(ReadbackError::PartialWord);
        }
        let words = collect_words(bytes);
        proof {
            lemma_whole_words_unpadded(bytes@);
        }
        self.store_words(words.as_slice())
    }

    /// Stores the results held by the read-back words; fails, leaving the
    /// results as they were, when there are too few words.
    pub fn store_words(&mut self, words: &[u64]) -> (r: Result<(), ReadbackError>)
        ensures
            r is Err <==> words@.len() < READBACK_WORDS,
            r is Err ==> r == Err::<(), ReadbackError>(ReadbackError::TooShort),
            r is Ok ==> *final(self) == results_from_words(words@),
            r is Ok ==> final(self).vertex_shader_invocs == words@[0],
            r is Ok ==> final(self).clipper_invocs == words@[1],
            r is Ok ==> final(self).clipper_prims_out == words@[2],
            r is Ok ==> (words@[TIMESTAMP_WORD as int] + final(self).rpass_delta) % 0x1_0000_0000_0000_0000
                == words@[TIMESTAMP_WORD + 1],
            r is Err ==> *final(self) == *old(self),
    {
        if words.len() < READBACK_WORDS {
            Err(ReadbackError::TooShort)
        } else {
            let data = readback_words(words);
            self.store_data(&data);
            Ok(())
        }
    }
}

/// Picks the three pipeline counters and the two timestamps out of the
/// read-back words.
pub fn readback_words(words: &[u64]) -> (data: [u64; 5])
    requires
        words@.len() >= READBACK_WORDS,
    ensures
        data@ == seq![words@[0], words@[1], words@[2], words@[TIMESTAMP_WORD as int], words@[TIMESTAMP_WORD + 1]],
{
    let data = [words[0], words[1], words[2], words[TIMESTAMP_WORD], words[TIMESTAMP_WORD + 1]];
    assert(data@ =~= seq![words@[0], words@[1], words@[2], words@[TIMESTAMP_WORD as int], words@[TIMESTAMP_WORD + 1]]);
    data
}

/// The read-back reads exactly what the resolve wrote: the counters occupy
/// the first words, the timestamps start at the word of the aligned timestamp
/// offset, the two regions do not overlap, and the buffer ends right after
/// the last timestamp.
pub proof fn readback_matches_resolve_layout()
    ensures
        NUM_PIPELINE_COUNTERS * 8 <= TIMESTAMP_OFFSET,
        TIMESTAMP_OFFSET % 256 == 0,
        TIMESTAMP_WORD * 8 == TIMESTAMP_OFFSET,
        READBACK_WORDS == TIMESTAMP_WORD + NUM_TIMESTAMP_QUERIES,
        QUERY_BUFFER_SIZE == TIMESTAMP_OFFSET + 8 * NUM_TIMESTAMP_QUERIES,
        READBACK_WORDS * 8 == QUERY_BUFFER_SIZE,
{
}

/// Each stored counter is the read-back word at its own fixed index
/// (vertex-shader calls, clipper invocations, clipper output), whatever the
/// other words hold, and the render-pass time added to the first timestamp
/// gives the second.
pub proof fn results_take_words_at_fixed_indices(words: Seq<u64>)
    requires
        words.len() >= READBACK_WORDS,
    ensures
        results_from_words(words).vertex_shader_invocs == words[0],
        results_from_words(words).clipper_invocs == words[1],
        results_from_words(words).clipper_prims_out == words[2],
        (words[TIMESTAMP_WORD as int] + results_from_words(words).rpass_delta) % 0x1_0000_0000_0000_0000
            == words[TIMESTAMP_WORD + 1],
        forall|i: int| 0 <= i < words.len() && i != 0 && i != 1 && i != 2 && i != TIMESTAMP_WORD
            && i != TIMESTAMP_WORD + 1 ==> #[trigger] results_from_words(words.update(i, 0)) == results_from_words(words),
{
    assert forall|i: int| 0 <= i < words.len() && i != 0 && i != 1 && i != 2 && i != TIMESTAMP_WORD
        && i != TIMESTAMP_WORD + 1 implies #[trigger] results_from_words(words.update(i, 0)) == results_from_words(words) by {
        let w = words.update(i, 0);
        assert(w[0] == words[0] && w[1] == words[1] && w[2] == words[2]);
        assert(w[TIMESTAMP_WORD as int] == words[TIMESTAMP_WORD as int]);
        assert(w[TIMESTAMP_WORD + 1] == words[TIMESTAMP_WORD + 1]);
    }
}

/// The stored render-pass time undoes the subtraction: adding it to the
/// start timestamp, wrapping, gives back the end timestamp, and it is the
/// plain difference whenever the clock did not wrap.
pub proof fn rpass_delta_recovers_end(start: u64, end: u64)
    ensures
        (start + wrapping_delta(start, end)) % 0x1_0000_0000_0000_0000 == end,
        start <= end ==> wrapping_delta(start, end) == end - start,
{
}

} // verus!
