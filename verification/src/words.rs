//! Byte-to-word conversion of GPU read-back buffers, done by `bytemuck`.

use vstd::prelude::*;
use vstd::endian::{endianness, Endian};

verus! {

/// The `u64` whose bytes, least significant first, are `b[k..k+8]`.
pub open spec fn le_word(b: Seq<u8>, k: int) -> u64 {
    (b[k] as int + b[k + 1] as int * 0x100 + b[k + 2] as int * 0x1_0000 + b[k + 3] as int * 0x100_0000
        + b[k + 4] as int * 0x1_0000_0000 + b[k + 5] as int * 0x100_0000_0000
        + b[k + 6] as int * 0x1_0000_0000_0000 + b[k + 7] as int * 0x100_0000_0000_0000) as u64
}

/// The `u64` whose bytes, most significant first, are `b[k..k+8]`.
pub open spec fn be_word(b: Seq<u8>, k: int) -> u64 {
    (b[k + 7] as int + b[k + 6] as int * 0x100 + b[k + 5] as int * 0x1_0000 + b[k + 4] as int * 0x100_0000
        + b[k + 3] as int * 0x1_0000_0000 + b[k + 2] as int * 0x100_0000_0000
        + b[k + 1] as int * 0x1_0000_0000_0000 + b[k] as int * 0x100_0000_0000_0000) as u64
}

/// The bytes read as consecutive `u64` words in the given byte order; a
/// trailing partial word is not part of it.
pub open spec fn words_of(bytes: Seq<u8>, e: Endian) -> Seq<u64> {
    Seq::new(
        bytes.len() / 8,
        |i: int|
            match e {
                Endian::Little => le_word(bytes, 8 * i),
                Endian::Big => be_word(bytes, 8 * i),
            },
    )
}

/// The bytes followed by zeros up to a whole number of words.
pub open spec fn zero_padded(bytes: Seq<u8>) -> Seq<u8> {
    bytes + Seq::new(((8 - bytes.len() % 8) % 8) as nat, |i: int| 0u8)
}

/// The bytes read as words in the byte order of the machine that runs the code.
pub open spec fn native_words(bytes: Seq<u8>) -> Seq<u64> {
    words_of(bytes, endianness())
}

/// Bytes that are a whole number of words need no padding.
pub proof fn lemma_whole_words_unpadded(bytes: Seq<u8>)
    requires
        bytes.len() % 8 == 0,
    ensures
        zero_padded(bytes) == bytes,
{
    assert(zero_padded(bytes) =~= bytes);
}

/// Calls `bytemuck::pod_collect_to_vec::<u8, u64>`, which copies the bytes
/// into freshly allocated words, zero-filling the tail of the last word.
/// Claimed: the number of words is the byte count divided by eight, rounded
/// up, and the words are the zero-padded bytes read in the machine's byte order.
#[verifier::external_body]
pub(crate) fn collect_words(bytes: &[u8]) -> (w: Vec<u64>)
    ensures
        w@.len() == (bytes@.len() + 7) / 8,
        w@ == native_words(zero_padded(bytes@)),
{
    bytemuck::pod_collect_to_vec::<u8, u64>(bytes)
}

} // verus!
