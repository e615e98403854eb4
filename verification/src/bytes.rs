//! The memory image of a run of 32-bit words, as a buffer upload or a
//! push-constant update takes it.

use vstd::prelude::*;

verus! {

/// Byte `k` of a word, counted from the least significant.
pub open spec fn byte_of(word: u32, k: int) -> u8 {
    if k == 0 {
        (word % 0x100) as u8
    } else if k == 1 {
        (word / 0x100 % 0x100) as u8
    } else if k == 2 {
        (word / 0x1_0000 % 0x100) as u8
    } else {
        (word / 0x100_0000 % 0x100) as u8
    }
}

/// The bytes of the words in order, four to a word, each word's bytes in the
/// order the machine stores them.
pub open spec fn memory_image(words: Seq<u32>, little_endian: bool) -> Seq<u8> {
    Seq::new(
        4 * words.len(),
        |i: int|
            byte_of(
                words[i / 4],
                if little_endian {
                    i % 4
                } else {
                    3 - i % 4
                },
            ),
    )
}

/// Whether `bytes` is the memory image of `words` on some machine.
pub open spec fn is_image_of(bytes: Seq<u8>, words: Seq<u32>) -> bool {
    bytes == memory_image(words, true) || bytes == memory_image(words, false)
}

/// Calls `bytemuck::cast_slice` from `u32` to `u8` and copies what it
/// borrows. The cast reinterprets the words' storage in place, so the bytes
/// come out in the machine's byte order; it cannot fail in this direction,
/// since a byte has no alignment and every word is four whole bytes.
#[verifier::external_body]
pub(crate) fn words_to_bytes(words: &Vec<u32>) -> (bytes: Vec<u8>)
    ensures
        is_image_of(bytes@, words@),
{
    bytemuck::cast_slice::<u32, u8>(words.as_slice()).to_vec()
}

/// An image holds four bytes for each word.
pub proof fn image_length(bytes: Seq<u8>, words: Seq<u32>)
    requires
        is_image_of(bytes, words),
    ensures
        bytes.len() == 4 * words.len(),
{
}

} // verus!
