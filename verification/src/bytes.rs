//! How 32-bit words lie in buffer memory.

use vstd::prelude::*;

verus! {

/// The four bytes of `word`, least significant first.
pub open spec fn word_le(word: u32) -> Seq<u8> {
    seq![
        (word & 0xff) as u8,
        ((word >> 8) & 0xff) as u8,
        ((word >> 16) & 0xff) as u8,
        ((word >> 24) & 0xff) as u8,
    ]
}

/// The four bytes of `word`, most significant first.
pub open spec fn word_be(word: u32) -> Seq<u8> {
    seq![
        ((word >> 24) & 0xff) as u8,
        ((word >> 16) & 0xff) as u8,
        ((word >> 8) & 0xff) as u8,
        (word & 0xff) as u8,
    ]
}

/// The bytes of `words` in order, each word least significant byte first.
pub open spec fn words_le(words: Seq<u32>) -> Seq<u8> {
    Seq::new(4 * words.len(), |i: int| word_le(words[i / 4])[i % 4])
}

/// The bytes of `words` in order, each word most significant byte first.
pub open spec fn words_be(words: Seq<u32>) -> Seq<u8> {
    Seq::new(4 * words.len(), |i: int| word_be(words[i / 4])[i % 4])
}

/// `bytes` is what `word` looks like in the memory of some machine. A machine
/// stores a word either least or most significant byte first.
pub open spec fn is_word_image(bytes: Seq<u8>, word: u32) -> bool {
    bytes == word_le(word) || bytes == word_be(word)
}

/// `bytes` is what `words` look like in the memory of some machine: four
/// bytes per word, in order, all words in the same byte order.
pub open spec fn is_native_image(bytes: Seq<u8>, words: Seq<u32>) -> bool {
    bytes == words_le(words) || bytes == words_be(words)
}

/// Trusted: `bytemuck::cast_slice` from `u32` to `u8`, copied into a vector.
/// The cast reinterprets the words' memory, so the result holds four bytes
/// for each word, in the byte order of the machine it runs on.
#[verifier::external_body]
pub(crate) fn raw_bytes(words: &Vec<u32>) -> (bytes: Vec<u8>)
    ensures
        is_native_image(bytes@, words@),
{
    bytemuck::cast_slice::<u32, u8>(words.as_slice()).to_vec()
}

/// Trusted: `bytemuck::cast_slice` from `u8` to `u8`, copied into a vector.
/// Between types of one size the cast keeps every element, so the result
/// holds the same bytes.
#[verifier::external_body]
pub(crate) fn copy_mapped(mapped: &[u8]) -> (bytes: Vec<u8>)
    ensures
        bytes@ == mapped@,
{
    bytemuck::cast_slice::<u8, u8>(mapped).to_vec()
}

/// Trusted: `bytemuck::pod_read_unaligned` at `u32`. It reads the four bytes
/// as one word in the byte order of the machine it runs on, and panics on any
/// other length.
#[verifier::external_body]
pub(crate) fn read_word(bytes: &[u8]) -> (word: u32)
    requires
        bytes@.len() == 4,
    ensures
        is_word_image(bytes@, word),
{
    bytemuck::pod_read_unaligned::<u32>(bytes)
}

} // verus!
