//! Byte images of 32-bit words, as they travel to the graphics device.

use vstd::prelude::*;

verus! {

/// The four bytes of a word, least significant first.
pub open spec fn le_bytes(word: u32) -> Seq<u8> {
    seq![
        (word & 0xff) as u8,
        ((word >> 8) & 0xff) as u8,
        ((word >> 16) & 0xff) as u8,
        ((word >> 24) & 0xff) as u8,
    ]
}

/// The four bytes of a word, most significant first.
pub open spec fn be_bytes(word: u32) -> Seq<u8> {
    seq![
        ((word >> 24) & 0xff) as u8,
        ((word >> 16) & 0xff) as u8,
        ((word >> 8) & 0xff) as u8,
        (word & 0xff) as u8,
    ]
}

/// The word whose least significant byte is `b0` and most significant `b3`.
pub open spec fn le_word(b0: u8, b1: u8, b2: u8, b3: u8) -> u32 {
    (b0 as u32) | ((b1 as u32) << 8) | ((b2 as u32) << 16) | ((b3 as u32) << 24)
}

/// The word stored least significant byte first at `offset` in `bytes`.
pub open spec fn word_at(bytes: Seq<u8>, offset: int) -> u32 {
    le_word(bytes[offset], bytes[offset + 1], bytes[offset + 2], bytes[offset + 3])
}

/// The words laid end to end, each least significant byte first.
pub open spec fn le_image(words: Seq<u32>) -> Seq<u8> {
    Seq::new(4 * words.len(), |i: int| le_bytes(words[i / 4])[i % 4])
}

/// The words laid end to end, each most significant byte first.
pub open spec fn be_image(words: Seq<u32>) -> Seq<u8> {
    Seq::new(4 * words.len(), |i: int| be_bytes(words[i / 4])[i % 4])
}

/// Splitting a word into bytes and joining them again gives the word back.
pub proof fn le_word_of_le_bytes(word: u32)
    ensures
        le_bytes(word).len() == 4,
        le_word(le_bytes(word)[0], le_bytes(word)[1], le_bytes(word)[2], le_bytes(word)[3])
            == word,
{
    assert(le_word(
        (word & 0xff) as u8,
        ((word >> 8) & 0xff) as u8,
        ((word >> 16) & 0xff) as u8,
        ((word >> 24) & 0xff) as u8,
    ) == word) by (bit_vector);
}

/// Joining four bytes into a word and splitting it again gives the bytes back.
pub proof fn le_bytes_of_le_word(b0: u8, b1: u8, b2: u8, b3: u8)
    ensures
        le_bytes(le_word(b0, b1, b2, b3)) == seq![b0, b1, b2, b3],
{
    let word = le_word(b0, b1, b2, b3);
    assert((word & 0xff) as u8 == b0 && ((word >> 8) & 0xff) as u8 == b1 && ((word >> 16)
        & 0xff) as u8 == b2 && ((word >> 24) & 0xff) as u8 == b3) by (bit_vector)
        requires
            word == (b0 as u32) | ((b1 as u32) << 8) | ((b2 as u32) << 16) | ((b3 as u32) << 24),
    ;
    assert(le_bytes(word) =~= seq![b0, b1, b2, b3]);
}

/// Reads the word stored least significant byte first at `offset`.
pub fn read_word(bytes: &[u8], offset: usize) -> (word: u32)
    requires
        offset + 4 <= bytes@.len(),
    ensures
        word == word_at(bytes@, offset as int),
{
    let b0: u8 = bytes[offset];
    let b1: u8 = bytes[offset + 1];
    let b2: u8 = bytes[offset + 2];
    let b3: u8 = bytes[offset + 3];
    (b0 as u32) | ((b1 as u32) << 8) | ((b2 as u32) << 16) | ((b3 as u32) << 24)
}

/// The bytes that hold `words` in this machine's memory, by
/// `bytemuck::cast_slice` from `u32` to `u8`.
///
/// The cast reinterprets the words' storage, so each word contributes its four
/// bytes in the machine's byte order: least significant first on a
/// little-endian machine, most significant first on a big-endian one, and the
/// same way for every word. The contract claims no more than that.
#[verifier::external_body]
pub(crate) fn native_bytes(words: &[u32]) -> (bytes: Vec<u8>)
    ensures
        bytes@ == le_image(words@) || bytes@ == be_image(words@),
{
    bytemuck::cast_slice::<u32, u8>(words).to_vec()
}

} // verus!
