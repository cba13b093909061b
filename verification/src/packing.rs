//! Byte layout of the GPU-visible uniform block.
//!
//! The shader declares the block as a 32-bit time, twelve bytes of
//! padding, and a column-major 4x4 matrix of 32-bit words: the time at
//! byte offset 0, the matrix at byte offset 16, eighty bytes in all.
//! Matching that layout byte for byte is a hard correctness requirement,
//! so the packer is specified down to each byte. Words arrive as raw
//! 32-bit bit patterns (the host turns its scalars into bits); every word
//! is laid down little-endian.

use vstd::prelude::*;

verus! {

/// Total size of the uniform block in bytes.
pub const UNIFORM_BYTES: usize = 80;

/// Byte offset of the 4x4 matrix inside the block.
pub const MAT_OFFSET: usize = 16;

/// Number of 32-bit words in the matrix.
pub const MAT_WORDS: usize = 16;

/// Little-endian byte `k` of a 32-bit word.
pub open spec fn word_byte(w: u32, k: int) -> u8 {
    ((w >> ((8 * k) as u32)) & 0xff) as u8
}

/// Extract little-endian byte `k` of a word.
pub fn word_byte_at(w: u32, k: u32) -> (b: u8)
    requires
        k < 4,
    ensures
        b == word_byte(w, k as int),
{
    let sh: u32 = 8 * k;
    #[verifier::truncate]
    (((w >> sh) & 0xff) as u8)
}

/// Serialize whole words little-endian, in order: byte `k` of the result
/// is byte `k % 4` of word `k / 4`.
pub fn pack_words_le(words: &Vec<u32>) -> (r: Vec<u8>)
    ensures
        r@.len() == 4 * words@.len(),
        forall|k: int| 0 <= k < r@.len() ==> r@[k] == word_byte(words@[k / 4], k % 4),
{
    let mut r: Vec<u8> = Vec::new();
    let mut i: usize = 0;
    while i < words.len()
        invariant
            i <= words@.len(),
            r@.len() == 4 * i,
            forall|k: int| 0 <= k < r@.len() ==> r@[k] == word_byte(words@[k / 4], k % 4),
        decreases words@.len() - i,
    {
        let w: u32 = words[i];
        r.push(word_byte_at(w, 0));
        r.push(word_byte_at(w, 1));
        r.push(word_byte_at(w, 2));
        r.push(word_byte_at(w, 3));
        proof {
            let base = 4 * (i as int);
            assert forall|k: int| base <= k < base + 4 implies r@[k] == word_byte(
                words@[k / 4],
                k % 4,
            ) by {
                assert(k / 4 == i as int);
                assert(k % 4 == k - base);
                assert(k == base || k == base + 1 || k == base + 2 || k == base + 3);
            }
        }
        i = i + 1;
    }
    r
}

/// Assemble the uniform block: the time word at offset 0, zero padding
/// through offset 15, the sixteen matrix words from offset 16 on, eighty
/// bytes in all.
pub fn pack_uniforms(time_bits: u32, mat_bits: &Vec<u32>) -> (r: Vec<u8>)
    requires
        mat_bits@.len() == MAT_WORDS,
    ensures
        r@.len() == UNIFORM_BYTES,
        forall|k: int| 0 <= k < 4 ==> r@[k] == word_byte(time_bits, k),
        forall|k: int| 4 <= k < MAT_OFFSET ==> r@[k] == 0,
        forall|k: int|
            MAT_OFFSET <= k < UNIFORM_BYTES ==> r@[k] == word_byte(
                mat_bits@[(k - MAT_OFFSET) / 4],
                (k - MAT_OFFSET) % 4,
            ),
{
    let mut r: Vec<u8> = Vec::new();
    r.push(word_byte_at(time_bits, 0));
    r.push(word_byte_at(time_bits, 1));
    r.push(word_byte_at(time_bits, 2));
    r.push(word_byte_at(time_bits, 3));
    let mut p: usize = 4;
    while p < MAT_OFFSET
        invariant
            4 <= p <= MAT_OFFSET,
            r@.len() == p,
            forall|k: int| 0 <= k < 4 ==> r@[k] == word_byte(time_bits, k),
            forall|k: int| 4 <= k < p ==> r@[k] == 0,
        decreases MAT_OFFSET - p,
    {
        r.push(0u8);
        p = p + 1;
    }
    let mat: Vec<u8> = pack_words_le(mat_bits);
    let mut j: usize = 0;
    while j < mat.len()
        invariant
            j <= mat@.len(),
            mat@.len() == 64,
            r@.len() == MAT_OFFSET + j,
            forall|k: int| 0 <= k < 4 ==> r@[k] == word_byte(time_bits, k),
            forall|k: int| 4 <= k < MAT_OFFSET ==> r@[k] == 0,
            forall|k: int| MAT_OFFSET <= k < MAT_OFFSET + j ==> r@[k] == mat@[k - MAT_OFFSET],
            forall|k: int|
                0 <= k < mat@.len() ==> mat@[k] == word_byte(mat_bits@[k / 4], k % 4),
        decreases mat@.len() - j,
    {
        r.push(mat[j]);
        j = j + 1;
    }
    r
}

} // verus!
