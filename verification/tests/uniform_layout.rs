use gridwave::packing::{pack_uniforms, pack_words_le, word_byte_at, MAT_OFFSET, UNIFORM_BYTES};

#[test]
fn words_are_laid_down_little_endian() {
    let words = vec![0x0403_0201u32, 0xDDCC_BBAAu32];
    let bytes = pack_words_le(&words);
    assert_eq!(bytes, vec![0x01, 0x02, 0x03, 0x04, 0xAA, 0xBB, 0xCC, 0xDD]);
}

#[test]
fn word_bytes_match_the_platform_encoding() {
    for &w in &[0u32, 1, 0x1234_5678, u32::MAX, 1.5f32.to_bits()] {
        let le = w.to_le_bytes();
        for k in 0..4 {
            assert_eq!(word_byte_at(w, k as u32), le[k]);
        }
    }
}

#[test]
fn uniform_block_layout_is_exact() {
    // The block must match the shader-side declaration byte for byte:
    // time at offset 0, padding through 15, the matrix from 16 to 79.
    let time = 0.25f32;
    let mat: Vec<f32> = (0..16).map(|i| i as f32 * 0.5 - 3.0).collect();
    let mat_bits: Vec<u32> = mat.iter().map(|v| v.to_bits()).collect();
    let block = pack_uniforms(time.to_bits(), &mat_bits);

    assert_eq!(block.len(), UNIFORM_BYTES);
    assert_eq!(block.len(), 80);
    assert_eq!(&block[0..4], &time.to_le_bytes());
    assert_eq!(&block[4..MAT_OFFSET], &[0u8; 12]);
    for (i, v) in mat.iter().enumerate() {
        let at = MAT_OFFSET + 4 * i;
        assert_eq!(&block[at..at + 4], &v.to_le_bytes(), "matrix word {}", i);
    }
}

#[test]
fn fresh_time_overwrites_the_whole_block() {
    // Two packs with different times and matrices share nothing: the
    // block is rebuilt wholesale each frame.
    let mat_a: Vec<u32> = (0..16).map(|i| (i as f32).to_bits()).collect();
    let mat_b: Vec<u32> = (0..16).map(|i| (i as f32 + 1.0).to_bits()).collect();
    let a = pack_uniforms(0.0f32.to_bits(), &mat_a);
    let b = pack_uniforms(1.0f32.to_bits(), &mat_b);
    assert_eq!(a.len(), b.len());
    assert_eq!(&a[0..4], &0.0f32.to_le_bytes());
    assert_eq!(&b[0..4], &1.0f32.to_le_bytes());
    assert_ne!(a, b);
}
