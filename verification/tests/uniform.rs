use mandelbrot_shader::uniform::pack_uniform;

#[test]
fn packs_seven_words_little_endian_in_field_order() {
    let words: [u64; 7] = [
        0x0102030405060708,
        0x1112131415161718,
        0x2122232425262728,
        0x3132333435363738,
        0x4142434445464748,
        0x5152535455565758,
        0x6162636465666768,
    ];
    let bytes = pack_uniform(
        words[0], words[1], words[2], words[3], words[4], words[5], words[6],
    );
    assert_eq!(bytes.len(), 56);
    for (i, w) in words.iter().enumerate() {
        assert_eq!(&bytes[i * 8..i * 8 + 8], &w.to_le_bytes());
    }
}

#[test]
fn packs_float_bit_patterns_byte_exactly() {
    let p: [f64; 7] = [1280.0, 720.0, 10.0, 5.625, 0.0, -0.5, 100.0];
    let bytes = pack_uniform(
        p[0].to_bits(),
        p[1].to_bits(),
        p[2].to_bits(),
        p[3].to_bits(),
        p[4].to_bits(),
        p[5].to_bits(),
        p[6].to_bits(),
    );
    let mut expected: Vec<u8> = Vec::new();
    for v in p.iter() {
        expected.extend_from_slice(&v.to_bits().to_le_bytes());
    }
    assert_eq!(bytes, expected);
}
