//! Byte-exact packing of the per-frame uniform snapshot: the seven view
//! parameters, each one 64-bit word, laid out little-endian in the fixed
//! field order `width_pixels, height_pixels, width, height, offset_x,
//! offset_y, iters` that the compute kernel's uniform block expects. The
//! words are the 64-bit floating-point bit patterns of the fields; producing
//! those bit patterns from the fixed-point view model is the caller's
//! business.

use vstd::prelude::*;

verus! {

/// Byte `j` (counting from the least significant) of the word `w`.
pub open spec fn le_byte(w: u64, j: int) -> u8 {
    ((w >> ((8 * j) as u64)) & 0xff) as u8
}

/// Append the eight bytes of `w`, least significant first.
fn push_word_le(out: &mut Vec<u8>, w: u64)
    ensures
        final(out)@.len() == old(out)@.len() + 8,
        forall|j: int| 0 <= j < old(out)@.len() ==> final(out)@[j] == old(out)@[j],
        forall|j: int|
            0 <= j < 8 ==> final(out)@[old(out)@.len() + j] == le_byte(w, j),
{
    let mut j: usize = 0;
    while j < 8
        invariant
            j <= 8,
            out@.len() == old(out)@.len() + j,
            forall|t: int| 0 <= t < old(out)@.len() ==> out@[t] == old(out)@[t],
            forall|t: int| 0 <= t < j ==> out@[old(out)@.len() + t] == le_byte(w, t),
        decreases 8 - j,
    {
        let shift: u64 = 8 * (j as u64);
        proof {
            assert((w >> shift) & 0xff < 256) by (bit_vector);
        }
        let b: u8 = ((w >> shift) & 0xff) as u8;
        out.push(b);
        j = j + 1;
    }
}

/// The 56-byte uniform block for one frame: the seven 64-bit words in the
/// kernel's fixed field order, each little-endian.
pub fn pack_uniform(
    width_pixels: u64,
    height_pixels: u64,
    width: u64,
    height: u64,
    offset_x: u64,
    offset_y: u64,
    iters: u64,
) -> (r: Vec<u8>)
    ensures
        r@.len() == 56,
        forall|j: int| 0 <= j < 8 ==> r@[j] == le_byte(width_pixels, j),
        forall|j: int| 0 <= j < 8 ==> r@[8 + j] == le_byte(height_pixels, j),
        forall|j: int| 0 <= j < 8 ==> r@[16 + j] == le_byte(width, j),
        forall|j: int| 0 <= j < 8 ==> r@[24 + j] == le_byte(height, j),
        forall|j: int| 0 <= j < 8 ==> r@[32 + j] == le_byte(offset_x, j),
        forall|j: int| 0 <= j < 8 ==> r@[40 + j] == le_byte(offset_y, j),
        forall|j: int| 0 <= j < 8 ==> r@[48 + j] == le_byte(iters, j),
{
    let mut r: Vec<u8> = Vec::new();
    push_word_le(&mut r, width_pixels);
    push_word_le(&mut r, height_pixels);
    push_word_le(&mut r, width);
    push_word_le(&mut r, height);
    push_word_le(&mut r, offset_x);
    push_word_le(&mut r, offset_y);
    push_word_le(&mut r, iters);
    r
}

} // verus!
