//! Packed four-character codes.
//!
//! Most identifiers of the audio object plane (property selectors, scopes,
//! elements, class identifiers, status codes) are the four ASCII bytes of a
//! mnemonic packed big-endian into one 32-bit integer.  Every such constant
//! in this crate is produced by [`four_cc`] from the literal bytes of its
//! mnemonic, never written out as a number by hand, so a transcription error
//! in the packing is impossible.

use vstd::prelude::*;

verus! {

/// The four bytes `a b c d` packed big-endian into a 32-bit integer.
pub open spec fn four_cc_spec(a: u8, b: u8, c: u8, d: u8) -> u32 {
    ((a as int) * 0x100_0000 + (b as int) * 0x1_0000 + (c as int) * 0x100 + (d as int)) as u32
}

/// Packs the four bytes of a mnemonic big-endian into a 32-bit integer.
pub fn four_cc(a: u8, b: u8, c: u8, d: u8) -> (r: u32)
    ensures
        r == four_cc_spec(a, b, c, d),
{
    (a as u32) * 0x100_0000 + (b as u32) * 0x1_0000 + (c as u32) * 0x100 + (d as u32)
}

/// The packed code of a mnemonic given as four ASCII characters.
pub open spec fn four_cc_chars(a: char, b: char, c: char, d: char) -> u32 {
    four_cc_spec(a as u8, b as u8, c as u8, d as u8)
}

/// The first (most significant) byte of a packed code.
pub open spec fn byte_0(code: u32) -> u8 {
    (code / 0x100_0000) as u8
}

/// The second byte of a packed code.
pub open spec fn byte_1(code: u32) -> u8 {
    ((code / 0x1_0000) % 0x100) as u8
}

/// The third byte of a packed code.
pub open spec fn byte_2(code: u32) -> u8 {
    ((code / 0x100) % 0x100) as u8
}

/// The fourth (least significant) byte of a packed code.
pub open spec fn byte_3(code: u32) -> u8 {
    (code % 0x100) as u8
}

/// Packing loses nothing: each byte of the mnemonic can be read back from
/// the packed code, so two distinct mnemonics never collide.
pub proof fn lemma_four_cc_bytes(a: u8, b: u8, c: u8, d: u8)
    ensures
        byte_0(four_cc_spec(a, b, c, d)) == a,
        byte_1(four_cc_spec(a, b, c, d)) == b,
        byte_2(four_cc_spec(a, b, c, d)) == c,
        byte_3(four_cc_spec(a, b, c, d)) == d,
{
    let v = (a as int) * 0x100_0000 + (b as int) * 0x1_0000 + (c as int) * 0x100 + (d as int);
    assert(v == four_cc_spec(a, b, c, d));
    assert(byte_0(v as u32) == a) by (nonlinear_arith)
        requires
            v == (a as int) * 0x100_0000 + (b as int) * 0x1_0000 + (c as int) * 0x100 + (d as int),
            a <= 255 && b <= 255 && c <= 255 && d <= 255,
    ;
    assert(byte_1(v as u32) == b) by (nonlinear_arith)
        requires
            v == (a as int) * 0x100_0000 + (b as int) * 0x1_0000 + (c as int) * 0x100 + (d as int),
            a <= 255 && b <= 255 && c <= 255 && d <= 255,
    ;
    assert(byte_2(v as u32) == c) by (nonlinear_arith)
        requires
            v == (a as int) * 0x100_0000 + (b as int) * 0x1_0000 + (c as int) * 0x100 + (d as int),
            a <= 255 && b <= 255 && c <= 255 && d <= 255,
    ;
    assert(byte_3(v as u32) == d) by (nonlinear_arith)
        requires
            v == (a as int) * 0x100_0000 + (b as int) * 0x1_0000 + (c as int) * 0x100 + (d as int),
            a <= 255 && b <= 255 && c <= 255 && d <= 255,
    ;
}

} // verus!
