//! Packing of ASCII tags into the integers that ACPI uses as signatures.
//!
//! A tag is packed low byte first: the first character of the tag occupies
//! bits 0..8 of the integer, the second bits 8..16, and so on.

use vstd::prelude::*;

verus! {

/// The integer that packs a two-character tag, first character lowest.
pub open spec fn spec_signature_16(a: char, b: char) -> u32 {
    (a as u32) | ((b as u32) << 8)
}

/// The integer that packs a four-character tag, first character lowest.
pub open spec fn spec_signature_32(a: char, b: char, c: char, d: char) -> u32 {
    spec_signature_16(a, b) | (spec_signature_16(c, d) << 16)
}

/// Byte `i` of `sig`, counted from the least significant one.
pub open spec fn signature_byte(sig: u32, i: int) -> u8
    recommends
        0 <= i < 4,
{
    ((sig >> ((8 * i) as u32)) & 0xff) as u8
}

/// The four characters of a packed signature in reading order: the character
/// held in the lowest byte comes first.
pub open spec fn signature_chars(sig: u32) -> Seq<char> {
    Seq::new(4, |i: int| signature_byte(sig, i) as char)
}

/// Whether `c` fits in the single byte that a signature reserves for it.
pub open spec fn is_latin1(c: char) -> bool {
    (c as u32) <= 0xff
}

/// Extracts byte `i` of `sig`, counted from the least significant one.
pub fn signature_byte_at(sig: u32, i: u32) -> (byte: u8)
    requires
        i < 4,
    ensures
        byte == signature_byte(sig, i as int),
{
    let shift: u32 = 8 * i;
    let low: u32 = (sig >> shift) & 0xff;
    assert((sig >> shift) & 0xff < 0x100) by (bit_vector);
    low as u8
}

/// Packs a two-character tag.
pub fn signature_16(a: char, b: char) -> (sig: u32)
    ensures
        sig == spec_signature_16(a, b),
{
    (a as u32) | ((b as u32) << 8)
}

/// Packs a four-character tag.
pub fn signature_32(a: char, b: char, c: char, d: char) -> (sig: u32)
    ensures
        sig == spec_signature_32(a, b, c, d),
{
    signature_16(a, b) | (signature_16(c, d) << 16)
}

/// For single-byte characters, packing is positional: each character
/// contributes its code times the weight of its byte.
pub proof fn lemma_signature_32_value(a: char, b: char, c: char, d: char)
    requires
        is_latin1(a),
        is_latin1(b),
        is_latin1(c),
        is_latin1(d),
    ensures
        spec_signature_32(a, b, c, d) == (a as u32) + 0x100 * (b as u32) + 0x1_0000 * (c as u32)
            + 0x100_0000 * (d as u32),
{
    let x = a as u32;
    let y = b as u32;
    let z = c as u32;
    let w = d as u32;
    assert(((x | (y << 8)) | ((z | (w << 8)) << 16)) == x + 0x100 * y + 0x1_0000 * z + 0x100_0000
        * w) by (bit_vector)
        requires
            x <= 0xff,
            y <= 0xff,
            z <= 0xff,
            w <= 0xff,
    ;
}

/// Packing a tag of single-byte characters and reading the characters back
/// yields the same characters in the same order.
pub proof fn lemma_signature_round_trip(a: char, b: char, c: char, d: char)
    requires
        is_latin1(a),
        is_latin1(b),
        is_latin1(c),
        is_latin1(d),
    ensures
        signature_chars(spec_signature_32(a, b, c, d)) == seq![a, b, c, d],
{
    let x = a as u32;
    let y = b as u32;
    let z = c as u32;
    let w = d as u32;
    let sig = spec_signature_32(a, b, c, d);
    assert(sig == ((x | (y << 8)) | ((z | (w << 8)) << 16)));
    assert({
        &&& (sig >> 0u32) & 0xff == x
        &&& (sig >> 8u32) & 0xff == y
        &&& (sig >> 16u32) & 0xff == z
        &&& (sig >> 24u32) & 0xff == w
    }) by (bit_vector)
        requires
            sig == ((x | (y << 8)) | ((z | (w << 8)) << 16)),
            x <= 0xff,
            y <= 0xff,
            z <= 0xff,
            w <= 0xff,
    ;
    assert(signature_byte(sig, 0) == x);
    assert(signature_byte(sig, 1) == y);
    assert(signature_byte(sig, 2) == z);
    assert(signature_byte(sig, 3) == w);
    assert(signature_chars(sig) =~= seq![a, b, c, d]);
}

} // verus!
