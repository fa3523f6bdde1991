//! Little-endian packing of bytes into half-words and words.

use vstd::prelude::*;

verus! {

/// The word whose little-endian bytes are `b0..b3`.
pub open spec fn le_word(b0: u8, b1: u8, b2: u8, b3: u8) -> u32 {
    (b0 as u32) | ((b1 as u32) << 8) | ((b2 as u32) << 16) | ((b3 as u32) << 24)
}

/// The half-word whose little-endian bytes are `b0, b1`.
pub open spec fn le_half(b0: u8, b1: u8) -> u16 {
    (b0 as u16) | ((b1 as u16) << 8)
}

/// Byte `i` (0 = least significant) of a word.
pub open spec fn word_byte(w: u32, i: int) -> u8 {
    ((w >> ((8 * i) as u32)) & 0xff) as u8
}

/// Byte `i` (0 = least significant) of a half-word.
pub open spec fn half_byte(h: u16, i: int) -> u8 {
    ((h >> ((8 * i) as u16)) & 0xff) as u8
}

/// Assemble a word from its four little-endian bytes.
pub fn word_from_le_bytes(bytes: [u8; 4]) -> (w: u32)
    ensures
        w == le_word(bytes[0], bytes[1], bytes[2], bytes[3]),
{
    (bytes[0] as u32) | ((bytes[1] as u32) << 8) | ((bytes[2] as u32) << 16) | ((bytes[3] as u32) << 24)
}

/// Assemble a half-word from its two little-endian bytes.
pub fn half_from_le_bytes(b0: u8, b1: u8) -> (h: u16)
    ensures
        h == le_half(b0, b1),
{
    (b0 as u16) | ((b1 as u16) << 8)
}

/// Split a word into its four little-endian bytes.
pub fn word_to_le_bytes(w: u32) -> (bytes: [u8; 4])
    ensures
        bytes[0] == word_byte(w, 0),
        bytes[1] == word_byte(w, 1),
        bytes[2] == word_byte(w, 2),
        bytes[3] == word_byte(w, 3),
        le_word(bytes[0], bytes[1], bytes[2], bytes[3]) == w,
{
    let b0 = (w & 0xff) as u8;
    let b1 = ((w >> 8) & 0xff) as u8;
    let b2 = ((w >> 16) & 0xff) as u8;
    let b3 = ((w >> 24) & 0xff) as u8;
    proof {
        lemma_word_bytes_round_trip(w);
    }
    [b0, b1, b2, b3]
}

/// Split a half-word into its two little-endian bytes.
pub fn half_to_le_bytes(h: u16) -> (bytes: [u8; 2])
    ensures
        bytes[0] == half_byte(h, 0),
        bytes[1] == half_byte(h, 1),
        le_half(bytes[0], bytes[1]) == h,
{
    let b0 = (h & 0xff) as u8;
    let b1 = ((h >> 8) & 0xff) as u8;
    proof {
        lemma_half_bytes_round_trip(h);
    }
    [b0, b1]
}

/// The word with byte `i` replaced by `b`.
pub open spec fn word_with_byte(w: u32, i: int, b: u8) -> u32 {
    le_word(
        if i == 0 { b } else { word_byte(w, 0) },
        if i == 1 { b } else { word_byte(w, 1) },
        if i == 2 { b } else { word_byte(w, 2) },
        if i == 3 { b } else { word_byte(w, 3) },
    )
}

/// Byte `i` of a word.
pub fn byte_of_word(w: u32, i: u64) -> (b: u8)
    requires
        i < 4,
    ensures
        b == word_byte(w, i as int),
{
    let bytes = word_to_le_bytes(w);
    if i == 0 {
        bytes[0]
    } else if i == 1 {
        bytes[1]
    } else if i == 2 {
        bytes[2]
    } else {
        bytes[3]
    }
}

/// The word with byte `i` replaced by `b`.
pub fn replace_byte(w: u32, i: u64, b: u8) -> (r: u32)
    requires
        i < 4,
    ensures
        r == word_with_byte(w, i as int, b),
{
    let bytes = word_to_le_bytes(w);
    let b0 = if i == 0 { b } else { bytes[0] };
    let b1 = if i == 1 { b } else { bytes[1] };
    let b2 = if i == 2 { b } else { bytes[2] };
    let b3 = if i == 3 { b } else { bytes[3] };
    word_from_le_bytes([b0, b1, b2, b3])
}

/// Splitting a word into bytes and packing them again gives the word back.
pub proof fn lemma_word_bytes_round_trip(w: u32)
    ensures
        le_word(word_byte(w, 0), word_byte(w, 1), word_byte(w, 2), word_byte(w, 3)) == w,
        word_byte(w, 0) == (w & 0xff) as u8,
        word_byte(w, 1) == ((w >> 8) & 0xff) as u8,
        word_byte(w, 2) == ((w >> 16) & 0xff) as u8,
        word_byte(w, 3) == ((w >> 24) & 0xff) as u8,
{
    assert(((w & 0xff) as u8 as u32) | ((((w >> 8) & 0xff) as u8 as u32) << 8) | ((((w >> 16)
        & 0xff) as u8 as u32) << 16) | ((((w >> 24) & 0xff) as u8 as u32) << 24) == w && w >> 0u32 == w) by (bit_vector);
}

/// Packing four bytes and splitting the word again gives the bytes back.
pub proof fn lemma_le_word_bytes(b0: u8, b1: u8, b2: u8, b3: u8)
    ensures
        word_byte(le_word(b0, b1, b2, b3), 0) == b0,
        word_byte(le_word(b0, b1, b2, b3), 1) == b1,
        word_byte(le_word(b0, b1, b2, b3), 2) == b2,
        word_byte(le_word(b0, b1, b2, b3), 3) == b3,
{
    let w = le_word(b0, b1, b2, b3);
    assert(((((b0 as u32) | ((b1 as u32) << 8) | ((b2 as u32) << 16) | ((b3 as u32) << 24)) >> 0u32)
        & 0xff) as u8 == b0 && ((((b0 as u32) | ((b1 as u32) << 8) | ((b2 as u32) << 16) | ((b3 as u32) << 24))
        >> 8u32) & 0xff) as u8 == b1 && ((((b0 as u32) | ((b1 as u32) << 8) | ((b2 as u32) << 16) | ((b3 as u32)
        << 24)) >> 16u32) & 0xff) as u8 == b2 && ((((b0 as u32) | ((b1 as u32) << 8) | ((b2 as u32) << 16)
        | ((b3 as u32) << 24)) >> 24u32) & 0xff) as u8 == b3) by (bit_vector);
}

/// Splitting a half-word into bytes and packing them again gives it back.
pub proof fn lemma_half_bytes_round_trip(h: u16)
    ensures
        le_half(half_byte(h, 0), half_byte(h, 1)) == h,
        half_byte(h, 0) == (h & 0xff) as u8,
        half_byte(h, 1) == ((h >> 8) & 0xff) as u8,
{
    assert(((h & 0xff) as u8 as u16) | ((((h >> 8) & 0xff) as u8 as u16) << 8) == h && h >> 0u16 == h) by (bit_vector);
}

} // verus!
