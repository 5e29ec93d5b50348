//! Pictures as words and as bytes.

use vstd::prelude::*;

verus! {

/// The red part of a color 0x00RRGGBB.
pub open spec fn red(color: u32) -> u8 {
    (color as int / 0x1_0000 % 0x100) as u8
}

/// The green part of a color 0x00RRGGBB.
pub open spec fn green(color: u32) -> u8 {
    (color as int / 0x100 % 0x100) as u8
}

/// The blue part of a color 0x00RRGGBB.
pub open spec fn blue(color: u32) -> u8 {
    (color as int % 0x100) as u8
}

/// A color 0x00RRGGBB as 0xFFBBGGRR.
pub open spec fn rgba_word(color: u32) -> u32 {
    (0xFF00_0000 + blue(color) * 0x1_0000 + green(color) * 0x100 + red(color)) as u32
}

/// The byte `k` of a word, the least significant one first.
pub open spec fn word_byte(word: u32, k: int) -> u8 {
    if k == 0 {
        (word as int % 0x100) as u8
    } else if k == 1 {
        (word as int / 0x100 % 0x100) as u8
    } else if k == 2 {
        (word as int / 0x1_0000 % 0x100) as u8
    } else {
        (word as int / 0x100_0000) as u8
    }
}

/// The byte at `i` of words laid out with the least significant byte first.
pub open spec fn le_byte(words: Seq<u32>, i: int) -> u8 {
    word_byte(words[i / 4], i % 4)
}

/// The byte at `i` of words laid out with the most significant byte first.
pub open spec fn be_byte(words: Seq<u32>, i: int) -> u8 {
    word_byte(words[i / 4], 3 - i % 4)
}

/// 0x00RRGGBB -> 0xFFBBGGRR (bytes RR GG BB FF).
pub fn to_rgba_word(color: u32) -> (word: u32)
    ensures
        word == rgba_word(color),
{
    proof {
        assert(0xFF00_0000u32 | ((color & 0x0000_00FF) << 16) | (color & 0x0000_FF00) | ((color
            & 0x00FF_0000) >> 16) == 0xFF00_0000 + color % 0x100 * 0x1_0000 + color / 0x100 % 0x100
            * 0x100 + color / 0x1_0000 % 0x100) by (bit_vector);
    }
    0xFF00_0000 | ((color & 0x0000_00FF) << 16) | (color & 0x0000_FF00) | ((color & 0x00FF_0000)
        >> 16)
}

/// The word at `i` of a buffer, after the picture of the core was converted into it.
pub open spec fn converted_at(dst: Seq<u32>, src: Seq<u32>, i: int) -> u32 {
    if i < src.len() {
        rgba_word(src[i])
    } else {
        dst[i]
    }
}

/// Convert the picture of the core into words whose in-memory bytes are RGBA on
/// little-endian machines, as far as both buffers go.
pub fn convert_frame(dst: &mut Vec<u32>, src: &[u32])
    ensures
        final(dst)@.len() == old(dst)@.len(),
        forall|i: int|
            0 <= i < old(dst)@.len() ==> #[trigger] final(dst)@[i] == converted_at(
                old(dst)@,
                src@,
                i,
            ),
{
    let n: usize = if dst.len() < src.len() {
        dst.len()
    } else {
        src.len()
    };
    for i in 0..n
        invariant
            n <= src@.len(),
            n <= dst@.len(),
            dst@.len() == old(dst)@.len(),
            forall|j: int|
                0 <= j < dst@.len() ==> #[trigger] dst@[j] == (if j < i {
                    rgba_word(src@[j])
                } else {
                    old(dst)@[j]
                }),
    {
        let word: u32 = to_rgba_word(src[i]);
        dst.set(i, word);
    }
}

/// The byte at `i` of the screen, after a frame was put on it.
pub open spec fn drawn_at(dst: Seq<u8>, frame: Seq<u32>, i: int) -> u8 {
    if dst.len() == 4 * frame.len() {
        le_byte(frame, i)
    } else {
        dst[i]
    }
}

/// Put a frame of RGBA words on the screen, the red byte first, if it has the
/// screen's size.
pub fn draw_game_screen(dst: &mut [u8], frame: &[u32])
    ensures
        final(dst)@.len() == old(dst)@.len(),
        forall|i: int|
            0 <= i < old(dst)@.len() ==> #[trigger] final(dst)@[i] == drawn_at(
                old(dst)@,
                frame@,
                i,
            ),
        old(dst)@.len() != 4 * frame@.len() ==> final(dst)@ == old(dst)@,
{
    let len: usize = dst.len();
    if len % 4 != 0 || len / 4 != frame.len() {
        return;
    }
    for i in 0..frame.len()
        invariant
            dst@.len() == 4 * frame@.len(),
            dst@.len() == len,
            forall|j: int| 0 <= j < 4 * i ==> #[trigger] dst@[j] == le_byte(frame@, j),
    {
        let word: u32 = frame[i];
        let at: usize = 4 * i;
        dst[at] = (word % 0x100) as u8;
        dst[at + 1] = (word / 0x100 % 0x100) as u8;
        dst[at + 2] = (word / 0x1_0000 % 0x100) as u8;
        dst[at + 3] = (word / 0x100_0000) as u8;
    }
}

/// `bytemuck::cast_slice` of bytemuck, from words to bytes: the bytes that the
/// words have in memory, which are in the byte order of the machine. From words
/// to bytes the cast fits any slice, so it does not fail.
#[verifier::external_body]
fn cast_words(words: &[u32]) -> (bytes: Vec<u8>)
    ensures
        bytes@.len() == 4 * words@.len(),
        (forall|i: int| 0 <= i < bytes@.len() ==> #[trigger] bytes@[i] == le_byte(words@, i)) || (
        forall|i: int| 0 <= i < bytes@.len() ==> #[trigger] bytes@[i] == be_byte(words@, i)),
{
    bytemuck::cast_slice::<u32, u8>(words).to_vec()
}

/// The picture of the core as the bytes that it has in memory.
pub fn frame_bytes(frame: &[u32]) -> (bytes: Vec<u8>)
    ensures
        bytes@.len() == 4 * frame@.len(),
        (forall|i: int| 0 <= i < bytes@.len() ==> #[trigger] bytes@[i] == le_byte(frame@, i)) || (
        forall|i: int| 0 <= i < bytes@.len() ==> #[trigger] bytes@[i] == be_byte(frame@, i)),
{
    cast_words(frame)
}

proof fn lemma_bytes_of_sum(r: int, g: int, b: int, a: int)
    requires
        0 <= r < 0x100,
        0 <= g < 0x100,
        0 <= b < 0x100,
        0 <= a < 0x100,
    ensures
        ({
            let word = a * 0x100_0000 + b * 0x1_0000 + g * 0x100 + r;
            &&& word % 0x100 == r
            &&& word / 0x100 % 0x100 == g
            &&& word / 0x1_0000 % 0x100 == b
            &&& word / 0x100_0000 == a
        }),
{
    let word = a * 0x100_0000 + b * 0x1_0000 + g * 0x100 + r;
    assert(word / 0x100 == a * 0x1_0000 + b * 0x100 + g);
    assert(word / 0x1_0000 == a * 0x100 + b);
}

/// A converted color has the bytes red, green, blue and opaque, in this order.
pub proof fn law_converted_bytes_are_rgba(color: u32)
    ensures
        word_byte(rgba_word(color), 0) == red(color),
        word_byte(rgba_word(color), 1) == green(color),
        word_byte(rgba_word(color), 2) == blue(color),
        word_byte(rgba_word(color), 3) == 0xFF,
{
    lemma_bytes_of_sum(red(color) as int, green(color) as int, blue(color) as int, 0xFF);
}

/// Converting loses nothing of a color: two colors that are drawn alike are
/// alike in red, green and blue.
pub proof fn law_conversion_is_faithful(a: u32, b: u32)
    requires
        rgba_word(a) == rgba_word(b),
    ensures
        red(a) == red(b),
        green(a) == green(b),
        blue(a) == blue(b),
{
    law_converted_bytes_are_rgba(a);
    law_converted_bytes_are_rgba(b);
}

} // verus!
