//! Pictures: which color ends up where.

use crate::ui::icon::expanded;
use crate::ui::pixels::{be_byte, blue, converted_at, drawn_at, green, le_byte, red, rgba_word};
use crate::ui::vram_viewer::{
    bit, frames_around, map_base, map_byte, map_color, shade, tile_base, VramViewerWindow,
    DMG_PALETTE,
};
use crate::ui::window::{is_viewport, Area};
use vstd::prelude::*;

verus! {

/// The four colors of the background map, as red, green and blue.
pub open spec fn shade_color(shade: int) -> (u8, u8, u8) {
    if shade == 0 {
        (0x9B, 0xBC, 0x0F)
    } else if shade == 1 {
        (0x8B, 0xAC, 0x0F)
    } else if shade == 2 {
        (0x30, 0x62, 0x30)
    } else {
        (0x0F, 0x38, 0x0F)
    }
}

/// `p` is the value of the bit that stands for column `column` of a tile. The
/// leftmost column is the top bit.
pub open spec fn is_column_bit(column: int, p: int) -> bool {
    &&& column == 0 ==> p == 128
    &&& column == 1 ==> p == 64
    &&& column == 2 ==> p == 32
    &&& column == 3 ==> p == 16
    &&& column == 4 ==> p == 8
    &&& column == 5 ==> p == 4
    &&& column == 6 ==> p == 2
    &&& column == 7 ==> p == 1
}

/// A palette register holds the shades of the four color numbers in two bits
/// each, that of number 0 in the lowest.
pub proof fn law_palette_register(bgp: u8, s0: int, s1: int, s2: int, s3: int)
    requires
        0 <= s0 < 4,
        0 <= s1 < 4,
        0 <= s2 < 4,
        0 <= s3 < 4,
        bgp == s0 + 4 * s1 + 16 * s2 + 64 * s3,
    ensures
        shade(bgp, 0) == s0,
        shade(bgp, 1) == s1,
        shade(bgp, 2) == s2,
        shade(bgp, 3) == s3,
{
    assert((bgp >> 0u8) & 3 == bgp % 4 && (bgp >> 2u8) & 3 == bgp / 4 % 4 && (bgp >> 4u8) & 3 == bgp
        / 16 % 4 && (bgp >> 6u8) & 3 == bgp / 64) by (bit_vector);
    assert(bgp as int / 4 == s1 + 4 * s2 + 16 * s3);
    assert(bgp as int / 16 == s2 + 4 * s3);
}

/// The bits of a byte are its digits in base 2.
proof fn lemma_bits(byte: u8)
    ensures
        bit(byte, 0) == byte % 2,
        bit(byte, 1) == byte / 2 % 2,
        bit(byte, 2) == byte / 4 % 2,
        bit(byte, 3) == byte / 8 % 2,
        bit(byte, 4) == byte / 16 % 2,
        bit(byte, 5) == byte / 32 % 2,
        bit(byte, 6) == byte / 64 % 2,
        bit(byte, 7) == byte / 128 % 2,
{
    assert((byte >> 0u8) & 1 == byte % 2 && (byte >> 1u8) & 1 == byte / 2 % 2 && (byte >> 2u8) & 1
        == byte / 4 % 2 && (byte >> 3u8) & 1 == byte / 8 % 2 && (byte >> 4u8) & 1 == byte / 16 % 2
        && (byte >> 5u8) & 1 == byte / 32 % 2 && (byte >> 6u8) & 1 == byte / 64 % 2 && (byte >> 7u8)
        & 1 == byte / 128 % 2) by (bit_vector);
}

/// A bit of a byte, by its value.
proof fn lemma_column(byte: u8, column: int, p: int)
    requires
        0 <= column < 8,
        is_column_bit(column, p),
    ensures
        bit(byte, (7 - column) as u8) == byte as int / p % 2,
{
    lemma_bits(byte);
    if column == 7 {
        assert(byte as int / p == byte);
    }
}

/// The colors of the four shades.
proof fn lemma_shade_bytes(n: u8)
    requires
        n < 4,
    ensures
        red(DMG_PALETTE[n as int]) == shade_color(n as int).0,
        green(DMG_PALETTE[n as int]) == shade_color(n as int).1,
        blue(DMG_PALETTE[n as int]) == shade_color(n as int).2,
{
}

/// The shade of each color number.
proof fn lemma_shades(bgp: u8, shades: Seq<int>, number: int)
    requires
        shades.len() == 4,
        0 <= shades[0] < 4,
        0 <= shades[1] < 4,
        0 <= shades[2] < 4,
        0 <= shades[3] < 4,
        bgp == shades[0] + 4 * shades[1] + 16 * shades[2] + 64 * shades[3],
        0 <= number < 4,
    ensures
        shade(bgp, number as u8) == shades[number],
{
    law_palette_register(bgp, shades[0], shades[1], shades[2], shades[3]);
}

/// The four bytes of a pixel are those of its color.
proof fn lemma_pixel_bytes(vram: Seq<u8>, lcdc: u8, bgp: u8, x: int, y: int)
    requires
        0 <= x < 256,
        0 <= y < 256,
    ensures
        ({
            let at = 4 * (256 * y + x);
            let color = map_color(vram, lcdc, bgp, x, y);
            &&& map_byte(vram, lcdc, bgp, at) == red(color)
            &&& map_byte(vram, lcdc, bgp, at + 1) == green(color)
            &&& map_byte(vram, lcdc, bgp, at + 2) == blue(color)
            &&& map_byte(vram, lcdc, bgp, at + 3) == 0xFF
        }),
{
    let at = 4 * (256 * y + x);
    assert(at / 4 == 256 * y + x && (at + 1) / 4 == 256 * y + x && (at + 2) / 4 == 256 * y + x && (at
        + 3) / 4 == 256 * y + x);
    assert((256 * y + x) % 256 == x);
    assert((256 * y + x) / 256 == y);
    assert(at % 4 == 0 && (at + 1) % 4 == 1 && (at + 2) % 4 == 2 && (at + 3) % 4 == 3);
}

/// The pixel at `x`, `y` of the background map. The map, 32 tiles a row, lies at
/// 1800 or, with bit 3 of LCDC set, at 1C00. With bit 4 set a tile's data lies at
/// 16 times its number; else the number has a sign, and the data lies that far
/// from 0800. A tile has two bytes a row, the lower bits of its color numbers and
/// the upper ones. The palette register gives each number one of the four shades.
/// The picture has four bytes a pixel: red, green, blue and 0xFF.
#[verifier::rlimit(40)]
#[verifier::spinoff_prover]
pub proof fn law_background_pixel(
    vram: Seq<u8>,
    lcdc: u8,
    bgp: u8,
    shades: Seq<int>,
    x: int,
    y: int,
    p: int,
)
    requires
        vram.len() == 0x2000,
        shades.len() == 4,
        0 <= shades[0] < 4,
        0 <= shades[1] < 4,
        0 <= shades[2] < 4,
        0 <= shades[3] < 4,
        bgp == shades[0] + 4 * shades[1] + 16 * shades[2] + 64 * shades[3],
        0 <= x < 256,
        0 <= y < 256,
        is_column_bit(x % 8, p),
    ensures
        ({
            let map = if lcdc / 8 % 2 == 1 {
                0x1C00int
            } else {
                0x1800int
            };
            let tile = vram[map + 32 * (y / 8) + x / 8] as int;
            let data = if lcdc / 16 % 2 == 1 {
                16 * tile
            } else if tile < 128 {
                0x800 + 16 * tile
            } else {
                0x800 - 16 * (256 - tile)
            };
            let lower = vram[data + 2 * (y % 8)] as int / p % 2;
            let upper = vram[data + 2 * (y % 8) + 1] as int / p % 2;
            let color = shade_color(shades[2 * upper + lower]);
            let at = 4 * (256 * y + x);
            &&& map_byte(vram, lcdc, bgp, at) == color.0
            &&& map_byte(vram, lcdc, bgp, at + 1) == color.1
            &&& map_byte(vram, lcdc, bgp, at + 2) == color.2
            &&& map_byte(vram, lcdc, bgp, at + 3) == 0xFF
        }),
{
    crate::bits::lemma_bits_of(lcdc);
    let tile = vram[map_base(lcdc) + y / 8 * 32 + x / 8];
    let row = tile_base(lcdc, tile) + y % 8 * 2;
    lemma_column(vram[row], x % 8, p);
    lemma_column(vram[row + 1], x % 8, p);
    let lower = vram[row] as int / p % 2;
    let upper = vram[row + 1] as int / p % 2;
    lemma_shades(bgp, shades, 2 * upper + lower);
    lemma_shade_bytes(shades[2 * upper + lower] as u8);
    lemma_pixel_bytes(vram, lcdc, bgp, x, y);
}

/// A color with the parts `r`, `g` and `b` is converted to a word whose bytes, the
/// least significant first, are `r`, `g`, `b` and 0xFF, whatever its top byte was.
pub proof fn law_color_to_word(top: u8, r: u8, g: u8, b: u8, color: u32)
    requires
        color == 0x100_0000 * top + 0x1_0000 * r + 0x100 * g + b,
    ensures
        rgba_word(color) == 0xFF00_0000 + 0x1_0000 * b + 0x100 * g + r,
{
    let c = color as int;
    assert(c / 0x100 == 0x1_0000 * top + 0x100 * r + g);
    assert(c / 0x1_0000 == 0x100 * top + r);
}

/// Words laid out as bytes: each word is the four bytes at its place, the least
/// significant first, or, in the other order, the most significant first.
pub proof fn law_words_as_bytes(words: Seq<u32>, i: int)
    requires
        0 <= i < words.len(),
    ensures
        words[i] == le_byte(words, 4 * i) + 0x100 * le_byte(words, 4 * i + 1) + 0x1_0000 * le_byte(
            words,
            4 * i + 2,
        ) + 0x100_0000 * le_byte(words, 4 * i + 3),
        words[i] == 0x100_0000 * be_byte(words, 4 * i) + 0x1_0000 * be_byte(words, 4 * i + 1)
            + 0x100 * be_byte(words, 4 * i + 2) + be_byte(words, 4 * i + 3),
{
    let at = 4 * i;
    assert(at / 4 == i && (at + 1) / 4 == i && (at + 2) / 4 == i && (at + 3) / 4 == i);
    assert(at % 4 == 0 && (at + 1) % 4 == 1 && (at + 2) % 4 == 2 && (at + 3) % 4 == 3);
    let w = words[i] as int;
    assert(w == w % 0x100 + 0x100 * (w / 0x100 % 0x100) + 0x1_0000 * (w / 0x1_0000 % 0x100)
        + 0x100_0000 * (w / 0x100_0000));
}

/// A frame of the core on the screen: the pixel at `i` has the bytes `r`, `g`, `b`
/// and 0xFF where the core has the color of `r`, `g` and `b`. A frame of another size
/// leaves the screen as it is, and words behind a frame stay.
pub proof fn law_frame_on_the_screen(
    words: Seq<u32>,
    frame: Seq<u32>,
    screen: Seq<u8>,
    i: int,
    top: u8,
    r: u8,
    g: u8,
    b: u8,
)
    requires
        0 <= i < words.len(),
        screen.len() == 4 * words.len(),
        i < frame.len() ==> frame[i] == 0x100_0000 * top + 0x1_0000 * r + 0x100 * g + b,
    ensures
        ({
            let converted = Seq::new(words.len(), |j: int| converted_at(words, frame, j));
            &&& i < frame.len() ==> {
                &&& drawn_at(screen, converted, 4 * i) == r
                &&& drawn_at(screen, converted, 4 * i + 1) == g
                &&& drawn_at(screen, converted, 4 * i + 2) == b
                &&& drawn_at(screen, converted, 4 * i + 3) == 0xFF
            }
            &&& i >= frame.len() ==> converted[i] == words[i]
        }),
        frame.len() != words.len() ==> drawn_at(screen, frame, i) == screen[i],
{
    let converted = Seq::new(words.len(), |j: int| converted_at(words, frame, j));
    if i < frame.len() {
        law_color_to_word(top, r, g, b, frame[i]);
    }
    let at = 4 * i;
    assert(at / 4 == i && (at + 1) / 4 == i && (at + 2) / 4 == i && (at + 3) / 4 == i);
    assert(at % 4 == 0 && (at + 1) % 4 == 1 && (at + 2) % 4 == 2 && (at + 3) % 4 == 3);
    if i < frame.len() {
        let w = converted[i] as int;
        assert(w == 0xFF00_0000 + 0x1_0000 * b + 0x100 * g + r);
        assert(w / 0x100 == 0xFF_0000 + 0x100 * b + g);
        assert(w / 0x1_0000 == 0xFF00 + b);
        assert(w / 0x100_0000 == 0xFF);
    }
}

/// The frames in the viewer have the size of the screen, 160 by 144. The first one
/// stands at the scroll registers. One that runs off the map of 256 pixels has a copy
/// that comes in at the opposite edge, 256 pixels away.
pub proof fn law_screen_frames(scx: u8, scy: u8)
    ensures
        ({
            let frames = frames_around(scx, scy);
            let off_right = scx + 160 > 256;
            let off_bottom = scy + 144 > 256;
            &&& frames[0].left == scx && frames[0].top == scy
            &&& forall|i: int|
                0 <= i < frames.len() ==> (#[trigger] frames[i]).right - frames[i].left == 160
                    && frames[i].bottom - frames[i].top == 144
            &&& off_right ==> frames[1].left == scx - 256 && frames[1].top == scy
            &&& off_bottom ==> frames.last().left == scx && frames.last().top == scy - 256
            &&& frames.len() == 1 + (if off_right {
                1int
            } else {
                0
            }) + (if off_bottom {
                1int
            } else {
                0
            })
        }),
{
}

/// Each picture of the viewer has a number of its own.
pub proof fn law_viewer_counts_pictures(viewer: VramViewerWindow)
    ensures
        viewer.last_vblank_frame < u64::MAX ==> viewer.drawn().last_vblank_frame
            == viewer.last_vblank_frame + 1,
        viewer.drawn().last_vblank_frame != viewer.last_vblank_frame,
        viewer.drawn().current == viewer.current,
{
}

/// Pixel `i` of an icon, from each kind of picture that PNG numbers 6, 2, 0 and 4:
/// red, green, blue and alpha as they are; red, green and blue, opaque; gray,
/// opaque; gray with its alpha. Palettes, and what PNG does not know, are not
/// accepted.
pub proof fn law_icon_pixels(data: Seq<u8>, i: int, kind: u8)
    requires
        i >= 0,
    ensures
        expanded(6, data) == Some(data),
        expanded(2, data) matches Some(rgba) && rgba.len() == 4 * (data.len() / 3) && (i
            < data.len() / 3 ==> rgba[4 * i] == data[3 * i] && rgba[4 * i + 1] == data[3 * i + 1]
            && rgba[4 * i + 2] == data[3 * i + 2] && rgba[4 * i + 3] == 0xFF),
        expanded(0, data) matches Some(rgba) && rgba.len() == 4 * data.len() && (i < data.len()
            ==> rgba[4 * i] == data[i] && rgba[4 * i + 1] == data[i] && rgba[4 * i + 2] == data[i]
            && rgba[4 * i + 3] == 0xFF),
        expanded(4, data) matches Some(rgba) && rgba.len() == 4 * (data.len() / 2) && (i
            < data.len() / 2 ==> rgba[4 * i] == data[2 * i] && rgba[4 * i + 1] == data[2 * i]
            && rgba[4 * i + 2] == data[2 * i] && rgba[4 * i + 3] == data[2 * i + 1]),
        kind != 0 && kind != 2 && kind != 4 && kind != 6 ==> expanded(kind, data) is None,
{
    let at = 4 * i;
    assert(at / 4 == i && (at + 1) / 4 == i && (at + 2) / 4 == i && (at + 3) / 4 == i);
    assert(at % 4 == 0 && (at + 1) % 4 == 1 && (at + 2) % 4 == 2 && (at + 3) % 4 == 3);
}

/// Where the picture fits below the menu bar, it is drawn larger by a whole factor,
/// the largest that fits, in the middle of what is left: to the left and to the
/// right of it, and above and below it, there is the same room, up to one pixel.
pub proof fn law_viewport(
    surface_w: u32,
    surface_h: u32,
    buffer_w: u32,
    buffer_h: u32,
    top: u32,
    area: Area,
) -> (factor: int)
    requires
        0 < buffer_w <= surface_w,
        0 < buffer_h,
        top + buffer_h <= surface_h,
        is_viewport(surface_w, surface_h, buffer_w, buffer_h, top, area),
    ensures
        factor >= 1,
        area.w == factor * buffer_w,
        area.h == factor * buffer_h,
        (factor + 1) * buffer_w > surface_w || (factor + 1) * buffer_h > surface_h - top,
        0 <= surface_w - (area.x + area.w) - area.x <= 1,
        area.y >= top,
        0 <= surface_h - (area.y + area.h) - (area.y - top) <= 1,
{
    let height = surface_h - top;
    crate::ui::window::law_viewport_scale_is_whole_and_largest(
        surface_w as int,
        height,
        buffer_w as int,
        buffer_h as int,
    );
    let factor = crate::ui::window::whole_scale(
        surface_w as int,
        height,
        buffer_w as int,
        buffer_h as int,
    );
    assert(factor * buffer_w == buffer_w * factor) by (nonlinear_arith);
    assert(factor * buffer_h == buffer_h * factor) by (nonlinear_arith);
    assert((factor + 1) * buffer_w == buffer_w * (factor + 1)) by (nonlinear_arith);
    assert((factor + 1) * buffer_h == buffer_h * (factor + 1)) by (nonlinear_arith);
    factor
}

/// Where the picture does not fit, it is cut to what is left.
pub proof fn law_viewport_is_cut(
    surface_w: u32,
    surface_h: u32,
    buffer_w: u32,
    buffer_h: u32,
    top: u32,
    area: Area,
)
    requires
        buffer_w > 0,
        buffer_h > 0,
        is_viewport(surface_w, surface_h, buffer_w, buffer_h, top, area),
    ensures
        buffer_w > surface_w ==> area.w == surface_w && area.x == 0,
        top + 1 <= surface_h && buffer_h > surface_h - top ==> area.h == surface_h - top && area.y
            == top,
        top >= surface_h ==> area.h == 1 && area.y == top,
        area.x + area.w <= surface_w,
        buffer_w <= surface_w && top < surface_h && buffer_h > surface_h - top ==> {
            &&& area.w == buffer_w
            &&& 0 <= surface_w - (area.x + area.w) - area.x <= 1
        },
        buffer_w > surface_w && top + buffer_h <= surface_h ==> {
            &&& area.h == buffer_h
            &&& 0 <= surface_h - (area.y + area.h) - (area.y - top) <= 1
        },
{
    let height = crate::ui::window::height_below(surface_h, top);
    let factor = crate::ui::window::whole_scale(
        surface_w as int,
        height,
        buffer_w as int,
        buffer_h as int,
    );
    assert(buffer_w > surface_w ==> surface_w as int / buffer_w as int == 0) by (nonlinear_arith)
        requires
            buffer_w > 0,
    ;
    assert(buffer_h > height && height >= 0 ==> height / buffer_h as int == 0) by (nonlinear_arith)
        requires
            buffer_h > 0,
    ;
    assert(buffer_w * factor >= buffer_w && buffer_h * factor >= buffer_h) by (nonlinear_arith)
        requires
            factor >= 1,
            buffer_w > 0,
            buffer_h > 0,
    ;
}

} // verus!
