//! The VRAM viewer.

use crate::devices::VRAM_BANK_SIZE;
use crate::ui::pixels::{blue, green, red};
use vstd::prelude::*;

verus! {

/// Tiles of the background map in a row, and in a column.
pub const MAP_TILES: usize = 32;

/// Pixels of a tile in a row, and in a column.
pub const TILE: usize = 8;

/// Pixels of the background map in a row, and in a column.
pub const IMG_SIZE: usize = 256;

/// The colors of the shades, as 0x00RRGGBB.
pub const DMG_PALETTE: [u32; 4] = [0x009BBC0F, 0x008BAC0F, 0x00306230, 0x000F380F];

/// The tabs of the viewer.
#[derive(Clone, Copy, Debug, PartialEq, Eq, Structural)]
pub enum VramTab {
    BgMap,
    Tiles,
    Oam,
    Palettes,
}

impl VramTab {
    pub fn label(self) -> (label: &'static str)
        ensures
            label@ == match self {
                VramTab::BgMap => "BG Map"@,
                VramTab::Tiles => "Tiles"@,
                VramTab::Oam => "OAM"@,
                VramTab::Palettes => "Palettes"@,
            },
    {
        match self {
            VramTab::BgMap => "BG Map",
            VramTab::Tiles => "Tiles",
            VramTab::Oam => "OAM",
            VramTab::Palettes => "Palettes",
        }
    }
}

/// The state of the viewer.
#[derive(Clone, Copy, Debug, PartialEq, Eq, Structural)]
pub struct VramViewerWindow {
    pub current: VramTab,
    pub last_vblank_frame: u64,
}

impl VramViewerWindow {
    pub fn new() -> (s: Self)
        ensures
            s == (VramViewerWindow { current: VramTab::BgMap, last_vblank_frame: 0 }),
    {
        VramViewerWindow { current: VramTab::BgMap, last_vblank_frame: 0 }
    }

    /// A tab is open.
    pub fn tab_item(&mut self, which: VramTab)
        ensures
            *final(self) == (VramViewerWindow { current: which, ..*old(self) }),
    {
        self.current = which;
    }

    /// The viewer after it has drawn the picture.
    pub open spec fn drawn(self) -> Self {
        VramViewerWindow {
            last_vblank_frame: if self.last_vblank_frame == u64::MAX {
                0
            } else {
                (self.last_vblank_frame + 1) as u64
            },
            ..self
        }
    }

    /// The picture of the background map is drawn: count it. The picture is
    /// made anew each time.
    pub fn draw_bg_map(&mut self) -> (rebuild: bool)
        ensures
            rebuild,
            *final(self) == old(self).drawn(),
    {
        let vblank: u64 = self.last_vblank_frame.wrapping_add(1);
        let rebuild = vblank != self.last_vblank_frame;
        self.last_vblank_frame = vblank;
        rebuild
    }
}

/// Where the background map lies in VRAM.
pub open spec fn map_base(lcdc: u8) -> int {
    if lcdc & 0x08 != 0 {
        0x1C00
    } else {
        0x1800
    }
}

/// Where a tile's data lies in VRAM. Tiles are numbered from the start of VRAM,
/// or with a sign, from the second half of the first 4 KiB.
pub open spec fn tile_base(lcdc: u8, tile: u8) -> int {
    if lcdc & 0x10 != 0 {
        16 * tile
    } else if tile < 0x80 {
        0x800 + 16 * tile
    } else {
        0x800 + 16 * (tile - 0x100)
    }
}

/// Bit `n` of a byte.
pub open spec fn bit(byte: u8, n: u8) -> u8 {
    (byte >> n) & 1
}

/// The shade that a palette register gives a color number.
pub open spec fn shade(bgp: u8, number: u8) -> u8 {
    (bgp >> ((2 * number) as u8)) & 3
}

/// The color of a pixel of the background map.
pub open spec fn map_color(vram: Seq<u8>, lcdc: u8, bgp: u8, x: int, y: int) -> u32 {
    let tile = vram[map_base(lcdc) + y / 8 * 32 + x / 8];
    let row = tile_base(lcdc, tile) + y % 8 * 2;
    let column = (7 - x % 8) as u8;
    let number = (2 * bit(vram[row + 1], column) + bit(vram[row], column)) as u8;
    DMG_PALETTE[shade(bgp, number) as int]
}

/// The byte at `i` of the picture of the background map, which has the bytes
/// red, green, blue and opaque for each pixel, row by row.
pub open spec fn map_byte(vram: Seq<u8>, lcdc: u8, bgp: u8, i: int) -> u8 {
    let color = map_color(vram, lcdc, bgp, i / 4 % 256, i / 4 / 256);
    if i % 4 == 0 {
        red(color)
    } else if i % 4 == 1 {
        green(color)
    } else if i % 4 == 2 {
        blue(color)
    } else {
        0xFF
    }
}

fn pixel_color(vram: &[u8], lcdc: u8, bgp: u8, x: usize, y: usize) -> (color: u32)
    requires
        vram@.len() == VRAM_BANK_SIZE,
        x < IMG_SIZE,
        y < IMG_SIZE,
    ensures
        color == map_color(vram@, lcdc, bgp, x as int, y as int),
{
    let base: usize = if lcdc & 0x08 != 0 {
        0x1C00
    } else {
        0x1800
    };
    let tile: u8 = vram[base + y / TILE * MAP_TILES + x / TILE];
    let data: usize = if lcdc & 0x10 != 0 {
        16 * tile as usize
    } else if tile < 0x80 {
        0x800 + 16 * tile as usize
    } else {
        0x800 - 16 * (0x100 - tile as usize)
    };
    let lo: u8 = vram[data + y % TILE * 2];
    let hi: u8 = vram[data + y % TILE * 2 + 1];
    let column: u8 = (7 - x % TILE) as u8;
    proof {
        assert(column < 8 ==> (hi >> column) & 1 <= 1 && (lo >> column) & 1 <= 1) by (bit_vector);
    }
    let number: u8 = 2 * ((hi >> column) & 1) + ((lo >> column) & 1);
    let shift: u8 = 2 * number;
    proof {
        assert((bgp >> shift) & 3 <= 3) by (bit_vector);
    }
    DMG_PALETTE[((bgp >> shift) & 3) as usize]
}

/// The picture of the background map.
pub fn build_bg_map_texture(vram: &[u8], lcdc: u8, bgp: u8) -> (rgba: Vec<u8>)
    requires
        vram@.len() == VRAM_BANK_SIZE,
    ensures
        rgba@.len() == IMG_SIZE * IMG_SIZE * 4,
        forall|i: int|
            0 <= i < rgba@.len() ==> #[trigger] rgba@[i] == map_byte(vram@, lcdc, bgp, i),
{
    let mut rgba: Vec<u8> = Vec::new();
    for y in 0..IMG_SIZE
        invariant
            vram@.len() == VRAM_BANK_SIZE,
            rgba@.len() == y * 256 * 4,
            forall|i: int|
                0 <= i < rgba@.len() ==> #[trigger] rgba@[i] == map_byte(vram@, lcdc, bgp, i),
    {
        for x in 0..IMG_SIZE
            invariant
                vram@.len() == VRAM_BANK_SIZE,
                y < IMG_SIZE,
                rgba@.len() == (y * 256 + x) * 4,
                forall|i: int|
                    0 <= i < rgba@.len() ==> #[trigger] rgba@[i] == map_byte(vram@, lcdc, bgp, i),
        {
            let color: u32 = pixel_color(vram, lcdc, bgp, x, y);
            let ghost at = rgba@.len() as int;
            rgba.push((color / 0x1_0000 % 0x100) as u8);
            rgba.push((color / 0x100 % 0x100) as u8);
            rgba.push((color % 0x100) as u8);
            rgba.push(0xFF);
            proof {
                assert forall|i: int| at <= i < at + 4 implies #[trigger] rgba@[i] == map_byte(
                    vram@,
                    lcdc,
                    bgp,
                    i,
                ) by {
                    assert(i / 4 == y * 256 + x);
                    assert((y * 256 + x) % 256 == x);
                    assert((y * 256 + x) / 256 == y);
                }
            }
        }
    }
    rgba
}

/// A frame around a part of the background map, in pixels of the map. Parts may
/// begin outside of it.
#[derive(Clone, Copy, Debug, PartialEq, Eq, Structural)]
pub struct Frame {
    pub left: i32,
    pub top: i32,
    pub right: i32,
    pub bottom: i32,
}

/// The frames around what the screen shows.
pub open spec fn frames_around(scx: u8, scy: u8) -> Seq<Frame> {
    let main = Frame {
        left: scx as i32,
        top: scy as i32,
        right: (scx + 160) as i32,
        bottom: (scy + 144) as i32,
    };
    seq![main] + (if scx > 96 {
        seq![Frame { left: (scx - 256) as i32, right: (scx - 96) as i32, ..main }]
    } else {
        Seq::empty()
    }) + (if scy > 112 {
        seq![Frame { top: (scy - 256) as i32, bottom: (scy - 112) as i32, ..main }]
    } else {
        Seq::empty()
    })
}

/// The frames around what the screen shows. What runs off the right or lower
/// edge of the map comes in again at the opposite one.
pub fn screen_frames(scx: u8, scy: u8) -> (frames: Vec<Frame>)
    ensures
        frames@ == frames_around(scx, scy),
{
    let x: i32 = scx as i32;
    let y: i32 = scy as i32;
    let mut frames: Vec<Frame> = Vec::new();
    let main = Frame { left: x, top: y, right: x + 160, bottom: y + 144 };
    frames.push(main);
    if scx > 96 {
        frames.push(Frame { left: x - 256, top: y, right: x - 96, bottom: y + 144 });
    }
    if scy > 112 {
        frames.push(Frame { left: x, top: y - 256, right: x + 160, bottom: y - 112 });
    }
    frames
}

} // verus!
