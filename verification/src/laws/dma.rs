//! The DMA units: which bytes end up where, and when.

use crate::devices::{Cartridge, CartridgeEngine, Machine, Ppu, PpuEngine};
use crate::laws::memory::ram_at;
use crate::mmu::{dst_at, src_at, DmaMode, HdmaState, Mmu};
use vstd::prelude::*;

verus! {

/// The byte that a DMA unit finds at an address: of the cartridge, where `rom`
/// says what it holds, of VRAM, or of WRAM.
pub open spec fn source_byte<M: Machine>(
    mmu: Mmu<M>,
    rom: spec_fn(int) -> u8,
    addr: int,
) -> u8 {
    if addr < 0x8000 || 0xA000 <= addr < 0xC000 {
        rom(addr)
    } else if addr < 0xA000 {
        mmu.ppu.vram[mmu.ppu.vram_bank as int][addr - 0x8000]
    } else {
        ram_at(mmu, addr)
    }
}

/// The cartridge holds what `rom` says, and reading does not change it.
pub open spec fn cart_holds<M: Machine>(mmu: Mmu<M>, rom: spec_fn(int) -> u8) -> bool {
    mmu.cart matches Some(cart) && forall|addr: u16, after: Cartridge<M::Cart>, val: u8|
        #[trigger] M::Cart::reads(cart, addr, after, val) ==> after == cart && val == rom(
            addr as int,
        )
}

/// VRAM is open, whatever the sprite table holds.
pub open spec fn vram_stays_open<M: Machine>(mmu: Mmu<M>) -> bool {
    forall|ppu: Ppu<M::Ppu>|
        ppu == (Ppu { oam: ppu.oam, dma: ppu.dma, ..mmu.ppu }) ==> #[trigger] M::Ppu::vram_open(
            ppu,
        )
}

/// The addresses from `from` up to `to` are memory that reading does not change: a
/// cartridge without the boot ROM in front of it, VRAM while it is open, or WRAM,
/// which a DMG shows to its DMA units up to FF9F.
pub open spec fn is_memory<M: Machine>(
    mmu: Mmu<M>,
    rom: spec_fn(int) -> u8,
    from: int,
    to: int,
) -> bool {
    &&& 0 <= from <= to
    &&& to <= 0xFE00 || !mmu.cgb_mode && to <= 0xFFA0
    &&& from < 0x8000 || from < 0xC000 && to > 0xA000 ==> cart_holds(mmu, rom)
        && !mmu.boot_mapped
    &&& from < 0xA000 && to > 0x8000 ==> vram_stays_open(mmu)
}

/// The addresses from `from` up to `to` do not reach into VRAM.
pub open spec fn outside_vram(from: int, to: int) -> bool {
    to <= 0x8000 || from >= 0xA000
}

/// VRAM of `now` is that of `start` with `n` bytes, from `src` on, at the places
/// of the bank in view from `dst` on. Behind the last place comes the first.
pub open spec fn copied_to_vram<M: Machine>(
    start: Mmu<M>,
    rom: spec_fn(int) -> u8,
    src: int,
    dst: int,
    n: int,
    now: Mmu<M>,
) -> bool {
    let bank = start.ppu.vram_bank as int;
    &&& now.ppu.vram_bank == bank
    &&& now.ppu.vram[1 - bank] == start.ppu.vram[1 - bank]
    &&& forall|place: int|
        0 <= place < 0x2000 ==> #[trigger] now.ppu.vram[bank][place] == if (place - dst) % 0x2000
            < n {
            source_byte(start, rom, src + (place - dst) % 0x2000)
        } else {
            start.ppu.vram[bank][place]
        }
}

/// Everything of `now` but VRAM, the VRAM DMA unit, the stall and the note of the
/// program counter is as in `start`.
pub open spec fn only_vram_dma_worked<M: Machine>(start: Mmu<M>, now: Mmu<M>) -> bool {
    now == (Mmu {
        ppu: Ppu { vram: now.ppu.vram, ..start.ppu },
        hdma: now.hdma,
        gdma_cycles: now.gdma_cycles,
        last_cpu_pc: now.last_cpu_pc,
        ..start
    })
}

/// M-cycles that the CPU stalls for a block: 8, and 16 at double speed.
pub open spec fn stall_per_block<M: Machine>(mmu: Mmu<M>) -> int {
    if mmu.key1 >= 0x80 {
        16
    } else {
        8
    }
}

/// What a DMA unit reads from memory that reading does not change.
proof fn lemma_source_read<M: Machine>(
    mmu: Mmu<M>,
    rom: spec_fn(int) -> u8,
    addr: u16,
    read: Mmu<M>,
    val: u8,
)
    requires
        is_memory(mmu, rom, addr as int, addr + 1),
        mmu.dma_reads(addr, read, val),
    ensures
        read == mmu,
        val == source_byte(mmu, rom, addr as int),
{
    if 0x8000 <= addr < 0xA000 {
        assert(M::Ppu::vram_open(mmu.ppu));
    }
}

/// What moving bytes does to VRAM, place by place.
proof fn lemma_moves_fill_vram<M: Machine>(
    start: Mmu<M>,
    rom: spec_fn(int) -> u8,
    src: u16,
    dst: u16,
    n: nat,
    live: bool,
    now: Mmu<M>,
)
    requires
        start.ppu.wf(),
        is_memory(start, rom, src as int, src + n),
        outside_vram(src as int, src + n),
        n <= 0x1000,
        0x8000 <= dst < 0xA000,
        start.moves(src, dst, n, live, now),
    ensures
        copied_to_vram(start, rom, src as int, dst as int, n as int, now),
        now == (Mmu { ppu: Ppu { vram: now.ppu.vram, ..start.ppu }, hdma: now.hdma, ..start }),
    decreases n,
{
    if n > 0 {
        let m = (n - 1) as nat;
        let at = src_at(src, n - 1);
        let to = dst_at(dst, n - 1);
        let last = choose|last: Mmu<M>|
            start.moves(src, dst, m, live, last) && #[trigger] last.moves_byte(at, to, live, now);
        lemma_moves_fill_vram(start, rom, src, dst, m, live, last);
        lemma_byte_fills_vram(start, rom, src, dst, m as int, live, last, now);
    }
}

proof fn lemma_byte_fills_vram<M: Machine>(
    start: Mmu<M>,
    rom: spec_fn(int) -> u8,
    src: u16,
    dst: u16,
    m: int,
    live: bool,
    last: Mmu<M>,
    now: Mmu<M>,
)
    requires
        start.ppu.wf(),
        is_memory(start, rom, src as int, src + m + 1),
        outside_vram(src as int, src + m + 1),
        0 <= m < 0x1000,
        0x8000 <= dst < 0xA000,
        copied_to_vram(start, rom, src as int, dst as int, m, last),
        last == (Mmu { ppu: Ppu { vram: last.ppu.vram, ..start.ppu }, hdma: last.hdma, ..start }),
        last.moves_byte(src_at(src, m), dst_at(dst, m), live, now),
    ensures
        copied_to_vram(start, rom, src as int, dst as int, m + 1, now),
        now == (Mmu { ppu: Ppu { vram: now.ppu.vram, ..start.ppu }, hdma: now.hdma, ..start }),
{
    let at = src_at(src, m);
    let to = dst_at(dst, m);
    let (read, val) = choose|read: Mmu<M>, val: u8| #[trigger]
        last.dma_reads(at, read, val) && read.byte_moved(at, to, val, live, now);
    assert(at == src + m);
    lemma_source_read(last, rom, at, read, val);
    let bank = start.ppu.vram_bank as int;
    assert forall|place: int| 0 <= place < 0x2000 implies #[trigger] now.ppu.vram[bank][place]
        == if (place - dst) % 0x2000 < m + 1 {
        source_byte(start, rom, src + (place - dst) % 0x2000)
    } else {
        start.ppu.vram[bank][place]
    } by {
        lemma_place(place, dst as int, m);
        assert(last.ppu.vram[bank][place] == if (place - dst) % 0x2000 < m {
            source_byte(start, rom, src + (place - dst) % 0x2000)
        } else {
            start.ppu.vram[bank][place]
        });
        assert(now.ppu.vram[bank][place] == if place == to - 0x8000 {
            val
        } else {
            last.ppu.vram[bank][place]
        });
    }
}

/// The place of byte `m` is the one at the distance `m`.
proof fn lemma_place(place: int, dst: int, m: int)
    requires
        0 <= m < 0x1000,
        0 <= place < 0x2000,
        0x8000 <= dst < 0xA000,
    ensures
        (place == (dst + m) % 0x2000) == ((place - dst) % 0x2000 == m),
{
}

/// In HBlank mode the address registers follow the bytes.
proof fn lemma_live_addresses_follow<M: Machine>(
    start: Mmu<M>,
    src: u16,
    dst: u16,
    n: nat,
    now: Mmu<M>,
)
    requires
        start.moves(src, dst, n, true, now),
        start.hdma.src == src,
        start.hdma.dst == dst,
        0x8000 <= dst < 0xA000,
    ensures
        now.hdma == (HdmaState {
            src: src_at(src, n as int),
            dst: dst_at(dst, n as int),
            ..start.hdma
        }),
    decreases n,
{
    if n > 0 {
        let m = (n - 1) as nat;
        let at = src_at(src, n - 1);
        let to = dst_at(dst, n - 1);
        let last = choose|last: Mmu<M>|
            start.moves(src, dst, m, true, last) && #[trigger] last.moves_byte(at, to, true, now);
        lemma_live_addresses_follow(start, src, dst, m, last);
        let (read, val) = choose|read: Mmu<M>, val: u8| #[trigger]
            last.dma_reads(at, read, val) && read.byte_moved(at, to, val, true, now);
        lemma_dma_read_leaves_unit(last, at, read, val);
        lemma_next_places(src as int, dst as int, m as int);
    }
}

proof fn lemma_dma_read_leaves_unit<M: Machine>(before: Mmu<M>, addr: u16, after: Mmu<M>, val: u8)
    requires
        before.dma_reads(addr, after, val),
    ensures
        after.hdma == before.hdma,
{
}

proof fn lemma_next_places(src: int, dst: int, m: int)
    ensures
        ((src + m) % 0x1_0000 + 1) % 0x1_0000 == (src + m + 1) % 0x1_0000,
        (0x8000 + (dst + m) % 0x2000 + 1) % 0x2000 == (dst + m + 1) % 0x2000,
{
}

/// What a block of HBlank DMA does: the 16 places of the bank in view
/// from the destination on hold the 16 bytes from the source on, every other place
/// of VRAM stays, source and destination are 16 further, one block less is left,
/// and the CPU stalls for one block more.
pub proof fn law_hblank_block_copies<M: Machine>(
    start: Mmu<M>,
    rom: spec_fn(int) -> u8,
    now: Mmu<M>,
)
    requires
        start.wf(),
        start.hdma.active,
        is_memory(start, rom, start.hdma.src as int, start.hdma.src + 16),
        outside_vram(start.hdma.src as int, start.hdma.src + 16),
        start.gdma_cycles + 16 <= u32::MAX,
        start.hblank_block(now),
    ensures
        copied_to_vram(start, rom, start.hdma.src as int, start.hdma.dst as int, 16, now),
        only_vram_dma_worked(start, now),
        now.hdma.src == start.hdma.src + 16,
        now.hdma.dst == 0x8000 + (start.hdma.dst + 16) % 0x2000,
        now.hdma.blocks == start.hdma.blocks - 1,
        now.hdma.active == (start.hdma.blocks > 1),
        now.hdma.mode == start.hdma.mode,
        now.gdma_cycles == start.gdma_cycles + stall_per_block(start),
        now.wf(),
{
    let src = start.hdma.src;
    let dst = start.hdma.dst;
    let from = Mmu { hdma: HdmaState { dst, ..start.hdma }, last_cpu_pc: None, ..start };
    let moved = choose|moved: Mmu<M>|
        {
            &&& #[trigger] from.moves(src, dst, 16, true, moved)
            &&& now == (Mmu {
                hdma: HdmaState {
                    dst: crate::mmu::vram_dest(moved.hdma.dst),
                    blocks: if moved.hdma.blocks == 0 {
                        0
                    } else {
                        (moved.hdma.blocks - 1) as u8
                    },
                    active: moved.hdma.active && moved.hdma.blocks > 1,
                    cancelled: moved.hdma.cancelled && moved.hdma.blocks > 1,
                    ..moved.hdma
                },
                gdma_cycles: (moved.gdma_cycles + crate::mmu::block_cost(moved.key1)) as u32,
                ..moved
            })
        };
    lemma_moves_fill_vram(from, rom, src, dst, 16, true, moved);
    lemma_live_addresses_follow(from, src, dst, 16, moved);
    let key1 = start.key1;
    crate::bits::lemma_bits_of(key1);
    let bank = start.ppu.vram_bank as int;
    assert forall|place: int| 0 <= place < 0x2000 implies #[trigger] now.ppu.vram[bank][place]
        == if (place - dst) % 0x2000 < 16 {
        source_byte(start, rom, src + (place - dst) % 0x2000)
    } else {
        start.ppu.vram[bank][place]
    } by {
        assert(moved.ppu.vram[bank][place] == now.ppu.vram[bank][place]);
    }
}

/// Blocks of HBlank DMA add up: `n` of them have copied `16 * n` bytes,
/// in order and next to each other, and the CPU stalls for each of them. When the
/// last one has moved the unit is no longer active.
#[verifier::rlimit(60)]
#[verifier::spinoff_prover]
pub proof fn law_hblank_blocks_copy<M: Machine>(
    start: Mmu<M>,
    rom: spec_fn(int) -> u8,
    n: nat,
    now: Mmu<M>,
)
    requires
        start.wf(),
        start.hdma.active,
        n <= start.hdma.blocks,
        is_memory(start, rom, start.hdma.src as int, start.hdma.src + 16 * n),
        outside_vram(start.hdma.src as int, start.hdma.src + 16 * n),
        start.gdma_cycles + 16 * n <= u32::MAX,
        start.hblank_blocks(n, now),
    ensures
        copied_to_vram(start, rom, start.hdma.src as int, start.hdma.dst as int, 16 * n as int, now),
        only_vram_dma_worked(start, now),
        now.hdma.src == start.hdma.src + 16 * n,
        now.hdma.dst == 0x8000 + (start.hdma.dst + 16 * n) % 0x2000,
        now.hdma.blocks == start.hdma.blocks - n,
        now.hdma.active == (n < start.hdma.blocks),
        now.hdma.mode == start.hdma.mode,
        now.gdma_cycles == start.gdma_cycles + n * stall_per_block(start),
        now.wf(),
    decreases n,
{
    let src = start.hdma.src as int;
    let dst = start.hdma.dst as int;
    let bank = start.ppu.vram_bank as int;
    if n == 0 {
        assert(now == start);
    } else {
        let m = (n - 1) as nat;
        let last = choose|last: Mmu<M>|
            start.hblank_blocks(m, last) && #[trigger] last.hblank_block(now);
        let cost = stall_per_block(start);
        assert(n * cost == m * cost + cost && 0 <= m * cost <= 16 * m) by (nonlinear_arith)
            requires
                n == m + 1,
                cost == 8 || cost == 16,
        ;
        law_hblank_blocks_copy(start, rom, m, last);
        law_hblank_block_copies(last, rom, now);
        lemma_copies_add(start, rom, src, dst, 16 * m as int, last, last.hdma.dst as int, now);
    }
}

/// Two copies next to each other are one.
proof fn lemma_copies_add<M: Machine>(
    start: Mmu<M>,
    rom: spec_fn(int) -> u8,
    src: int,
    dst: int,
    m: int,
    last: Mmu<M>,
    next: int,
    now: Mmu<M>,
)
    requires
        0 <= m <= 0x1000,
        outside_vram(src, src + m + 16),
        next == 0x8000 + (dst + m) % 0x2000,
        last.wram == start.wram,
        last.wram_bank == start.wram_bank,
        copied_to_vram(start, rom, src, dst, m, last),
        copied_to_vram(last, rom, src + m, next, 16, now),
    ensures
        copied_to_vram(start, rom, src, dst, m + 16, now),
{
    let bank = start.ppu.vram_bank as int;
    assert forall|place: int| 0 <= place < 0x2000 implies #[trigger] now.ppu.vram[bank][place]
        == if (place - dst) % 0x2000 < m + 16 {
        source_byte(start, rom, src + (place - dst) % 0x2000)
    } else {
        start.ppu.vram[bank][place]
    } by {
        lemma_distances(place, dst, m);
        let d = (place - dst) % 0x2000;
        let e = (place - next) % 0x2000;
        assert(last.ppu.vram[bank][place] == if d < m {
            source_byte(start, rom, src + d)
        } else {
            start.ppu.vram[bank][place]
        });
        if e < 16 {
            assert(source_byte(last, rom, src + m + e) == source_byte(start, rom, src + d));
        }
    }
}

proof fn lemma_distances(place: int, dst: int, m: int)
    requires
        0 <= m <= 0x1000,
    ensures
        ({
            let d = (place - dst) % 0x2000;
            let e = (place - (0x8000 + (dst + m) % 0x2000)) % 0x2000;
            &&& d >= m ==> e == d - m
            &&& d < m ==> e == d - m + 0x2000
        }),
{
}

/// Blocks that a write of `val` to FF55 asks for.
proof fn lemma_blocks_asked_for(val: u8)
    ensures
        (val & 0x80 == 0) == (val < 0x80),
        (val & 0x7F) + 1 == val as int % 128 + 1,
{
    crate::bits::lemma_bits_of(val);
}

/// A write to FF55 with bit 7 clear, while no HBlank DMA is active, copies all
/// blocks that it asks for at once. The lower seven bits are one less than the
/// number of blocks, of 16 bytes each. The places of VRAM from the
/// destination on then hold the bytes from the source on, the rest of VRAM stays,
/// source and destination are behind what was copied, the unit is idle, and the
/// CPU stalls for each block.
pub proof fn law_general_dma<M: Machine>(
    start: Mmu<M>,
    rom: spec_fn(int) -> u8,
    val: u8,
    now: Mmu<M>,
)
    requires
        start.wf(),
        start.cgb_mode,
        !start.hdma.active,
        val < 0x80,
        is_memory(start, rom, start.hdma.src as int, start.hdma.src + 16 * (val + 1)),
        outside_vram(start.hdma.src as int, start.hdma.src + 16 * (val + 1)),
        start.writes(0xFF55, val, now),
    ensures
        copied_to_vram(
            start,
            rom,
            start.hdma.src as int,
            start.hdma.dst as int,
            16 * (val + 1),
            now,
        ),
        only_vram_dma_worked(start, now),
        now.hdma.src == start.hdma.src + 16 * (val + 1),
        now.hdma.dst == 0x8000 + (start.hdma.dst + 16 * (val + 1)) % 0x2000,
        !now.hdma.active,
        !now.hdma.cancelled,
        now.gdma_cycles == (val + 1) * stall_per_block(start),
{
    lemma_general_dma_asked_for(start, val, now);
    lemma_general_dma(start, rom, val + 1, now);
}

/// What a write to FF55 with bit 7 clear asks for.
proof fn lemma_general_dma_asked_for<M: Machine>(start: Mmu<M>, val: u8, now: Mmu<M>)
    requires
        start.cgb_mode,
        !start.hdma.active,
        val < 0x80,
        start.writes(0xFF55, val, now),
    ensures
        start.general_dma(val + 1, now),
{
    lemma_blocks_asked_for(val);
    assert(start.hdma_controlled(val, now));
}

proof fn lemma_general_dma<M: Machine>(
    start: Mmu<M>,
    rom: spec_fn(int) -> u8,
    blocks: int,
    now: Mmu<M>,
)
    requires
        start.wf(),
        1 <= blocks <= 128,
        is_memory(start, rom, start.hdma.src as int, start.hdma.src + 16 * blocks),
        outside_vram(start.hdma.src as int, start.hdma.src + 16 * blocks),
        start.general_dma(blocks, now),
    ensures
        copied_to_vram(start, rom, start.hdma.src as int, start.hdma.dst as int, 16 * blocks, now),
        only_vram_dma_worked(start, now),
        now.hdma.src == start.hdma.src + 16 * blocks,
        now.hdma.dst == 0x8000 + (start.hdma.dst + 16 * blocks) % 0x2000,
        !now.hdma.active,
        !now.hdma.cancelled,
        now.gdma_cycles == blocks * stall_per_block(start),
{
    let src = start.hdma.src;
    let dst = start.hdma.dst;
    let n = (16 * blocks) as nat;
    let from = Mmu { last_cpu_pc: None, ..start };
    let moved = choose|moved: Mmu<M>|
        {
            &&& #[trigger] from.moves(src, dst, n, false, moved)
            &&& now == (Mmu {
                hdma: HdmaState {
                    src: src_at(src, 16 * blocks),
                    dst: crate::mmu::vram_dest(dst_at(dst, 16 * blocks)),
                    blocks: 0,
                    active: false,
                    cancelled: false,
                    ..moved.hdma
                },
                gdma_cycles: (blocks * crate::mmu::block_cost(moved.key1)) as u32,
                ..moved
            })
        };
    lemma_moves_fill_vram(from, rom, src, dst, n, false, moved);
    let key1 = start.key1;
    crate::bits::lemma_bits_of(key1);
    let cost = stall_per_block(start);
    assert(0 <= blocks * cost <= 2048) by (nonlinear_arith)
        requires
            1 <= blocks <= 128,
            cost == 8 || cost == 16,
    ;
    let bank = start.ppu.vram_bank as int;
    assert forall|place: int| 0 <= place < 0x2000 implies #[trigger] now.ppu.vram[bank][place]
        == if (place - dst) % 0x2000 < 16 * blocks {
        source_byte(start, rom, src + (place - dst) % 0x2000)
    } else {
        start.ppu.vram[bank][place]
    } by {
        assert(moved.ppu.vram[bank][place] == now.ppu.vram[bank][place]);
    }
}

/// A write to FF55 with bit 7 set starts an HBlank DMA of the blocks that it asks
/// for. While the screen is off or in horizontal blank the first block moves right
/// away; otherwise nothing moves yet.
pub proof fn law_hblank_dma_starts<M: Machine>(
    start: Mmu<M>,
    rom: spec_fn(int) -> u8,
    val: u8,
    now: Mmu<M>,
)
    requires
        start.wf(),
        start.cgb_mode,
        val >= 0x80,
        start.writes(0xFF55, val, now),
    ensures
        M::Ppu::lcd_on(start.ppu) && !M::Ppu::hblank(start.ppu) ==> {
            &&& now.hdma.active
            &&& now.hdma.mode == DmaMode::Hdma
            &&& now.hdma.blocks == val - 0x80 + 1
            &&& now.hdma.src == start.hdma.src
            &&& now.hdma.dst == start.hdma.dst
            &&& now == (Mmu { hdma: now.hdma, ..start })
        },
        !(M::Ppu::lcd_on(start.ppu) && !M::Ppu::hblank(start.ppu)) && is_memory(
            start,
            rom,
            start.hdma.src as int,
            start.hdma.src + 16,
        ) && outside_vram(start.hdma.src as int, start.hdma.src + 16) && start.gdma_cycles + 16
            <= u32::MAX ==> {
            &&& copied_to_vram(start, rom, start.hdma.src as int, start.hdma.dst as int, 16, now)
            &&& only_vram_dma_worked(start, now)
            &&& now.hdma.src == start.hdma.src + 16
            &&& now.hdma.dst == 0x8000 + (start.hdma.dst + 16) % 0x2000
            &&& now.hdma.blocks == val - 0x80
            &&& now.hdma.active == (val > 0x80)
            &&& now.gdma_cycles == start.gdma_cycles + stall_per_block(start)
        },
{
    lemma_blocks_asked_for(val);
    let started = Mmu {
        hdma: HdmaState {
            mode: DmaMode::Hdma,
            blocks: ((val & 0x7F) + 1) as u8,
            active: true,
            cancelled: false,
            ..start.hdma
        },
        ..start
    };
    if !(M::Ppu::lcd_on(start.ppu) && !M::Ppu::hblank(start.ppu)) && is_memory(
        start,
        rom,
        start.hdma.src as int,
        start.hdma.src + 16,
    ) && outside_vram(start.hdma.src as int, start.hdma.src + 16) && start.gdma_cycles + 16
        <= u32::MAX {
        assert(started.hblank_block(now));
        law_hblank_block_copies(started, rom, now);
        let bank = start.ppu.vram_bank as int;
        assert forall|place: int| 0 <= place < 0x2000 implies #[trigger] now.ppu.vram[bank][place]
            == if (place - start.hdma.dst) % 0x2000 < 16 {
            source_byte(start, rom, start.hdma.src + (place - start.hdma.dst) % 0x2000)
        } else {
            start.ppu.vram[bank][place]
        } by {}
    }
}

/// A horizontal blank moves one block of an active HBlank DMA, and nothing without
/// one.
pub proof fn law_hblank_moves_one_block<M: Machine>(
    start: Mmu<M>,
    rom: spec_fn(int) -> u8,
    now: Mmu<M>,
)
    requires
        start.wf(),
        is_memory(start, rom, start.hdma.src as int, start.hdma.src + 16),
        outside_vram(start.hdma.src as int, start.hdma.src + 16),
        start.gdma_cycles + 16 <= u32::MAX,
        start.hblank_comes(now),
    ensures
        start.hdma.active && start.hdma.mode == DmaMode::Hdma ==> {
            &&& copied_to_vram(start, rom, start.hdma.src as int, start.hdma.dst as int, 16, now)
            &&& only_vram_dma_worked(start, now)
            &&& now.hdma.src == start.hdma.src + 16
            &&& now.hdma.blocks == start.hdma.blocks - 1
        },
        !start.hdma.active || start.hdma.mode == DmaMode::Gdma ==> now == start,
{
    if start.hdma.active && start.hdma.mode == DmaMode::Hdma {
        law_hblank_block_copies(start, rom, now);
    }
}

/// A write to LCDC that does not turn the screen off changes nothing but the picture
/// unit; an HBlank DMA goes on as it was.
pub proof fn law_screen_stays_on<M: Machine>(start: Mmu<M>, val: u8, now: Mmu<M>)
    requires
        forall|ppu: Ppu<M::Ppu>| #[trigger]
            M::Ppu::writes(start.ppu, 0xFF40, val, ppu) ==> (M::Ppu::lcd_on(ppu)
                || !M::Ppu::lcd_on(start.ppu)),
        start.writes(0xFF40, val, now),
    ensures
        now == (Mmu { ppu: now.ppu, ..start }),
        M::Ppu::writes(start.ppu, 0xFF40, val, now.ppu),
{
}

/// Turning the screen off makes an active HBlank DMA copy all that it
/// has left, and ends it.
pub proof fn law_screen_off_finishes_hblank_dma<M: Machine>(
    start: Mmu<M>,
    rom: spec_fn(int) -> u8,
    val: u8,
    off: Ppu<M::Ppu>,
    now: Mmu<M>,
)
    requires
        start.wf(),
        start.hdma.active,
        is_memory(start, rom, start.hdma.src as int, start.hdma.src + 16 * start.hdma.blocks),
        outside_vram(start.hdma.src as int, start.hdma.src + 16 * start.hdma.blocks),
        start.gdma_cycles + 16 * start.hdma.blocks <= u32::MAX,
        M::Ppu::lcd_on(start.ppu),
        !M::Ppu::lcd_on(off),
        off.vram_bank == start.ppu.vram_bank,
        forall|ppu: Ppu<M::Ppu>| #[trigger] M::Ppu::writes(start.ppu, 0xFF40, val, ppu) ==> ppu
            == off,
        start.writes(0xFF40, val, now),
    ensures
        ({
            let written = Mmu { ppu: off, ..start };
            &&& copied_to_vram(
                written,
                rom,
                start.hdma.src as int,
                start.hdma.dst as int,
                16 * start.hdma.blocks,
                now,
            )
            &&& only_vram_dma_worked(written, now)
        }),
        !now.hdma.active,
        now.hdma.blocks == 0,
{
    let written = Mmu { ppu: off, ..start };
    assert(written.hblank_blocks(start.hdma.blocks as nat, now)) by {
        assert(start.lcd_controlled(val, now));
    }
    law_hblank_blocks_copy(written, rom, start.hdma.blocks as nat, now);
}

/// Dots of an M-cycle: 4, and 2 at double speed.
pub open spec fn dots_per_m_cycle<M: Machine>(mmu: Mmu<M>) -> int {
    if mmu.key1 >= 0x80 {
        2
    } else {
        4
    }
}

/// A write to FF46 asks for a transfer of that page, two M-cycles from now, and is
/// read back. A transfer that runs goes on until then, and nothing else changes.
pub proof fn law_oam_dma_register<M: Machine>(
    before: Mmu<M>,
    page: u8,
    written: Mmu<M>,
    after: Mmu<M>,
    read: u8,
)
    requires
        before.writes(0xFF46, page, written),
        written.reads(0xFF46, false, after, read),
    ensures
        read == page,
        after == written,
        written.pending_dma == Some((0x100 * page) as u16),
        written.pending_delay == 2 * dots_per_m_cycle(before),
        written.dma_cycles == before.dma_cycles,
        written.dma_source == before.dma_source,
        written == (Mmu {
            ppu: Ppu { dma: page, ..before.ppu },
            pending_dma: written.pending_dma,
            pending_delay: written.pending_delay,
            ..before
        }),
{
    crate::bits::lemma_bits_of(before.key1);
}

/// One dot of OAM DMA. A transfer that is asked for comes one dot nearer, and starts
/// with its first byte where a running one is cut off. The first dot of each M-cycle
/// of a running transfer copies its next byte to the sprite table, and every dot is
/// one less to go. Without either nothing changes.
#[verifier::rlimit(40)]
#[verifier::spinoff_prover]
pub proof fn law_oam_dma_one_dot<M: Machine>(
    before: Mmu<M>,
    rom: spec_fn(int) -> u8,
    source: u16,
    gone: int,
    after: Mmu<M>,
    i: int,
)
    requires
        before.dma_dot(after),
        before.pending_delay == 1 ==> before.pending_dma == Some(source),
        before.pending_delay != 1 ==> before.dma_source == source,
        before.pending_delay == 1 ==> gone == 0,
        before.pending_delay != 1 ==> before.dma_cycles + gone == 160 * dots_per_m_cycle(before),
        0 <= gone <= 160 * dots_per_m_cycle(before),
        is_memory(before, rom, source as int, source + 160),
        0 <= i < 160,
    ensures
        before.pending_delay > 0 ==> after.pending_delay == before.pending_delay - 1,
        before.pending_delay == 0 ==> after.pending_delay == 0,
        before.pending_delay == 0 && before.dma_cycles == 0 ==> after == before,
        before.pending_delay == 1 ==> after.pending_dma is None && after.dma_source == source,
        before.pending_delay != 1 ==> after.pending_dma == before.pending_dma && after.dma_source
            == before.dma_source,
        gone < 160 * dots_per_m_cycle(before) ==> {
            &&& after.dma_cycles + gone + 1 == 160 * dots_per_m_cycle(before)
            &&& after.ppu.oam[i] == if gone == dots_per_m_cycle(before) * i {
                source_byte(before, rom, source + i)
            } else {
                before.ppu.oam[i]
            }
        },
        gone == 160 * dots_per_m_cycle(before) ==> after.dma_cycles == 0 && after.ppu.oam
            == before.ppu.oam,
        after.ppu == (Ppu { oam: after.ppu.oam, ..before.ppu }),
        after.wram == before.wram,
        after.hram == before.hram,
        after.hdma == before.hdma,
{
    lemma_speed(before);
    let per = dots_per_m_cycle(before);
    let armed = before.dma_armed();
    lemma_byte_of_dot(per, gone, i);
    if gone < 160 * per {
        assert(armed.dma_elapsed() == gone);
        if gone % per == 0 {
            let index = gone / per;
            assert(armed.dma_moves_byte(index, after));
            let cleared = Mmu { last_cpu_pc: None, ..armed };
            let at = src_at(source, index);
            let (read, val) = choose|read: Mmu<M>, val: u8| #[trigger]
                cleared.dma_reads(at, read, val) && {
                    &&& read.ppu.oam_stored(index, val, after.ppu)
                    &&& after == (Mmu {
                        ppu: after.ppu,
                        dma_cycles: (read.dma_cycles - 1) as u16,
                        ..read
                    })
                };
            assert(at == source + index);
            lemma_source_read(cleared, rom, at, read, val);
            assert(val == source_byte(before, rom, source + index));
            assert(after.ppu.oam[i] == if i == index {
                val
            } else {
                before.ppu.oam[i]
            });
        } else {
            assert(after == (Mmu { dma_cycles: (armed.dma_cycles - 1) as u16, ..armed }));
        }
    } else {
        assert(after == armed);
    }
}

/// The byte that a dot copies, if it is the first of an M-cycle.
proof fn lemma_byte_of_dot(per: int, gone: int, i: int)
    requires
        per == 2 || per == 4,
        0 <= gone <= 160 * per,
        0 <= i < 160,
    ensures
        gone % per == 0 ==> (per * i == gone <==> i == gone / per),
        gone % per != 0 ==> per * i != gone,
        gone < 160 * per ==> 0 <= gone / per < 160,
{
    if per == 2 {
    } else {
    }
}

/// Where an OAM DMA of a page is `dots` dots after its register was
/// written.
spec fn oam_dma_at<M: Machine>(
    written: Mmu<M>,
    rom: spec_fn(int) -> u8,
    page: u8,
    dots: int,
    now: Mmu<M>,
) -> bool {
    let per = dots_per_m_cycle(written);
    if dots < 2 * per {
        now == (Mmu { pending_delay: (2 * per - dots) as u16, ..written })
    } else {
        let gone = dots - 2 * per + 1;
        &&& now == (Mmu {
            ppu: Ppu { oam: now.ppu.oam, ..written.ppu },
            pending_delay: 0,
            pending_dma: None,
            dma_source: (page * 0x100) as u16,
            dma_cycles: (160 * per - gone) as u16,
            last_cpu_pc: None,
            ..written
        })
        &&& forall|i: int|
            #![trigger now.ppu.oam[i]]
            0 <= i < 160 ==> now.ppu.oam[i] == if i * per < gone {
                source_byte(written, rom, page * 0x100 + i)
            } else {
                written.ppu.oam[i]
            }
    }
}

proof fn lemma_speed<M: Machine>(mmu: Mmu<M>)
    ensures
        dots_per_m_cycle(mmu) == crate::mmu::dots_per_byte(mmu.key1),
        160 * dots_per_m_cycle(mmu) == crate::mmu::oam_dma_length(mmu.key1),
{
    let key1 = mmu.key1;
    crate::bits::lemma_bits_of(key1);
}

proof fn lemma_oam_dma_dot<M: Machine>(
    written: Mmu<M>,
    rom: spec_fn(int) -> u8,
    page: u8,
    dots: int,
    last: Mmu<M>,
    now: Mmu<M>,
)
    requires
        is_memory(written, rom, page * 0x100, page * 0x100 + 160),
        written.pending_delay == 2 * dots_per_m_cycle(written),
        written.pending_dma == Some((page * 0x100) as u16),
        written.dma_cycles == 0,
        0 <= dots < 2 * dots_per_m_cycle(written) + 160 * dots_per_m_cycle(written) - 1,
        oam_dma_at(written, rom, page, dots, last),
        last.dma_dot(now),
    ensures
        oam_dma_at(written, rom, page, dots + 1, now),
{
    let per = dots_per_m_cycle(written);
    lemma_speed(written);
    if dots + 1 >= 2 * per {
        let armed = last.dma_armed();
        let gone = dots + 1 - 2 * per;
        assert(armed.dma_cycles == 160 * per - gone);
        assert(armed.dma_elapsed() == gone);
        if gone % per == 0 {
            let index = gone / per;
            assert(index * per == gone);
            let cleared = Mmu { last_cpu_pc: None, ..armed };
            let at = src_at(armed.dma_source, index);
            let (read, val) = choose|read: Mmu<M>, val: u8| #[trigger]
                cleared.dma_reads(at, read, val) && {
                    &&& read.ppu.oam_stored(index, val, now.ppu)
                    &&& now == (Mmu {
                        ppu: now.ppu,
                        dma_cycles: (read.dma_cycles - 1) as u16,
                        ..read
                    })
                };
            assert(at == page * 0x100 + index);
            lemma_source_read(cleared, rom, at, read, val);
            assert(val == source_byte(written, rom, page * 0x100 + index));
            assert forall|i: int| 0 <= i < 160 implies #[trigger] now.ppu.oam[i] == if i * per < gone
                + 1 {
                source_byte(written, rom, page * 0x100 + i)
            } else {
                written.ppu.oam[i]
            } by {
                assert(now.ppu.oam[i] == if i == index {
                    val
                } else {
                    last.ppu.oam[i]
                });
                assert(i != index ==> (i * per < gone + 1) == (i * per < gone));
            }
        } else {
            assert forall|i: int| 0 <= i < 160 implies #[trigger] now.ppu.oam[i] == if i * per < gone
                + 1 {
                source_byte(written, rom, page * 0x100 + i)
            } else {
                written.ppu.oam[i]
            } by {
                assert(now.ppu.oam[i] == last.ppu.oam[i]);
                assert((i * per) % per == 0);
            }
        }
    }
}

proof fn lemma_oam_dma_dots<M: Machine>(
    written: Mmu<M>,
    rom: spec_fn(int) -> u8,
    page: u8,
    dots: nat,
    now: Mmu<M>,
)
    requires
        is_memory(written, rom, page * 0x100, page * 0x100 + 160),
        written.pending_delay == 2 * dots_per_m_cycle(written),
        written.pending_dma == Some((page * 0x100) as u16),
        written.dma_cycles == 0,
        dots <= 2 * dots_per_m_cycle(written) + 160 * dots_per_m_cycle(written) - 1,
        written.dma_dots(dots, now),
    ensures
        oam_dma_at(written, rom, page, dots as int, now),
    decreases dots,
{
    if dots > 0 {
        let n = (dots - 1) as nat;
        let last = choose|last: Mmu<M>| written.dma_dots(n, last) && #[trigger] last.dma_dot(now);
        lemma_oam_dma_dots(written, rom, page, n, last);
        lemma_oam_dma_dot(written, rom, page, n as int, last, now);
    }
}

/// A write of a page to FF46 copies the first 160 bytes of that page to
/// the sprite table: two M-cycles later the first one, and then one each M-cycle.
/// With the last one done, OAM DMA is over. Until a byte has come its place holds
/// what it held, and nothing else of memory changes.
pub proof fn law_oam_dma<M: Machine>(
    before: Mmu<M>,
    rom: spec_fn(int) -> u8,
    page: u8,
    written: Mmu<M>,
    dots: nat,
    now: Mmu<M>,
)
    requires
        before.dma_cycles == 0,
        is_memory(before, rom, page * 0x100, page * 0x100 + 160),
        before.writes(0xFF46, page, written),
        dots <= 2 * dots_per_m_cycle(before) + 160 * dots_per_m_cycle(before) - 1,
        written.dma_dots(dots, now),
    ensures
        forall|i: int|
            #![trigger now.ppu.oam[i]]
            0 <= i < 160 ==> now.ppu.oam[i] == if dots >= (2 + i) * dots_per_m_cycle(before) {
                source_byte(before, rom, page * 0x100 + i)
            } else {
                before.ppu.oam[i]
            },
        (now.dma_cycles > 0 || now.pending_delay > 0) == (dots < 162 * dots_per_m_cycle(before)
            - 1),
        (now.dma_cycles > 0) == (2 * dots_per_m_cycle(before) <= dots < 162 * dots_per_m_cycle(
            before,
        ) - 1),
        now.ppu.dma == page,
        now.ppu.vram == before.ppu.vram,
        now.wram == before.wram,
        now.hram == before.hram,
        now.cart == before.cart,
        now.hdma == before.hdma,
        now.gdma_cycles == before.gdma_cycles,
{
    lemma_speed(before);
    let per = dots_per_m_cycle(before);
    assert(written.pending_delay == 2 * per) by {
        let key1 = before.key1;
        crate::bits::lemma_bits_of(key1);
    }
    lemma_oam_dma_dots(written, rom, page, dots, now);
    assert forall|i: int| 0 <= i < 160 implies #[trigger] now.ppu.oam[i] == if dots >= (2 + i)
        * per {
        source_byte(before, rom, page * 0x100 + i)
    } else {
        before.ppu.oam[i]
    } by {
        assert((2 + i) * per == 2 * per + i * per) by (nonlinear_arith);
        assert(i * per >= 0) by (nonlinear_arith)
            requires
                i >= 0,
                per > 0,
        ;
    }
}

} // verus!
