//! The memory map, address by address.

use crate::devices::{ApuEngine, CartridgeEngine, InputPort, Machine, PpuEngine, TimerEngine};
use crate::mmu::Mmu;
use vstd::prelude::*;

verus! {

/// The byte of WRAM at an address from C000 to FDFF. From E000 on the same bytes
/// show again.
pub open spec fn ram_at<M: Machine>(mmu: Mmu<M>, addr: int) -> u8 {
    let at = if addr >= 0xE000 {
        addr - 0x2000
    } else {
        addr
    };
    if at < 0xD000 {
        mmu.wram[0][at - 0xC000]
    } else {
        mmu.wram[mmu.wram_bank as int][at - 0xD000]
    }
}

/// Whether the CPU can reach VRAM now.
pub open spec fn vram_reachable<M: Machine>(mmu: Mmu<M>) -> bool {
    mmu.dma_cycles == 0 && M::Ppu::vram_open(mmu.ppu)
}

/// Whether the CPU can reach the sprite table now.
pub open spec fn oam_reachable<M: Machine>(mmu: Mmu<M>) -> bool {
    mmu.dma_cycles == 0 && M::Ppu::oam_open(mmu.ppu)
}

/// WRAM holds what was written last: after a write every address of WRAM and its
/// echo reads what it read before, except the address written and its echo, which
/// read the new byte. Nothing else changes, and reading changes nothing.
pub proof fn law_work_ram<M: Machine>(
    before: Mmu<M>,
    addr: u16,
    val: u8,
    written: Mmu<M>,
    other: u16,
    after: Mmu<M>,
    read: u8,
)
    requires
        before.wf(),
        0xC000 <= addr < 0xFE00,
        0xC000 <= other < 0xFE00,
        before.writes(addr, val, written),
        written.reads(other, false, after, read),
    ensures
        read == if other == addr || other == addr + 0x2000 || other + 0x2000 == addr {
            val
        } else {
            ram_at(before, other as int)
        },
        after == written,
        written == (Mmu { wram: written.wram, ..before }),
{
    assert(!before.blocked_by_dma(addr) && !written.blocked_by_dma(other));
    assert(before.wram_stored(addr, val, written));
    assert(read == written.wram_byte(other));
    lemma_stored(before, addr, val, written, other);
}

/// The bytes of WRAM once one was stored.
proof fn lemma_stored<M: Machine>(
    before: Mmu<M>,
    addr: u16,
    val: u8,
    written: Mmu<M>,
    other: u16,
)
    requires
        1 <= before.wram_bank < 8,
        0xC000 <= addr < 0xFE00,
        0xC000 <= other < 0xFE00,
        before.wram_stored(addr, val, written),
    ensures
        written.wram_byte(other) == if other == addr || other == addr + 0x2000 || other + 0x2000
            == addr {
            val
        } else {
            ram_at(before, other as int)
        },
{
    let (bank, offset) = before.wram_cell(addr);
    let (other_bank, other_offset) = written.wram_cell(other);
    if other_bank == bank {
        assert(written.wram[bank]@ == before.wram[bank]@.update(offset, val));
        assert(other_offset == offset <==> other == addr || other == addr + 0x2000 || other + 0x2000
            == addr);
    } else {
        assert(written.wram@[other_bank] == before.wram@[other_bank]);
    }
}

/// A read of WRAM gives the byte at that address of bank 0, or of the bank in
/// view, and changes nothing.
pub proof fn law_work_ram_reads<M: Machine>(mmu: Mmu<M>, addr: u16, after: Mmu<M>, read: u8)
    requires
        mmu.wf(),
        0xC000 <= addr < 0xFE00,
        mmu.reads(addr, false, after, read),
    ensures
        read == ram_at(mmu, addr as int),
        after == mmu,
{
}

/// A write to WRAM reaches one byte of one bank.
pub proof fn law_work_ram_write_is_one_byte<M: Machine>(
    before: Mmu<M>,
    addr: u16,
    val: u8,
    after: Mmu<M>,
    bank: int,
    offset: int,
)
    requires
        before.wf(),
        0xC000 <= addr < 0xFE00,
        before.writes(addr, val, after),
        0 <= bank < 8,
        0 <= offset < 0x1000,
    ensures
        after.wram[bank][offset] == if offset == addr as int % 0x1000 && bank == (if addr < 0xD000
            || 0xE000 <= addr < 0xF000 {
            0
        } else {
            before.wram_bank as int
        }) {
            val
        } else {
            before.wram[bank][offset]
        },
{
}

/// While the CPU can reach VRAM, a byte written to VRAM is read back, every other
/// address of VRAM reads what it held, the other bank stays, and nothing but VRAM
/// changes.
pub proof fn law_vram_reads_back<M: Machine>(
    before: Mmu<M>,
    addr: u16,
    val: u8,
    written: Mmu<M>,
    other: u16,
    after: Mmu<M>,
    read: u8,
)
    requires
        before.wf(),
        0x8000 <= addr < 0xA000,
        0x8000 <= other < 0xA000,
        vram_reachable(before),
        before.writes(addr, val, written),
        M::Ppu::vram_open(written.ppu),
        written.reads(other, false, after, read),
    ensures
        read == if other == addr {
            val
        } else {
            before.ppu.vram[before.ppu.vram_bank as int][other - 0x8000]
        },
        after == written,
        written.ppu.vram[1 - before.ppu.vram_bank] == before.ppu.vram[1 - before.ppu.vram_bank],
        written == (Mmu { ppu: written.ppu, ..before }),
        written.ppu.vram_bank == before.ppu.vram_bank,
        written.ppu.oam == before.ppu.oam,
        written.ppu.dma == before.ppu.dma,
        written.ppu.engine == before.ppu.engine,
{
}

/// A write to VRAM that cannot be reached is lost, and a read of it gives 0xFF.
pub proof fn law_vram_out_of_reach<M: Machine>(mmu: Mmu<M>, addr: u16, after: Mmu<M>, val: u8)
    requires
        0x8000 <= addr < 0xA000,
        !vram_reachable(mmu),
    ensures
        mmu.writes(addr, val, after) ==> after == mmu,
        mmu.reads(addr, false, after, val) ==> after == mmu && val == 0xFF,
{
}

/// While the CPU can reach VRAM, a read gives the byte of the bank in view.
pub proof fn law_vram_reads<M: Machine>(mmu: Mmu<M>, addr: u16, after: Mmu<M>, read: u8)
    requires
        mmu.wf(),
        0x8000 <= addr < 0xA000,
        vram_reachable(mmu),
        mmu.reads(addr, false, after, read),
    ensures
        read == mmu.ppu.vram[mmu.ppu.vram_bank as int][addr - 0x8000],
        after == mmu,
{
}

/// While the CPU can reach the sprite table, a byte written to it is read back
/// and every other byte of it reads what it held. From FEA0 to FEFF there is
/// nothing: reads give 0xFF and writes are lost.
pub proof fn law_oam_reads_back<M: Machine>(
    before: Mmu<M>,
    addr: u16,
    val: u8,
    written: Mmu<M>,
    other: u16,
    after: Mmu<M>,
    read: u8,
)
    requires
        before.wf(),
        0xFE00 <= addr < 0xFF00,
        0xFE00 <= other < 0xFF00,
        oam_reachable(before),
        before.writes(addr, val, written),
        M::Ppu::oam_open(written.ppu),
        written.reads(other, false, after, read),
    ensures
        read == if other >= 0xFEA0 {
            0xFF
        } else if other == addr {
            val
        } else {
            before.ppu.oam[other - 0xFE00]
        },
        after == written,
        written == (Mmu { ppu: written.ppu, ..before }),
        written.ppu.vram == before.ppu.vram,
        written.ppu.vram_bank == before.ppu.vram_bank,
        written.ppu.engine == before.ppu.engine,
        addr >= 0xFEA0 ==> written == before,
{
}

/// A write to a sprite table that cannot be reached is lost, and a read of it
/// gives 0xFF.
pub proof fn law_oam_out_of_reach<M: Machine>(mmu: Mmu<M>, addr: u16, after: Mmu<M>, val: u8)
    requires
        0xFE00 <= addr < 0xFF00,
        !oam_reachable(mmu),
    ensures
        mmu.writes(addr, val, after) ==> after == mmu,
        mmu.reads(addr, false, after, val) ==> after == mmu && val == 0xFF,
{
}

/// HRAM and IE hold what was written last: after a write to one of their
/// addresses each of them reads what it held, except the address written, which
/// reads the new byte. Nothing else changes.
pub proof fn law_high_ram<M: Machine>(
    before: Mmu<M>,
    addr: u16,
    val: u8,
    written: Mmu<M>,
    other: u16,
    after: Mmu<M>,
    read: u8,
)
    requires
        0xFF80 <= addr,
        0xFF80 <= other,
        before.writes(addr, val, written),
        written.reads(other, false, after, read),
    ensures
        read == if other == addr {
            val
        } else if other == 0xFFFF {
            before.ie_reg
        } else {
            before.hram[other - 0xFF80]
        },
        after == written,
        written == (Mmu { hram: written.hram, ie_reg: written.ie_reg, ..before }),
{
}

/// A write to IF sets the five interrupt flags and leaves the three bits above
/// them; a read gives all eight. Nothing else changes.
pub proof fn law_interrupt_flags<M: Machine>(
    before: Mmu<M>,
    val: u8,
    written: Mmu<M>,
    after: Mmu<M>,
    read: u8,
)
    requires
        before.writes(0xFF0F, val, written),
        written.reads(0xFF0F, false, after, read),
    ensures
        read == 32 * (before.if_reg as int / 32) + val as int % 32,
        after == written,
        written == (Mmu { if_reg: read, ..before }),
{
    let flags = before.if_reg;
    assert((val & 0x1F) | (flags & 0xE0) == 32 * (flags / 32) + val % 32) by (bit_vector);
}

/// The registers that only a CGB has, read right after a write of `val`: KEY1
/// keeps its top bit and takes the lowest one, VBK takes the lowest bit, RP the
/// two top bits and the lowest one, of which the top two always read 1, and SVBK
/// the three lowest bits, where 0 stands for 1. No write to one of them changes
/// another. On a DMG they read 0xFF and ignore what is written.
pub proof fn law_cgb_registers<M: Machine>(
    before: Mmu<M>,
    addr: u16,
    val: u8,
    written: Mmu<M>,
    after: Mmu<M>,
    read: u8,
)
    requires
        before.wf(),
        addr == 0xFF4D || addr == 0xFF4F || addr == 0xFF56 || addr == 0xFF70,
        before.writes(addr, val, written),
        written.reads(addr, false, after, read),
    ensures
        after == written,
        !before.cgb_mode ==> read == 0xFF && written == before,
        before.cgb_mode && addr == 0xFF4D ==> {
            &&& read == 128 * (before.key1 as int / 128) + 0x7E + val as int % 2
            &&& written.key1 as int / 128 == before.key1 as int / 128
            &&& written == (Mmu { key1: written.key1, ..before })
        },
        before.cgb_mode && addr == 0xFF4F ==> {
            &&& read == val % 2
            &&& written.ppu.vram_bank == val % 2
            &&& written.ppu.vram == before.ppu.vram
            &&& written.ppu.oam == before.ppu.oam
            &&& written.ppu.engine == before.ppu.engine
            &&& written == (Mmu { ppu: written.ppu, ..before })
        },
        before.cgb_mode && addr == 0xFF56 ==> {
            &&& read == 0xC0 + val as int % 2
            &&& written == (Mmu { rp: written.rp, ..before })
        },
        before.cgb_mode && addr == 0xFF70 ==> {
            &&& read == if val % 8 == 0 {
                1
            } else {
                val % 8
            }
            &&& written.wram_bank == read
            &&& written == (Mmu { wram_bank: written.wram_bank, ..before })
        },
{
    let key1 = before.key1;
    assert((((key1 & 0x80) | (val & 0x01)) & 0x81) | 0x7E == 128 * (key1 / 128) + 0x7E + val % 2
        && ((key1 & 0x80) | (val & 0x01)) / 128 == key1 / 128 && val & 0x01 == val % 2 && (val
        & 0xC1) | 0xC0 == 0xC0 + val % 2 && val & 0x07 == val % 8) by (bit_vector);
}

/// The four address registers of VRAM DMA make up its source and its
/// destination: two bytes each, of which the lower four bits are dropped, and of
/// the destination the upper three too, since it lies in VRAM. Writing one of them
/// leaves the other byte, and nothing else changes.
pub proof fn law_vram_dma_address_written<M: Machine>(
    before: Mmu<M>,
    addr: u16,
    val: u8,
    after: Mmu<M>,
)
    requires
        before.cgb_mode,
        !before.hdma.active,
        0xFF51 <= addr <= 0xFF54,
        before.writes(addr, val, after),
    ensures
        after == (Mmu { hdma: after.hdma, ..before }),
        !after.hdma.active,
        addr <= 0xFF52 ==> after.hdma.dst == before.hdma.dst,
        addr >= 0xFF53 ==> after.hdma.src == before.hdma.src,
        addr == 0xFF51 ==> after.hdma.src == 0x100 * val + before.hdma.src as int % 0x100,
        addr == 0xFF52 ==> after.hdma.src == before.hdma.src as int / 0x100 * 0x100 + 16 * (
        val as int / 16),
        addr == 0xFF53 ==> after.hdma.dst == 0x8000 + 0x100 * (val as int % 32)
            + before.hdma.dst as int % 0x100 / 16 * 16,
        addr == 0xFF54 ==> after.hdma.dst == 0x8000 + before.hdma.dst as int % 0x2000 / 0x100
            * 0x100 + 16 * (val as int / 16),
{
}

/// The four address registers of VRAM DMA read the bytes of its source and its
/// destination, as far as they are kept.
pub proof fn law_vram_dma_address_read<M: Machine>(mmu: Mmu<M>, addr: u16, after: Mmu<M>, read: u8)
    requires
        mmu.cgb_mode,
        0xFF51 <= addr <= 0xFF54,
        mmu.reads(addr, false, after, read),
    ensures
        addr == 0xFF51 ==> read == mmu.hdma.src as int / 0x100,
        addr == 0xFF52 ==> read == mmu.hdma.src as int % 0x100 / 16 * 16,
        addr == 0xFF53 ==> read == mmu.hdma.dst as int % 0x2000 / 0x100,
        addr == 0xFF54 ==> read == mmu.hdma.dst as int % 0x100 / 16 * 16,
{
    let src = mmu.hdma.src;
    let dst = mmu.hdma.dst;
    assert((src >> 8u16) as u8 == src / 0x100 && (src & 0x00F0) as u8 == src % 0x100 / 16 * 16 && ((
    dst & 0x1F00) >> 8u16) as u8 == dst % 0x2000 / 0x100 && (dst & 0x00F0) as u8 == dst % 0x100 / 16
        * 16) by (bit_vector);
}

/// While an HBlank DMA is active its address registers are locked; on a DMG they
/// do not exist.
pub proof fn law_vram_dma_addresses_locked<M: Machine>(
    before: Mmu<M>,
    addr: u16,
    val: u8,
    after: Mmu<M>,
    read: u8,
)
    requires
        0xFF51 <= addr <= 0xFF54,
    ensures
        (before.hdma.active || !before.cgb_mode) && before.writes(addr, val, after) ==> after
            == before,
        !before.cgb_mode && before.reads(addr, false, after, read) ==> after == before && read
            == 0xFF,
{
}

/// FF55 on a CGB: one less than the blocks that an HBlank DMA has left; 0x80 for
/// one that was stopped; else 0xFF. Stopping it, by a write with bit 7 clear, moves
/// nothing.
pub proof fn law_vram_dma_status<M: Machine>(
    mmu: Mmu<M>,
    after: Mmu<M>,
    read: u8,
    val: u8,
    stopped: Mmu<M>,
    then: Mmu<M>,
    read_then: u8,
)
    requires
        mmu.wf(),
        mmu.reads(0xFF55, false, after, read),
    ensures
        after == mmu,
        !mmu.cgb_mode ==> read == 0xFF,
        mmu.cgb_mode && mmu.hdma.active ==> read == mmu.hdma.blocks - 1,
        mmu.cgb_mode && !mmu.hdma.active && mmu.hdma.cancelled ==> read == 0x80,
        mmu.cgb_mode && !mmu.hdma.active && !mmu.hdma.cancelled ==> read == 0xFF,
        mmu.cgb_mode && mmu.hdma.active && val < 0x80 && mmu.writes(0xFF55, val, stopped)
            && stopped.reads(0xFF55, false, then, read_then) ==> {
            &&& read_then == 0x80
            &&& !stopped.hdma.active
            &&& stopped.hdma.src == mmu.hdma.src
            &&& stopped.hdma.dst == mmu.hdma.dst
            &&& stopped == (Mmu { hdma: stopped.hdma, ..mmu })
        },
{
    let left = (mmu.hdma.blocks - 1) as u8;
    crate::bits::lemma_bits_of(left);
    crate::bits::lemma_bits_of(val);
}

/// Below 8000 and from A000 to BFFF the cartridge answers, and nothing but the
/// cartridge changes; an empty slot reads 0xFF and ignores what is written. While
/// the boot ROM is mapped it lies over the first 0x100 bytes, on a CGB also over
/// 0200 to 08FF, and reads as what was loaded, or 0xFF behind its end; writes still
/// reach the cartridge.
pub proof fn law_cartridge_and_boot_rom<M: Machine>(
    mmu: Mmu<M>,
    addr: u16,
    after: Mmu<M>,
    val: u8,
)
    requires
        addr < 0x8000 || 0xA000 <= addr < 0xC000,
        addr >= 0x8000 ==> mmu.dma_cycles == 0,
    ensures
        mmu.boot_mapped && (addr < 0x100 || mmu.cgb_mode && 0x200 <= addr < 0x900) && mmu.reads(
            addr,
            false,
            after,
            val,
        ) ==> {
            &&& after == mmu
            &&& mmu.boot_rom matches Some(rom) ==> {
                &&& addr < rom@.len() ==> val == rom@[addr as int]
                &&& addr >= rom@.len() ==> val == 0xFF
            }
            &&& mmu.boot_rom is None ==> val == 0xFF
        },
        !(mmu.boot_mapped && (addr < 0x100 || mmu.cgb_mode && 0x200 <= addr < 0x900)) && mmu.reads(
            addr,
            false,
            after,
            val,
        ) ==> {
            &&& mmu.cart is None ==> after == mmu && val == 0xFF
            &&& mmu.cart matches Some(cart) ==> {
                &&& after.cart is Some
                &&& M::Cart::reads(cart, addr, after.cart->0, val)
                &&& after == (Mmu { cart: after.cart, ..mmu })
            }
        },
        mmu.writes(addr, val, after) ==> {
            &&& mmu.cart is None ==> after == mmu
            &&& mmu.cart matches Some(cart) ==> {
                &&& after.cart is Some
                &&& M::Cart::writes(cart, addr, val, after.cart->0)
                &&& after == (Mmu { cart: after.cart, ..mmu })
            }
        },
{
}

/// Any write to FF50 takes the boot ROM out of the map for good.
pub proof fn law_boot_rom_leaves<M: Machine>(before: Mmu<M>, val: u8, after: Mmu<M>)
    requires
        before.writes(0xFF50, val, after),
    ensures
        !after.boot_mapped,
        after == (Mmu { boot_mapped: false, ..before }),
{
}

/// Each register is read from the device that it belongs to, and only that device
/// may change: the buttons at FF00, the serial port at FF01 and FF02, the timer
/// from FF04 to FF07, the sound unit from FF10 to FF3F and, on a CGB, at FF76 and
/// FF77, and the picture unit from FF40 to FF4B and from FF68 to FF6B.
pub proof fn law_registers_are_read_from_their_devices<M: Machine>(
    mmu: Mmu<M>,
    addr: u16,
    after: Mmu<M>,
    val: u8,
)
    requires
        mmu.reads(addr, false, after, val),
    ensures
        addr == 0xFF00 ==> mmu.input.reads(after.input, val) && after == (Mmu {
            input: after.input,
            ..mmu
        }),
        addr == 0xFF01 ==> val == mmu.serial@.sb && after == mmu,
        addr == 0xFF02 && mmu.serial@.cgb_mode ==> val == mmu.serial@.sc && after == mmu,
        0xFF04 <= addr <= 0xFF07 ==> M::Timer::reads(mmu.timer, addr, after.timer, val) && after
            == (Mmu { timer: after.timer, ..mmu }),
        0xFF10 <= addr <= 0xFF3F ==> mmu.apu.reads(addr, after.apu, val) && after == (Mmu {
            apu: after.apu,
            ..mmu
        }),
        addr == 0xFF46 ==> val == mmu.ppu.dma && after == mmu,
        (0xFF40 <= addr <= 0xFF45 || 0xFF47 <= addr <= 0xFF4B || 0xFF68 <= addr <= 0xFF6B)
            ==> M::Ppu::reads(mmu.ppu, addr, after.ppu, val) && after == (Mmu {
            ppu: after.ppu,
            ..mmu
        }),
        (addr == 0xFF76 || addr == 0xFF77) && mmu.cgb_mode ==> mmu.apu.reads_pcm(
            addr,
            after.apu,
            val,
        ) && after == (Mmu { apu: after.apu, ..mmu }),
        (addr == 0xFF76 || addr == 0xFF77) && !mmu.cgb_mode ==> val == 0xFF && after == mmu,
        (addr == 0xFF03 || 0xFF08 <= addr <= 0xFF0E || addr == 0xFF4C || addr == 0xFF4E || addr
            == 0xFF50 || 0xFF57 <= addr <= 0xFF67 || 0xFF6C <= addr <= 0xFF6F || 0xFF71 <= addr
            <= 0xFF75 || 0xFF78 <= addr <= 0xFF7F) ==> val == 0xFF && after == mmu,
{
}

/// Each register is written to the device that it belongs to, and only that device
/// may change, and with the timer the interrupt flags. A write to DIV resets the
/// divider, which the sound unit sees with the divider that there was. Where there
/// is no register nothing changes.
pub proof fn law_registers_are_written_to_their_devices<M: Machine>(
    mmu: Mmu<M>,
    addr: u16,
    val: u8,
    after: Mmu<M>,
)
    requires
        mmu.writes(addr, val, after),
    ensures
        addr == 0xFF00 ==> mmu.input.writes(val, after.input) && after == (Mmu {
            input: after.input,
            ..mmu
        }),
        addr == 0xFF01 ==> after.serial@.sb == val && after.serial@.sc == mmu.serial@.sc
            && after.serial@.transfer == mmu.serial@.transfer,
        addr == 0xFF02 ==> after.serial@.sc == val && after.serial@.sb == mmu.serial@.sb,
        (addr == 0xFF01 || addr == 0xFF02) ==> after.serial@.output == mmu.serial@.output
            && after.serial.port() == mmu.serial.port() && after == (Mmu {
            serial: after.serial,
            ..mmu
        }),
        addr == 0xFF04 ==> {
            &&& M::Timer::resets_div(mmu.timer, mmu.if_reg, after.timer, after.if_reg)
            &&& mmu.apu.sees_div_reset(mmu.timer.div, mmu.key1 >= 0x80, after.apu)
            &&& after == (Mmu {
                timer: after.timer,
                if_reg: after.if_reg,
                apu: after.apu,
                ..mmu
            })
        },
        0xFF05 <= addr <= 0xFF07 ==> M::Timer::writes(
            mmu.timer,
            addr,
            val,
            mmu.if_reg,
            after.timer,
            after.if_reg,
        ) && after == (Mmu { timer: after.timer, if_reg: after.if_reg, ..mmu }),
        0xFF10 <= addr <= 0xFF3F ==> mmu.apu.writes(addr, val, after.apu) && after == (Mmu {
            apu: after.apu,
            ..mmu
        }),
        (0xFF41 <= addr <= 0xFF45 || 0xFF47 <= addr <= 0xFF4B || 0xFF68 <= addr <= 0xFF6B)
            ==> M::Ppu::writes(mmu.ppu, addr, val, after.ppu) && after == (Mmu {
            ppu: after.ppu,
            ..mmu
        }),
        addr == 0xFF40 && !mmu.hdma.active ==> M::Ppu::writes(mmu.ppu, addr, val, after.ppu)
            && after == (Mmu { ppu: after.ppu, ..mmu }),
        (addr == 0xFF03 || 0xFF08 <= addr <= 0xFF0E || addr == 0xFF4C || addr == 0xFF4E || 0xFF57
            <= addr <= 0xFF67 || 0xFF6C <= addr <= 0xFF6F || 0xFF71 <= addr <= 0xFF7F) ==> after
            == mmu,
{
    let key1 = mmu.key1;
    crate::bits::lemma_bits_of(key1);
}

} // verus!
