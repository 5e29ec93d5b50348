//! The devices on the memory bus.
//!
//! What the memory map, the snapshots and the machine itself see of a device is
//! a struct or a trait here. How a device works inside is its engine's affair:
//! an engine implements one of the traits, and says in the trait's spec
//! functions what each of its operations does. The rest of the library is
//! stated over those spec functions, so it holds with any engine.

use crate::hardware::{CgbRevision, DmgRevision};
use crate::serial::LinkPort;
use vstd::prelude::*;

pub mod null;

verus! {

/// Bytes of a VRAM bank.
pub const VRAM_BANK_SIZE: usize = 0x2000;

/// Bytes of the sprite table.
pub const OAM_SIZE: usize = 0xA0;

/// The picture unit: its memories, and the engine that draws from them.
pub struct Ppu<E> {
    pub vram: [[u8; VRAM_BANK_SIZE]; 2],
    /// The bank that the CPU and DMA see.
    pub vram_bank: usize,
    pub oam: [u8; OAM_SIZE],
    /// The last value written to the OAM DMA register.
    pub dma: u8,
    pub engine: E,
}

impl<E> Ppu<E> {
    pub open spec fn wf(self) -> bool {
        self.vram_bank < 2
    }

    /// The byte at `offset` of the bank in view.
    pub open spec fn vram_byte(self, offset: int) -> u8 {
        self.vram[self.vram_bank as int][offset]
    }

    /// `after` is the unit with `val` at `offset` of the bank in view.
    pub open spec fn vram_stored(self, offset: int, val: u8, after: Self) -> bool {
        &&& after == (Ppu { vram: after.vram, ..self })
        &&& after.vram@ == self.vram@.update(
            self.vram_bank as int,
            after.vram[self.vram_bank as int],
        )
        &&& after.vram[self.vram_bank as int]@ == self.vram[self.vram_bank as int]@.update(
            offset,
            val,
        )
    }

    /// `after` is the unit with `val` at `index` of the sprite table.
    pub open spec fn oam_stored(self, index: int, val: u8, after: Self) -> bool {
        &&& after == (Ppu { oam: after.oam, ..self })
        &&& after.oam@ == self.oam@.update(index, val)
    }
}

/// An engine of the picture unit. The bank in view is for the memory map to
/// choose: reads and writes of the unit's own registers leave it.
pub trait PpuEngine: Sized {
    /// `ppu` is a new unit.
    spec fn is_new(cgb: bool, ppu: Ppu<Self>) -> bool;

    fn new_with_mode(cgb: bool) -> (ppu: Ppu<Self>)
        ensures
            ppu.wf(),
            Self::is_new(cgb, ppu),
    ;

    /// The unit as the boot ROM leaves it.
    spec fn boots(before: Ppu<Self>, revision: Option<DmgRevision>, after: Ppu<Self>) -> bool;

    fn apply_boot_state(ppu: &mut Ppu<Self>, revision: Option<DmgRevision>)
        requires
            old(ppu).wf(),
        ensures
            final(ppu).wf(),
            Self::boots(*old(ppu), revision, *final(ppu)),
    ;

    /// The unit with the palettes that a CGB gives a DMG game.
    spec fn recolors(before: Ppu<Self>, after: Ppu<Self>) -> bool;

    fn apply_dmg_compatibility_palettes(ppu: &mut Ppu<Self>)
        requires
            old(ppu).wf(),
        ensures
            final(ppu).wf(),
            Self::recolors(*old(ppu), *final(ppu)),
    ;

    /// Whether the CPU can reach VRAM.
    spec fn vram_open(ppu: Ppu<Self>) -> bool;

    fn vram_accessible(ppu: &Ppu<Self>) -> (open: bool)
        ensures
            open == Self::vram_open(*ppu),
    ;

    /// Whether the CPU can reach the sprite table.
    spec fn oam_open(ppu: Ppu<Self>) -> bool;

    fn oam_accessible(ppu: &Ppu<Self>) -> (open: bool)
        ensures
            open == Self::oam_open(*ppu),
    ;

    /// Whether the screen is on.
    spec fn lcd_on(ppu: Ppu<Self>) -> bool;

    fn lcd_enabled(ppu: &Ppu<Self>) -> (on: bool)
        ensures
            on == Self::lcd_on(*ppu),
    ;

    /// Whether the beam is in horizontal blank.
    spec fn hblank(ppu: Ppu<Self>) -> bool;

    fn in_hblank(ppu: &Ppu<Self>) -> (hblank: bool)
        ensures
            hblank == Self::hblank(*ppu),
    ;

    /// A read of register `addr` may give `val` and leave `after`.
    spec fn reads(before: Ppu<Self>, addr: u16, after: Ppu<Self>, val: u8) -> bool;

    fn read_reg(ppu: &mut Ppu<Self>, addr: u16) -> (val: u8)
        requires
            old(ppu).wf(),
        ensures
            final(ppu).wf(),
            final(ppu).vram_bank == old(ppu).vram_bank,
            Self::reads(*old(ppu), addr, *final(ppu), val),
    ;

    /// A write of `val` to register `addr` may leave `after`.
    spec fn writes(before: Ppu<Self>, addr: u16, val: u8, after: Ppu<Self>) -> bool;

    fn write_reg(ppu: &mut Ppu<Self>, addr: u16, val: u8)
        requires
            old(ppu).wf(),
        ensures
            final(ppu).wf(),
            final(ppu).vram_bank == old(ppu).vram_bank,
            Self::writes(*old(ppu), addr, val, *final(ppu)),
    ;

    /// `cycles` dots may leave `after`, and the interrupt flags at `if_after`.
    spec fn steps(
        before: Ppu<Self>,
        cycles: u16,
        if_before: u8,
        after: Ppu<Self>,
        if_after: u8,
    ) -> bool;

    fn step(ppu: &mut Ppu<Self>, cycles: u16, if_reg: &mut u8)
        requires
            old(ppu).wf(),
        ensures
            final(ppu).wf(),
            Self::steps(*old(ppu), cycles, *old(if_reg), *final(ppu), *final(if_reg)),
    ;

    /// Whether the unit runs in CGB mode.
    spec fn cgb(ppu: Ppu<Self>) -> bool;

    fn is_cgb(ppu: &Ppu<Self>) -> (cgb: bool)
        ensures
            cgb == Self::cgb(*ppu),
    ;

    /// Number of frames drawn.
    spec fn frame_count(ppu: Ppu<Self>) -> u64;

    fn frames(ppu: &Ppu<Self>) -> (frames: u64)
        ensures
            frames == Self::frame_count(*ppu),
    ;

    /// The picture, as 0x00RRGGBB.
    spec fn picture(ppu: Ppu<Self>) -> Seq<u32>;

    fn framebuffer(ppu: &Ppu<Self>) -> (picture: Vec<u32>)
        ensures
            picture@ == Self::picture(*ppu),
    ;

    /// A background color of the CGB palettes, as 0x00RRGGBB.
    spec fn bg_color(ppu: Ppu<Self>, palette: int, color: int) -> u32;

    fn bg_palette_color(ppu: &Ppu<Self>, palette: usize, color: usize) -> (rgb: u32)
        requires
            palette < 8,
            color < 4,
        ensures
            rgb == Self::bg_color(*ppu, palette as int, color as int),
    ;

    /// An object color of the CGB palettes, as 0x00RRGGBB.
    spec fn ob_color(ppu: Ppu<Self>, palette: int, color: int) -> u32;

    fn ob_palette_color(ppu: &Ppu<Self>, palette: usize, color: usize) -> (rgb: u32)
        requires
            palette < 8,
            color < 4,
        ensures
            rgb == Self::ob_color(*ppu, palette as int, color as int),
    ;
}

/// The timer: its divider, and the engine that counts.
pub struct Timer<E> {
    /// The 16-bit divider, of which the DIV register is the upper half.
    pub div: u16,
    pub engine: E,
}

/// An engine of the timer.
pub trait TimerEngine: Sized {
    /// `timer` is a new timer.
    spec fn is_new(timer: Timer<Self>) -> bool;

    fn new() -> (timer: Timer<Self>)
        ensures
            Self::is_new(timer),
    ;

    /// A read of register `addr` may give `val` and leave `after`.
    spec fn reads(before: Timer<Self>, addr: u16, after: Timer<Self>, val: u8) -> bool;

    fn read(timer: &mut Timer<Self>, addr: u16) -> (val: u8)
        ensures
            Self::reads(*old(timer), addr, *final(timer), val),
    ;

    /// A write of `val` to register `addr` may leave `after`, and the interrupt
    /// flags at `if_after`.
    spec fn writes(
        before: Timer<Self>,
        addr: u16,
        val: u8,
        if_before: u8,
        after: Timer<Self>,
        if_after: u8,
    ) -> bool;

    fn write(timer: &mut Timer<Self>, addr: u16, val: u8, if_reg: &mut u8)
        ensures
            Self::writes(*old(timer), addr, val, *old(if_reg), *final(timer), *final(if_reg)),
    ;

    /// A reset of the divider may leave `after`, and the interrupt flags at
    /// `if_after`.
    spec fn resets_div(
        before: Timer<Self>,
        if_before: u8,
        after: Timer<Self>,
        if_after: u8,
    ) -> bool;

    fn reset_div(timer: &mut Timer<Self>, if_reg: &mut u8)
        ensures
            Self::resets_div(*old(timer), *old(if_reg), *final(timer), *final(if_reg)),
    ;

    /// `cycles` dots may leave `after`, and the interrupt flags at `if_after`.
    spec fn steps(
        before: Timer<Self>,
        cycles: u16,
        if_before: u8,
        after: Timer<Self>,
        if_after: u8,
    ) -> bool;

    fn step(timer: &mut Timer<Self>, cycles: u16, if_reg: &mut u8)
        ensures
            Self::steps(*old(timer), cycles, *old(if_reg), *final(timer), *final(if_reg)),
    ;
}

/// The sound unit.
pub trait ApuEngine: Sized {
    /// The unit is new.
    spec fn is_new(self, cgb: bool, dmg_revision: DmgRevision, cgb_revision: CgbRevision) -> bool;

    fn new_with_revisions(cgb: bool, dmg_revision: DmgRevision, cgb_revision: CgbRevision) -> (apu:
        Self)
        ensures
            apu.is_new(cgb, dmg_revision, cgb_revision),
    ;

    /// A read of register `addr` may give `val` and leave `after`.
    spec fn reads(self, addr: u16, after: Self, val: u8) -> bool;

    fn read_reg(&mut self, addr: u16) -> (val: u8)
        ensures
            old(self).reads(addr, *final(self), val),
    ;

    /// A read of PCM register `addr` may give `val` and leave `after`.
    spec fn reads_pcm(self, addr: u16, after: Self, val: u8) -> bool;

    fn read_pcm(&mut self, addr: u16) -> (val: u8)
        ensures
            old(self).reads_pcm(addr, *final(self), val),
    ;

    /// A write of `val` to register `addr` may leave `after`.
    spec fn writes(self, addr: u16, val: u8, after: Self) -> bool;

    fn write_reg(&mut self, addr: u16, val: u8)
        ensures
            old(self).writes(addr, val, *final(self)),
    ;

    /// A reset of the divider from `prev_div` may leave `after`.
    spec fn sees_div_reset(self, prev_div: u16, double_speed: bool, after: Self) -> bool;

    fn on_div_reset(&mut self, prev_div: u16, double_speed: bool)
        ensures
            old(self).sees_div_reset(prev_div, double_speed, *final(self)),
    ;

    /// `cycles` dots may leave `after`.
    spec fn steps(self, cycles: u16, after: Self) -> bool;

    fn step(&mut self, cycles: u16)
        ensures
            old(self).steps(cycles, *final(self)),
    ;

    /// The divider counting from `prev_div` to `curr_div` may leave `after`.
    spec fn ticks(self, prev_div: u16, curr_div: u16, double_speed: bool, after: Self) -> bool;

    fn tick(&mut self, prev_div: u16, curr_div: u16, double_speed: bool)
        ensures
            old(self).ticks(prev_div, curr_div, double_speed, *final(self)),
    ;
}

/// The buttons.
pub trait InputPort: Sized {
    /// Nothing is pressed or selected.
    spec fn is_new(self) -> bool;

    fn new() -> (input: Self)
        ensures
            input.is_new(),
    ;

    /// A read of the joypad register may give `val` and leave `after`.
    spec fn reads(self, after: Self, val: u8) -> bool;

    fn read(&mut self) -> (val: u8)
        ensures
            old(self).reads(*final(self), val),
    ;

    /// A write of `val` to the joypad register may leave `after`.
    spec fn writes(self, val: u8, after: Self) -> bool;

    fn write(&mut self, val: u8)
        ensures
            old(self).writes(val, *final(self)),
    ;
}

/// A cartridge: whether it is made for the CGB, and the engine of its mapper.
pub struct Cartridge<E> {
    pub cgb: bool,
    pub engine: E,
}

/// An engine of a cartridge.
pub trait CartridgeEngine: Sized {
    /// A read of `addr` may give `val` and leave `after`.
    spec fn reads(before: Cartridge<Self>, addr: u16, after: Cartridge<Self>, val: u8) -> bool;

    fn read(cart: &mut Cartridge<Self>, addr: u16) -> (val: u8)
        ensures
            Self::reads(*old(cart), addr, *final(cart), val),
    ;

    /// A write of `val` to `addr` may leave `after`.
    spec fn writes(before: Cartridge<Self>, addr: u16, val: u8, after: Cartridge<Self>) -> bool;

    fn write(cart: &mut Cartridge<Self>, addr: u16, val: u8)
        ensures
            Self::writes(*old(cart), addr, val, *final(cart)),
    ;

    /// The ROM bank in view.
    spec fn rom_bank(cart: Cartridge<Self>) -> u16;

    fn current_rom_bank(cart: &Cartridge<Self>) -> (bank: u16)
        ensures
            bank == Self::rom_bank(*cart),
    ;

    /// The RAM bank in view.
    spec fn ram_bank(cart: Cartridge<Self>) -> u8;

    fn current_ram_bank(cart: &Cartridge<Self>) -> (bank: u8)
        ensures
            bank == Self::ram_bank(*cart),
    ;

    /// Whether the RAM is enabled.
    spec fn ram_on(cart: Cartridge<Self>) -> bool;

    fn ram_enabled(cart: &Cartridge<Self>) -> (on: bool)
        ensures
            on == Self::ram_on(*cart),
    ;
}

/// The processor: its registers, and the engine that executes.
pub struct Cpu<E> {
    pub a: u8,
    pub f: u8,
    pub b: u8,
    pub c: u8,
    pub d: u8,
    pub e: u8,
    pub h: u8,
    pub l: u8,
    pub sp: u16,
    pub pc: u16,
    pub ime: bool,
    pub cycles: u64,
    pub engine: E,
}

/// An engine of the processor.
pub trait CpuEngine: Sized {
    /// `cpu` is as the boot ROM leaves it.
    spec fn is_booted(cgb: bool, revision: DmgRevision, cpu: Cpu<Self>) -> bool;

    fn new_with_mode_and_revision(cgb: bool, revision: DmgRevision) -> (cpu: Cpu<Self>)
        ensures
            Self::is_booted(cgb, revision, cpu),
    ;

    /// `cpu` is as power leaves it.
    spec fn is_powered_on(cgb: bool, revision: DmgRevision, cpu: Cpu<Self>) -> bool;

    fn new_power_on_with_revision(cgb: bool, revision: DmgRevision) -> (cpu: Cpu<Self>)
        ensures
            Self::is_powered_on(cgb, revision, cpu),
    ;
}

/// The engines of a machine, and what its link cable ends in.
pub trait Machine: Sized {
    type Cpu: CpuEngine;

    type Ppu: PpuEngine;

    type Apu: ApuEngine;

    type Timer: TimerEngine;

    type Input: InputPort;

    type Cart: CartridgeEngine;

    type Link: LinkPort;
}

} // verus!
