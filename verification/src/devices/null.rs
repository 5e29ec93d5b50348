//! Stub devices used where no engine is attached, as
//! [`NullLinkPort`](crate::serial::NullLinkPort) is where no cable is.
//!
//! Their registers read 0xFF and ignore what is written. Memories can always be
//! reached, the screen is off, nothing ever raises an interrupt, and the
//! divider counts dots.

use crate::devices::{
    ApuEngine, Cartridge, CartridgeEngine, Cpu, CpuEngine, InputPort, Machine, Ppu, PpuEngine,
    Timer, TimerEngine, OAM_SIZE, VRAM_BANK_SIZE,
};
use crate::hardware::{CgbRevision, DmgRevision};
use crate::serial::NullLinkPort;
use vstd::prelude::*;

verus! {

/// A picture unit that draws nothing.
pub struct NullPpu {
    pub cgb: bool,
}

impl PpuEngine for NullPpu {
    open spec fn is_new(cgb: bool, ppu: Ppu<Self>) -> bool {
        &&& ppu.engine.cgb == cgb
        &&& ppu.vram_bank == 0
        &&& ppu.dma == 0
        &&& forall|b: int, i: int|
            0 <= b < 2 && 0 <= i < VRAM_BANK_SIZE ==> #[trigger] ppu.vram[b][i] == 0
        &&& forall|i: int| 0 <= i < OAM_SIZE ==> #[trigger] ppu.oam[i] == 0
    }

    fn new_with_mode(cgb: bool) -> (ppu: Ppu<Self>) {
        Ppu {
            vram: [[0; VRAM_BANK_SIZE]; 2],
            vram_bank: 0,
            oam: [0; OAM_SIZE],
            dma: 0,
            engine: NullPpu { cgb },
        }
    }

    open spec fn boots(
        before: Ppu<Self>,
        revision: Option<DmgRevision>,
        after: Ppu<Self>,
    ) -> bool {
        after == before
    }

    fn apply_boot_state(ppu: &mut Ppu<Self>, revision: Option<DmgRevision>) {
    }

    open spec fn recolors(before: Ppu<Self>, after: Ppu<Self>) -> bool {
        after == before
    }

    fn apply_dmg_compatibility_palettes(ppu: &mut Ppu<Self>) {
    }

    open spec fn vram_open(ppu: Ppu<Self>) -> bool {
        true
    }

    fn vram_accessible(ppu: &Ppu<Self>) -> (open: bool) {
        true
    }

    open spec fn oam_open(ppu: Ppu<Self>) -> bool {
        true
    }

    fn oam_accessible(ppu: &Ppu<Self>) -> (open: bool) {
        true
    }

    open spec fn lcd_on(ppu: Ppu<Self>) -> bool {
        false
    }

    fn lcd_enabled(ppu: &Ppu<Self>) -> (on: bool) {
        false
    }

    open spec fn hblank(ppu: Ppu<Self>) -> bool {
        false
    }

    fn in_hblank(ppu: &Ppu<Self>) -> (hblank: bool) {
        false
    }

    open spec fn reads(before: Ppu<Self>, addr: u16, after: Ppu<Self>, val: u8) -> bool {
        after == before && val == 0xFF
    }

    fn read_reg(ppu: &mut Ppu<Self>, addr: u16) -> (val: u8) {
        0xFF
    }

    open spec fn writes(before: Ppu<Self>, addr: u16, val: u8, after: Ppu<Self>) -> bool {
        after == before
    }

    fn write_reg(ppu: &mut Ppu<Self>, addr: u16, val: u8) {
    }

    open spec fn steps(
        before: Ppu<Self>,
        cycles: u16,
        if_before: u8,
        after: Ppu<Self>,
        if_after: u8,
    ) -> bool {
        after == before && if_after == if_before
    }

    fn step(ppu: &mut Ppu<Self>, cycles: u16, if_reg: &mut u8) {
    }

    open spec fn cgb(ppu: Ppu<Self>) -> bool {
        ppu.engine.cgb
    }

    fn is_cgb(ppu: &Ppu<Self>) -> (cgb: bool) {
        ppu.engine.cgb
    }

    open spec fn frame_count(ppu: Ppu<Self>) -> u64 {
        0
    }

    fn frames(ppu: &Ppu<Self>) -> (frames: u64) {
        0
    }

    open spec fn picture(ppu: Ppu<Self>) -> Seq<u32> {
        Seq::empty()
    }

    fn framebuffer(ppu: &Ppu<Self>) -> (picture: Vec<u32>) {
        Vec::new()
    }

    open spec fn bg_color(ppu: Ppu<Self>, palette: int, color: int) -> u32 {
        0
    }

    fn bg_palette_color(ppu: &Ppu<Self>, palette: usize, color: usize) -> (rgb: u32) {
        0
    }

    open spec fn ob_color(ppu: Ppu<Self>, palette: int, color: int) -> u32 {
        0
    }

    fn ob_palette_color(ppu: &Ppu<Self>, palette: usize, color: usize) -> (rgb: u32) {
        0
    }
}

/// A timer that only counts its divider.
pub struct NullTimer {}

impl TimerEngine for NullTimer {
    open spec fn is_new(timer: Timer<Self>) -> bool {
        timer.div == 0
    }

    fn new() -> (timer: Timer<Self>) {
        Timer { div: 0, engine: NullTimer {  } }
    }

    open spec fn reads(before: Timer<Self>, addr: u16, after: Timer<Self>, val: u8) -> bool {
        &&& after == before
        &&& val == if addr == 0xFF04 {
            before.div / 0x100
        } else {
            0xFF
        }
    }

    fn read(timer: &mut Timer<Self>, addr: u16) -> (val: u8) {
        if addr == 0xFF04 {
            (timer.div / 0x100) as u8
        } else {
            0xFF
        }
    }

    open spec fn writes(
        before: Timer<Self>,
        addr: u16,
        val: u8,
        if_before: u8,
        after: Timer<Self>,
        if_after: u8,
    ) -> bool {
        after == before && if_after == if_before
    }

    fn write(timer: &mut Timer<Self>, addr: u16, val: u8, if_reg: &mut u8) {
    }

    open spec fn resets_div(
        before: Timer<Self>,
        if_before: u8,
        after: Timer<Self>,
        if_after: u8,
    ) -> bool {
        after.div == 0 && if_after == if_before
    }

    fn reset_div(timer: &mut Timer<Self>, if_reg: &mut u8) {
        timer.div = 0;
    }

    open spec fn steps(
        before: Timer<Self>,
        cycles: u16,
        if_before: u8,
        after: Timer<Self>,
        if_after: u8,
    ) -> bool {
        after.div == (before.div + cycles) % 0x1_0000 && if_after == if_before
    }

    fn step(timer: &mut Timer<Self>, cycles: u16, if_reg: &mut u8) {
        timer.div = timer.div.wrapping_add(cycles);
    }
}

/// A silent sound unit.
pub struct NullApu {}

impl ApuEngine for NullApu {
    open spec fn is_new(
        self,
        cgb: bool,
        dmg_revision: DmgRevision,
        cgb_revision: CgbRevision,
    ) -> bool {
        true
    }

    fn new_with_revisions(cgb: bool, dmg_revision: DmgRevision, cgb_revision: CgbRevision) -> (apu:
        Self) {
        NullApu {  }
    }

    open spec fn reads(self, addr: u16, after: Self, val: u8) -> bool {
        val == 0xFF
    }

    fn read_reg(&mut self, addr: u16) -> (val: u8) {
        0xFF
    }

    open spec fn reads_pcm(self, addr: u16, after: Self, val: u8) -> bool {
        val == 0xFF
    }

    fn read_pcm(&mut self, addr: u16) -> (val: u8) {
        0xFF
    }

    open spec fn writes(self, addr: u16, val: u8, after: Self) -> bool {
        true
    }

    fn write_reg(&mut self, addr: u16, val: u8) {
    }

    open spec fn sees_div_reset(self, prev_div: u16, double_speed: bool, after: Self) -> bool {
        true
    }

    fn on_div_reset(&mut self, prev_div: u16, double_speed: bool) {
    }

    open spec fn steps(self, cycles: u16, after: Self) -> bool {
        true
    }

    fn step(&mut self, cycles: u16) {
    }

    open spec fn ticks(
        self,
        prev_div: u16,
        curr_div: u16,
        double_speed: bool,
        after: Self,
    ) -> bool {
        true
    }

    fn tick(&mut self, prev_div: u16, curr_div: u16, double_speed: bool) {
    }
}

/// No buttons.
pub struct NullInput {}

impl InputPort for NullInput {
    open spec fn is_new(self) -> bool {
        true
    }

    fn new() -> (input: Self) {
        NullInput {  }
    }

    open spec fn reads(self, after: Self, val: u8) -> bool {
        val == 0xFF
    }

    fn read(&mut self) -> (val: u8) {
        0xFF
    }

    open spec fn writes(self, val: u8, after: Self) -> bool {
        true
    }

    fn write(&mut self, val: u8) {
    }
}

/// A cartridge that holds nothing.
pub struct NullCartridge {}

impl CartridgeEngine for NullCartridge {
    open spec fn reads(
        before: Cartridge<Self>,
        addr: u16,
        after: Cartridge<Self>,
        val: u8,
    ) -> bool {
        after == before && val == 0xFF
    }

    fn read(cart: &mut Cartridge<Self>, addr: u16) -> (val: u8) {
        0xFF
    }

    open spec fn writes(
        before: Cartridge<Self>,
        addr: u16,
        val: u8,
        after: Cartridge<Self>,
    ) -> bool {
        after == before
    }

    fn write(cart: &mut Cartridge<Self>, addr: u16, val: u8) {
    }

    open spec fn rom_bank(cart: Cartridge<Self>) -> u16 {
        1
    }

    fn current_rom_bank(cart: &Cartridge<Self>) -> (bank: u16) {
        1
    }

    open spec fn ram_bank(cart: Cartridge<Self>) -> u8 {
        0
    }

    fn current_ram_bank(cart: &Cartridge<Self>) -> (bank: u8) {
        0
    }

    open spec fn ram_on(cart: Cartridge<Self>) -> bool {
        false
    }

    fn ram_enabled(cart: &Cartridge<Self>) -> (on: bool) {
        false
    }
}

/// A processor that executes nothing.
pub struct NullCpu {}

/// The registers of a processor that never ran.
pub open spec fn is_blank(cpu: Cpu<NullCpu>) -> bool {
    &&& cpu.a == 0 && cpu.f == 0 && cpu.b == 0 && cpu.c == 0
    &&& cpu.d == 0 && cpu.e == 0 && cpu.h == 0 && cpu.l == 0
    &&& cpu.sp == 0 && cpu.pc == 0
    &&& !cpu.ime
    &&& cpu.cycles == 0
}

fn blank_cpu() -> (cpu: Cpu<NullCpu>)
    ensures
        is_blank(cpu),
{
    Cpu {
        a: 0,
        f: 0,
        b: 0,
        c: 0,
        d: 0,
        e: 0,
        h: 0,
        l: 0,
        sp: 0,
        pc: 0,
        ime: false,
        cycles: 0,
        engine: NullCpu {  },
    }
}

impl CpuEngine for NullCpu {
    open spec fn is_booted(cgb: bool, revision: DmgRevision, cpu: Cpu<Self>) -> bool {
        is_blank(cpu)
    }

    fn new_with_mode_and_revision(cgb: bool, revision: DmgRevision) -> (cpu: Cpu<Self>) {
        blank_cpu()
    }

    open spec fn is_powered_on(cgb: bool, revision: DmgRevision, cpu: Cpu<Self>) -> bool {
        is_blank(cpu)
    }

    fn new_power_on_with_revision(cgb: bool, revision: DmgRevision) -> (cpu: Cpu<Self>) {
        blank_cpu()
    }
}

/// A machine of stubs.
pub struct NullMachine {}

impl Machine for NullMachine {
    type Cpu = NullCpu;

    type Ppu = NullPpu;

    type Apu = NullApu;

    type Timer = NullTimer;

    type Input = NullInput;

    type Cart = NullCartridge;

    type Link = NullLinkPort;
}

} // verus!
