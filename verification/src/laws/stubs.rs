//! Stubs of devices: a divider that counts, and nothing else.

use crate::devices::null::{NullApu, NullCartridge, NullCpu, NullInput, NullPpu, NullTimer};
use crate::devices::{
    ApuEngine, Cartridge, CartridgeEngine, Cpu, CpuEngine, InputPort, Ppu, PpuEngine, Timer,
    TimerEngine,
};
use crate::hardware::DmgRevision;
use vstd::prelude::*;

verus! {

/// The divider counts every dot, around the end of its 16 bits, reads its upper eight
/// bits, and starts from nothing when it is reset. It requests no interrupt.
pub proof fn law_divider_counts(
    timer: Timer<NullTimer>,
    dots: u16,
    flags: u8,
    after: Timer<NullTimer>,
    flags_after: u8,
    val: u8,
)
    ensures
        NullTimer::steps(timer, dots, flags, after, flags_after) ==> {
            &&& flags_after == flags
            &&& timer.div + dots < 0x1_0000 ==> after.div == timer.div + dots
            &&& timer.div + dots >= 0x1_0000 ==> after.div + 0x1_0000 == timer.div + dots
        },
        NullTimer::reads(timer, 0xFF04, after, val) ==> after == timer && 0x100 * val <= timer.div
            < 0x100 * (val + 1),
        NullTimer::reads(timer, 0xFF05, after, val) ==> after == timer && val == 0xFF,
        NullTimer::resets_div(timer, flags, after, flags_after) ==> after.div == 0 && flags_after
            == flags,
        NullTimer::writes(timer, 0xFF05, val, flags, after, flags_after) ==> after == timer
            && flags_after == flags,
        NullTimer::is_new(timer) ==> timer.div == 0,
{
}

/// A stub reads 0xFF and keeps nothing that is written.
pub proof fn law_stubs_read_nothing(
    ppu: Ppu<NullPpu>,
    ppu_after: Ppu<NullPpu>,
    apu: NullApu,
    input: NullInput,
    cart: Cartridge<NullCartridge>,
    cart_after: Cartridge<NullCartridge>,
    addr: u16,
    val: u8,
)
    ensures
        NullPpu::reads(ppu, addr, ppu_after, val) ==> ppu_after == ppu && val == 0xFF,
        NullPpu::writes(ppu, addr, val, ppu_after) ==> ppu_after == ppu,
        apu.reads(addr, apu, val) ==> val == 0xFF,
        apu.reads_pcm(addr, apu, val) ==> val == 0xFF,
        input.reads(input, val) ==> val == 0xFF,
        NullCartridge::reads(cart, addr, cart_after, val) ==> cart_after == cart && val == 0xFF,
        NullCartridge::writes(cart, addr, val, cart_after) ==> cart_after == cart,
        NullCartridge::rom_bank(cart) == 1,
        NullCartridge::ram_bank(cart) == 0,
        !NullCartridge::ram_on(cart),
{
}

/// The memories of a picture unit without a picture can always be reached, and time
/// does nothing to it.
pub proof fn law_no_picture(
    ppu: Ppu<NullPpu>,
    dots: u16,
    flags: u8,
    after: Ppu<NullPpu>,
    flags_after: u8,
)
    ensures
        NullPpu::vram_open(ppu),
        NullPpu::oam_open(ppu),
        !NullPpu::lcd_on(ppu),
        !NullPpu::hblank(ppu),
        NullPpu::steps(ppu, dots, flags, after, flags_after) ==> after == ppu && flags_after
            == flags,
        NullPpu::boots(ppu, None, after) ==> after == ppu,
        NullPpu::recolors(ppu, after) ==> after == ppu,
        NullPpu::picture(ppu).len() == 0,
        NullPpu::frame_count(ppu) == 0,
{
}

/// A processor that executes nothing starts with zeros in its registers.
pub proof fn law_blank_processor(cgb: bool, revision: DmgRevision, cpu: Cpu<NullCpu>)
    requires
        NullCpu::is_booted(cgb, revision, cpu) || NullCpu::is_powered_on(cgb, revision, cpu),
    ensures
        cpu.a == 0 && cpu.f == 0 && cpu.b == 0 && cpu.c == 0,
        cpu.d == 0 && cpu.e == 0 && cpu.h == 0 && cpu.l == 0,
        cpu.sp == 0 && cpu.pc == 0 && !cpu.ime && cpu.cycles == 0,
{
}

} // verus!
