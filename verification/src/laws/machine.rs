//! The machine as a whole: how it starts, what time does to it, and what a reset
//! keeps.

use crate::devices::{
    ApuEngine, Cartridge, CpuEngine, InputPort, Machine, Ppu, PpuEngine, Timer, TimerEngine,
};
use crate::gameboy::GameBoy;
use crate::hardware::{CgbRevision, DmgRevision};
use crate::mmu::Mmu;
use crate::ui::emulator::{action_applies, UiAction};
use vstd::prelude::*;

verus! {

/// What a machine reads that the boot ROM has left, without a cartridge: zeros in
/// RAM, 0xFF where the cartridge would be, E1 as interrupt flags, and no interrupt
/// enabled. A CGB starts at normal speed with bank 1 of WRAM in view.
pub proof fn law_new_machine_reads<M: Machine>(
    mmu: Mmu<M>,
    cgb: bool,
    dmg_revision: DmgRevision,
    cgb_revision: CgbRevision,
    addr: u16,
    after: Mmu<M>,
    val: u8,
)
    requires
        mmu.is_new(cgb, dmg_revision, cgb_revision),
        mmu.reads(addr, false, after, val),
    ensures
        0xC000 <= addr < 0xFE00 ==> val == 0,
        0xFF80 <= addr < 0xFFFF ==> val == 0,
        addr < 0x8000 || 0xA000 <= addr < 0xC000 ==> val == 0xFF,
        addr == 0xFF0F ==> val == 0xE1,
        addr == 0xFFFF ==> val == 0,
        addr == 0xFF01 ==> val == 0,
        addr == 0xFF02 ==> val == if cgb {
            0x7Fu8
        } else {
            0x7Eu8
        },
        addr == 0xFF55 ==> val == 0xFF,
        addr == 0xFF4D ==> val == if cgb {
            0x7Eu8
        } else {
            0xFFu8
        },
        addr == 0xFF70 ==> val == if cgb {
            1u8
        } else {
            0xFFu8
        },
        addr == 0xFF56 ==> val == if cgb {
            0xC0u8
        } else {
            0xFFu8
        },
{
    crate::laws::serial::law_new_port(cgb, dmg_revision);
    assert((0x7Eu8 & 0x81) | 0x7E == 0x7E && 0u8 | 0xC0 == 0xC0) by (bit_vector);
    if 0xC000 <= addr < 0xFE00 {
        let at = if addr >= 0xE000 {
            addr - 0x2000
        } else {
            addr as int
        };
        assert(mmu.wram[0][at - 0xC000] == 0 || at >= 0xD000);
        assert(mmu.wram[1][at - 0xD000] == 0 || at < 0xD000);
    } else if 0xFF80 <= addr < 0xFFFF {
        assert(mmu.hram[addr - 0xFF80] == 0);
    }
}

/// A new machine has nothing under way: no transfer, no DMA, no stall, nothing in
/// its slot and nothing in its link port. Its divider stands where the boot ROM of
/// its revision leaves it, and its devices are new ones of its model.
pub proof fn law_new_machine_is_idle<M: Machine>(
    mmu: Mmu<M>,
    cgb: bool,
    dmg_revision: DmgRevision,
    cgb_revision: CgbRevision,
)
    requires
        mmu.is_new(cgb, dmg_revision, cgb_revision),
    ensures
        mmu.cart is None,
        mmu.boot_rom is None,
        !mmu.boot_mapped,
        mmu.serial.port() is None,
        mmu.serial@.transfer is None,
        mmu.serial@.output.len() == 0,
        mmu.dma_cycles == 0,
        mmu.pending_dma is None,
        mmu.pending_delay == 0,
        mmu.gdma_cycles == 0,
        !mmu.hdma.active,
        !mmu.hdma.cancelled,
        mmu.key1 < 0x80,
        mmu.cgb_mode == cgb,
        mmu.dmg_revision == dmg_revision,
        mmu.cgb_revision == cgb_revision,
        mmu.timer.div == if dmg_revision == DmgRevision::Rev0 {
            0x1830u16
        } else {
            0xABCCu16
        },
        exists|timer: Timer<M::Timer>| #[trigger]
            M::Timer::is_new(timer) && mmu.timer.engine == timer.engine,
        mmu.input.is_new(),
        mmu.apu.is_new(cgb, dmg_revision, cgb_revision),
        cgb ==> exists|ppu: Ppu<M::Ppu>| #[trigger]
            M::Ppu::is_new(true, ppu) && M::Ppu::boots(ppu, None, mmu.ppu),
        !cgb ==> exists|ppu: Ppu<M::Ppu>| #[trigger]
            M::Ppu::is_new(false, ppu) && M::Ppu::boots(ppu, Some(dmg_revision), mmu.ppu),
{
}

/// An M-cycle has four dots, and two at double speed.
pub proof fn law_dots<M: Machine>(mmu: Mmu<M>, m_cycles: u32)
    requires
        m_cycles <= 0xFFFF,
    ensures
        mmu.key1 < 0x80 ==> mmu.dots(m_cycles) == 4 * m_cycles,
        mmu.key1 >= 0x80 ==> mmu.dots(m_cycles) == 2 * m_cycles,
{
    crate::bits::lemma_bits_of(mmu.key1);
}

/// Time works on the timer, the sound unit and the picture unit, each for the same
/// number of dots, and on the interrupt flags, which the timer changes first and the
/// picture unit next. The sound unit sees the divider before and after. Nothing else
/// changes.
pub proof fn law_tick<M: Machine>(before: Mmu<M>, dots: u16, after: Mmu<M>)
    requires
        before.ticks(dots, after),
    ensures
        exists|flags: u8|
            M::Timer::steps(before.timer, dots, before.if_reg, after.timer, flags)
                && #[trigger] M::Ppu::steps(before.ppu, dots, flags, after.ppu, after.if_reg),
        exists|apu: M::Apu| #[trigger]
            before.apu.steps(dots, apu) && apu.ticks(
                before.timer.div,
                after.timer.div,
                before.key1 >= 0x80,
                after.apu,
            ),
        after.wram == before.wram,
        after.wram_bank == before.wram_bank,
        after.hram == before.hram,
        after.cart == before.cart,
        after.boot_mapped == before.boot_mapped,
        after.ie_reg == before.ie_reg,
        after.serial == before.serial,
        after.input == before.input,
        after.hdma == before.hdma,
        after.key1 == before.key1,
        after.dma_cycles == before.dma_cycles,
        after.pending_delay == before.pending_delay,
        after.gdma_cycles == before.gdma_cycles,
{
    crate::bits::lemma_bits_of(before.key1);
    let (if_reg, apu) = choose|if_reg: u8, apu: M::Apu|
        {
            &&& #[trigger] M::Timer::steps(before.timer, dots, before.if_reg, after.timer, if_reg)
            &&& #[trigger] before.apu.steps(dots, apu)
            &&& apu.ticks(
                before.timer.div,
                after.timer.div,
                crate::mmu::is_double_speed(before.key1),
                after.apu,
            )
            &&& M::Ppu::steps(before.ppu, dots, if_reg, after.ppu, after.if_reg)
        };
    assert(M::Ppu::steps(before.ppu, dots, if_reg, after.ppu, after.if_reg));
    assert(before.apu.steps(dots, apu));
}

/// A stall lasts as many M-cycles as it has, however it is divided, and then is
/// over.
pub proof fn law_stall<M: Machine>(mmu: Mmu<M>, a: u16, b: u16)
    requires
        a + b <= u16::MAX,
    ensures
        a < mmu.gdma_cycles ==> mmu.stalled(a).gdma_cycles + a == mmu.gdma_cycles,
        a >= mmu.gdma_cycles ==> mmu.stalled(a).gdma_cycles == 0,
        mmu.stalled(a).stalled(b) == mmu.stalled((a + b) as u16),
        mmu.stalled(a) == (Mmu { gdma_cycles: mmu.stalled(a).gdma_cycles, ..mmu }),
{
}

/// A boot ROM that was loaded is what the first 256 bytes read, and nothing else
/// changes.
pub proof fn law_boot_rom_is_mapped<M: Machine>(
    mmu: Mmu<M>,
    rom: Vec<u8>,
    addr: u16,
    after: Mmu<M>,
    val: u8,
)
    requires
        mmu.booting(rom).reads(addr, false, after, val),
    ensures
        addr < 0x100 && addr < rom@.len() ==> val == rom@[addr as int],
        mmu.booting(rom) == (Mmu {
            boot_rom: mmu.booting(rom).boot_rom,
            boot_mapped: true,
            ..mmu
        }),
{
}

/// A cartridge that was loaded is in the slot. It changes the colors of a CGB that
/// runs a DMG game, and nothing else.
pub proof fn law_cartridge_is_in<M: Machine>(
    before: Mmu<M>,
    cart: Cartridge<M::Cart>,
    after: Mmu<M>,
)
    requires
        before.loads_cart(cart, after),
    ensures
        after.cart == Some(cart),
        after == (Mmu { cart: after.cart, ppu: after.ppu, ..before }),
        !before.cgb_mode || cart.cgb ==> after.ppu == before.ppu,
        before.cgb_mode && !cart.cgb ==> M::Ppu::recolors(before.ppu, after.ppu),
{
}

/// A reset leaves the machine as new, but for the cartridge and the boot ROM, which
/// is mapped again: RAM is zero, nothing is under way, and the link port is empty.
pub proof fn law_reset_leaves_a_new_machine<M: Machine>(before: GameBoy<M>, after: GameBoy<M>)
    requires
        before.resets(after),
    ensures
        after.cgb == before.cgb,
        after.dmg_revision == before.dmg_revision,
        after.cgb_revision == before.cgb_revision,
        after.mmu.cgb_mode == before.cgb,
        after.mmu.cart == before.mmu.cart,
        after.mmu.boot_rom == before.mmu.boot_rom,
        after.mmu.boot_mapped == (before.mmu.boot_rom is Some),
        forall|b: int, i: int|
            0 <= b < 8 && 0 <= i < 0x1000 ==> #[trigger] after.mmu.wram[b][i] == 0,
        forall|i: int| 0 <= i < 0x7F ==> #[trigger] after.mmu.hram[i] == 0,
        after.mmu.wram_bank == 1,
        after.mmu.if_reg == 0xE1,
        after.mmu.ie_reg == 0,
        after.mmu.key1 < 0x80,
        after.mmu.dma_cycles == 0,
        after.mmu.pending_delay == 0,
        after.mmu.gdma_cycles == 0,
        !after.mmu.hdma.active,
        after.mmu.serial.port() is None,
        after.mmu.serial@.transfer is None,
        after.mmu.serial@.output.len() == 0,
        M::Cpu::is_booted(before.cgb, before.dmg_revision, after.cpu),
{
    let fresh = choose|fresh: Mmu<M>| #[trigger]
        fresh.is_new(before.cgb, before.dmg_revision, before.cgb_revision)
            && crate::gameboy::refitted(
            fresh,
            before.mmu.cart,
            before.mmu.boot_rom,
            after.mmu,
        );
    assert(after.mmu.wram == fresh.wram && after.mmu.hram == fresh.hram);
    assert forall|b: int, i: int| 0 <= b < 8 && 0 <= i < 0x1000 implies #[trigger]
        after.mmu.wram[b][i] == 0 by {
        assert(fresh.wram[b][i] == 0);
    }
    assert forall|i: int| 0 <= i < 0x7F implies #[trigger] after.mmu.hram[i] == 0 by {
        assert(fresh.hram[i] == 0);
    }
}

/// A power-on reset puts the given map in, and the cartridge and the boot ROM back
/// into it.
pub proof fn law_power_on_reset<M: Machine>(before: GameBoy<M>, fresh: Mmu<M>, after: GameBoy<M>)
    requires
        before.powers_on(fresh, after),
    ensures
        after.cgb == before.cgb,
        after.dmg_revision == before.dmg_revision,
        after.cgb_revision == before.cgb_revision,
        before.mmu.cart is Some ==> after.mmu.cart == before.mmu.cart,
        before.mmu.boot_rom is Some ==> after.mmu.boot_rom == before.mmu.boot_rom
            && after.mmu.boot_mapped,
        after.mmu == (Mmu {
            cart: after.mmu.cart,
            ppu: after.mmu.ppu,
            boot_rom: after.mmu.boot_rom,
            boot_mapped: after.mmu.boot_mapped,
            ..fresh
        }),
        M::Cpu::is_powered_on(before.cgb, before.dmg_revision, after.cpu),
{
}

/// A reset that a user asks for keeps the cartridge, and a cartridge that a user
/// loads is in the slot of a machine that was reset.
pub proof fn law_actions<M: Machine>(
    before: GameBoy<M>,
    cart: Cartridge<M::Cart>,
    after: GameBoy<M>,
)
    ensures
        action_applies(before, UiAction::Reset, after) ==> {
            &&& after.mmu.cart == before.mmu.cart
            &&& after.mmu.if_reg == 0xE1
            &&& after.mmu.wram_bank == 1
            &&& after.cgb == before.cgb
        },
        action_applies(before, UiAction::Load(cart), after) ==> {
            &&& after.mmu.cart == Some(cart)
            &&& after.mmu.if_reg == 0xE1
            &&& after.mmu.wram_bank == 1
            &&& after.mmu.boot_rom == before.mmu.boot_rom
            &&& after.cgb == before.cgb
            &&& M::Cpu::is_booted(before.cgb, before.dmg_revision, after.cpu)
        },
{
    if action_applies(before, UiAction::Reset, after) {
        law_reset_leaves_a_new_machine(before, after);
    }
    if action_applies(before, UiAction::Load(cart), after) {
        let mid = choose|mid: GameBoy<M>| #[trigger]
            before.resets(mid) && mid.mmu.loads_cart(cart, after.mmu) && after == (GameBoy {
                mmu: after.mmu,
                ..mid
            });
        law_reset_leaves_a_new_machine(before, mid);
    }
}

} // verus!
