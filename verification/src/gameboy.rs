//! The machine as a whole.

use crate::devices::{Cartridge, Cpu, CpuEngine, Machine, Ppu, PpuEngine};
use crate::hardware::{CgbRevision, DmgRevision};
use crate::mmu::Mmu;
use crate::serial::SerialView;
use vstd::prelude::*;

verus! {

/// High-level emulator facade representing a single Game Boy / Game Boy Color.
///
/// `GameBoy` owns the CPU and MMU and provides constructors for common initial
/// states (post-boot vs. power-on) across DMG/CGB modes and hardware revisions.
pub struct GameBoy<M: Machine> {
    /// CPU core.
    pub cpu: Cpu<M::Cpu>,
    /// Memory map and attached devices (PPU/APU/timer/cartridge/etc).
    pub mmu: Mmu<M>,
    /// Whether the machine is running in CGB mode.
    pub cgb: bool,
    /// DMG CPU/board revision used for revision-specific quirks.
    pub dmg_revision: DmgRevision,
    /// CGB revision used for revision-specific quirks.
    pub cgb_revision: CgbRevision,
}

/// `after` is `fresh` with a cartridge and a boot ROM put back, if there were
/// any.
pub open spec fn refitted<M: Machine>(
    fresh: Mmu<M>,
    cart: Option<Cartridge<M::Cart>>,
    boot_rom: Option<Vec<u8>>,
    after: Mmu<M>,
) -> bool {
    let loaded = Mmu { boot_rom: fresh.boot_rom, boot_mapped: fresh.boot_mapped, ..after };
    &&& match cart {
        Some(cart) => fresh.loads_cart(cart, loaded),
        None => loaded == fresh,
    }
    &&& match boot_rom {
        Some(rom) => after.boot_rom == Some(rom) && after.boot_mapped,
        None => after == loaded,
    }
}

impl<M: Machine> GameBoy<M> {
    pub open spec fn wf(self) -> bool {
        self.mmu.wf()
    }

    /// The machine has the given mode and revisions.
    pub open spec fn is_model(
        self,
        cgb: bool,
        dmg_revision: DmgRevision,
        cgb_revision: CgbRevision,
    ) -> bool {
        self.cgb == cgb && self.dmg_revision == dmg_revision && self.cgb_revision == cgb_revision
    }

    /// The machine is as the boot ROM leaves it, without a cartridge.
    pub open spec fn is_booted(
        self,
        cgb: bool,
        dmg_revision: DmgRevision,
        cgb_revision: CgbRevision,
    ) -> bool {
        &&& self.is_model(cgb, dmg_revision, cgb_revision)
        &&& M::Cpu::is_booted(cgb, dmg_revision, self.cpu)
        &&& self.mmu.is_new(cgb, dmg_revision, cgb_revision)
    }

    /// Creates a DMG-mode machine in the post-boot state.
    pub fn new() -> (gb: Self)
        ensures
            gb.wf(),
            gb.is_booted(false, DmgRevision::RevC, CgbRevision::RevE),
    {
        Self::new_with_mode(false)
    }

    /// Creates a machine in the post-boot state.
    ///
    /// When `cgb` is `true`, the machine runs in CGB mode with default revisions.
    pub fn new_with_mode(cgb: bool) -> (gb: Self)
        ensures
            gb.wf(),
            gb.is_booted(cgb, DmgRevision::RevC, CgbRevision::RevE),
    {
        Self::new_with_revisions(cgb, DmgRevision::default(), CgbRevision::default())
    }

    /// Creates a machine in the post-boot state with an explicit CGB revision.
    pub fn new_with_revision(cgb: bool, revision: CgbRevision) -> (gb: Self)
        ensures
            gb.wf(),
            gb.is_booted(cgb, DmgRevision::RevC, revision),
    {
        Self::new_with_revisions(cgb, DmgRevision::default(), revision)
    }

    /// Creates a machine in the post-boot state with explicit DMG + CGB revisions.
    pub fn new_with_revisions(
        cgb: bool,
        dmg_revision: DmgRevision,
        cgb_revision: CgbRevision,
    ) -> (gb: Self)
        ensures
            gb.wf(),
            gb.is_booted(cgb, dmg_revision, cgb_revision),
    {
        Self {
            cpu: M::Cpu::new_with_mode_and_revision(cgb, dmg_revision),
            mmu: Mmu::new_with_revisions(cgb, dmg_revision, cgb_revision),
            cgb,
            dmg_revision,
            cgb_revision,
        }
    }

    /// Creates a machine initialized to an approximate power-on state, around a
    /// memory map in that state.
    ///
    /// This is intended for executing a boot ROM. If you are skipping the boot
    /// ROM, prefer [`Self::new_with_revisions`].
    pub fn new_power_on_with_revisions(
        cgb: bool,
        dmg_revision: DmgRevision,
        cgb_revision: CgbRevision,
        mmu: Mmu<M>,
    ) -> (gb: Self)
        ensures
            gb.is_model(cgb, dmg_revision, cgb_revision),
            M::Cpu::is_powered_on(cgb, dmg_revision, gb.cpu),
            gb.mmu == mmu,
    {
        Self {
            cpu: M::Cpu::new_power_on_with_revision(cgb, dmg_revision),
            mmu,
            cgb,
            dmg_revision,
            cgb_revision,
        }
    }

    /// Creates a power-on machine with an explicit CGB revision.
    pub fn new_power_on_with_revision(cgb: bool, revision: CgbRevision, mmu: Mmu<M>) -> (gb: Self)
        ensures
            gb.is_model(cgb, DmgRevision::RevC, revision),
            M::Cpu::is_powered_on(cgb, DmgRevision::RevC, gb.cpu),
            gb.mmu == mmu,
    {
        Self::new_power_on_with_revisions(cgb, DmgRevision::default(), revision, mmu)
    }

    /// Put a fresh memory map in, and the cartridge and boot ROM back into it.
    fn refit(&mut self, fresh: Mmu<M>)
        requires
            fresh.wf(),
        ensures
            final(self).wf(),
            refitted(fresh, old(self).mmu.cart, old(self).mmu.boot_rom, final(self).mmu),
            *final(self) == (GameBoy { mmu: final(self).mmu, ..*old(self) }),
    {
        let cart = self.mmu.cart.take();
        let boot = self.mmu.boot_rom.take();
        self.mmu = fresh;
        match cart {
            Some(c) => self.mmu.load_cart(c),
            None => {},
        }
        let ghost loaded = self.mmu;
        match boot {
            Some(b) => self.mmu.load_boot_rom(b),
            None => {},
        }
        proof {
            assert(loaded == (Mmu {
                boot_rom: fresh.boot_rom,
                boot_mapped: fresh.boot_mapped,
                ..self.mmu
            }));
        }
    }

    /// `after` is the machine as the boot ROM leaves it, of the same model and
    /// with the same cartridge and boot ROM.
    pub open spec fn resets(self, after: Self) -> bool {
        &&& after.is_model(self.cgb, self.dmg_revision, self.cgb_revision)
        &&& M::Cpu::is_booted(self.cgb, self.dmg_revision, after.cpu)
        &&& exists|fresh: Mmu<M>| #[trigger]
            fresh.is_new(self.cgb, self.dmg_revision, self.cgb_revision) && refitted(
                fresh,
                self.mmu.cart,
                self.mmu.boot_rom,
                after.mmu,
            )
    }

    /// Resets to the post-boot state, preserving cartridge and boot ROM.
    pub fn reset(&mut self)
        ensures
            final(self).wf(),
            old(self).resets(*final(self)),
    {
        self.cpu = M::Cpu::new_with_mode_and_revision(self.cgb, self.dmg_revision);
        let fresh = Mmu::new_with_revisions(self.cgb, self.dmg_revision, self.cgb_revision);
        let ghost new_mmu = fresh;
        self.refit(fresh);
        proof {
            assert(new_mmu.is_new(old(self).cgb, old(self).dmg_revision, old(self).cgb_revision));
        }
    }

    /// `after` is the machine as power leaves it around `fresh`, of the same
    /// model and with the same cartridge and boot ROM.
    pub open spec fn powers_on(self, fresh: Mmu<M>, after: Self) -> bool {
        &&& after.is_model(self.cgb, self.dmg_revision, self.cgb_revision)
        &&& M::Cpu::is_powered_on(self.cgb, self.dmg_revision, after.cpu)
        &&& refitted(fresh, self.mmu.cart, self.mmu.boot_rom, after.mmu)
    }

    /// Resets to the power-on state, around a memory map in that state,
    /// preserving cartridge and boot ROM.
    ///
    /// This is useful when you want to re-run the boot ROM sequence.
    pub fn reset_power_on(&mut self, fresh: Mmu<M>)
        requires
            fresh.wf(),
        ensures
            final(self).wf(),
            old(self).powers_on(fresh, *final(self)),
    {
        self.cpu = M::Cpu::new_power_on_with_revision(self.cgb, self.dmg_revision);
        self.refit(fresh);
    }
}

impl<M: Machine> Default for GameBoy<M> {
    fn default() -> (gb: Self)
        ensures
            gb.wf(),
            gb.is_booted(false, DmgRevision::RevC, CgbRevision::RevE),
    {
        Self::new()
    }
}

/// A reset keeps the model, the cartridge and the boot ROM, maps the boot ROM
/// again, and leaves nothing of the memory or of the link cable.
pub proof fn law_reset_keeps_cartridge_and_boot_rom<M: Machine>(
    before: GameBoy<M>,
    after: GameBoy<M>,
)
    requires
        before.resets(after),
    ensures
        after.is_model(before.cgb, before.dmg_revision, before.cgb_revision),
        after.mmu.cart == before.mmu.cart,
        after.mmu.boot_rom == before.mmu.boot_rom,
        after.mmu.boot_mapped == (before.mmu.boot_rom is Some),
        forall|b: int, i: int|
            0 <= b < 8 && 0 <= i < 0x1000 ==> #[trigger] after.mmu.wram[b][i] == 0,
        after.mmu.serial@ == SerialView::initial(before.cgb, before.dmg_revision),
        after.mmu.serial.port() is None,
{
    let fresh = choose|fresh: Mmu<M>| #[trigger]
        fresh.is_new(before.cgb, before.dmg_revision, before.cgb_revision) && refitted(
            fresh,
            before.mmu.cart,
            before.mmu.boot_rom,
            after.mmu,
        );
    assert(after.mmu.wram == fresh.wram);
    assert forall|b: int, i: int| 0 <= b < 8 && 0 <= i < 0x1000 implies #[trigger]
        after.mmu.wram[b][i] == 0 by {
        assert(fresh.wram[b][i] == 0);
    }
}

/// To reset twice is to reset once.
pub proof fn law_reset_twice<M: Machine>(before: GameBoy<M>, first: GameBoy<M>, second: GameBoy<M>)
    requires
        before.resets(first),
        first.resets(second),
    ensures
        before.resets(second),
{
    law_reset_keeps_cartridge_and_boot_rom(before, first);
}

/// A power-on reset around an empty memory map keeps the model, the cartridge
/// and the boot ROM, and maps the boot ROM. Without a cartridge and a boot ROM
/// the machine is a new one around that map.
pub proof fn law_power_on_reset_keeps_cartridge_and_boot_rom<M: Machine>(
    before: GameBoy<M>,
    fresh: Mmu<M>,
    after: GameBoy<M>,
)
    requires
        fresh.cart is None,
        fresh.boot_rom is None,
        !fresh.boot_mapped,
        before.powers_on(fresh, after),
    ensures
        after.is_model(before.cgb, before.dmg_revision, before.cgb_revision),
        after.mmu.cart == before.mmu.cart,
        after.mmu.boot_rom == before.mmu.boot_rom,
        after.mmu.boot_mapped == (before.mmu.boot_rom is Some),
        before.mmu.cart is None && before.mmu.boot_rom is None ==> after.mmu == fresh,
{
}

/// The engines leave no choice of what a power-on reset around `fresh` gives.
pub open spec fn powers_on_one_way<M: Machine>(
    cgb: bool,
    revision: DmgRevision,
    fresh: Mmu<M>,
) -> bool {
    &&& forall|a: Cpu<M::Cpu>, b: Cpu<M::Cpu>|
        #[trigger] M::Cpu::is_powered_on(cgb, revision, a)
            && #[trigger] M::Cpu::is_powered_on(cgb, revision, b) ==> a == b
    &&& forall|a: Ppu<M::Ppu>, b: Ppu<M::Ppu>|
        #[trigger] M::Ppu::recolors(fresh.ppu, a) && #[trigger] M::Ppu::recolors(fresh.ppu, b)
            ==> a == b
}

/// A second power-on reset right after the first, around the same empty map,
/// changes nothing more: it gives what the first one may give, and where the
/// engines leave no choice, the very same machine.
pub proof fn law_power_on_reset_twice<M: Machine>(
    before: GameBoy<M>,
    fresh: Mmu<M>,
    first: GameBoy<M>,
    second: GameBoy<M>,
)
    requires
        fresh.cart is None,
        fresh.boot_rom is None,
        !fresh.boot_mapped,
        before.powers_on(fresh, first),
        first.powers_on(fresh, second),
    ensures
        before.powers_on(fresh, second),
        powers_on_one_way(before.cgb, before.dmg_revision, fresh) ==> second == first,
{
    law_power_on_reset_keeps_cartridge_and_boot_rom(before, fresh, first);
    if powers_on_one_way(before.cgb, before.dmg_revision, fresh) {
        assert(first.cpu == second.cpu);
        assert(first.mmu.ppu == second.mmu.ppu);
    }
}

} // verus!
