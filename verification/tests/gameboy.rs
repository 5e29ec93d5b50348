//! The machine, its resets and its snapshots.

use vibe_emu::devices::null::{NullCartridge, NullMachine};
use vibe_emu::devices::Cartridge;
use vibe_emu::gameboy::GameBoy;
use vibe_emu::hardware::{CgbRevision, DmgRevision};
use vibe_emu::mmu::Mmu;
use vibe_emu::snapshot::{DebuggerSnapshot, PpuSnapshot, UiSnapshot};
use vibe_emu::ui::emulator::{apply_ui_action, UiAction};

fn cart(cgb: bool) -> Cartridge<NullCartridge> {
    Cartridge { cgb, engine: NullCartridge {} }
}

#[test]
fn constructors_set_the_model() {
    let gb: Box<GameBoy<NullMachine>> = Box::new(GameBoy::new());
    assert!(!gb.cgb);
    assert_eq!(gb.dmg_revision, DmgRevision::RevC);
    assert_eq!(gb.cgb_revision, CgbRevision::RevE);
    let gb: Box<GameBoy<NullMachine>> = Box::new(GameBoy::new_with_mode(true));
    assert!(gb.cgb && gb.mmu.is_cgb());
    let gb: Box<GameBoy<NullMachine>> =
        Box::new(GameBoy::new_with_revision(true, CgbRevision::RevB));
    assert_eq!(gb.cgb_revision, CgbRevision::RevB);
    let gb: Box<GameBoy<NullMachine>> = Box::new(GameBoy::new_with_revisions(
        false,
        DmgRevision::Rev0,
        CgbRevision::RevA,
    ));
    assert_eq!(gb.mmu.dmg_revision, DmgRevision::Rev0);
    assert_eq!(gb.mmu.cgb_revision, CgbRevision::RevA);
    let gb: Box<GameBoy<NullMachine>> = Box::new(GameBoy::default());
    assert!(!gb.cgb);
}

#[test]
fn power_on_machine_has_the_given_memory() {
    let mut mmu: Mmu<NullMachine> = Mmu::new_with_mode(true);
    mmu.write_byte(0xC000, 0x42);
    let mut gb: Box<GameBoy<NullMachine>> = Box::new(GameBoy::new_power_on_with_revision(
        true,
        CgbRevision::RevD,
        mmu,
    ));
    assert!(gb.cgb);
    assert_eq!(gb.cgb_revision, CgbRevision::RevD);
    assert_eq!(gb.mmu.read_byte(0xC000), 0x42);

    gb.mmu.load_cart(cart(true));
    gb.reset_power_on(Mmu::new_with_mode(true));
    assert!(gb.mmu.cart.is_some());
    assert_eq!(gb.mmu.read_byte(0xC000), 0);
}

#[test]
fn reset_keeps_cartridge_and_boot_rom() {
    let mut gb: Box<GameBoy<NullMachine>> = Box::new(GameBoy::new_with_mode(true));
    gb.mmu.load_cart(cart(false));
    gb.mmu.load_boot_rom(vec![0x31; 0x900]);
    gb.mmu.write_byte(0xFF50, 1);
    gb.mmu.write_byte(0xC000, 0x42);
    gb.mmu.write_byte(0xFF01, 0x55);
    gb.reset();
    assert!(gb.cgb);
    assert!(gb.mmu.cart.is_some());
    assert_eq!(gb.mmu.boot_rom.as_ref().map(|rom| rom.len()), Some(0x900));
    assert!(gb.mmu.boot_mapped);
    assert_eq!(gb.mmu.read_byte(0x0000), 0x31);
    assert_eq!(gb.mmu.read_byte(0xC000), 0);
    assert_eq!(gb.mmu.read_byte(0xFF01), 0);

    // Once more changes nothing.
    gb.reset();
    assert!(gb.mmu.cart.is_some());
    assert!(gb.mmu.boot_mapped);

    // Without a boot ROM none is mapped.
    let mut bare: Box<GameBoy<NullMachine>> = Box::new(GameBoy::new());
    bare.reset();
    assert!(bare.mmu.cart.is_none());
    assert!(!bare.mmu.boot_mapped);
}

#[test]
fn actions_reset_and_load() {
    let mut gb: Box<GameBoy<NullMachine>> = Box::new(GameBoy::new());
    gb.mmu.write_byte(0xC000, 0x42);
    apply_ui_action(UiAction::Load(cart(true)), &mut gb);
    assert_eq!(gb.mmu.cart.as_ref().map(|c| c.cgb), Some(true));
    assert_eq!(gb.mmu.read_byte(0xC000), 0);
    gb.mmu.write_byte(0xC000, 0x42);
    apply_ui_action(UiAction::Reset, &mut gb);
    assert_eq!(gb.mmu.cart.as_ref().map(|c| c.cgb), Some(true));
    assert_eq!(gb.mmu.read_byte(0xC000), 0);
}

#[test]
fn snapshot_of_a_paused_machine() {
    let mut gb: Box<GameBoy<NullMachine>> = Box::new(GameBoy::new_with_mode(true));
    gb.cpu.a = 0x12;
    gb.cpu.pc = 0xC060;
    gb.cpu.sp = 0xFFC8;
    gb.cpu.cycles = 99;
    gb.mmu.write_byte(0xC020, 0x3E);
    gb.mmu.write_byte(0xC05F, 0x77);
    gb.mmu.write_byte(0xFFC8, 0xAA);
    gb.mmu.write_byte(0xFFFF, 0x1F);
    gb.mmu.write_byte(0xFF70, 3);
    gb.mmu.write_byte(0xFF4F, 1);
    gb.mmu.ppu.vram[1][5] = 0x99;
    let s = UiSnapshot::from_gb(&mut gb, true);
    assert_eq!(s.cpu.a, 0x12);
    assert_eq!(s.cpu.cycles, 99);
    assert!(s.debugger.paused);
    assert_eq!(s.debugger.disassembly_base, 0xC020);
    assert_eq!(s.debugger.disassembly_bytes.len(), 0x200);
    assert_eq!(s.debugger.disassembly_bytes[0], 0x3E);
    assert_eq!(s.debugger.disassembly_bytes[0x3F], 0x77);
    assert_eq!(s.debugger.stack_base, 0xFFC8);
    assert_eq!(s.debugger.stack_bytes.len(), 0x40);
    assert_eq!(s.debugger.stack_bytes[0], 0xAA);
    // IE, and then memory starts over.
    assert_eq!(s.debugger.stack_bytes[0x37], 0x1F);
    assert_eq!(s.debugger.stack_bytes[0x38], 0xFF);
    assert_eq!(s.debugger.wram_bank, 3);
    assert_eq!(s.debugger.vram_bank, 1);
    assert_eq!(s.debugger.active_rom_bank, 1);
    assert_eq!(s.debugger.sram_bank, 0);
    assert!(!s.debugger.sram_enabled);
    assert!(s.debugger.cgb_mode);
    assert_eq!(s.debugger.if_reg, 0xE1);
    assert_eq!(s.debugger.ie_reg, 0x1F);
    let image = s.debugger.mem_image.expect("an image while paused");
    assert_eq!(image[0xC05F], 0x77);
    assert_eq!(image[0xFFFF], 0x1F);
    assert_eq!(s.ppu.vram_bank(1)[5], 0x99);
    assert_eq!(s.ppu.vram_bank(0)[5], 0);
    assert!(s.ppu.cgb);
}

#[test]
fn snapshot_of_a_running_machine_has_no_image() {
    let mut gb: Box<GameBoy<NullMachine>> = Box::new(GameBoy::new());
    gb.cpu.pc = 0x10;
    gb.mmu.load_cart(cart(false));
    let s = UiSnapshot::from_gb(&mut gb, false);
    assert!(!s.debugger.paused);
    assert!(s.debugger.mem_image.is_none());
    assert_eq!(s.debugger.disassembly_base, 0);
    assert!(!s.ppu.cgb);
    assert_eq!(s.ppu.cgb_bg_colors, [[0; 4]; 8]);
}

#[test]
fn empty_snapshots() {
    let s = UiSnapshot::default();
    assert_eq!(s.cpu.pc, 0);
    assert!(s.debugger.paused);
    let d = DebuggerSnapshot::default();
    assert_eq!(d.active_rom_bank, 1);
    assert_eq!(d.wram_bank, 1);
    assert_eq!(d.disassembly_bytes, vec![0; 0x200]);
    assert_eq!(d.stack_bytes, vec![0; 0x40]);
    let mut p = PpuSnapshot::default();
    assert!(p.vram_bank(0).is_empty());
    p.obp0 = 0xE4;
    p.obp1 = 0x1B;
    assert_eq!(p.obp(0), 0xE4);
    assert_eq!(p.obp(1), 0x1B);
    assert_eq!(p.obp(7), 0x1B);
}

#[test]
fn a_second_power_on_reset_changes_nothing_more() {
    let mut gb: Box<GameBoy<NullMachine>> = Box::new(GameBoy::new_with_mode(true));
    gb.mmu.load_cart(cart(false));
    gb.mmu.load_boot_rom(vec![0x31; 0x900]);
    gb.mmu.write_byte(0xFF50, 1);
    gb.mmu.write_byte(0xC000, 0x42);
    for _ in 0..2 {
        gb.reset_power_on(Mmu::new_with_mode(true));
        assert!(gb.cgb);
        assert_eq!(gb.mmu.cart.as_ref().map(|c| c.cgb), Some(false));
        assert_eq!(gb.mmu.boot_rom.as_deref(), Some(&[0x31; 0x900][..]));
        assert!(gb.mmu.boot_mapped);
        assert_eq!(gb.mmu.read_byte(0xC000), 0);
    }
    let mut bare: Box<GameBoy<NullMachine>> = Box::new(GameBoy::new());
    bare.reset_power_on(Mmu::new());
    assert!(bare.mmu.cart.is_none());
    assert!(!bare.mmu.boot_mapped);
}
