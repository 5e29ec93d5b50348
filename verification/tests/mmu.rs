//! The memory map, with devices that do nothing.

use vibe_emu::devices::null::{NullCartridge, NullMachine};
use vibe_emu::devices::Cartridge;
use vibe_emu::hardware::{CgbRevision, DmgRevision};
use vibe_emu::mmu::{DmaMode, Mmu};

fn dmg() -> Box<Mmu<NullMachine>> {
    Box::new(Mmu::new())
}

fn cgb() -> Box<Mmu<NullMachine>> {
    Box::new(Mmu::new_with_mode(true))
}

#[test]
fn post_boot_state() {
    let mut mmu = dmg();
    assert!(!mmu.is_cgb());
    assert_eq!(mmu.read_byte(0xFF0F), 0xE1);
    assert_eq!(mmu.read_byte(0xFFFF), 0);
    assert_eq!(mmu.timer.div, 0xABCC);
    assert_eq!(mmu.wram_bank, 1);
    assert_eq!(mmu.key1, 0);
    assert!(!mmu.boot_mapped);

    let old: Box<Mmu<NullMachine>> = Box::new(Mmu::new_with_revisions(
        false,
        DmgRevision::Rev0,
        CgbRevision::default(),
    ));
    assert_eq!(old.timer.div, 0x1830);

    let mut color: Box<Mmu<NullMachine>> = Box::new(Mmu::new_with_config(true, CgbRevision::RevC));
    assert!(color.is_cgb());
    assert_eq!(color.cgb_revision, CgbRevision::RevC);
    assert_eq!(color.read_byte(0xFF4D), 0x7E);
}

#[test]
fn ram_gives_back_what_was_written() {
    let mut mmu = dmg();
    for (addr, val) in [
        (0xC000u16, 0x12u8),
        (0xDFFF, 0x34),
        (0xFF80, 0x56),
        (0xFFFE, 0x78),
        (0xFFFF, 0x1F),
    ] {
        mmu.write_byte(addr, val);
        assert_eq!(mmu.read_byte(addr), val);
    }
    // What was written elsewhere is still there.
    assert_eq!(mmu.read_byte(0xC000), 0x12);
    assert_eq!(mmu.read_byte(0xC001), 0);
}

#[test]
fn echo_shows_wram() {
    let mut mmu = dmg();
    mmu.write_byte(0xC123, 0xAB);
    assert_eq!(mmu.read_byte(0xE123), 0xAB);
    mmu.write_byte(0xFDFF, 0xCD);
    assert_eq!(mmu.read_byte(0xDDFF), 0xCD);
}

#[test]
fn wram_banks_of_a_cgb() {
    let mut mmu = cgb();
    for bank in 1..8u8 {
        mmu.write_byte(0xFF70, bank);
        mmu.write_byte(0xD000, 0x10 + bank);
    }
    for bank in 1..8u8 {
        mmu.write_byte(0xFF70, bank);
        assert_eq!(mmu.read_byte(0xFF70), bank);
        assert_eq!(mmu.read_byte(0xD000), 0x10 + bank);
    }
    // Bank 0 is bank 1.
    mmu.write_byte(0xFF70, 0x08);
    assert_eq!(mmu.read_byte(0xD000), 0x11);
    // The lower half does not switch.
    mmu.write_byte(0xC000, 0x99);
    mmu.write_byte(0xFF70, 5);
    assert_eq!(mmu.read_byte(0xC000), 0x99);

    // A DMG has no such register.
    let mut mono = dmg();
    mono.write_byte(0xFF70, 3);
    assert_eq!(mono.wram_bank, 1);
    assert_eq!(mono.read_byte(0xFF70), 0xFF);
}

#[test]
fn vram_banks_of_a_cgb() {
    let mut mmu = cgb();
    mmu.write_byte(0x8000, 0x01);
    mmu.write_byte(0xFF4F, 0xFF);
    assert_eq!(mmu.read_byte(0xFF4F), 1);
    assert_eq!(mmu.read_byte(0x8000), 0);
    mmu.write_byte(0x8000, 0x02);
    mmu.write_byte(0xFF4F, 0);
    assert_eq!(mmu.read_byte(0x8000), 0x01);
    assert_eq!(mmu.ppu.vram[1][0], 0x02);
}

#[test]
fn unmapped_memory_reads_ff() {
    let mut mmu = dmg();
    assert_eq!(mmu.read_byte(0x0000), 0xFF); // no cartridge
    assert_eq!(mmu.read_byte(0xA000), 0xFF);
    assert_eq!(mmu.read_byte(0xFEA0), 0xFF);
    assert_eq!(mmu.read_byte(0xFF03), 0xFF);
    assert_eq!(mmu.read_byte(0xFF55), 0xFF);
}

#[test]
fn boot_rom_overlays_until_ff50() {
    let mut mmu = dmg();
    mmu.load_cart(Cartridge { cgb: false, engine: NullCartridge {} });
    let mut rom = vec![0u8; 0x100];
    rom[0] = 0x31;
    rom[0xFF] = 0x50;
    mmu.load_boot_rom(rom);
    assert!(mmu.boot_mapped);
    assert_eq!(mmu.read_byte(0x0000), 0x31);
    assert_eq!(mmu.read_byte(0x00FF), 0x50);
    assert_eq!(mmu.read_byte(0x0100), 0xFF);
    mmu.write_byte(0xFF50, 1);
    assert!(!mmu.boot_mapped);
    assert_eq!(mmu.read_byte(0x0000), 0xFF);
}

#[test]
fn boot_rom_of_a_cgb_leaves_the_header_visible() {
    let mut mmu = cgb();
    let mut rom = vec![0x11u8; 0x900];
    rom[0x200] = 0x22;
    mmu.load_boot_rom(rom);
    assert_eq!(mmu.read_byte(0x00FF), 0x11);
    assert_eq!(mmu.read_byte(0x0100), 0xFF);
    assert_eq!(mmu.read_byte(0x01FF), 0xFF);
    assert_eq!(mmu.read_byte(0x0200), 0x22);
    assert_eq!(mmu.read_byte(0x08FF), 0x11);
    assert_eq!(mmu.read_byte(0x0900), 0xFF);
    // A ROM that is too short reads 0xFF.
    let mut short = cgb();
    short.load_boot_rom(vec![0x11]);
    assert_eq!(short.read_byte(0x0001), 0xFF);
}

#[test]
fn oam_dma_waits_copies_and_blocks() {
    let mut mmu = dmg();
    for i in 0..0xA0u16 {
        mmu.write_byte(0xC100 + i, i as u8 ^ 0x5A);
    }
    mmu.write_byte(0x8000, 0x77);
    mmu.write_byte(0xFF46, 0xC1);
    assert_eq!(mmu.read_byte(0xFF46), 0xC1);
    assert!(mmu.dma_active());

    // Two M-cycles of delay: nothing is blocked yet.
    mmu.dma_step(7);
    assert_eq!(mmu.dma_cycles, 0);
    assert_eq!(mmu.read_byte(0x8000), 0x77);

    // With the last dot of the delay the first byte moves.
    mmu.dma_step(1);
    assert_eq!(mmu.dma_cycles, 639);
    assert_eq!(mmu.ppu.oam[0], 0x5A);
    assert_eq!(mmu.ppu.oam[1], 0);
    assert_eq!(mmu.read_byte(0x8000), 0xFF);
    assert_eq!(mmu.read_byte(0xFE00), 0xFF);
    mmu.write_byte(0x8000, 0x11);
    assert_eq!(mmu.read_byte(0xC100), 0x5A);
    mmu.write_byte(0xFF80, 0x42);
    assert_eq!(mmu.read_byte(0xFF80), 0x42);

    mmu.dma_step(639);
    assert!(!mmu.dma_active());
    for i in 0..0xA0usize {
        assert_eq!(mmu.ppu.oam[i], i as u8 ^ 0x5A);
    }
    assert_eq!(mmu.read_byte(0x8000), 0x77);
    assert_eq!(mmu.read_byte(0xFE01), 0x5B);
}

#[test]
fn oam_dma_is_twice_as_fast_at_double_speed() {
    let mut mmu = cgb();
    mmu.key1 |= 0x80;
    mmu.write_byte(0xC000, 0xEE);
    mmu.write_byte(0xC09F, 0xDD);
    mmu.write_byte(0xFF46, 0xC0);
    assert_eq!(mmu.pending_delay, 4);
    mmu.dma_step(4);
    assert_eq!(mmu.dma_cycles, 319);
    mmu.dma_step(319);
    assert!(!mmu.dma_active());
    assert_eq!(mmu.ppu.oam[0], 0xEE);
    assert_eq!(mmu.ppu.oam[0x9F], 0xDD);
}

#[test]
fn oam_dma_from_the_last_pages_of_a_dmg_reads_wram() {
    let mut mmu = dmg();
    mmu.write_byte(0xDE00, 0x21);
    mmu.write_byte(0xFF46, 0xFE);
    mmu.dma_step(8);
    assert_eq!(mmu.ppu.oam[0], 0x21);
}

#[test]
fn general_dma_copies_at_once() {
    let mut mmu = cgb();
    for i in 0..0x40u16 {
        mmu.write_byte(0xC000 + i, 0x80 + i as u8);
    }
    mmu.write_byte(0xFF51, 0xC0);
    mmu.write_byte(0xFF52, 0x1F); // the lower four bits are ignored
    mmu.write_byte(0xFF53, 0x9F);
    mmu.write_byte(0xFF54, 0xEF);
    assert_eq!(mmu.hdma.src, 0xC010);
    assert_eq!(mmu.hdma.dst, 0x9FE0);
    mmu.write_byte(0xFF55, 0x02); // three blocks, over the end of VRAM
    assert_eq!(mmu.ppu.vram[0][0x1FE0], 0x90);
    assert_eq!(mmu.ppu.vram[0][0x1FFF], 0xAF);
    assert_eq!(mmu.ppu.vram[0][0x0000], 0xB0);
    assert_eq!(mmu.ppu.vram[0][0x000F], 0xBF);
    assert_eq!(mmu.hdma.src, 0xC040);
    assert_eq!(mmu.hdma.dst, 0x8010);
    assert_eq!(mmu.gdma_cycles, 24);
    assert_eq!(mmu.read_byte(0xFF55), 0xFF);

    assert!(mmu.gdma_active());
    mmu.gdma_step(20);
    assert_eq!(mmu.gdma_cycles, 4);
    mmu.gdma_step(100);
    assert!(!mmu.gdma_active());
}

#[test]
fn hblank_dma_goes_block_by_block() {
    let mut mmu = cgb();
    mmu.write_byte(0xC000, 0x01);
    mmu.write_byte(0xC010, 0x02);
    mmu.write_byte(0xC020, 0x03);
    mmu.write_byte(0xFF51, 0xC0);
    mmu.write_byte(0xFF52, 0x00);
    mmu.write_byte(0xFF53, 0x00);
    mmu.write_byte(0xFF54, 0x00);
    // With the screen off the first block goes at once.
    mmu.write_byte(0xFF55, 0x82);
    assert_eq!(mmu.hdma.mode, DmaMode::Hdma);
    assert_eq!(mmu.ppu.vram[0][0], 0x01);
    assert_eq!(mmu.ppu.vram[0][0x10], 0);
    assert_eq!(mmu.read_byte(0xFF55), 0x01);
    assert_eq!(mmu.gdma_cycles, 8);
    mmu.hdma_hblank_transfer();
    assert_eq!(mmu.ppu.vram[0][0x10], 0x02);
    assert_eq!(mmu.read_byte(0xFF55), 0x00);
    mmu.hdma_hblank_transfer();
    assert_eq!(mmu.ppu.vram[0][0x20], 0x03);
    assert_eq!(mmu.read_byte(0xFF55), 0xFF);
    // It is over: another HBlank moves nothing.
    mmu.hdma_hblank_transfer();
    assert_eq!(mmu.hdma.src, 0xC030);
    assert_eq!(mmu.gdma_cycles, 24);
}

#[test]
fn hblank_dma_can_be_cancelled() {
    let mut mmu = cgb();
    mmu.write_byte(0xFF51, 0xC0);
    mmu.write_byte(0xFF55, 0x85);
    assert!(mmu.hdma.active);
    // The address registers are locked meanwhile.
    mmu.write_byte(0xFF51, 0xD0);
    assert_eq!(mmu.hdma.src >> 8, 0xC0);
    mmu.write_byte(0xFF55, 0x00);
    assert!(!mmu.hdma.active);
    assert!(mmu.hdma.cancelled);
    assert_eq!(mmu.read_byte(0xFF55), 0x80);
}

#[test]
fn vram_dma_is_for_the_cgb_only() {
    let mut mmu = dmg();
    mmu.write_byte(0xC000, 0x01);
    mmu.write_byte(0xFF51, 0xC0);
    mmu.write_byte(0xFF55, 0x00);
    assert_eq!(mmu.ppu.vram[0][0], 0);
    assert!(!mmu.gdma_active());
}

#[test]
fn speed_switch_keeps_its_bits_apart() {
    let mut mmu = cgb();
    mmu.write_byte(0xFF4D, 0xFF);
    assert_eq!(mmu.read_byte(0xFF4D), 0x7F);
    mmu.key1 |= 0x80;
    mmu.write_byte(0xFF4D, 0x00);
    assert_eq!(mmu.read_byte(0xFF4D), 0xFE);
    mmu.write_byte(0xFF56, 0xFF);
    assert_eq!(mmu.read_byte(0xFF56), 0xC1);
}

#[test]
fn serial_output_is_taken() {
    let mut mmu = dmg();
    mmu.write_byte(0xFF01, b'P');
    mmu.write_byte(0xFF02, 0x81);
    let mut if_reg = 0;
    mmu.serial.step(0, 4096, false, &mut if_reg);
    assert_eq!(mmu.take_serial(), vec![b'P']);
    assert_eq!(mmu.take_serial(), Vec::<u8>::new());
    assert_eq!(mmu.read_byte(0xFF01), 0xFF);
}

#[test]
fn devices_tick_with_the_dots() {
    let mut mmu = dmg();
    let before = mmu.timer.div;
    mmu.tick(3);
    assert_eq!(mmu.timer.div, before.wrapping_add(12));
    mmu.reset_div();
    assert_eq!(mmu.timer.div, 0);

    let mut fast = cgb();
    fast.key1 |= 0x80;
    let before = fast.timer.div;
    fast.tick(3);
    assert_eq!(fast.timer.div, before.wrapping_add(6));
}

#[test]
fn writes_outside_the_bus_of_oam_dma_do_what_they_do_without() {
    let mut busy = cgb();
    let mut idle = cgb();
    busy.write_byte(0xFF46, 0xC0);
    busy.dma_step(9);
    assert!(busy.dma_cycles > 0);
    let writes = [
        (0xD000u16, 0x12u8),
        (0xE001, 0x34),
        (0xFF01, 0x56),
        (0xFF0F, 0x04),
        (0xFF4D, 0x01),
        (0xFF4F, 0x01),
        (0xFF51, 0xC0),
        (0xFF55, 0x00),
        (0xFF70, 0x05),
        (0xFF80, 0x78),
        (0xFFFF, 0x1F),
    ];
    for (addr, val) in writes {
        busy.write_byte(addr, val);
        idle.write_byte(addr, val);
        assert_eq!(busy.read_byte(addr), idle.read_byte(addr), "{addr:04X}");
    }
    assert_eq!(busy.ppu.vram, idle.ppu.vram);
    assert_eq!(busy.wram, idle.wram);
    assert_eq!(busy.gdma_cycles, idle.gdma_cycles);
    assert_eq!(busy.hdma, idle.hdma);
}

#[test]
fn general_dma_leaves_the_rest_of_vram() {
    let mut mmu = cgb();
    for bank in 0..2 {
        for offset in 0..0x2000 {
            mmu.ppu.vram[bank][offset] = 0x77;
        }
    }
    mmu.write_byte(0xFF4F, 1);
    mmu.write_byte(0xFF51, 0xC0);
    mmu.write_byte(0xFF53, 0x1F);
    mmu.write_byte(0xFF54, 0xF0);
    mmu.write_byte(0xFF55, 0x01);
    for offset in 0..0x2000 {
        let written = offset >= 0x1FF0 || offset < 0x10;
        assert_eq!(mmu.ppu.vram[1][offset], if written { 0 } else { 0x77 });
        assert_eq!(mmu.ppu.vram[0][offset], 0x77);
    }
}

#[test]
fn no_write_breaks_banks_speed_or_boot_mapping() {
    for cgb_mode in [false, true] {
        for val in [0x00u8, 0x07, 0x80, 0xFF] {
            let mut mmu: Box<Mmu<NullMachine>> = Box::new(Mmu::new_with_mode(cgb_mode));
            mmu.load_boot_rom(vec![0; 0x100]);
            mmu.key1 |= 0x80;
            for addr in 0x8000..=0xFFFFu16 {
                let (bank, key1, rp) = (mmu.wram_bank, mmu.key1, mmu.rp);
                mmu.write_byte(addr, val);
                mmu.gdma_step(u16::MAX);
                assert!(1 <= mmu.wram_bank && mmu.wram_bank <= 7);
                assert!(mmu.ppu.vram_bank <= 1);
                assert_eq!(mmu.key1 & 0x80, 0x80);
                assert_eq!(mmu.boot_mapped, addr < 0xFF50);
                if !cgb_mode {
                    assert_eq!((mmu.wram_bank, mmu.key1, mmu.rp), (bank, key1, rp));
                    assert_eq!(mmu.ppu.vram_bank, 0);
                }
            }
        }
    }
}

#[test]
fn a_full_stall_counter_matters_only_where_blocks_move() {
    let mut mmu = cgb();
    mmu.gdma_cycles = u32::MAX;
    mmu.write_byte(0xFF40, 0x91);
    mmu.write_byte(0xFF40, 0x00);
    mmu.hdma_hblank_transfer();
    assert_eq!(mmu.gdma_cycles, u32::MAX);
    // A general DMA sets the counter anew.
    mmu.write_byte(0xFF55, 0x00);
    assert_eq!(mmu.gdma_cycles, 8);
    mmu.gdma_cycles = u32::MAX - 8;
    mmu.write_byte(0xFF55, 0x80);
    assert_eq!(mmu.gdma_cycles, u32::MAX);
}
