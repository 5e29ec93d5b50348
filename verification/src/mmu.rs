//! The memory map: which device answers at which address, and the two DMA
//! units that move memory without the CPU.

use crate::devices::{
    ApuEngine, Cartridge, CartridgeEngine, InputPort, Machine, Ppu, PpuEngine, Timer, TimerEngine,
};
use crate::hardware::{CgbRevision, DmgRevision};
use crate::serial::{occurs, LinkPort, Serial, SerialEvent, SerialView};
use vstd::prelude::*;

verus! {

pub const WRAM_BANK_SIZE: usize = 0x1000;

/// Transfer mode for CGB DMA operations.
#[derive(Debug, Clone, Copy, PartialEq, Eq, Structural)]
pub enum DmaMode {
    /// General DMA (immediate)
    Gdma,
    /// HBlank DMA
    Hdma,
}

/// The CGB's VRAM DMA unit.
#[derive(Debug, Clone, Copy, PartialEq, Eq, Structural)]
pub struct HdmaState {
    /// 16-bit source pointer (upper 12 bits writable)
    pub src: u16,
    /// Destination in VRAM (0x8000 | (dst & 0x1FF0))
    pub dst: u16,
    /// Remaining 0x10-byte blocks (0-7F means 1-128 blocks)
    pub blocks: u8,
    /// Current DMA mode
    pub mode: DmaMode,
    /// HDMA active flag
    pub active: bool,
    /// Whether the previous transfer was explicitly cancelled (FF55 <- 0)
    pub cancelled: bool,
}

/// A VRAM address for DMA: within VRAM, and at the start of a block.
pub open spec fn vram_dest(addr: u16) -> u16 {
    (0x8000 + addr as int % 0x2000 / 16 * 16) as u16
}

/// The address behind `dst` in VRAM; the end of VRAM is followed by its start.
pub open spec fn next_dest(dst: u16) -> u16 {
    (0x8000 + (dst + 1) % 0x2000) as u16
}

/// The address behind `src`; the end of memory is followed by its start.
pub open spec fn next_src(src: u16) -> u16 {
    ((src + 1) % 0x1_0000) as u16
}

impl HdmaState {
    /// The unit is only ever active in HBlank mode, with blocks left to move.
    pub open spec fn wf(self) -> bool {
        &&& self.dst == vram_dest(self.dst)
        &&& self.active ==> self.mode == DmaMode::Hdma && 1 <= self.blocks <= 128
    }
}

/// Whether bit 7 of KEY1 says that the CPU runs at double speed.
pub open spec fn is_double_speed(key1: u8) -> bool {
    key1 & 0x80 != 0
}

/// Number of dots that an OAM DMA takes: 160 M-cycles.
pub open spec fn oam_dma_length(key1: u8) -> int {
    if is_double_speed(key1) {
        320
    } else {
        640
    }
}

/// Number of dots that OAM DMA spends on a byte: one M-cycle.
pub open spec fn dots_per_byte(key1: u8) -> int {
    if is_double_speed(key1) {
        2
    } else {
        4
    }
}

/// Number of M-cycles that the CPU stalls for a block of VRAM DMA.
pub open spec fn block_cost(key1: u8) -> int {
    if is_double_speed(key1) {
        16
    } else {
        8
    }
}

/// The divider after the boot ROM. Its phase differs between DMG revisions.
pub open spec fn boot_div(revision: DmgRevision) -> u16 {
    match revision {
        DmgRevision::Rev0 => 0x1830,
        DmgRevision::RevA | DmgRevision::RevB | DmgRevision::RevC => 0xABCC,
    }
}

pub struct Mmu<M: Machine> {
    pub wram: [[u8; WRAM_BANK_SIZE]; 8],
    pub wram_bank: usize,
    pub hram: [u8; 0x7F],
    pub cart: Option<Cartridge<M::Cart>>,
    pub boot_rom: Option<Vec<u8>>,
    pub boot_mapped: bool,
    pub if_reg: u8,
    pub ie_reg: u8,
    pub serial: Serial<M::Link>,
    pub ppu: Ppu<M::Ppu>,
    pub apu: M::Apu,
    pub timer: Timer<M::Timer>,
    pub input: M::Input,
    pub hdma: HdmaState,
    pub key1: u8,
    pub rp: u8,
    pub dma_cycles: u16,
    pub dma_source: u16,
    pub pending_dma: Option<u16>,
    pub pending_delay: u16,
    /// Remaining stall cycles after a General DMA
    pub gdma_cycles: u32,
    pub cgb_mode: bool,
    pub cgb_revision: CgbRevision,
    pub dmg_revision: DmgRevision,
    /// Last CPU program counter observed when the CPU performed a memory
    /// operation. This is set by the CPU before calling into the MMU so logs
    /// can attribute blocked accesses to the originating PC.
    pub last_cpu_pc: Option<u16>,
}

impl<M: Machine> Mmu<M> {
    pub open spec fn wf(self) -> bool {
        &&& self.banks_wf()
        &&& self.hdma.wf()
    }

    /// The banks in view exist, and the serial port is in order.
    pub open spec fn banks_wf(self) -> bool {
        &&& 1 <= self.wram_bank < 8
        &&& self.ppu.wf()
        &&& self.serial@.wf()
    }

    /// OAM DMA, if it runs, has no more to go than its length at the current
    /// speed.
    pub open spec fn dma_paced(self) -> bool {
        self.dma_cycles <= oam_dma_length(self.key1)
    }

    /// The bank and the offset of a WRAM address, echo included.
    pub open spec fn wram_cell(self, addr: u16) -> (int, int) {
        (
            if (addr - 0xC000) / 0x1000 % 2 == 0 {
                0
            } else {
                self.wram_bank as int
            },
            addr as int % 0x1000,
        )
    }

    /// The byte at a WRAM address.
    pub open spec fn wram_byte(self, addr: u16) -> u8 {
        let (bank, offset) = self.wram_cell(addr);
        self.wram[bank][offset]
    }

    /// `after` is the map with `val` at a WRAM address.
    pub open spec fn wram_stored(self, addr: u16, val: u8, after: Self) -> bool {
        let (bank, offset) = self.wram_cell(addr);
        &&& after == (Mmu { wram: after.wram, ..self })
        &&& after.wram@ == self.wram@.update(bank, after.wram[bank])
        &&& after.wram[bank]@ == self.wram[bank]@.update(offset, val)
    }

    /// `after` is the map with `val` at an HRAM address.
    pub open spec fn hram_stored(self, addr: u16, val: u8, after: Self) -> bool {
        &&& after == (Mmu { hram: after.hram, ..self })
        &&& after.hram@ == self.hram@.update(addr - 0xFF80, val)
    }

    /// `after` is the map with `val` at a VRAM address.
    pub open spec fn vram_stored(self, addr: u16, val: u8, after: Self) -> bool {
        &&& after == (Mmu { ppu: after.ppu, ..self })
        &&& self.ppu.vram_stored(addr - 0x8000, val, after.ppu)
    }

    /// Whether a running OAM DMA keeps the CPU away from `addr`. ROM, WRAM with
    /// its echo, I/O and HRAM remain on buses that the DMA does not use.
    pub open spec fn blocked_by_dma(self, addr: u16) -> bool {
        self.dma_cycles > 0 && (0x8000 <= addr < 0xC000 || 0xFE00 <= addr < 0xFF00)
    }

    /// Whether the boot ROM lies over `addr`. On DMG this covers
    /// 0x0000-0x00FF. On CGB the internal boot ROM also maps 0x0200-0x08FF
    /// while leaving the cartridge header at 0x0100-0x01FF visible.
    pub open spec fn boot_overlays(self, addr: u16) -> bool {
        self.boot_mapped && (addr < 0x100 || (self.cgb_mode && 0x200 <= addr < 0x900))
    }

    /// The byte of the boot ROM at `addr`.
    pub open spec fn boot_byte(self, addr: u16) -> u8 {
        match self.boot_rom {
            Some(rom) => if addr < rom@.len() {
                rom@[addr as int]
            } else {
                0xFF
            },
            None => 0xFF,
        }
    }

    /// What FF55 reads on a CGB.
    pub open spec fn hdma_status(self) -> u8 {
        if self.hdma.active {
            // Bit 7 is clear while the DMA is running.
            (if self.hdma.blocks == 0 {
                0
            } else {
                self.hdma.blocks - 1
            }) as u8 & 0x7F
        } else if self.hdma.cancelled {
            0x80
        } else {
            0xFF
        }
    }

    /// The registers of the memory map itself that only a CGB has.
    pub open spec fn cgb_register(self, addr: u16) -> u8 {
        if addr == 0xFF4D {
            (self.key1 & 0x81) | 0x7E
        } else if addr == 0xFF4F {
            self.ppu.vram_bank as u8
        } else if addr == 0xFF51 {
            (self.hdma.src >> 8u16) as u8
        } else if addr == 0xFF52 {
            (self.hdma.src & 0x00F0) as u8
        } else if addr == 0xFF53 {
            ((self.hdma.dst & 0x1F00) >> 8u16) as u8
        } else if addr == 0xFF54 {
            (self.hdma.dst & 0x00F0) as u8
        } else if addr == 0xFF55 {
            self.hdma_status()
        } else if addr == 0xFF56 {
            self.rp | 0xC0
        } else {
            self.wram_bank as u8
        }
    }

    /// A read of `addr` may give `val` and leave `after`. `allow_dma` is for the
    /// DMA units, which a running OAM DMA does not keep away.
    pub open spec fn reads(self, addr: u16, allow_dma: bool, after: Self, val: u8) -> bool {
        if !allow_dma && self.blocked_by_dma(addr) {
            after == self && val == 0xFF
        } else if self.boot_overlays(addr) {
            after == self && val == self.boot_byte(addr)
        } else if addr < 0x8000 || 0xA000 <= addr < 0xC000 {
            match self.cart {
                None => after == self && val == 0xFF,
                Some(cart) => {
                    &&& after.cart is Some
                    &&& after == (Mmu { cart: after.cart, ..self })
                    &&& M::Cart::reads(cart, addr, after.cart->0, val)
                },
            }
        } else if addr < 0xA000 {
            &&& after == self
            &&& val == if M::Ppu::vram_open(self.ppu) {
                self.ppu.vram_byte(addr - 0x8000)
            } else {
                0xFF
            }
        } else if addr < 0xFE00 {
            after == self && val == self.wram_byte(addr)
        } else if addr < 0xFEA0 {
            &&& after == self
            &&& val == if M::Ppu::oam_open(self.ppu) {
                self.ppu.oam[addr - 0xFE00]
            } else {
                0xFF
            }
        } else if addr < 0xFF00 {
            after == self && val == 0xFF
        } else if addr == 0xFF00 {
            after == (Mmu { input: after.input, ..self }) && self.input.reads(after.input, val)
        } else if addr == 0xFF01 || addr == 0xFF02 {
            after == self && val == self.serial@.read(addr)
        } else if 0xFF04 <= addr <= 0xFF07 {
            after == (Mmu { timer: after.timer, ..self }) && M::Timer::reads(
                self.timer,
                addr,
                after.timer,
                val,
            )
        } else if addr == 0xFF0F {
            after == self && val == self.if_reg
        } else if 0xFF10 <= addr <= 0xFF3F {
            after == (Mmu { apu: after.apu, ..self }) && self.apu.reads(addr, after.apu, val)
        } else if addr == 0xFF46 {
            after == self && val == self.ppu.dma
        } else if 0xFF40 <= addr <= 0xFF4B || 0xFF68 <= addr <= 0xFF6B {
            &&& after == (Mmu { ppu: after.ppu, ..self })
            &&& after.ppu.vram_bank == self.ppu.vram_bank
            &&& M::Ppu::reads(self.ppu, addr, after.ppu, val)
        } else if addr == 0xFF4D || addr == 0xFF4F || 0xFF51 <= addr <= 0xFF56 || addr == 0xFF70 {
            &&& after == self
            &&& val == if self.cgb_mode {
                self.cgb_register(addr)
            } else {
                0xFF
            }
        } else if addr == 0xFF76 || addr == 0xFF77 {
            if self.cgb_mode {
                after == (Mmu { apu: after.apu, ..self }) && self.apu.reads_pcm(
                    addr,
                    after.apu,
                    val,
                )
            } else {
                after == self && val == 0xFF
            }
        } else if 0xFF80 <= addr <= 0xFFFE {
            after == self && val == self.hram[addr - 0xFF80]
        } else if addr == 0xFFFF {
            after == self && val == self.ie_reg
        } else {
            after == self && val == 0xFF
        }
    }

    /// The address that DMA reads for `addr`. On DMG the last pages are an echo
    /// of WRAM.
    pub open spec fn dma_addr(self, addr: u16) -> u16 {
        if !self.cgb_mode && 0xFE00 <= addr <= 0xFF9F {
            (addr - 0x2000) as u16
        } else {
            addr
        }
    }

    /// A read of `addr` by a DMA unit may give `val` and leave `after`.
    pub open spec fn dma_reads(self, addr: u16, after: Self, val: u8) -> bool {
        self.reads(self.dma_addr(addr), true, after, val)
    }

    fn read_byte_inner(&mut self, addr: u16, allow_dma: bool) -> (val: u8)
        requires
            old(self).banks_wf(),
        ensures
            final(self).banks_wf(),
            final(self).hdma == old(self).hdma,
            old(self).reads(addr, allow_dma, *final(self), val),
    {
        if !allow_dma && self.dma_cycles > 0 {
            match addr {
                // ROM, WRAM/Echo and all I/O/HRAM accesses are allowed during
                // the transfer. These regions remain readable/writable because
                // they reside on buses that stay available even while OAM DMA
                // monopolizes the VRAM/OAM bus.
                0x0000..=0x7FFF | 0xC000..=0xFDFF | 0xFF00..=0xFFFF => {},
                _ => {
                    return 0xFF;
                },
            }
        }
        if self.boot_mapped && (addr <= 0x00FF || (self.cgb_mode && 0x0200 <= addr && addr
            <= 0x08FF)) {
            return match &self.boot_rom {
                Some(rom) => {
                    if (addr as usize) < rom.len() {
                        rom[addr as usize]
                    } else {
                        0xFF
                    }
                },
                None => 0xFF,
            };
        }
        match addr {
            0x0000..=0x7FFF | 0xA000..=0xBFFF => match self.cart.as_mut() {
                Some(cart) => M::Cart::read(cart, addr),
                None => 0xFF,
            },
            0x8000..=0x9FFF => {
                if M::Ppu::vram_accessible(&self.ppu) {
                    self.ppu.vram[self.ppu.vram_bank][(addr - 0x8000) as usize]
                } else {
                    0xFF
                }
            },
            0xC000..=0xCFFF => self.wram[0][(addr - 0xC000) as usize],
            0xD000..=0xDFFF => self.wram[self.wram_bank][(addr - 0xD000) as usize],
            0xE000..=0xEFFF => self.wram[0][(addr - 0xE000) as usize],
            0xF000..=0xFDFF => self.wram[self.wram_bank][(addr - 0xF000) as usize],
            0xFE00..=0xFE9F => {
                if M::Ppu::oam_accessible(&self.ppu) {
                    self.ppu.oam[(addr - 0xFE00) as usize]
                } else {
                    0xFF
                }
            },
            0xFEA0..=0xFEFF => 0xFF,
            0xFF00 => self.input.read(),
            0xFF01 | 0xFF02 => self.serial.read(addr),
            0xFF04..=0xFF07 => M::Timer::read(&mut self.timer, addr),
            0xFF0F => self.if_reg,
            0xFF10..=0xFF3F => self.apu.read_reg(addr),
            0xFF46 => self.ppu.dma,
            0xFF40..=0xFF4B | 0xFF68..=0xFF6B => M::Ppu::read_reg(&mut self.ppu, addr),
            0xFF51 => {
                if self.cgb_mode {
                    (self.hdma.src >> 8) as u8
                } else {
                    0xFF
                }
            },
            0xFF52 => {
                if self.cgb_mode {
                    (self.hdma.src & 0x00F0) as u8
                } else {
                    0xFF
                }
            },
            0xFF53 => {
                if self.cgb_mode {
                    ((self.hdma.dst & 0x1F00) >> 8) as u8
                } else {
                    0xFF
                }
            },
            0xFF54 => {
                if self.cgb_mode {
                    (self.hdma.dst & 0x00F0) as u8
                } else {
                    0xFF
                }
            },
            0xFF55 => {
                if !self.cgb_mode {
                    0xFF
                } else if self.hdma.active {
                    // Busy flag (bit 7) is cleared while the DMA is running.
                    self.hdma.blocks.saturating_sub(1) & 0x7F
                } else if self.hdma.cancelled {
                    // After cancellation the hardware reports bit 7 set with the
                    // lower bits cleared.
                    0x80
                } else {
                    // Hardware returns 0xFF once HDMA/GDMA has completed or no
                    // transfer is pending.
                    0xFF
                }
            },
            0xFF4D => {
                if self.cgb_mode {
                    (self.key1 & 0x81) | 0x7E
                } else {
                    0xFF
                }
            },
            0xFF56 => {
                if self.cgb_mode {
                    self.rp | 0xC0
                } else {
                    0xFF
                }
            },
            0xFF4F => {
                if self.cgb_mode {
                    self.ppu.vram_bank as u8
                } else {
                    0xFF
                }
            },
            0xFF70 => {
                if self.cgb_mode {
                    self.wram_bank as u8
                } else {
                    0xFF
                }
            },
            0xFF76 | 0xFF77 => {
                if self.cgb_mode {
                    self.apu.read_pcm(addr)
                } else {
                    0xFF
                }
            },
            0xFF80..=0xFFFE => self.hram[(addr - 0xFF80) as usize],
            0xFFFF => self.ie_reg,
            _ => 0xFF,
        }
    }

    /// Read a byte as the CPU does.
    pub fn read_byte(&mut self, addr: u16) -> (val: u8)
        requires
            old(self).banks_wf(),
        ensures
            final(self).banks_wf(),
            final(self).hdma == old(self).hdma,
            old(self).reads(addr, false, *final(self), val),
    {
        self.read_byte_inner(addr, false)
    }

    fn dma_read_byte(&mut self, addr: u16) -> (val: u8)
        requires
            old(self).banks_wf(),
        ensures
            final(self).banks_wf(),
            final(self).hdma == old(self).hdma,
            old(self).dma_reads(addr, *final(self), val),
    {
        let addr: u16 = if !self.cgb_mode && 0xFE00 <= addr && addr <= 0xFF9F {
            addr - 0x2000
        } else {
            addr
        };
        self.read_byte_inner(addr, true)
    }

    /// `after` is the map once VRAM DMA has put `val`, read from `src`, at
    /// `dst`. In HBlank mode (`live`) the address registers follow at once.
    pub open spec fn byte_moved(self, src: u16, dst: u16, val: u8, live: bool, after: Self) -> bool {
        &&& self.ppu.vram_stored(dst - 0x8000, val, after.ppu)
        &&& after == (Mmu {
            ppu: after.ppu,
            hdma: if live {
                HdmaState { src: next_src(src), dst: next_dest(dst), ..self.hdma }
            } else {
                self.hdma
            },
            ..self
        })
    }

    /// VRAM DMA of the byte at `src` to `dst` may leave `after`.
    pub open spec fn moves_byte(self, src: u16, dst: u16, live: bool, after: Self) -> bool {
        exists|read: Self, val: u8| #[trigger]
            self.dma_reads(src, read, val) && read.byte_moved(src, dst, val, live, after)
    }

    /// VRAM DMA of `n` bytes from `src` on to `dst` on may leave `after`.
    pub open spec fn moves(self, src: u16, dst: u16, n: nat, live: bool, after: Self) -> bool
        decreases n,
    {
        if n == 0 {
            after == self
        } else {
            exists|before: Self|
                self.moves(src, dst, (n - 1) as nat, live, before) && #[trigger] before.moves_byte(
                    src_at(src, n - 1),
                    dst_at(dst, n - 1),
                    live,
                    after,
                )
        }
    }

    /// A general DMA of `blocks` blocks may leave `after`.
    pub open spec fn general_dma(self, blocks: int, after: Self) -> bool {
        let src = self.hdma.src;
        let dst = vram_dest(self.hdma.dst);
        exists|moved: Self|
            {
                &&& #[trigger] (Mmu { last_cpu_pc: None, ..self }).moves(
                    src,
                    dst,
                    (16 * blocks) as nat,
                    false,
                    moved,
                )
                &&& after == (Mmu {
                    hdma: HdmaState {
                        src: src_at(src, 16 * blocks),
                        dst: vram_dest(dst_at(dst, 16 * blocks)),
                        blocks: 0,
                        active: false,
                        cancelled: false,
                        ..moved.hdma
                    },
                    gdma_cycles: (blocks * block_cost(moved.key1)) as u32,
                    ..moved
                })
            }
    }

    /// A block of HBlank DMA may leave `after`.
    pub open spec fn hblank_block(self, after: Self) -> bool {
        let src = self.hdma.src;
        let dst = vram_dest(self.hdma.dst);
        exists|moved: Self|
            {
                &&& #[trigger] (Mmu {
                    hdma: HdmaState { dst, ..self.hdma },
                    last_cpu_pc: None,
                    ..self
                }).moves(src, dst, 16, true, moved)
                &&& after == (Mmu {
                    hdma: HdmaState {
                        dst: vram_dest(moved.hdma.dst),
                        blocks: if moved.hdma.blocks == 0 {
                            0
                        } else {
                            (moved.hdma.blocks - 1) as u8
                        },
                        active: moved.hdma.active && moved.hdma.blocks > 1,
                        cancelled: moved.hdma.cancelled && moved.hdma.blocks > 1,
                        ..moved.hdma
                    },
                    gdma_cycles: (moved.gdma_cycles + block_cost(moved.key1)) as u32,
                    ..moved
                })
            }
    }

    /// `n` blocks of HBlank DMA may leave `after`.
    pub open spec fn hblank_blocks(self, n: nat, after: Self) -> bool
        decreases n,
    {
        if n == 0 {
            after == self
        } else {
            exists|before: Self|
                self.hblank_blocks((n - 1) as nat, before) && #[trigger] before.hblank_block(after)
        }
    }

    /// Whether an HBlank DMA has blocks left to move.
    pub open spec fn hdma_runs(self) -> bool {
        self.hdma.active && self.hdma.mode == DmaMode::Hdma
    }

    /// A horizontal blank may leave `after`.
    pub open spec fn hblank_comes(self, after: Self) -> bool {
        if self.hdma_runs() {
            self.hblank_block(after)
        } else {
            after == self
        }
    }

    /// The counter of stalled M-cycles has room for `blocks` blocks more.
    pub open spec fn stall_fits(self, blocks: int) -> bool {
        self.gdma_cycles + blocks * block_cost(self.key1) <= u32::MAX
    }

    /// An HBlank DMA that moves all its blocks at once may leave `after`.
    pub open spec fn hdma_finishes(self, after: Self) -> bool {
        if self.hdma_runs() {
            self.hblank_blocks(self.hdma.blocks as nat, after)
        } else {
            after == self
        }
    }

    /// Write to VRAM bypassing mode checks (used by DMA transfers)
    fn vram_dma_write(&mut self, addr: u16, val: u8)
        requires
            old(self).ppu.wf(),
            0x8000 <= addr < 0xA000,
        ensures
            old(self).vram_stored(addr, val, *final(self)),
    {
        self.ppu.vram[self.ppu.vram_bank][(addr - 0x8000) as usize] = val;
    }

    #[inline]
    fn sanitize_vram_dma_dest(addr: u16) -> (dest: u16)
        ensures
            dest == vram_dest(addr),
            dest == vram_dest(dest),
    {
        proof {
            lemma_vram_dest(addr);
        }
        0x8000 | (addr & 0x1FF0)
    }

    /// Perform a General DMA transfer immediately, consuming CPU cycles.
    fn start_gdma(&mut self, blocks: u8)
        requires
            old(self).wf(),
            1 <= blocks <= 128,
        ensures
            final(self).wf(),
            old(self).general_dma(blocks as int, *final(self)),
    {
        let total_bytes: usize = blocks as usize * 0x10;
        let mut src: u16 = self.hdma.src;
        let mut dst: u16 = Self::sanitize_vram_dma_dest(self.hdma.dst);
        let ghost first_src = src;
        let ghost first_dst = dst;

        // Clear last_cpu_pc so these DMA-driven reads/writes are not
        // misattributed to the last executing CPU instruction in logs.
        self.last_cpu_pc = None;
        let ghost start = *self;
        let mut i: usize = 0;
        while i < total_bytes
            invariant
                i <= total_bytes,
                self.wf(),
                start == (Mmu { last_cpu_pc: None, ..*old(self) }),
                first_src == old(self).hdma.src,
                first_dst == vram_dest(old(self).hdma.dst),
                0x8000 <= first_dst < 0xA000,
                src == src_at(first_src, i as int),
                dst == dst_at(first_dst, i as int),
                start.moves(first_src, first_dst, i as nat, false, *self),
            decreases total_bytes - i,
        {
            let ghost before = *self;
            // Read source using the DMA-aware reader so this GDMA operation
            // can proceed even if an OAM DMA (`dma_cycles`) is active.
            let byte: u8 = self.dma_read_byte(src);
            let ghost read = *self;
            self.vram_dma_write(dst, byte);
            proof {
                assert(read.byte_moved(src, dst, byte, false, *self));
                let n = (i + 1) as nat;
                assert(start.moves(first_src, first_dst, (n - 1) as nat, false, before));
                assert(before.moves_byte(
                    src_at(first_src, n - 1),
                    dst_at(first_dst, n - 1),
                    false,
                    *self,
                ));
                assert(start.moves(first_src, first_dst, n, false, *self));
                lemma_next_addresses(first_src, first_dst, i as int);
            }
            src = src.wrapping_add(1);
            dst = Self::next_vram_dest(dst);
            i = i + 1;
        }
        let ghost moved = *self;
        self.hdma.src = src;
        self.hdma.dst = Self::sanitize_vram_dma_dest(dst);
        self.hdma.active = false;
        self.hdma.blocks = 0;
        self.hdma.cancelled = false;
        let cost: u32 = self.hdma_block_cycle_cost();
        proof {
            assert(blocks * cost <= 128 * 16) by (nonlinear_arith)
                requires
                    blocks <= 128,
                    cost <= 16,
            ;
        }
        self.gdma_cycles = blocks as u32 * cost;
        proof {
            assert(start.moves(first_src, first_dst, (16 * blocks) as nat, false, moved));
        }
    }

    fn next_vram_dest(dst: u16) -> (next: u16)
        ensures
            next == next_dest(dst),
    {
        let sum: u16 = dst.wrapping_add(1);
        proof {
            assert(0x8000u16 | (sum & 0x1FFF) == 0x8000 + sum % 0x2000) by (bit_vector);
            assert(sum as int % 0x2000 == (dst + 1) % 0x2000);
        }
        0x8000 | (sum & 0x1FFF)
    }

    /// Execute a single 0x10-byte HDMA burst during H-Blank.
    pub fn hdma_hblank_transfer(&mut self)
        requires
            old(self).wf(),
            old(self).hdma_runs() ==> old(self).stall_fits(1),
        ensures
            final(self).wf(),
            old(self).hblank_comes(*final(self)),
    {
        if !(self.hdma.active && self.hdma.mode == DmaMode::Hdma) {
            return;
        }
        self.perform_hdma_block();
    }

    fn perform_hdma_block(&mut self)
        requires
            old(self).wf(),
            old(self).hdma_runs(),
            old(self).stall_fits(1),
        ensures
            final(self).wf(),
            old(self).hblank_block(*final(self)),
            final(self).hdma.blocks == old(self).hdma.blocks - 1,
            final(self).hdma.mode == old(self).hdma.mode,
            final(self).hdma.active == (old(self).hdma.blocks > 1),
            final(self).gdma_cycles == old(self).gdma_cycles + block_cost(old(self).key1),
            final(self).key1 == old(self).key1,
    {
        self.hdma.dst = Self::sanitize_vram_dma_dest(self.hdma.dst);
        // Clear last_cpu_pc so HDMA transfers don't get logged with the
        // previously executing CPU PC.
        self.last_cpu_pc = None;
        let ghost first_src = self.hdma.src;
        let ghost first_dst = self.hdma.dst;
        let ghost start = *self;
        let mut i: usize = 0;
        while i < 0x10
            invariant
                i <= 0x10,
                self.banks_wf(),
                self.hdma == (HdmaState {
                    src: src_at(first_src, i as int),
                    dst: dst_at(first_dst, i as int),
                    ..start.hdma
                }),
                self.gdma_cycles == start.gdma_cycles,
                self.key1 == start.key1,
                0x8000 <= first_dst < 0xA000,
                start.moves(first_src, first_dst, i as nat, true, *self),
            decreases 0x10 - i,
        {
            let ghost before = *self;
            // HDMA source reads should also bypass the DMA blocking checks
            // so HDMA can transfer data even if an OAM DMA is currently
            // active.
            let src: u16 = self.hdma.src;
            let dst: u16 = self.hdma.dst;
            let byte: u8 = self.dma_read_byte(src);
            let ghost read = *self;
            self.vram_dma_write(dst, byte);
            self.hdma.src = src.wrapping_add(1);
            self.hdma.dst = Self::next_vram_dest(dst);
            proof {
                lemma_reads_keep_dma(before, before.dma_addr(src), read, byte);
                assert(read.byte_moved(src, dst, byte, true, *self));
                let n = (i + 1) as nat;
                assert(start.moves(first_src, first_dst, (n - 1) as nat, true, before));
                assert(before.moves_byte(
                    src_at(first_src, n - 1),
                    dst_at(first_dst, n - 1),
                    true,
                    *self,
                ));
                assert(start.moves(first_src, first_dst, n, true, *self));
                lemma_next_addresses(first_src, first_dst, i as int);
            }
            i = i + 1;
        }
        let ghost moved = *self;
        self.hdma.blocks = self.hdma.blocks.saturating_sub(1);
        if self.hdma.blocks == 0 {
            self.hdma.active = false;
            self.hdma.cancelled = false;
        }
        self.hdma.dst = Self::sanitize_vram_dma_dest(self.hdma.dst);
        self.gdma_cycles = self.gdma_cycles + self.hdma_block_cycle_cost();
        proof {
            assert(start.moves(first_src, first_dst, 16, true, moved));
        }
    }

    fn hdma_block_cycle_cost(&self) -> (cost: u32)
        ensures
            cost == block_cost(self.key1),
    {
        if self.key1 & 0x80 != 0 {
            16
        } else {
            8
        }
    }

    /// Move what is left of an HBlank DMA at once.
    fn complete_active_hdma(&mut self)
        requires
            old(self).wf(),
            old(self).hdma_runs() ==> old(self).stall_fits(old(self).hdma.blocks as int),
        ensures
            final(self).wf(),
            old(self).hdma_finishes(*final(self)),
    {
        let ghost mut moved: nat = 0;
        while self.hdma.active && self.hdma.mode == DmaMode::Hdma
            invariant
                self.wf(),
                self.hdma_runs() ==> self.stall_fits(self.hdma.blocks as int),
                self.hdma.mode == old(self).hdma.mode,
                old(self).hdma_runs() ==> {
                    &&& moved <= old(self).hdma.blocks <= 128
                    &&& self.hdma.blocks == old(self).hdma.blocks - moved
                    &&& self.hdma.active == (self.hdma.blocks > 0)
                    &&& old(self).hblank_blocks(moved, *self)
                },
                !old(self).hdma_runs() ==> *self == *old(self),
            decreases self.hdma.blocks,
        {
            let ghost before = *self;
            proof {
                let blocks = self.hdma.blocks as int;
                let cost = block_cost(self.key1);
                assert(blocks * cost == (blocks - 1) * cost + cost && (blocks - 1) * cost >= 0)
                    by (nonlinear_arith)
                    requires
                        blocks >= 1,
                        cost > 0,
                ;
            }
            self.perform_hdma_block();
            proof {
                assert(old(self).hblank_blocks(((moved + 1) - 1) as nat, before));
                moved = moved + 1;
                assert(old(self).hblank_blocks(moved, *self));
            }
        }
    }
}

impl<M: Machine> Mmu<M> {
    /// A write of `val` to FF51-FF54 leaves the VRAM DMA unit like this. The
    /// addresses cannot be changed while the unit is active.
    pub open spec fn hdma_addressed(self, addr: u16, val: u8) -> HdmaState {
        let hdma = self.hdma;
        if !self.cgb_mode || hdma.active {
            hdma
        } else if addr == 0xFF51 {
            HdmaState { src: (val * 0x100 + hdma.src as int % 0x100) as u16, ..hdma }
        } else if addr == 0xFF52 {
            HdmaState {
                src: (hdma.src as int / 0x100 * 0x100 + val as int / 16 * 16) as u16,
                ..hdma
            }
        } else if addr == 0xFF53 {
            HdmaState {
                dst: (0x8000 + val as int % 0x20 * 0x100 + hdma.dst as int % 0x100 / 16
                    * 16) as u16,
                ..hdma
            }
        } else {
            HdmaState {
                dst: (0x8000 + hdma.dst as int % 0x2000 / 0x100 * 0x100 + val as int / 16
                    * 16) as u16,
                ..hdma
            }
        }
    }

    /// A write of `val` to FF55 on a CGB may leave `after`. With bit 7 clear it
    /// stops an active HBlank DMA, or else moves all blocks at once; with bit 7
    /// set it starts an HBlank DMA, whose first block moves right away while
    /// the screen is off or in horizontal blank.
    pub open spec fn hdma_controlled(self, val: u8, after: Self) -> bool {
        let blocks = (val & 0x7F) + 1;
        if val & 0x80 == 0 {
            if self.hdma.active {
                after == (Mmu {
                    hdma: HdmaState { active: false, blocks: 0, cancelled: true, ..self.hdma },
                    ..self
                })
            } else {
                self.general_dma(blocks, after)
            }
        } else {
            let started = Mmu {
                hdma: HdmaState {
                    mode: DmaMode::Hdma,
                    blocks: blocks as u8,
                    active: true,
                    cancelled: false,
                    ..self.hdma
                },
                ..self
            };
            if !M::Ppu::lcd_on(self.ppu) || M::Ppu::hblank(self.ppu) {
                started.hblank_block(after)
            } else {
                after == started
            }
        }
    }

    /// A write of `val` to LCDC may leave `after`. Turning the screen off makes
    /// an HBlank DMA move all that is left.
    pub open spec fn lcd_controlled(self, val: u8, after: Self) -> bool {
        exists|ppu: Ppu<M::Ppu>| #[trigger]
            M::Ppu::writes(self.ppu, 0xFF40, val, ppu) && ppu.vram_bank == self.ppu.vram_bank && {
                let written = Mmu { ppu, ..self };
                if M::Ppu::lcd_on(self.ppu) && !M::Ppu::lcd_on(ppu) {
                    written.hdma_finishes(after)
                } else {
                    after == written
                }
            }
    }

    /// A reset of the divider may leave `after`. The sound unit sees it too.
    pub open spec fn div_resets(self, after: Self) -> bool {
        &&& after == (Mmu { timer: after.timer, if_reg: after.if_reg, apu: after.apu, ..self })
        &&& M::Timer::resets_div(self.timer, self.if_reg, after.timer, after.if_reg)
        &&& self.apu.sees_div_reset(self.timer.div, is_double_speed(self.key1), after.apu)
    }

    /// The registers of the memory map itself after a write of `val` to one
    /// that only a CGB has.
    pub open spec fn cgb_register_written(self, addr: u16, val: u8) -> Self {
        if addr == 0xFF4D {
            Mmu { key1: (self.key1 & 0x80) | (val & 0x01), ..self }
        } else if addr == 0xFF4F {
            Mmu { ppu: Ppu { vram_bank: (val & 0x01) as usize, ..self.ppu }, ..self }
        } else if addr == 0xFF56 {
            Mmu { rp: val & 0xC1, ..self }
        } else {
            Mmu {
                wram_bank: if val & 0x07 == 0 {
                    1
                } else {
                    (val & 0x07) as usize
                },
                ..self
            }
        }
    }

    /// A write of `val` to `addr` may leave `after`.
    pub open spec fn writes(self, addr: u16, val: u8, after: Self) -> bool {
        if self.blocked_by_dma(addr) {
            after == self
        } else if addr < 0x8000 || 0xA000 <= addr < 0xC000 {
            match self.cart {
                None => after == self,
                Some(cart) => {
                    &&& after.cart is Some
                    &&& after == (Mmu { cart: after.cart, ..self })
                    &&& M::Cart::writes(cart, addr, val, after.cart->0)
                },
            }
        } else if addr < 0xA000 {
            if M::Ppu::vram_open(self.ppu) {
                self.vram_stored(addr, val, after)
            } else {
                after == self
            }
        } else if addr < 0xFE00 {
            self.wram_stored(addr, val, after)
        } else if addr < 0xFEA0 {
            if M::Ppu::oam_open(self.ppu) {
                after == (Mmu { ppu: after.ppu, ..self }) && self.ppu.oam_stored(
                    addr - 0xFE00,
                    val,
                    after.ppu,
                )
            } else {
                after == self
            }
        } else if addr < 0xFF00 {
            after == self
        } else if addr == 0xFF00 {
            after == (Mmu { input: after.input, ..self }) && self.input.writes(val, after.input)
        } else if addr == 0xFF01 || addr == 0xFF02 {
            &&& after == (Mmu { serial: after.serial, ..self })
            &&& after.serial@ == self.serial@.written(addr, val)
            &&& after.serial.port() == self.serial.port()
        } else if addr == 0xFF04 {
            self.div_resets(after)
        } else if 0xFF05 <= addr <= 0xFF07 {
            after == (Mmu { timer: after.timer, if_reg: after.if_reg, ..self })
                && M::Timer::writes(
                self.timer,
                addr,
                val,
                self.if_reg,
                after.timer,
                after.if_reg,
            )
        } else if addr == 0xFF0F {
            after == (Mmu { if_reg: (val & 0x1F) | (self.if_reg & 0xE0), ..self })
        } else if 0xFF10 <= addr <= 0xFF3F {
            after == (Mmu { apu: after.apu, ..self }) && self.apu.writes(addr, val, after.apu)
        } else if addr == 0xFF40 {
            self.lcd_controlled(val, after)
        } else if addr == 0xFF46 {
            after == (Mmu {
                ppu: Ppu { dma: val, ..self.ppu },
                pending_dma: Some((val * 0x100) as u16),
                pending_delay: if is_double_speed(self.key1) {
                    4
                } else {
                    8
                },
                ..self
            })
        } else if 0xFF41 <= addr <= 0xFF4B || 0xFF68 <= addr <= 0xFF6B {
            &&& after == (Mmu { ppu: after.ppu, ..self })
            &&& after.ppu.vram_bank == self.ppu.vram_bank
            &&& M::Ppu::writes(self.ppu, addr, val, after.ppu)
        } else if addr == 0xFF4D || addr == 0xFF4F || addr == 0xFF56 || addr == 0xFF70 {
            after == if self.cgb_mode {
                self.cgb_register_written(addr, val)
            } else {
                self
            }
        } else if addr == 0xFF50 {
            after == (Mmu { boot_mapped: false, ..self })
        } else if 0xFF51 <= addr <= 0xFF54 {
            after == (Mmu { hdma: self.hdma_addressed(addr, val), ..self })
        } else if addr == 0xFF55 {
            if self.cgb_mode {
                self.hdma_controlled(val, after)
            } else {
                after == self
            }
        } else if 0xFF80 <= addr <= 0xFFFE {
            self.hram_stored(addr, val, after)
        } else if addr == 0xFFFF {
            after == (Mmu { ie_reg: val, ..self })
        } else {
            after == self
        }
    }

    /// The counter of stalled M-cycles has room for the blocks of HBlank DMA
    /// that a write of `val` to `addr` may move.
    pub open spec fn write_stall_fits(self, addr: u16, val: u8) -> bool {
        if addr == 0xFF40 {
            M::Ppu::lcd_on(self.ppu) && self.hdma_runs() ==> self.stall_fits(
                self.hdma.blocks as int,
            )
        } else if addr == 0xFF55 {
            self.cgb_mode && val & 0x80 != 0 && (!M::Ppu::lcd_on(self.ppu) || M::Ppu::hblank(
                self.ppu,
            )) ==> self.stall_fits(1)
        } else {
            true
        }
    }

    /// Write a byte as the CPU does.
    pub fn write_byte(&mut self, addr: u16, val: u8)
        requires
            old(self).wf(),
            old(self).write_stall_fits(addr, val),
        ensures
            final(self).wf(),
            old(self).writes(addr, val, *final(self)),
    {
        if self.dma_cycles > 0 {
            match addr {
                0x0000..=0x7FFF | 0xC000..=0xFDFF | 0xFF00..=0xFFFF => {},
                _ => {
                    return;
                },
            }
        }
        match addr {
            0x8000..=0x9FFF => {
                if M::Ppu::vram_accessible(&self.ppu) {
                    self.ppu.vram[self.ppu.vram_bank][(addr - 0x8000) as usize] = val;
                }
            },
            0x0000..=0x7FFF | 0xA000..=0xBFFF => {
                match self.cart.as_mut() {
                    Some(cart) => {
                        M::Cart::write(cart, addr, val);
                    },
                    None => {},
                }
            },
            0xC000..=0xCFFF => {
                self.wram[0][(addr - 0xC000) as usize] = val;
            },
            0xD000..=0xDFFF => {
                self.wram[self.wram_bank][(addr - 0xD000) as usize] = val;
            },
            0xE000..=0xEFFF => {
                self.wram[0][(addr - 0xE000) as usize] = val;
            },
            0xF000..=0xFDFF => {
                self.wram[self.wram_bank][(addr - 0xF000) as usize] = val;
            },
            0xFE00..=0xFE9F => {
                if M::Ppu::oam_accessible(&self.ppu) {
                    self.ppu.oam[(addr - 0xFE00) as usize] = val;
                }
            },
            0xFEA0..=0xFEFF => {},
            0xFF00 => {
                self.input.write(val);
            },
            0xFF01 | 0xFF02 => {
                self.serial.write(addr, val);
            },
            0xFF04 => {
                self.reset_div();
            },
            0xFF05..=0xFF07 => {
                M::Timer::write(&mut self.timer, addr, val, &mut self.if_reg);
            },
            0xFF0F => {
                self.if_reg = (val & 0x1F) | (self.if_reg & 0xE0);
            },
            0xFF10..=0xFF3F => {
                self.apu.write_reg(addr, val);
            },
            0xFF40 => {
                self.write_lcdc(val);
            },
            0xFF46 => {
                self.ppu.dma = val;
                self.pending_dma = Some(val as u16 * 0x100);
                // DMA starts after two M-cycles. `pending_delay` is tracked
                // in T-cycles (dots). In double-speed mode an M-cycle is 2
                // T-cycles instead of 4, so halve the delay there.
                self.pending_delay =
                if self.key1 & 0x80 != 0 {
                    4
                } else {
                    8
                };
            },
            0xFF41..=0xFF4B | 0xFF68..=0xFF6B => {
                M::Ppu::write_reg(&mut self.ppu, addr, val);
            },
            0xFF51..=0xFF54 => {
                self.write_hdma_address(addr, val);
            },
            0xFF55 => {
                if self.cgb_mode {
                    self.write_hdma_control(val);
                }
            },
            0xFF4D => {
                if self.cgb_mode {
                    self.key1 = (self.key1 & 0x80) | (val & 0x01);
                }
            },
            0xFF56 => {
                if self.cgb_mode {
                    self.rp = val & 0xC1;
                }
            },
            0xFF4F => {
                if self.cgb_mode {
                    proof {
                        crate::bits::lemma_bits_of(val);
                    }
                    self.ppu.vram_bank = (val & 0x01) as usize;
                }
            },
            0xFF50 => {
                self.boot_mapped = false;
            },
            0xFF70 => {
                if self.cgb_mode {
                    proof {
                        crate::bits::lemma_bits_of(val);
                    }
                    let bank: usize = (val & 0x07) as usize;
                    self.wram_bank =
                    if bank == 0 {
                        1
                    } else {
                        bank
                    };
                }
            },
            0xFF80..=0xFFFE => {
                self.hram[(addr - 0xFF80) as usize] = val;
            },
            0xFFFF => {
                self.ie_reg = val;
            },
            _ => {},
        }
    }

    fn write_lcdc(&mut self, val: u8)
        requires
            old(self).wf(),
            old(self).write_stall_fits(0xFF40, val),
        ensures
            final(self).wf(),
            old(self).lcd_controlled(val, *final(self)),
    {
        let lcd_was_on = M::Ppu::lcd_enabled(&self.ppu);
        M::Ppu::write_reg(&mut self.ppu, 0xFF40, val);
        let ghost written = *self;
        if lcd_was_on && !M::Ppu::lcd_enabled(&self.ppu) {
            self.complete_active_hdma();
        }
        proof {
            assert(M::Ppu::writes(old(self).ppu, 0xFF40, val, written.ppu));
        }
    }

    fn write_hdma_address(&mut self, addr: u16, val: u8)
        requires
            old(self).wf(),
            0xFF51 <= addr <= 0xFF54,
        ensures
            final(self).wf(),
            *final(self) == (Mmu { hdma: old(self).hdma_addressed(addr, val), ..*old(self) }),
    {
        if self.cgb_mode && !self.hdma.active {
            let src: u16 = self.hdma.src;
            let dst: u16 = self.hdma.dst;
            let wide: u16 = val as u16;
            if addr == 0xFF51 {
                proof {
                    assert(wide < 0x100 ==> (wide << 8u16) | (src & 0x00FF) == wide * 0x100 + src
                        % 0x100) by (bit_vector);
                }
                self.hdma.src = (wide << 8) | (src & 0x00FF);
            } else if addr == 0xFF52 {
                proof {
                    assert((src & 0xFF00) | ((val & 0xF0) as u16) == src / 0x100 * 0x100 + val / 16
                        * 16) by (bit_vector);
                }
                self.hdma.src = (src & 0xFF00) | (val & 0xF0) as u16;
            } else if addr == 0xFF53 {
                let vram_hi: u16 = (val & 0x1F) as u16;
                let raw: u16 = (vram_hi << 8) | (dst & 0x00F0);
                proof {
                    assert(((((val & 0x1F) as u16) << 8u16) | (dst & 0x00F0)) % 0x2000 / 16 * 16
                        == val % 0x20 * 0x100 + dst % 0x100 / 16 * 16) by (bit_vector);
                }
                self.hdma.dst = Self::sanitize_vram_dma_dest(raw);
            } else {
                let raw: u16 = (dst & 0x1F00) | (wide & 0x00F0);
                proof {
                    assert(wide < 0x100 ==> ((dst & 0x1F00) | (wide & 0x00F0)) % 0x2000 / 16 * 16
                        == dst % 0x2000 / 0x100 * 0x100 + wide / 16 * 16) by (bit_vector);
                }
                self.hdma.dst = Self::sanitize_vram_dma_dest(raw);
            }
        }
    }

    fn write_hdma_control(&mut self, val: u8)
        requires
            old(self).wf(),
            old(self).cgb_mode,
            old(self).write_stall_fits(0xFF55, val),
        ensures
            final(self).wf(),
            old(self).hdma_controlled(val, *final(self)),
    {
        self.hdma.dst = Self::sanitize_vram_dma_dest(self.hdma.dst);
        proof {
            crate::bits::lemma_bits_of(val);
        }
        let requested_blocks: u8 = (val & 0x7F) + 1;
        if self.hdma.active && (val & 0x80) == 0 {
            // Abort ongoing HDMA.
            self.hdma.active = false;
            self.hdma.blocks = 0;
            self.hdma.cancelled = true;
        } else if val & 0x80 == 0 {
            self.start_gdma(requested_blocks);
        } else {
            self.hdma.mode = DmaMode::Hdma;
            self.hdma.blocks = requested_blocks;
            self.hdma.active = true;
            self.hdma.cancelled = false;
            if !M::Ppu::lcd_enabled(&self.ppu) || M::Ppu::in_hblank(&self.ppu) {
                self.hdma_hblank_transfer();
            }
        }
    }

    /// Reset the divider.
    pub fn reset_div(&mut self)
        ensures
            old(self).div_resets(*final(self)),
    {
        let prev_div: u16 = self.timer.div;
        M::Timer::reset_div(&mut self.timer, &mut self.if_reg);
        let double_speed = self.key1 & 0x80 != 0;
        self.apu.on_div_reset(prev_div, double_speed);
    }
}

impl<M: Machine> Mmu<M> {
    /// The map once its OAM DMA unit has counted one dot of the delay before a
    /// transfer. The transfer starts when the delay is over.
    pub open spec fn dma_armed(self) -> Self {
        if self.pending_delay == 0 {
            self
        } else if self.pending_delay == 1 && self.pending_dma is Some {
            Mmu {
                pending_delay: 0,
                pending_dma: None,
                dma_source: self.pending_dma->0,
                dma_cycles: oam_dma_length(self.key1) as u16,
                ..self
            }
        } else {
            Mmu { pending_delay: (self.pending_delay - 1) as u16, ..self }
        }
    }

    /// Number of dots of the running OAM DMA that are over.
    pub open spec fn dma_elapsed(self) -> int {
        oam_dma_length(self.key1) - self.dma_cycles
    }

    /// One dot of OAM DMA may leave `after`. With the first dot of each M-cycle
    /// a byte moves.
    pub open spec fn dma_dot(self, after: Self) -> bool {
        let armed = self.dma_armed();
        if armed.dma_cycles == 0 {
            after == armed
        } else if armed.dma_elapsed() % dots_per_byte(armed.key1) == 0 {
            armed.dma_moves_byte(armed.dma_elapsed() / dots_per_byte(armed.key1), after)
        } else {
            after == (Mmu { dma_cycles: (armed.dma_cycles - 1) as u16, ..armed })
        }
    }

    /// The dot of OAM DMA that moves byte `index` may leave `after`.
    pub open spec fn dma_moves_byte(self, index: int, after: Self) -> bool {
        exists|read: Self, val: u8| #[trigger]
            (Mmu { last_cpu_pc: None, ..self }).dma_reads(
                src_at(self.dma_source, index),
                read,
                val,
            ) && {
                &&& read.ppu.oam_stored(index, val, after.ppu)
                &&& after == (Mmu {
                    ppu: after.ppu,
                    dma_cycles: (read.dma_cycles - 1) as u16,
                    ..read
                })
            }
    }

    /// `n` dots of OAM DMA may leave `after`.
    pub open spec fn dma_dots(self, n: nat, after: Self) -> bool
        decreases n,
    {
        if n == 0 {
            after == self
        } else {
            exists|before: Self|
                self.dma_dots((n - 1) as nat, before) && #[trigger] before.dma_dot(after)
        }
    }

    /// Advance the ongoing OAM DMA transfer if active.
    pub fn dma_step(&mut self, cycles: u16)
        requires
            old(self).wf(),
            old(self).dma_paced(),
        ensures
            final(self).wf(),
            final(self).dma_paced(),
            old(self).dma_dots(cycles as nat, *final(self)),
    {
        let mut i: u16 = 0;
        while i < cycles
            invariant
                i <= cycles,
                self.wf(),
                self.dma_paced(),
                old(self).dma_dots(i as nat, *self),
            decreases cycles - i,
        {
            let ghost before = *self;
            self.dma_one_dot();
            i = i + 1;
            proof {
                let n = i as nat;
                assert(old(self).dma_dots((n - 1) as nat, before));
                assert(before.dma_dot(*self));
                assert(old(self).dma_dots(n, *self));
            }
        }
    }

    fn dma_one_dot(&mut self)
        requires
            old(self).wf(),
            old(self).dma_paced(),
        ensures
            final(self).wf(),
            final(self).dma_paced(),
            old(self).dma_dot(*final(self)),
    {
        self.arm_dma();
        if self.dma_cycles == 0 {
            return;
        }
        // Determine per-byte cadence based on double-speed. In normal
        // speed one byte is transferred every 4 T-cycles; in double-speed
        // it's every 2 T-cycles.

        if self.key1 & 0x80 != 0 {
            let elapsed: u16 = 320 - self.dma_cycles;
            if elapsed % 2 == 0 {
                self.move_dma_byte(elapsed / 2);
                return;
            }
        } else {
            let elapsed: u16 = 640 - self.dma_cycles;
            if elapsed % 4 == 0 {
                self.move_dma_byte(elapsed / 4);
                return;
            }
        }
        self.dma_cycles = self.dma_cycles - 1;
    }

    /// Count one dot of the delay before an OAM DMA.
    fn arm_dma(&mut self)
        ensures
            *final(self) == old(self).dma_armed(),
    {
        if self.pending_delay > 0 {
            self.pending_delay = self.pending_delay - 1;
            if self.pending_delay == 0 {
                if let Some(src) = self.pending_dma.take() {
                    self.dma_source = src;
                    // Number of T-cycles for the OAM DMA transfer: 160 M-cycles.
                    // In normal speed M-cycle = 4 T-cycles => 160 * 4 = 640.
                    // In double-speed M-cycle = 2 T-cycles => 160 * 2 = 320.
                    self.dma_cycles =
                    if self.key1 & 0x80 != 0 {
                        320
                    } else {
                        640
                    };
                }
            }
        }
    }

    fn move_dma_byte(&mut self, idx: u16)
        requires
            old(self).wf(),
            old(self).dma_cycles > 0,
            idx < 160,
        ensures
            final(self).wf(),
            final(self).dma_cycles == old(self).dma_cycles - 1,
            final(self).key1 == old(self).key1,
            old(self).dma_moves_byte(idx as int, *final(self)),
    {
        // Clear `last_cpu_pc` to avoid attributing DMA-originated reads
        // to the last CPU instruction that happened to run. DMA
        // engine operations are independent of the CPU and should
        // not surface a CPU PC in logs.
        self.last_cpu_pc = None;
        let source: u16 = self.dma_source.wrapping_add(idx);
        let ghost cleared = *self;
        let byte: u8 = self.dma_read_byte(source);
        let ghost read = *self;
        proof {
            lemma_reads_keep_dma(cleared, cleared.dma_addr(source), read, byte);
            assert(source == src_at(old(self).dma_source, idx as int));
            assert(cleared == (Mmu { last_cpu_pc: None, ..*old(self) }));
        }
        self.ppu.oam[idx as usize] = byte;
        self.dma_cycles = self.dma_cycles - 1;
        proof {
            assert(read.ppu.oam_stored(idx as int, byte, self.ppu));
        }
    }

    /// Return true if a DMA transfer is in progress.
    pub fn dma_active(&self) -> (active: bool)
        ensures
            active == (self.dma_cycles > 0 || self.pending_delay > 0),
    {
        self.dma_cycles > 0 || self.pending_delay > 0
    }

    /// Return true if a General or HBlank DMA stall is in progress.
    pub fn gdma_active(&self) -> (active: bool)
        ensures
            active == (self.gdma_cycles > 0),
    {
        self.gdma_cycles > 0
    }

    /// The map after `cycles` M-cycles of the stall.
    pub open spec fn stalled(self, cycles: u16) -> Self {
        Mmu {
            gdma_cycles: if cycles >= self.gdma_cycles {
                0
            } else {
                (self.gdma_cycles - cycles) as u32
            },
            ..self
        }
    }

    /// Decrement the GDMA stall counter by the given number of m-cycles.
    pub fn gdma_step(&mut self, cycles: u16)
        ensures
            *final(self) == old(self).stalled(cycles),
    {
        if self.gdma_cycles > 0 {
            self.gdma_cycles = self.gdma_cycles.saturating_sub(cycles as u32);
        }
    }

    /// Take the bytes that went out of the serial port.
    pub fn take_serial(&mut self) -> (out: Vec<u8>)
        ensures
            out@ == old(self).serial@.output,
            *final(self) == (Mmu { serial: final(self).serial, ..*old(self) }),
            final(self).serial@ == (SerialView { output: Seq::empty(), ..old(self).serial@ }),
            final(self).serial.port() == old(self).serial.port(),
    {
        self.serial.take_output()
    }

    /// Whether the map is that of a CGB.
    pub fn is_cgb(&self) -> (cgb: bool)
        ensures
            cgb == self.cgb_mode,
    {
        self.cgb_mode
    }

    /// The map of a machine that the boot ROM has left, without a cartridge.
    pub open spec fn is_new(
        self,
        cgb: bool,
        dmg_revision: DmgRevision,
        cgb_revision: CgbRevision,
    ) -> bool {
        &&& forall|b: int, i: int|
            0 <= b < 8 && 0 <= i < WRAM_BANK_SIZE ==> #[trigger] self.wram[b][i] == 0
        &&& self.wram_bank == 1
        &&& forall|i: int| 0 <= i < 0x7F ==> #[trigger] self.hram[i] == 0
        &&& self.cart is None
        &&& self.boot_rom is None
        &&& !self.boot_mapped
        &&& self.if_reg == 0xE1
        &&& self.ie_reg == 0
        &&& self.serial@ == SerialView::initial(cgb, dmg_revision)
        &&& self.serial.port() is None
        &&& exists|ppu: Ppu<M::Ppu>| #[trigger]
            M::Ppu::is_new(cgb, ppu) && M::Ppu::boots(
                ppu,
                if cgb {
                    None
                } else {
                    Some(dmg_revision)
                },
                self.ppu,
            )
        &&& self.apu.is_new(cgb, dmg_revision, cgb_revision)
        &&& exists|timer: Timer<M::Timer>| #[trigger]
            M::Timer::is_new(timer) && self.timer == (Timer {
                div: boot_div(dmg_revision),
                ..timer
            })
        &&& self.input.is_new()
        &&& self.hdma == (HdmaState {
            src: 0,
            dst: 0x8000,
            blocks: 0,
            mode: DmaMode::Gdma,
            active: false,
            cancelled: false,
        })
        &&& self.key1 == (if cgb {
            0x7Eu8
        } else {
            0u8
        })
        &&& self.rp == 0
        &&& self.dma_cycles == 0
        &&& self.dma_source == 0
        &&& self.pending_dma is None
        &&& self.pending_delay == 0
        &&& self.gdma_cycles == 0
        &&& self.cgb_mode == cgb
        &&& self.cgb_revision == cgb_revision
        &&& self.dmg_revision == dmg_revision
        &&& self.last_cpu_pc is None
    }

    pub fn new_with_mode(cgb: bool) -> (mmu: Self)
        ensures
            mmu.wf(),
            mmu.is_new(cgb, DmgRevision::RevC, CgbRevision::RevE),
    {
        Self::new_with_revisions(cgb, DmgRevision::default(), CgbRevision::default())
    }

    pub fn new_with_config(cgb: bool, revision: CgbRevision) -> (mmu: Self)
        ensures
            mmu.wf(),
            mmu.is_new(cgb, DmgRevision::RevC, revision),
    {
        Self::new_with_revisions(cgb, DmgRevision::default(), revision)
    }

    pub fn new_with_revisions(
        cgb: bool,
        dmg_revision: DmgRevision,
        cgb_revision: CgbRevision,
    ) -> (mmu: Self)
        ensures
            mmu.wf(),
            mmu.is_new(cgb, dmg_revision, cgb_revision),
    {
        let mut timer = <M::Timer as TimerEngine>::new();
        let ghost new_timer = timer;
        // Power-on DIV phase differs between DMG revisions. These values match
        // the phases measured by mooneye's boot_div acceptance tests so the
        // first post-boot instruction sequence observes the expected timing.
        timer.div =
        match dmg_revision {
            DmgRevision::Rev0 => 0x1830,
            DmgRevision::RevA | DmgRevision::RevB | DmgRevision::RevC => 0xABCC,
        };

        let mut ppu = M::Ppu::new_with_mode(cgb);
        let ghost new_ppu = ppu;
        M::Ppu::apply_boot_state(
            &mut ppu,
            if cgb {
                None
            } else {
                Some(dmg_revision)
            },
        );
        let mmu = Self {
            wram: [[0; WRAM_BANK_SIZE]; 8],
            wram_bank: 1,
            hram: [0; 0x7F],
            cart: None,
            boot_rom: None,
            boot_mapped: false,
            if_reg: 0xE1,
            ie_reg: 0,
            serial: Serial::new(cgb, dmg_revision),
            ppu,
            apu: M::Apu::new_with_revisions(cgb, dmg_revision, cgb_revision),
            timer,
            input: <M::Input as InputPort>::new(),
            hdma: HdmaState {
                src: 0,
                dst: Self::sanitize_vram_dma_dest(0),
                blocks: 0,
                mode: DmaMode::Gdma,
                active: false,
                cancelled: false,
            },
            key1: if cgb {
                0x7E
            } else {
                0
            },
            rp: 0,
            dma_cycles: 0,
            dma_source: 0,
            pending_dma: None,
            pending_delay: 0,
            gdma_cycles: 0,
            cgb_mode: cgb,
            cgb_revision,
            dmg_revision,
            last_cpu_pc: None,
        };
        proof {
            assert(M::Timer::is_new(new_timer));
            assert(M::Ppu::is_new(cgb, new_ppu));
        }
        mmu
    }

    pub fn new() -> (mmu: Self)
        ensures
            mmu.wf(),
            mmu.is_new(false, DmgRevision::RevC, CgbRevision::RevE),
    {
        Self::new_with_mode(false)
    }

    /// Putting `cart` into the slot may leave `after`. A CGB gives a DMG game
    /// its compatibility palettes.
    pub open spec fn loads_cart(self, cart: Cartridge<M::Cart>, after: Self) -> bool {
        &&& after == (Mmu { cart: Some(cart), ppu: after.ppu, ..self })
        &&& if self.cgb_mode && !cart.cgb {
            M::Ppu::recolors(self.ppu, after.ppu)
        } else {
            after.ppu == self.ppu
        }
    }

    pub fn load_cart(&mut self, cart: Cartridge<M::Cart>)
        requires
            old(self).ppu.wf(),
        ensures
            final(self).ppu.wf(),
            old(self).loads_cart(cart, *final(self)),
    {
        let is_dmg = !cart.cgb;
        self.cart = Some(cart);
        if self.cgb_mode && is_dmg {
            M::Ppu::apply_dmg_compatibility_palettes(&mut self.ppu);
        }
    }

    /// The map with a boot ROM over the lower memory.
    pub open spec fn booting(self, data: Vec<u8>) -> Self {
        Mmu { boot_rom: Some(data), boot_mapped: true, ..self }
    }

    /// Map a boot ROM over the lower memory.
    pub fn load_boot_rom(&mut self, data: Vec<u8>)
        ensures
            *final(self) == old(self).booting(data),
    {
        self.boot_rom = Some(data);
        self.boot_mapped = true;
    }

    /// Number of dots in `m_cycles` M-cycles.
    pub open spec fn dots(self, m_cycles: u32) -> int {
        if is_double_speed(self.key1) {
            2 * (m_cycles as u16)
        } else {
            4 * (m_cycles as u16)
        }
    }

    /// `dots` dots of all devices may leave `after`: first the timer, then the
    /// sound unit, which gets the dots before it sees the divider, then the
    /// picture unit.
    pub open spec fn ticks(self, dots: u16, after: Self) -> bool {
        exists|if_reg: u8, apu: M::Apu|
            {
                &&& #[trigger] M::Timer::steps(self.timer, dots, self.if_reg, after.timer, if_reg)
                &&& #[trigger] self.apu.steps(dots, apu)
                &&& apu.ticks(
                    self.timer.div,
                    after.timer.div,
                    is_double_speed(self.key1),
                    after.apu,
                )
                &&& M::Ppu::steps(self.ppu, dots, if_reg, after.ppu, after.if_reg)
                &&& after == (Mmu {
                    timer: after.timer,
                    apu: after.apu,
                    ppu: after.ppu,
                    if_reg: after.if_reg,
                    ..self
                })
            }
    }

    /// Advance the devices by a number of M-cycles.
    pub fn tick(&mut self, m_cycles: u32)
        requires
            old(self).wf(),
            old(self).dots(m_cycles) <= u16::MAX,
        ensures
            final(self).wf(),
            old(self).ticks(old(self).dots(m_cycles) as u16, *final(self)),
    {
        let hw_cycles: u16 = if self.key1 & 0x80 != 0 {
            2 * (m_cycles as u16)
        } else {
            4 * (m_cycles as u16)
        };
        let prev_div: u16 = self.timer.div;
        M::Timer::step(&mut self.timer, hw_cycles, &mut self.if_reg);
        let ghost if_reg = self.if_reg;
        let curr_div: u16 = self.timer.div;
        // Advance 2 MHz domain before 1 MHz staging to match APU internal ordering
        self.apu.step(hw_cycles);
        let ghost apu = self.apu;
        self.apu.tick(prev_div, curr_div, self.key1 & 0x80 != 0);
        M::Ppu::step(&mut self.ppu, hw_cycles, &mut self.if_reg);
        proof {
            assert(M::Timer::steps(
                old(self).timer,
                hw_cycles,
                old(self).if_reg,
                self.timer,
                if_reg,
            ));
            assert(old(self).apu.steps(hw_cycles, apu));
        }
    }
}

impl<M: Machine> Default for Mmu<M> {
    fn default() -> (mmu: Self)
        ensures
            mmu.wf(),
            mmu.is_new(false, DmgRevision::RevC, CgbRevision::RevE),
    {
        Self::new()
    }
}

/// A read changes nothing about DMA, speed or mode.
proof fn lemma_reads_keep_dma<M: Machine>(before: Mmu<M>, addr: u16, after: Mmu<M>, val: u8)
    requires
        before.reads(addr, true, after, val),
    ensures
        after.dma_cycles == before.dma_cycles,
        after.dma_source == before.dma_source,
        after.pending_delay == before.pending_delay,
        after.pending_dma == before.pending_dma,
        after.key1 == before.key1,
        after.cgb_mode == before.cgb_mode,
        after.hdma == before.hdma,
        after.gdma_cycles == before.gdma_cycles,
{
}

/// The address `i` bytes behind `src`; the end of memory is followed by its
/// start.
pub open spec fn src_at(src: u16, i: int) -> u16 {
    ((src + i) % 0x1_0000) as u16
}

/// The address `i` bytes behind `dst` in VRAM; the end of VRAM is followed by
/// its start.
pub open spec fn dst_at(dst: u16, i: int) -> u16 {
    (0x8000 + (dst + i) % 0x2000) as u16
}

proof fn lemma_vram_dest(addr: u16)
    ensures
        0x8000u16 | (addr & 0x1FF0) == vram_dest(addr),
        vram_dest(vram_dest(addr)) == vram_dest(addr),
        0x8000 <= vram_dest(addr) < 0xA000,
        dst_at(vram_dest(addr), 0) == vram_dest(addr),
{
    assert(0x8000u16 | (addr & 0x1FF0) == 0x8000 + addr % 0x2000 / 16 * 16) by (bit_vector);
}

proof fn lemma_next_addresses(src: u16, dst: u16, i: int)
    requires
        i >= 0,
    ensures
        next_src(src_at(src, i)) == src_at(src, i + 1),
        next_dest(dst_at(dst, i)) == dst_at(dst, i + 1),
        0x8000 <= dst_at(dst, i) < 0xA000,
{
    let s = src + i;
    let d = dst + i;
    assert((s % 0x1_0000 + 1) % 0x1_0000 == (s + 1) % 0x1_0000);
    let r = d % 0x2000;
    assert(0 <= r < 0x2000);
    assert((0x8000 + r + 1) % 0x2000 == (r + 1) % 0x2000);
    assert((r + 1) % 0x2000 == (d + 1) % 0x2000);
}

/// WRAM, HRAM and IE give back what was written: a read right after a write to
/// the same address gives the byte, and changes nothing.
pub proof fn law_ram_reads_back<M: Machine>(
    before: Mmu<M>,
    addr: u16,
    val: u8,
    written: Mmu<M>,
    after: Mmu<M>,
    read: u8,
)
    requires
        before.wf(),
        0xC000 <= addr < 0xFE00 || 0xFF80 <= addr,
        before.writes(addr, val, written),
        written.reads(addr, false, after, read),
    ensures
        read == val,
        after == written,
{
}

/// A write to WRAM shows in the echo, and a write to the echo in WRAM.
pub proof fn law_echo_mirrors_wram<M: Machine>(mmu: Mmu<M>, addr: u16)
    requires
        0xC000 <= addr < 0xDE00,
    ensures
        mmu.wram_cell(addr) == mmu.wram_cell((addr + 0x2000) as u16),
        mmu.wram_byte(addr) == mmu.wram_byte((addr + 0x2000) as u16),
{
}

/// A write to one cell of WRAM leaves the others.
pub proof fn law_wram_write_is_local<M: Machine>(
    before: Mmu<M>,
    addr: u16,
    val: u8,
    after: Mmu<M>,
    other: u16,
)
    requires
        before.wf(),
        0xC000 <= addr < 0xFE00,
        0xC000 <= other < 0xFE00,
        before.wram_cell(addr) != before.wram_cell(other),
        before.writes(addr, val, after),
    ensures
        after.wram_byte(other) == before.wram_byte(other),
{
}

/// The map at another point of its OAM DMA.
pub open spec fn at_dma_cycle<M: Machine>(mmu: Mmu<M>, dma_cycles: u16) -> Mmu<M> {
    Mmu { dma_cycles, ..mmu }
}

/// `after` has what only the CPU changes as `before` has it: WRAM, HRAM, the
/// serial port, the banks, the speed, the mode and the boot mapping.
pub open spec fn devices_worked<M: Machine>(before: Mmu<M>, after: Mmu<M>) -> bool {
    &&& after.ppu.vram_bank == before.ppu.vram_bank
    &&& after == (Mmu {
        cart: after.cart,
        if_reg: after.if_reg,
        ppu: after.ppu,
        apu: after.apu,
        timer: after.timer,
        input: after.input,
        hdma: after.hdma,
        gdma_cycles: after.gdma_cycles,
        last_cpu_pc: after.last_cpu_pc,
        ..before
    })
}

/// A DMA unit reads the same at every point of OAM DMA.
proof fn lemma_dma_reads_at<M: Machine>(
    before: Mmu<M>,
    addr: u16,
    after: Mmu<M>,
    val: u8,
    dma_cycles: u16,
)
    requires
        before.dma_reads(addr, after, val),
    ensures
        devices_worked(before, after),
        at_dma_cycle(before, dma_cycles).dma_reads(addr, at_dma_cycle(after, dma_cycles), val),
{
}

/// VRAM DMA moves the same at every point of OAM DMA.
proof fn lemma_moves_at<M: Machine>(
    before: Mmu<M>,
    src: u16,
    dst: u16,
    n: nat,
    live: bool,
    after: Mmu<M>,
    dma_cycles: u16,
)
    requires
        before.moves(src, dst, n, live, after),
    ensures
        devices_worked(before, after),
        at_dma_cycle(before, dma_cycles).moves(
            src,
            dst,
            n,
            live,
            at_dma_cycle(after, dma_cycles),
        ),
    decreases n,
{
    if n > 0 {
        let m = (n - 1) as nat;
        let at = src_at(src, n - 1);
        let to = dst_at(dst, n - 1);
        let last = choose|last: Mmu<M>|
            before.moves(src, dst, m, live, last) && #[trigger] last.moves_byte(
                at,
                to,
                live,
                after,
            );
        lemma_moves_at(before, src, dst, m, live, last, dma_cycles);
        let (read, val) = choose|read: Mmu<M>, val: u8| #[trigger]
            last.dma_reads(at, read, val) && read.byte_moved(at, to, val, live, after);
        lemma_dma_reads_at(last, at, read, val, dma_cycles);
        assert(at_dma_cycle(read, dma_cycles).byte_moved(
            at,
            to,
            val,
            live,
            at_dma_cycle(after, dma_cycles),
        ));
        assert(at_dma_cycle(last, dma_cycles).moves_byte(
            at,
            to,
            live,
            at_dma_cycle(after, dma_cycles),
        ));
    }
}

/// A general DMA does the same at every point of OAM DMA.
proof fn lemma_general_dma_at<M: Machine>(
    before: Mmu<M>,
    blocks: int,
    after: Mmu<M>,
    dma_cycles: u16,
)
    requires
        before.general_dma(blocks, after),
    ensures
        devices_worked(before, after),
        at_dma_cycle(before, dma_cycles).general_dma(blocks, at_dma_cycle(after, dma_cycles)),
{
    let src = before.hdma.src;
    let dst = vram_dest(before.hdma.dst);
    let n = (16 * blocks) as nat;
    let start = Mmu { last_cpu_pc: None, ..before };
    let moved = choose|moved: Mmu<M>|
        {
            &&& #[trigger] start.moves(src, dst, n, false, moved)
            &&& after == (Mmu {
                hdma: HdmaState {
                    src: src_at(src, 16 * blocks),
                    dst: vram_dest(dst_at(dst, 16 * blocks)),
                    blocks: 0,
                    active: false,
                    cancelled: false,
                    ..moved.hdma
                },
                gdma_cycles: (blocks * block_cost(moved.key1)) as u32,
                ..moved
            })
        };
    lemma_moves_at(start, src, dst, n, false, moved, dma_cycles);
    let shifted = at_dma_cycle(before, dma_cycles);
    assert(at_dma_cycle(start, dma_cycles) == (Mmu { last_cpu_pc: None, ..shifted }));
    assert((Mmu { last_cpu_pc: None, ..shifted }).moves(
        src,
        dst,
        n,
        false,
        at_dma_cycle(moved, dma_cycles),
    ));
}

/// A block of HBlank DMA does the same at every point of OAM DMA.
proof fn lemma_hblank_block_at<M: Machine>(before: Mmu<M>, after: Mmu<M>, dma_cycles: u16)
    requires
        before.hblank_block(after),
    ensures
        devices_worked(before, after),
        at_dma_cycle(before, dma_cycles).hblank_block(at_dma_cycle(after, dma_cycles)),
{
    let src = before.hdma.src;
    let dst = vram_dest(before.hdma.dst);
    let start = Mmu { hdma: HdmaState { dst, ..before.hdma }, last_cpu_pc: None, ..before };
    let moved = choose|moved: Mmu<M>|
        {
            &&& #[trigger] start.moves(src, dst, 16, true, moved)
            &&& after == (Mmu {
                hdma: HdmaState {
                    dst: vram_dest(moved.hdma.dst),
                    blocks: if moved.hdma.blocks == 0 {
                        0
                    } else {
                        (moved.hdma.blocks - 1) as u8
                    },
                    active: moved.hdma.active && moved.hdma.blocks > 1,
                    cancelled: moved.hdma.cancelled && moved.hdma.blocks > 1,
                    ..moved.hdma
                },
                gdma_cycles: (moved.gdma_cycles + block_cost(moved.key1)) as u32,
                ..moved
            })
        };
    lemma_moves_at(start, src, dst, 16, true, moved, dma_cycles);
    let shifted = at_dma_cycle(before, dma_cycles);
    assert(at_dma_cycle(start, dma_cycles) == (Mmu {
        hdma: HdmaState { dst, ..shifted.hdma },
        last_cpu_pc: None,
        ..shifted
    }));
    assert((Mmu {
        hdma: HdmaState { dst, ..shifted.hdma },
        last_cpu_pc: None,
        ..shifted
    }).moves(src, dst, 16, true, at_dma_cycle(moved, dma_cycles)));
}

/// Blocks of HBlank DMA do the same at every point of OAM DMA.
proof fn lemma_hblank_blocks_at<M: Machine>(
    before: Mmu<M>,
    n: nat,
    after: Mmu<M>,
    dma_cycles: u16,
)
    requires
        before.hblank_blocks(n, after),
    ensures
        devices_worked(before, after),
        at_dma_cycle(before, dma_cycles).hblank_blocks(n, at_dma_cycle(after, dma_cycles)),
    decreases n,
{
    if n > 0 {
        let m = (n - 1) as nat;
        let last = choose|last: Mmu<M>|
            before.hblank_blocks(m, last) && #[trigger] last.hblank_block(after);
        lemma_hblank_blocks_at(before, m, last, dma_cycles);
        lemma_hblank_block_at(last, after, dma_cycles);
        assert(at_dma_cycle(last, dma_cycles).hblank_block(at_dma_cycle(after, dma_cycles)));
    }
}

/// A write to LCDC does the same at every point of OAM DMA.
proof fn lemma_lcd_controlled_at<M: Machine>(
    before: Mmu<M>,
    val: u8,
    after: Mmu<M>,
    dma_cycles: u16,
)
    requires
        before.lcd_controlled(val, after),
    ensures
        devices_worked(before, after),
        at_dma_cycle(before, dma_cycles).lcd_controlled(val, at_dma_cycle(after, dma_cycles)),
{
    let ppu = choose|ppu: Ppu<M::Ppu>| #[trigger]
        M::Ppu::writes(before.ppu, 0xFF40, val, ppu) && ppu.vram_bank == before.ppu.vram_bank && {
            let written = Mmu { ppu, ..before };
            if M::Ppu::lcd_on(before.ppu) && !M::Ppu::lcd_on(ppu) {
                written.hdma_finishes(after)
            } else {
                after == written
            }
        };
    let written = Mmu { ppu, ..before };
    let shifted = at_dma_cycle(before, dma_cycles);
    assert(at_dma_cycle(written, dma_cycles) == (Mmu { ppu, ..shifted }));
    if M::Ppu::lcd_on(before.ppu) && !M::Ppu::lcd_on(ppu) && written.hdma_runs() {
        lemma_hblank_blocks_at(written, written.hdma.blocks as nat, after, dma_cycles);
    }
    assert(M::Ppu::writes(shifted.ppu, 0xFF40, val, ppu));
}

/// A write to FF55 does the same at every point of OAM DMA.
proof fn lemma_hdma_controlled_at<M: Machine>(
    before: Mmu<M>,
    val: u8,
    after: Mmu<M>,
    dma_cycles: u16,
)
    requires
        before.hdma_controlled(val, after),
    ensures
        devices_worked(before, after),
        at_dma_cycle(before, dma_cycles).hdma_controlled(val, at_dma_cycle(after, dma_cycles)),
{
    let blocks = (val & 0x7F) + 1;
    let shifted = at_dma_cycle(before, dma_cycles);
    if val & 0x80 == 0 {
        if !before.hdma.active {
            lemma_general_dma_at(before, blocks, after, dma_cycles);
        }
    } else {
        let started = Mmu {
            hdma: HdmaState {
                mode: DmaMode::Hdma,
                blocks: blocks as u8,
                active: true,
                cancelled: false,
                ..before.hdma
            },
            ..before
        };
        assert(at_dma_cycle(started, dma_cycles) == (Mmu { hdma: started.hdma, ..shifted }));
        if !M::Ppu::lcd_on(before.ppu) || M::Ppu::hblank(before.ppu) {
            lemma_hblank_block_at(started, after, dma_cycles);
        }
    }
}

/// Outside the bus of OAM DMA a write does the same at every point of it.
proof fn lemma_writes_at<M: Machine>(
    before: Mmu<M>,
    addr: u16,
    val: u8,
    after: Mmu<M>,
    dma_cycles: u16,
)
    requires
        !(0x8000 <= addr < 0xC000 || 0xFE00 <= addr < 0xFF00),
        before.writes(addr, val, after),
    ensures
        after.dma_cycles == before.dma_cycles,
        at_dma_cycle(before, dma_cycles).writes(addr, val, at_dma_cycle(after, dma_cycles)),
{
    if addr == 0xFF40 {
        lemma_lcd_controlled_at(before, val, after, dma_cycles);
    } else if addr == 0xFF55 && before.cgb_mode {
        lemma_hdma_controlled_at(before, val, after, dma_cycles);
    }
}

/// While OAM DMA runs the CPU reads 0xFF from VRAM, cartridge RAM and the sprite
/// table, and writes nothing to them; ROM, WRAM, I/O and HRAM are read and
/// written as if there were no DMA.
pub proof fn law_oam_dma_blocks_its_bus<M: Machine>(
    mmu: Mmu<M>,
    addr: u16,
    after: Mmu<M>,
    val: u8,
    read: u8,
)
    requires
        mmu.dma_cycles > 0,
    ensures
        0x8000 <= addr < 0xC000 || 0xFE00 <= addr < 0xFF00 ==> {
            &&& mmu.reads(addr, false, after, read) ==> after == mmu && read == 0xFF
            &&& mmu.writes(addr, val, after) ==> after == mmu
        },
        !(0x8000 <= addr < 0xC000 || 0xFE00 <= addr < 0xFF00) ==> mmu.reads(
            addr,
            false,
            after,
            read,
        ) == mmu.reads(addr, true, after, read),
        !(0x8000 <= addr < 0xC000 || 0xFE00 <= addr < 0xFF00) ==> {
            let idle = at_dma_cycle(mmu, 0);
            let idle_after = at_dma_cycle(after, 0);
            &&& mmu.reads(addr, false, after, read) == (after.dma_cycles == mmu.dma_cycles
                && idle.reads(addr, false, idle_after, read))
            &&& mmu.writes(addr, val, after) == (after.dma_cycles == mmu.dma_cycles
                && idle.writes(addr, val, idle_after))
        },
{
    if !(0x8000 <= addr < 0xC000 || 0xFE00 <= addr < 0xFF00) {
        let idle = at_dma_cycle(mmu, 0);
        let idle_after = at_dma_cycle(after, 0);
        if mmu.writes(addr, val, after) {
            lemma_writes_at(mmu, addr, val, after, 0);
        }
        if after.dma_cycles == mmu.dma_cycles && idle.writes(addr, val, idle_after) {
            lemma_writes_at(idle, addr, val, idle_after, mmu.dma_cycles);
            assert(at_dma_cycle(idle, mmu.dma_cycles) == mmu);
            assert(at_dma_cycle(idle_after, mmu.dma_cycles) == after);
        }
    }
}

/// A write keeps the banks in range, and leaves bit 7 of KEY1, the speed; the
/// boot ROM stays mapped until FF50 is written, whatever the value. A DMG has no
/// banks, no KEY1 and no RP to write.
pub proof fn law_write_keeps_banks_and_speed<M: Machine>(
    before: Mmu<M>,
    addr: u16,
    val: u8,
    after: Mmu<M>,
)
    requires
        before.wf(),
        before.writes(addr, val, after),
    ensures
        1 <= after.wram_bank <= 7,
        after.ppu.vram_bank <= 1,
        before.cgb_mode && addr == 0xFF70 && val & 0x07 == 0 ==> after.wram_bank == 1,
        after.key1 & 0x80 == before.key1 & 0x80,
        after.boot_mapped == (before.boot_mapped && addr != 0xFF50),
        !before.cgb_mode ==> {
            &&& after.wram_bank == before.wram_bank
            &&& after.key1 == before.key1
            &&& after.rp == before.rp
            &&& after.ppu.vram_bank == before.ppu.vram_bank
        },
{
    let key1 = before.key1;
    assert(((key1 & 0x80) | (val & 0x01)) & 0x80 == key1 & 0x80 && val & 0x07 <= 7
        && val & 0x01 <= 1) by (bit_vector);
    if addr == 0xFF40 {
        lemma_lcd_controlled_at(before, val, after, 0);
    } else if addr == 0xFF55 && before.cgb_mode {
        lemma_hdma_controlled_at(before, val, after, 0);
    }
}

/// The serial port sees a write to the memory map as a write to itself, and
/// nothing of reads, of the other devices or of OAM DMA. With
/// [`law_output_is_what_was_sent`](crate::serial::law_output_is_what_was_sent)
/// this makes [`Mmu::take_serial`] give the bytes of the transfers that were over
/// since it was last called.
pub proof fn law_serial_sees_its_registers<M: Machine>(
    before: Mmu<M>,
    addr: u16,
    val: u8,
    dots: u16,
    after: Mmu<M>,
)
    ensures
        before.writes(addr, val, after) ==> occurs(
            &before.serial,
            SerialEvent::Write { addr, val },
            &after.serial,
        ),
        before.reads(addr, false, after, val) ==> after.serial == before.serial,
        before.ticks(dots, after) ==> after.serial == before.serial,
        before.dma_dots(dots as nat, after) ==> after.serial == before.serial,
{
    if before.writes(addr, val, after) {
        if addr == 0xFF40 {
            lemma_lcd_controlled_at(before, val, after, 0);
        } else if addr == 0xFF55 && before.cgb_mode {
            lemma_hdma_controlled_at(before, val, after, 0);
        }
    }
    if before.dma_dots(dots as nat, after) {
        lemma_dma_dots_keep_serial(before, dots as nat, after);
    }
}

/// OAM DMA does nothing to the serial port.
proof fn lemma_dma_dots_keep_serial<M: Machine>(before: Mmu<M>, n: nat, after: Mmu<M>)
    requires
        before.dma_dots(n, after),
    ensures
        after.serial == before.serial,
    decreases n,
{
    if n > 0 {
        let m = (n - 1) as nat;
        let last = choose|last: Mmu<M>| before.dma_dots(m, last) && #[trigger] last.dma_dot(after);
        lemma_dma_dots_keep_serial(before, m, last);
    }
}

/// A DMA unit that reads WRAM gets its byte and changes nothing.
proof fn lemma_dma_reads_wram<M: Machine>(before: Mmu<M>, addr: u16, after: Mmu<M>, val: u8)
    requires
        0xC000 <= addr < 0xFE00,
        before.dma_reads(addr, after, val),
    ensures
        after == before,
        val == before.wram_byte(addr),
{
}

/// What OAM DMA from WRAM has done after `dots` of its dots.
pub open spec fn oam_dma_progress<M: Machine>(start: Mmu<M>, dots: int, now: Mmu<M>) -> bool {
    &&& now == (Mmu {
        ppu: Ppu { oam: now.ppu.oam, ..start.ppu },
        dma_cycles: (start.dma_cycles - dots) as u16,
        last_cpu_pc: if dots == 0 {
            start.last_cpu_pc
        } else {
            None
        },
        ..start
    })
    &&& forall|i: int|
        #![trigger now.ppu.oam[i]]
        0 <= i < 160 ==> now.ppu.oam[i] == if i * dots_per_byte(start.key1) < dots {
            start.wram_byte((start.dma_source + i) as u16)
        } else {
            start.ppu.oam[i]
        }
}

/// OAM DMA from WRAM goes on byte by byte: byte `i` arrives with the first dot
/// of M-cycle `i`, and nothing else changes.
pub proof fn law_oam_dma_progresses<M: Machine>(start: Mmu<M>, dots: nat, now: Mmu<M>)
    requires
        start.pending_delay == 0,
        start.dma_cycles == oam_dma_length(start.key1),
        0xC000 <= start.dma_source <= 0xFD00,
        dots <= oam_dma_length(start.key1),
        start.dma_dots(dots, now),
    ensures
        oam_dma_progress(start, dots as int, now),
    decreases dots,
{
    if dots > 0 {
        let n = (dots - 1) as nat;
        let per = dots_per_byte(start.key1);
        let before = choose|before: Mmu<M>|
            start.dma_dots(n, before) && #[trigger] before.dma_dot(now);
        law_oam_dma_progresses(start, n, before);
        assert(before.dma_armed() == before);
        assert(before.dma_elapsed() == n);
        if n as int % per == 0 {
            let index = n as int / per;
            let addr = src_at(start.dma_source, index);
            let cleared = Mmu { last_cpu_pc: None, ..before };
            let (read, val) = choose|read: Mmu<M>, val: u8| #[trigger]
                cleared.dma_reads(src_at(before.dma_source, index), read, val) && {
                    &&& read.ppu.oam_stored(index, val, now.ppu)
                    &&& now == (Mmu {
                        ppu: now.ppu,
                        dma_cycles: (read.dma_cycles - 1) as u16,
                        ..read
                    })
                };
            lemma_dma_reads_wram(cleared, addr, read, val);
            assert(val == start.wram_byte((start.dma_source + index) as u16));
            assert(index * per == n);
            assert forall|i: int| 0 <= i < 160 implies #[trigger] now.ppu.oam[i] == if i * per
                < dots {
                start.wram_byte((start.dma_source + i) as u16)
            } else {
                start.ppu.oam[i]
            } by {
                assert(now.ppu.oam[i] == if i == index {
                    val
                } else {
                    before.ppu.oam[i]
                });
                assert(i != index ==> (i * per < dots) == (i * per < n));
            }
        } else {
            assert forall|i: int| 0 <= i < 160 implies #[trigger] now.ppu.oam[i] == if i * per
                < dots {
                start.wram_byte((start.dma_source + i) as u16)
            } else {
                start.ppu.oam[i]
            } by {
                assert(now.ppu.oam[i] == before.ppu.oam[i]);
                assert((i * per) % per == 0);
            }
        }
    }
}

/// OAM DMA from WRAM fills the sprite table with the 160 bytes at its source,
/// in 160 M-cycles, and then is over.
pub proof fn law_oam_dma_copies<M: Machine>(start: Mmu<M>, end: Mmu<M>)
    requires
        start.pending_delay == 0,
        start.dma_cycles == oam_dma_length(start.key1),
        0xC000 <= start.dma_source <= 0xFD00,
        start.dma_dots(oam_dma_length(start.key1) as nat, end),
    ensures
        end.dma_cycles == 0,
        forall|i: int|
            0 <= i < 160 ==> #[trigger] end.ppu.oam[i] == start.wram_byte(
                (start.dma_source + i) as u16,
            ),
        end.wram == start.wram,
        end.ppu.vram == start.ppu.vram,
{
    law_oam_dma_progresses(start, oam_dma_length(start.key1) as nat, end);
}

/// What a VRAM DMA of `n` bytes from WRAM does. Of the bank in view it writes
/// the `n` places from `dst` on, and no other.
pub open spec fn vram_dma_progress<M: Machine>(
    start: Mmu<M>,
    src: u16,
    dst: u16,
    n: int,
    now: Mmu<M>,
) -> bool {
    &&& now == (Mmu { ppu: Ppu { vram: now.ppu.vram, ..start.ppu }, hdma: now.hdma, ..start })
    &&& now.hdma == (HdmaState { src: now.hdma.src, dst: now.hdma.dst, ..start.hdma })
    &&& forall|i: int|
        0 <= i < n ==> #[trigger] now.ppu.vram_byte(dst_at(dst, i) - 0x8000) == start.wram_byte(
            (src + i) as u16,
        )
    &&& vram_kept(start.ppu, dst, n, now.ppu)
}

/// VRAM is as before but for `n` places of the bank in view, from `dst` on.
pub open spec fn vram_kept<E>(before: Ppu<E>, dst: u16, n: int, after: Ppu<E>) -> bool {
    &&& after.vram[1 - before.vram_bank] == before.vram[1 - before.vram_bank]
    &&& forall|offset: int|
        0 <= offset < 0x2000 && (offset - dst) % 0x2000 >= n ==> #[trigger] after.vram_byte(offset)
            == before.vram_byte(offset)
}

/// VRAM DMA from WRAM copies its bytes, in order, to VRAM, and changes nothing
/// else but its own address registers.
pub proof fn law_vram_dma_copies<M: Machine>(
    start: Mmu<M>,
    src: u16,
    dst: u16,
    n: nat,
    live: bool,
    now: Mmu<M>,
)
    requires
        start.ppu.wf(),
        0xC000 <= src,
        src + n <= 0xFE00,
        n <= 0x2000,
        start.moves(src, dst, n, live, now),
    ensures
        vram_dma_progress(start, src, dst, n as int, now),
    decreases n,
{
    if n > 0 {
        let m = (n - 1) as nat;
        let before = choose|before: Mmu<M>|
            start.moves(src, dst, m, live, before) && #[trigger] before.moves_byte(
                src_at(src, n - 1),
                dst_at(dst, n - 1),
                live,
                now,
            );
        law_vram_dma_copies(start, src, dst, m, live, before);
        let at = src_at(src, m as int);
        let to = dst_at(dst, m as int);
        let (read, val) = choose|read: Mmu<M>, val: u8| #[trigger]
            before.dma_reads(at, read, val) && read.byte_moved(at, to, val, live, now);
        lemma_dma_reads_wram(before, at, read, val);
        assert(val == start.wram_byte((src + m) as u16));
        assert forall|i: int| 0 <= i < n implies #[trigger] now.ppu.vram_byte(
            dst_at(dst, i) - 0x8000,
        ) == start.wram_byte((src + i) as u16) by {
            lemma_dst_distinct(dst, i, m as int);
            if i < m {
                assert(before.ppu.vram_byte(dst_at(dst, i) - 0x8000) == start.wram_byte(
                    (src + i) as u16,
                ));
            }
        }
        assert forall|offset: int| 0 <= offset < 0x2000 && (offset - dst) % 0x2000 >= n implies
            #[trigger] now.ppu.vram_byte(offset) == start.ppu.vram_byte(offset) by {
            lemma_dst_distance(dst, m as int);
            assert(offset != to - 0x8000);
            assert(before.ppu.vram_byte(offset) == start.ppu.vram_byte(offset));
        }
    }
}

/// Within the size of VRAM no two bytes of a transfer go to the same place.
proof fn lemma_dst_distinct(dst: u16, i: int, j: int)
    requires
        0 <= i <= j < 0x2000,
    ensures
        i != j ==> dst_at(dst, i) != dst_at(dst, j),
        0x8000 <= dst_at(dst, i) < 0xA000,
{
    let a = (dst + i) % 0x2000;
    let b = (dst + j) % 0x2000;
    assert((dst + i) == 0x2000 * ((dst + i) / 0x2000) + a);
    assert((dst + j) == 0x2000 * ((dst + j) / 0x2000) + b);
}

/// Byte `i` of a transfer goes `i` places behind its destination.
proof fn lemma_dst_distance(dst: u16, i: int)
    requires
        0 <= i < 0x2000,
    ensures
        (dst_at(dst, i) - 0x8000 - dst) % 0x2000 == i,
{
    let a = (dst + i) % 0x2000;
    assert(dst + i == 0x2000 * ((dst + i) / 0x2000) + a);
    assert(a - dst == i - 0x2000 * ((dst + i) / 0x2000));
}

/// A general DMA from WRAM copies its blocks at once, leaves the rest of VRAM,
/// is over right after, and stalls the CPU for each block.
pub proof fn law_general_dma_copies<M: Machine>(start: Mmu<M>, blocks: int, end: Mmu<M>)
    requires
        start.wf(),
        1 <= blocks <= 128,
        0xC000 <= start.hdma.src,
        start.hdma.src + 16 * blocks <= 0xFE00,
        start.general_dma(blocks, end),
    ensures
        forall|i: int|
            0 <= i < 16 * blocks ==> #[trigger] end.ppu.vram_byte(
                dst_at(start.hdma.dst, i) - 0x8000,
            ) == start.wram_byte((start.hdma.src + i) as u16),
        vram_kept(start.ppu, start.hdma.dst, 16 * blocks, end.ppu),
        end.wram == start.wram,
        end.ppu.oam == start.ppu.oam,
        end.hdma.src == start.hdma.src + 16 * blocks,
        !end.hdma.active,
        end.cgb_mode ==> end.hdma_status() == 0xFF,
        end.gdma_cycles == blocks * block_cost(start.key1),
{
    let src = start.hdma.src;
    let dst = vram_dest(start.hdma.dst);
    let from = Mmu { last_cpu_pc: None, ..start };
    let moved = choose|moved: Mmu<M>|
        {
            &&& #[trigger] from.moves(src, dst, (16 * blocks) as nat, false, moved)
            &&& end == (Mmu {
                hdma: HdmaState {
                    src: src_at(src, 16 * blocks),
                    dst: vram_dest(dst_at(dst, 16 * blocks)),
                    blocks: 0,
                    active: false,
                    cancelled: false,
                    ..moved.hdma
                },
                gdma_cycles: (blocks * block_cost(moved.key1)) as u32,
                ..moved
            })
        };
    law_vram_dma_copies(from, src, dst, (16 * blocks) as nat, false, moved);
    assert(blocks * block_cost(start.key1) <= 2048) by (nonlinear_arith)
        requires
            1 <= blocks <= 128,
            block_cost(start.key1) == 8 || block_cost(start.key1) == 16,
    ;
    assert(blocks * block_cost(start.key1) >= 0) by (nonlinear_arith)
        requires
            1 <= blocks <= 128,
            block_cost(start.key1) == 8 || block_cost(start.key1) == 16,
    ;
    assert forall|i: int| 0 <= i < 16 * blocks implies #[trigger] end.ppu.vram_byte(
        dst_at(start.hdma.dst, i) - 0x8000,
    ) == start.wram_byte((src + i) as u16) by {
        assert(moved.ppu.vram_byte(dst_at(dst, i) - 0x8000) == from.wram_byte((src + i) as u16));
    }
}

/// FF55 counts an HBlank DMA down: with `blocks` blocks left it reads one less,
/// with bit 7 clear; with none left it reads 0xFF; stopped, it reads 0x80.
pub proof fn law_hdma_status<M: Machine>(mmu: Mmu<M>, val: u8, after: Mmu<M>)
    requires
        mmu.wf(),
        mmu.cgb_mode,
    ensures
        mmu.hdma.active ==> mmu.hdma_status() == mmu.hdma.blocks - 1 && mmu.hdma_status() < 0x80,
        !mmu.hdma.active && !mmu.hdma.cancelled ==> mmu.hdma_status() == 0xFF,
        mmu.hdma.active && val & 0x80 == 0 && mmu.writes(0xFF55, val, after)
            ==> after.hdma_status() == 0x80 && after.ppu == mmu.ppu,
{
    let left = (mmu.hdma.blocks - 1) as u8;
    crate::bits::lemma_bits_of(left);
}

/// A write of `val` to FF46 starts OAM DMA from page `val` after two M-cycles:
/// until then only the delay counts down, and with its last dot the transfer is
/// under way.
pub proof fn law_oam_dma_waits_two_m_cycles<M: Machine>(
    before: Mmu<M>,
    val: u8,
    written: Mmu<M>,
    dots: nat,
    now: Mmu<M>,
)
    requires
        before.dma_cycles == 0,
        before.writes(0xFF46, val, written),
        dots < written.pending_delay,
        written.dma_dots(dots, now),
    ensures
        written.pending_delay == 2 * dots_per_byte(before.key1),
        now == (Mmu { pending_delay: (written.pending_delay - dots) as u16, ..written }),
        dots + 1 == written.pending_delay ==> {
            let started = now.dma_armed();
            &&& started.dma_source == val * 0x100
            &&& started.dma_cycles == oam_dma_length(started.key1)
            &&& started.pending_delay == 0
            &&& forall|after: Mmu<M>| #[trigger] now.dma_dot(after) == started.dma_dot(after)
        },
    decreases dots,
{
    if dots > 0 {
        let n = (dots - 1) as nat;
        let last = choose|last: Mmu<M>|
            written.dma_dots(n, last) && #[trigger] last.dma_dot(now);
        law_oam_dma_waits_two_m_cycles(before, val, written, n, last);
    }
}

/// The dots behind the delay are those of the transfer itself.
proof fn lemma_dots_behind_the_delay<M: Machine>(
    before: Mmu<M>,
    val: u8,
    written: Mmu<M>,
    dots: nat,
    now: Mmu<M>,
)
    requires
        before.dma_cycles == 0,
        before.writes(0xFF46, val, written),
        dots > 0,
        written.dma_dots((written.pending_delay - 1 + dots) as nat, now),
    ensures
        (Mmu {
            pending_delay: 0,
            pending_dma: None,
            dma_source: (val * 0x100) as u16,
            dma_cycles: oam_dma_length(written.key1) as u16,
            ..written
        }).dma_dots(dots, now),
    decreases dots,
{
    let started = Mmu {
        pending_delay: 0,
        pending_dma: None,
        dma_source: (val * 0x100) as u16,
        dma_cycles: oam_dma_length(written.key1) as u16,
        ..written
    };
    law_oam_dma_waits_two_m_cycles(before, val, written, 0, written);
    let n = (written.pending_delay - 1 + dots - 1) as nat;
    let last = choose|last: Mmu<M>| written.dma_dots(n, last) && #[trigger] last.dma_dot(now);
    if dots == 1 {
        law_oam_dma_waits_two_m_cycles(before, val, written, n, last);
        assert(last.dma_armed() == started);
        assert(started.dma_dots(0, started));
        assert(started.dma_dot(now));
    } else {
        let m = (dots - 1) as nat;
        assert(n == written.pending_delay - 1 + m);
        lemma_dots_behind_the_delay(before, val, written, m, last);
        assert(started.dma_dots(m, last));
        assert(last.dma_dot(now));
    }
}

/// A write of a page of WRAM to FF46 fills the sprite table with the first 160
/// bytes of the page. When the delay and the 160 M-cycles of the transfer have
/// passed, OAM DMA is over.
pub proof fn law_oam_dma_register_fills_oam<M: Machine>(
    before: Mmu<M>,
    val: u8,
    written: Mmu<M>,
    end: Mmu<M>,
)
    requires
        before.dma_cycles == 0,
        0xC0 <= val <= 0xFD,
        before.writes(0xFF46, val, written),
        written.dma_dots(
            (written.pending_delay - 1 + oam_dma_length(before.key1)) as nat,
            end,
        ),
    ensures
        !(end.dma_cycles > 0 || end.pending_delay > 0),
        forall|i: int|
            0 <= i < 160 ==> #[trigger] end.ppu.oam[i] == before.wram_byte(
                (val * 0x100 + i) as u16,
            ),
        end.wram == before.wram,
        end.ppu.vram == before.ppu.vram,
{
    let length = oam_dma_length(before.key1) as nat;
    lemma_dots_behind_the_delay(before, val, written, length, end);
    let started = Mmu {
        pending_delay: 0,
        pending_dma: None,
        dma_source: (val * 0x100) as u16,
        dma_cycles: length as u16,
        ..written
    };
    assert(started.dma_dots(length, end));
    law_oam_dma_copies(started, end);
    law_oam_dma_progresses(started, length, end);
}

} // verus!
