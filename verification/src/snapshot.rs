//! What the debugger and the viewers show: the state of a machine at one
//! moment.

use crate::devices::{Cartridge, CartridgeEngine, Cpu, Machine, Ppu, PpuEngine};
use crate::gameboy::GameBoy;
use crate::mmu::{src_at, Mmu};
use vstd::prelude::*;
use vstd::slice::slice_to_vec;

verus! {

/// The registers of the processor.
#[derive(Clone, Copy, Debug)]
pub struct CpuSnapshot {
    pub a: u8,
    pub f: u8,
    pub b: u8,
    pub c: u8,
    pub d: u8,
    pub e: u8,
    pub h: u8,
    pub l: u8,
    pub sp: u16,
    pub pc: u16,
    pub ime: bool,
    pub cycles: u64,
}

/// The registers, memories, palettes and picture of the picture unit.
#[derive(Clone, Debug)]
pub struct PpuSnapshot {
    pub frame_counter: u64,
    pub cgb: bool,
    pub lcdc: u8,
    pub stat: u8,
    pub scy: u8,
    pub scx: u8,
    pub ly: u8,
    pub bgp: u8,
    pub obp0: u8,
    pub obp1: u8,
    pub vram0: Vec<u8>,
    pub vram1: Vec<u8>,
    pub oam: Vec<u8>,
    pub framebuffer: Vec<u32>,
    /// CGB BG palette colors as 0x00RRGGBB.
    pub cgb_bg_colors: [[u32; 4]; 8],
    /// CGB OBJ palette colors as 0x00RRGGBB.
    pub cgb_ob_colors: [[u32; 4]; 8],
}

/// What the debugger shows beside the registers.
#[derive(Clone, Debug)]
pub struct DebuggerSnapshot {
    pub paused: bool,
    pub if_reg: u8,
    pub ie_reg: u8,
    pub active_rom_bank: u16,
    pub disassembly_base: u16,
    pub disassembly_bytes: Vec<u8>,
    pub stack_base: u16,
    pub stack_bytes: Vec<u8>,
    pub cgb_mode: bool,
    pub vram_bank: u8,
    pub wram_bank: u8,
    pub sram_bank: u8,
    pub sram_enabled: bool,
    /// Full $0000-$FFFF memory image while paused. This is used for the virtualized
    /// full-address-space disassembly view.
    pub mem_image: Option<Box<[u8; 0x10000]>>,
}

#[derive(Clone, Debug)]
pub struct UiSnapshot {
    pub cpu: CpuSnapshot,
    pub ppu: PpuSnapshot,
    pub debugger: DebuggerSnapshot,
}

/// Bytes shown around the program counter.
pub const DISASSEMBLY_LEN: usize = 0x200;

/// Bytes shown from the stack pointer on.
pub const STACK_LEN: usize = 0x40;

/// A table of colors without a color.
pub open spec fn no_colors(table: [[u32; 4]; 8]) -> bool {
    forall|p: int, c: int| 0 <= p < 8 && 0 <= c < 4 ==> #[trigger] table[p][c] == 0
}

impl Default for CpuSnapshot {
    fn default() -> (s: Self)
        ensures
            s == (CpuSnapshot {
                a: 0,
                f: 0,
                b: 0,
                c: 0,
                d: 0,
                e: 0,
                h: 0,
                l: 0,
                sp: 0,
                pc: 0,
                ime: false,
                cycles: 0,
            }),
    {
        CpuSnapshot {
            a: 0,
            f: 0,
            b: 0,
            c: 0,
            d: 0,
            e: 0,
            h: 0,
            l: 0,
            sp: 0,
            pc: 0,
            ime: false,
            cycles: 0,
        }
    }
}

impl PpuSnapshot {
    /// Everything is zero, and the memories and the picture are empty.
    pub open spec fn is_empty(self) -> bool {
        &&& self.frame_counter == 0
        &&& !self.cgb
        &&& self.lcdc == 0
        &&& self.stat == 0
        &&& self.scy == 0
        &&& self.scx == 0
        &&& self.ly == 0
        &&& self.bgp == 0
        &&& self.obp0 == 0
        &&& self.obp1 == 0
        &&& self.vram0@ == Seq::<u8>::empty()
        &&& self.vram1@ == Seq::<u8>::empty()
        &&& self.oam@ == Seq::<u8>::empty()
        &&& self.framebuffer@ == Seq::<u32>::empty()
        &&& no_colors(self.cgb_bg_colors)
        &&& no_colors(self.cgb_ob_colors)
    }

    /// The bytes of a VRAM bank, as they are shown.
    pub open spec fn bank_shown(self, bank: usize) -> Seq<u8> {
        if bank == 0 {
            self.vram0@
        } else {
            self.vram1@
        }
    }

    /// An object palette register, as it is shown.
    pub open spec fn obp_shown(self, which: u8) -> u8 {
        if which == 0 {
            self.obp0
        } else {
            self.obp1
        }
    }

    /// The bytes of a VRAM bank.
    pub fn vram_bank(&self, bank: usize) -> (bytes: &[u8])
        ensures
            bytes@ == self.bank_shown(bank),
    {
        match bank {
            0 => self.vram0.as_slice(),
            _ => self.vram1.as_slice(),
        }
    }

    /// An object palette register.
    pub fn obp(&self, which: u8) -> (palette: u8)
        ensures
            palette == self.obp_shown(which),
    {
        match which {
            0 => self.obp0,
            _ => self.obp1,
        }
    }
}

impl Default for PpuSnapshot {
    fn default() -> (s: Self)
        ensures
            s.is_empty(),
    {
        PpuSnapshot {
            frame_counter: 0,
            cgb: false,
            lcdc: 0,
            stat: 0,
            scy: 0,
            scx: 0,
            ly: 0,
            bgp: 0,
            obp0: 0,
            obp1: 0,
            vram0: Vec::new(),
            vram1: Vec::new(),
            oam: Vec::new(),
            framebuffer: Vec::new(),
            cgb_bg_colors: [[0; 4]; 8],
            cgb_ob_colors: [[0; 4]; 8],
        }
    }
}

impl DebuggerSnapshot {
    /// Paused, the first banks in view, and zeros as far as bytes are shown.
    pub open spec fn is_initial(self) -> bool {
        &&& self.paused
        &&& self.if_reg == 0
        &&& self.ie_reg == 0
        &&& self.active_rom_bank == 1
        &&& self.disassembly_base == 0
        &&& self.disassembly_bytes@ == Seq::new(DISASSEMBLY_LEN as nat, |i: int| 0u8)
        &&& self.stack_base == 0
        &&& self.stack_bytes@ == Seq::new(STACK_LEN as nat, |i: int| 0u8)
        &&& !self.cgb_mode
        &&& self.vram_bank == 0
        &&& self.wram_bank == 1
        &&& self.sram_bank == 0
        &&& !self.sram_enabled
        &&& self.mem_image is None
    }
}

impl Default for DebuggerSnapshot {
    fn default() -> (s: Self)
        ensures
            s.is_initial(),
    {
        let disassembly_bytes: Vec<u8> = vec![0; DISASSEMBLY_LEN];
        let stack_bytes: Vec<u8> = vec![0; STACK_LEN];
        proof {
            assert(disassembly_bytes@ == Seq::new(DISASSEMBLY_LEN as nat, |i: int| 0u8));
            assert(stack_bytes@ == Seq::new(STACK_LEN as nat, |i: int| 0u8));
        }
        DebuggerSnapshot {
            paused: true,
            if_reg: 0,
            ie_reg: 0,
            active_rom_bank: 1,
            disassembly_base: 0,
            disassembly_bytes,
            stack_base: 0,
            stack_bytes,
            cgb_mode: false,
            vram_bank: 0,
            wram_bank: 1,
            sram_bank: 0,
            sram_enabled: false,
            mem_image: None,
        }
    }
}

impl Default for UiSnapshot {
    fn default() -> (s: Self)
        ensures
            s.ppu.is_empty(),
            s.debugger.is_initial(),
            s.cpu == (CpuSnapshot {
                a: 0,
                f: 0,
                b: 0,
                c: 0,
                d: 0,
                e: 0,
                h: 0,
                l: 0,
                sp: 0,
                pc: 0,
                ime: false,
                cycles: 0,
            }),
    {
        UiSnapshot {
            cpu: CpuSnapshot::default(),
            ppu: PpuSnapshot::default(),
            debugger: DebuggerSnapshot::default(),
        }
    }
}

/// Reading `bytes.len()` bytes from `base` on, one after the other, may give
/// `bytes` and leave `after`.
pub open spec fn reads_run<M: Machine>(
    before: Mmu<M>,
    base: u16,
    bytes: Seq<u8>,
    after: Mmu<M>,
) -> bool
    decreases bytes.len(),
{
    if bytes.len() == 0 {
        after == before
    } else {
        exists|mid: Mmu<M>|
            reads_run(before, base, bytes.drop_last(), mid) && #[trigger] mid.reads(
                src_at(base, bytes.len() - 1),
                false,
                after,
                bytes.last(),
            )
    }
}

/// Reading the registers `addrs` of the picture unit, one after the other, may
/// give `vals` and leave `after`.
pub open spec fn reads_registers<E: PpuEngine>(
    before: Ppu<E>,
    addrs: Seq<u16>,
    vals: Seq<u8>,
    after: Ppu<E>,
) -> bool
    decreases vals.len(),
{
    if vals.len() == 0 {
        after == before
    } else {
        exists|mid: Ppu<E>|
            reads_registers(before, addrs, vals.drop_last(), mid) && #[trigger] E::reads(
                mid,
                addrs[vals.len() - 1],
                after,
                vals.last(),
            )
    }
}

/// The registers that a snapshot shows: LCDC, STAT, SCY, SCX, LY, BGP, OBP0 and
/// OBP1.
pub open spec fn shown_registers() -> Seq<u16> {
    seq![0xFF40, 0xFF41, 0xFF42, 0xFF43, 0xFF44, 0xFF47, 0xFF48, 0xFF49]
}

impl CpuSnapshot {
    /// The registers of `cpu`.
    pub open spec fn of<E>(cpu: Cpu<E>) -> Self {
        CpuSnapshot {
            a: cpu.a,
            f: cpu.f,
            b: cpu.b,
            c: cpu.c,
            d: cpu.d,
            e: cpu.e,
            h: cpu.h,
            l: cpu.l,
            sp: cpu.sp,
            pc: cpu.pc,
            ime: cpu.ime,
            cycles: cpu.cycles,
        }
    }
}

impl PpuSnapshot {
    /// The registers shown, in the order of [`shown_registers`].
    pub open spec fn registers(self) -> Seq<u8> {
        seq![
            self.lcdc,
            self.stat,
            self.scy,
            self.scx,
            self.ly,
            self.bgp,
            self.obp0,
            self.obp1,
        ]
    }

    /// What the snapshot shows of `before`, whose registers were read on the
    /// way to `after`. Palettes are shown of a CGB only.
    pub open spec fn shows<E: PpuEngine>(self, before: Ppu<E>, after: Ppu<E>) -> bool {
        &&& self.frame_counter == E::frame_count(before)
        &&& self.cgb == E::cgb(before)
        &&& reads_registers(before, shown_registers(), self.registers(), after)
        &&& self.vram0@ == after.vram[0]@
        &&& self.vram1@ == after.vram[1]@
        &&& self.oam@ == after.oam@
        &&& self.framebuffer@ == E::picture(after)
        &&& if E::cgb(before) {
            bg_colors(before, self.cgb_bg_colors) && ob_colors(before, self.cgb_ob_colors)
        } else {
            no_colors(self.cgb_bg_colors) && no_colors(self.cgb_ob_colors)
        }
    }
}

/// All background colors of a picture unit.
pub open spec fn bg_colors<E: PpuEngine>(ppu: Ppu<E>, table: [[u32; 4]; 8]) -> bool {
    forall|p: int, c: int|
        0 <= p < 8 && 0 <= c < 4 ==> #[trigger] table[p][c] == E::bg_color(ppu, p, c)
}

/// All object colors of a picture unit.
pub open spec fn ob_colors<E: PpuEngine>(ppu: Ppu<E>, table: [[u32; 4]; 8]) -> bool {
    forall|p: int, c: int|
        0 <= p < 8 && 0 <= c < 4 ==> #[trigger] table[p][c] == E::ob_color(ppu, p, c)
}

/// The ROM bank, the RAM bank and whether the RAM is enabled, of a cartridge or
/// of an empty slot.
pub open spec fn cart_banks<E: CartridgeEngine>(cart: Option<Cartridge<E>>) -> (u16, u8, bool) {
    match cart {
        Some(cart) => (E::rom_bank(cart), E::ram_bank(cart), E::ram_on(cart)),
        None => (1, 0, false),
    }
}

/// The first address of the disassembly for a program counter.
pub open spec fn disassembly_start(pc: u16) -> u16 {
    if pc < 0x40 {
        0
    } else {
        (pc - 0x40) as u16
    }
}

impl DebuggerSnapshot {
    /// What the snapshot shows of `before`, whose memory was read on the way to
    /// `after`: all of it first, if paused, then from before the program
    /// counter, then from the stack pointer on.
    pub open spec fn shows<M: Machine>(
        self,
        paused: bool,
        pc: u16,
        sp: u16,
        before: Mmu<M>,
        after: Mmu<M>,
    ) -> bool {
        &&& self.paused == paused
        &&& self.if_reg == after.if_reg
        &&& self.ie_reg == after.ie_reg
        &&& (self.active_rom_bank, self.sram_bank, self.sram_enabled) == cart_banks(before.cart)
        &&& self.cgb_mode == before.cgb_mode
        &&& self.vram_bank == before.ppu.vram_bank
        &&& self.wram_bank == before.wram_bank
        &&& self.disassembly_base == disassembly_start(pc)
        &&& self.disassembly_bytes@.len() == DISASSEMBLY_LEN
        &&& self.stack_base == sp
        &&& self.stack_bytes@.len() == STACK_LEN
        &&& exists|imaged: Mmu<M>, disassembled: Mmu<M>|
            #[trigger] self.imaged(paused, before, imaged) && #[trigger] self.disassembled(
                imaged,
                disassembled,
            ) && reads_run(disassembled, self.stack_base, self.stack_bytes@, after)
    }

    /// The memory image was taken, if paused, on the way to `after`.
    pub open spec fn imaged<M: Machine>(self, paused: bool, before: Mmu<M>, after: Mmu<M>) -> bool {
        match self.mem_image {
            Some(image) => paused && reads_run(before, 0, image@, after),
            None => !paused && after == before,
        }
    }

    /// The bytes to disassemble were read on the way to `after`.
    pub open spec fn disassembled<M: Machine>(self, before: Mmu<M>, after: Mmu<M>) -> bool {
        reads_run(before, self.disassembly_base, self.disassembly_bytes@, after)
    }
}

/// The memory map with another picture unit.
pub open spec fn with_ppu<M: Machine>(mmu: Mmu<M>, ppu: Ppu<M::Ppu>) -> Mmu<M> {
    Mmu { ppu, ..mmu }
}

impl UiSnapshot {
    /// What the snapshot shows of `before`, whose registers and memory were
    /// read on the way to `after`.
    pub open spec fn shows<M: Machine>(
        self,
        before: GameBoy<M>,
        paused: bool,
        after: GameBoy<M>,
    ) -> bool {
        &&& self.cpu == CpuSnapshot::of(before.cpu)
        &&& exists|ppu: Ppu<M::Ppu>|
            {
                &&& #[trigger] self.ppu.shows(before.mmu.ppu, ppu)
                &&& self.debugger.shows(
                    paused,
                    before.cpu.pc,
                    before.cpu.sp,
                    with_ppu(before.mmu, ppu),
                    after.mmu,
                )
            }
        &&& after == (GameBoy { mmu: after.mmu, ..before })
    }

    /// Take a snapshot of a machine.
    ///
    /// Registers and memory are read as the CPU reads them, with what such a
    /// read does to the devices.
    pub fn from_gb<M: Machine>(gb: &mut GameBoy<M>, paused: bool) -> (s: Self)
        requires
            old(gb).wf(),
        ensures
            final(gb).wf(),
            s.shows(*old(gb), paused, *final(gb)),
    {
        let cpu = cpu_snapshot(&gb.cpu);
        let ppu = ppu_snapshot::<M::Ppu>(&mut gb.mmu.ppu);
        let ghost shown = gb.mmu;
        let debugger = debugger_snapshot(&mut gb.mmu, paused, cpu.pc, cpu.sp);
        let s = UiSnapshot { cpu, ppu, debugger };
        proof {
            let before = *old(gb);
            assert(shown == with_ppu(before.mmu, shown.ppu));
            assert(s.ppu.shows(before.mmu.ppu, shown.ppu));
            assert(s.debugger.shows(paused, before.cpu.pc, before.cpu.sp, shown, gb.mmu));
            assert(s.shows(before, paused, *gb));
        }
        s
    }
}

fn cpu_snapshot<E>(cpu: &Cpu<E>) -> (s: CpuSnapshot)
    ensures
        s == CpuSnapshot::of(*cpu),
{
    CpuSnapshot {
        a: cpu.a,
        f: cpu.f,
        b: cpu.b,
        c: cpu.c,
        d: cpu.d,
        e: cpu.e,
        h: cpu.h,
        l: cpu.l,
        sp: cpu.sp,
        pc: cpu.pc,
        ime: cpu.ime,
        cycles: cpu.cycles,
    }
}

/// The background and the object colors, as far as the unit has any.
fn palette_colors<E: PpuEngine>(ppu: &Ppu<E>) -> (colors: ([[u32; 4]; 8], [[u32; 4]; 8]))
    ensures
        if E::cgb(*ppu) {
            bg_colors(*ppu, colors.0) && ob_colors(*ppu, colors.1)
        } else {
            no_colors(colors.0) && no_colors(colors.1)
        },
{
    let mut bg: [[u32; 4]; 8] = [[0; 4]; 8];
    let mut ob: [[u32; 4]; 8] = [[0; 4]; 8];
    if E::is_cgb(ppu) {
        for pal in 0..8usize
            invariant
                forall|p: int, c: int|
                    0 <= p < pal && 0 <= c < 4 ==> #[trigger] bg[p][c] == E::bg_color(*ppu, p, c),
                forall|p: int, c: int|
                    0 <= p < pal && 0 <= c < 4 ==> #[trigger] ob[p][c] == E::ob_color(*ppu, p, c),
        {
            for col in 0..4usize
                invariant
                    pal < 8,
                    forall|p: int, c: int|
                        0 <= p <= pal && 0 <= c < 4 && (p < pal || c < col) ==> #[trigger] bg[p][c]
                            == E::bg_color(*ppu, p, c),
                    forall|p: int, c: int|
                        0 <= p <= pal && 0 <= c < 4 && (p < pal || c < col) ==> #[trigger] ob[p][c]
                            == E::ob_color(*ppu, p, c),
            {
                bg[pal][col] = E::bg_palette_color(ppu, pal, col);
                ob[pal][col] = E::ob_palette_color(ppu, pal, col);
            }
        }
    }
    (bg, ob)
}

/// Read the registers `addrs` one after the other.
fn read_registers<E: PpuEngine>(ppu: &mut Ppu<E>, addrs: &[u16; 8]) -> (vals: [u8; 8])
    requires
        old(ppu).wf(),
    ensures
        final(ppu).wf(),
        reads_registers(*old(ppu), addrs@, vals@, *final(ppu)),
{
    let mut vals: [u8; 8] = [0; 8];
    for i in 0..8usize
        invariant
            ppu.wf(),
            reads_registers(*old(ppu), addrs@, vals@.take(i as int), *ppu),
    {
        let ghost mid = *ppu;
        let ghost before = vals@;
        vals[i] = E::read_reg(ppu, addrs[i]);
        proof {
            let run = vals@.take(i + 1);
            assert(run.drop_last() == before.take(i as int));
            assert(E::reads(mid, addrs@[run.len() - 1], *ppu, run.last()));
        }
    }
    proof {
        assert(vals@.take(8) == vals@);
    }
    vals
}

fn ppu_snapshot<E: PpuEngine>(ppu: &mut Ppu<E>) -> (s: PpuSnapshot)
    requires
        old(ppu).wf(),
    ensures
        final(ppu).wf(),
        s.shows(*old(ppu), *final(ppu)),
{
    let (cgb_bg_colors, cgb_ob_colors) = palette_colors(ppu);
    let frame_counter: u64 = E::frames(ppu);
    let cgb = E::is_cgb(ppu);
    let addrs: [u16; 8] = [0xFF40, 0xFF41, 0xFF42, 0xFF43, 0xFF44, 0xFF47, 0xFF48, 0xFF49];
    let regs = read_registers(ppu, &addrs);
    let s = PpuSnapshot {
        frame_counter,
        cgb,
        lcdc: regs[0],
        stat: regs[1],
        scy: regs[2],
        scx: regs[3],
        ly: regs[4],
        bgp: regs[5],
        obp0: regs[6],
        obp1: regs[7],
        vram0: slice_to_vec(ppu.vram[0].as_slice()),
        vram1: slice_to_vec(ppu.vram[1].as_slice()),
        oam: slice_to_vec(ppu.oam.as_slice()),
        framebuffer: E::framebuffer(ppu),
        cgb_bg_colors,
        cgb_ob_colors,
    };
    proof {
        assert(addrs@ == shown_registers());
        assert(regs@ == s.registers());
    }
    s
}

/// Read `len` bytes from `base` on, one after the other.
fn read_run<M: Machine>(mmu: &mut Mmu<M>, base: u16, len: usize) -> (bytes: Vec<u8>)
    requires
        old(mmu).banks_wf(),
    ensures
        final(mmu).banks_wf(),
        final(mmu).hdma == old(mmu).hdma,
        bytes@.len() == len,
        reads_run(*old(mmu), base, bytes@, *final(mmu)),
{
    let mut bytes: Vec<u8> = Vec::new();
    let mut addr: u16 = base;
    for i in 0..len
        invariant
            mmu.banks_wf(),
            mmu.hdma == old(mmu).hdma,
            bytes@.len() == i,
            addr == src_at(base, i as int),
            reads_run(*old(mmu), base, bytes@, *mmu),
    {
        let ghost mid = *mmu;
        let ghost before = bytes@;
        let byte: u8 = mmu.read_byte(addr);
        bytes.push(byte);
        proof {
            assert(bytes@.drop_last() == before);
            assert(mid.reads(src_at(base, bytes@.len() - 1), false, *mmu, bytes@.last()));
            let s = base + i;
            assert((s % 0x1_0000 + 1) % 0x1_0000 == (s + 1) % 0x1_0000);
        }
        addr = addr.wrapping_add(1);
    }
    bytes
}

/// Read all of memory.
fn read_image<M: Machine>(mmu: &mut Mmu<M>) -> (image: Box<[u8; 0x10000]>)
    requires
        old(mmu).banks_wf(),
    ensures
        final(mmu).banks_wf(),
        final(mmu).hdma == old(mmu).hdma,
        reads_run(*old(mmu), 0, image@, *final(mmu)),
{
    let mut image: [u8; 0x10000] = [0; 0x10000];
    for i in 0..0x10000usize
        invariant
            mmu.banks_wf(),
            mmu.hdma == old(mmu).hdma,
            reads_run(*old(mmu), 0, image@.take(i as int), *mmu),
    {
        let ghost mid = *mmu;
        let ghost before = image@;
        image[i] = mmu.read_byte(i as u16);
        proof {
            let run = image@.take(i + 1);
            assert(run.drop_last() == before.take(i as int));
            assert(mid.reads(src_at(0, run.len() - 1), false, *mmu, run.last()));
        }
    }
    proof {
        assert(image@.take(0x10000) == image@);
    }
    Box::new(image)
}

fn debugger_snapshot<M: Machine>(mmu: &mut Mmu<M>, paused: bool, pc: u16, sp: u16) -> (s:
    DebuggerSnapshot)
    requires
        old(mmu).wf(),
    ensures
        final(mmu).wf(),
        s.shows(paused, pc, sp, *old(mmu), *final(mmu)),
{
    let (active_rom_bank, sram_bank, sram_enabled) = match &mmu.cart {
        Some(cart) => (
            M::Cart::current_rom_bank(cart),
            M::Cart::current_ram_bank(cart),
            M::Cart::ram_enabled(cart),
        ),
        None => (1, 0, false),
    };
    let cgb_mode = mmu.is_cgb();
    let vram_bank: u8 = mmu.ppu.vram_bank as u8;
    let wram_bank: u8 = mmu.wram_bank as u8;
    let mem_image = if paused {
        Some(read_image(mmu))
    } else {
        None
    };
    let ghost imaged = *mmu;
    let disassembly_base: u16 = pc.saturating_sub(0x40);
    let disassembly_bytes = read_run(mmu, disassembly_base, DISASSEMBLY_LEN);
    let ghost disassembled = *mmu;
    let stack_bytes = read_run(mmu, sp, STACK_LEN);
    let s = DebuggerSnapshot {
        paused,
        if_reg: mmu.if_reg,
        ie_reg: mmu.ie_reg,
        active_rom_bank,
        disassembly_base,
        disassembly_bytes,
        stack_base: sp,
        stack_bytes,
        cgb_mode,
        vram_bank,
        wram_bank,
        sram_bank,
        sram_enabled,
        mem_image,
    };
    proof {
        assert(s.imaged(paused, *old(mmu), imaged));
        assert(s.disassembled(imaged, disassembled));
    }
    s
}

/// What RAM holds shows up unchanged in every run of bytes that a snapshot
/// reads, and reading it changes neither RAM nor the interrupt registers.
pub proof fn law_snapshot_shows_ram<M: Machine>(
    before: Mmu<M>,
    base: u16,
    bytes: Seq<u8>,
    after: Mmu<M>,
)
    requires
        reads_run(before, base, bytes, after),
    ensures
        after.wram == before.wram,
        after.wram_bank == before.wram_bank,
        after.hram == before.hram,
        after.if_reg == before.if_reg,
        after.ie_reg == before.ie_reg,
        forall|i: int|
            0 <= i < bytes.len() ==> {
                let addr = src_at(base, i);
                &&& 0xC000 <= addr < 0xFE00 ==> #[trigger] bytes[i] == before.wram_byte(addr)
                &&& 0xFF80 <= addr < 0xFFFF ==> bytes[i] == before.hram[addr - 0xFF80]
            },
    decreases bytes.len(),
{
    if bytes.len() > 0 {
        let addr = src_at(base, bytes.len() - 1);
        let mid = choose|mid: Mmu<M>|
            reads_run(before, base, bytes.drop_last(), mid) && #[trigger] mid.reads(
                addr,
                false,
                after,
                bytes.last(),
            );
        law_snapshot_shows_ram(before, base, bytes.drop_last(), mid);
        assert forall|i: int| 0 <= i < bytes.len() - 1 implies bytes[i] == bytes.drop_last()[i] by {
        }
    }
}

} // verus!
