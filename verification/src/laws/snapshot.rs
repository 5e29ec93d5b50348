//! What a snapshot shows is what the machine holds.

use crate::devices::{CartridgeEngine, Cpu, Machine, Ppu, PpuEngine};
use crate::gameboy::GameBoy;
use crate::laws::memory::ram_at;
use crate::mmu::Mmu;
use crate::snapshot::{
    cart_banks, disassembly_start, reads_registers, reads_run, with_ppu, CpuSnapshot,
    DebuggerSnapshot, PpuSnapshot, UiSnapshot,
};
use crate::text::{decimal, hex2, hex4};
use crate::ui::debugger::{register_labels, register_texts};
use vstd::prelude::*;

verus! {

/// Each register of the CPU is shown under its own name.
pub proof fn law_cpu_registers<E>(cpu: Cpu<E>)
    ensures
        CpuSnapshot::of(cpu).a == cpu.a,
        CpuSnapshot::of(cpu).f == cpu.f,
        CpuSnapshot::of(cpu).b == cpu.b,
        CpuSnapshot::of(cpu).c == cpu.c,
        CpuSnapshot::of(cpu).d == cpu.d,
        CpuSnapshot::of(cpu).e == cpu.e,
        CpuSnapshot::of(cpu).h == cpu.h,
        CpuSnapshot::of(cpu).l == cpu.l,
        CpuSnapshot::of(cpu).sp == cpu.sp,
        CpuSnapshot::of(cpu).pc == cpu.pc,
        CpuSnapshot::of(cpu).ime == cpu.ime,
        CpuSnapshot::of(cpu).cycles == cpu.cycles,
{
}

/// The debugger labels each register with its name.
pub proof fn law_register_rows(cpu: CpuSnapshot)
    ensures
        register_labels().len() == 12,
        register_texts(cpu).len() == 12,
        register_labels()[0] == "A"@ && register_texts(cpu)[0] == hex2(cpu.a),
        register_labels()[1] == "F"@ && register_texts(cpu)[1] == hex2(cpu.f),
        register_labels()[2] == "B"@ && register_texts(cpu)[2] == hex2(cpu.b),
        register_labels()[3] == "C"@ && register_texts(cpu)[3] == hex2(cpu.c),
        register_labels()[4] == "D"@ && register_texts(cpu)[4] == hex2(cpu.d),
        register_labels()[5] == "E"@ && register_texts(cpu)[5] == hex2(cpu.e),
        register_labels()[6] == "H"@ && register_texts(cpu)[6] == hex2(cpu.h),
        register_labels()[7] == "L"@ && register_texts(cpu)[7] == hex2(cpu.l),
        register_labels()[8] == "SP"@ && register_texts(cpu)[8] == hex4(cpu.sp),
        register_labels()[9] == "PC"@ && register_texts(cpu)[9] == hex4(cpu.pc),
        register_labels()[10] == "IME"@ && register_texts(cpu)[10] == (if cpu.ime {
            "true"@
        } else {
            "false"@
        }),
        register_labels()[11] == "Cycles"@ && register_texts(cpu)[11] == decimal(cpu.cycles as nat),
{
}

/// The disassembly starts 64 bytes before the program counter, or at the start of
/// memory.
pub proof fn law_disassembly_start(pc: u16)
    ensures
        pc >= 64 ==> disassembly_start(pc) + 64 == pc,
        pc < 64 ==> disassembly_start(pc) == 0,
{
}

/// The banks of a cartridge, or those of an empty slot.
pub proof fn law_cartridge_banks<E: CartridgeEngine>(cart: crate::devices::Cartridge<E>)
    ensures
        cart_banks(Some(cart)).0 == E::rom_bank(cart),
        cart_banks(Some(cart)).1 == E::ram_bank(cart),
        cart_banks(Some(cart)).2 == E::ram_on(cart),
        cart_banks::<E>(None).0 == 1,
        cart_banks::<E>(None).1 == 0,
        !cart_banks::<E>(None).2,
{
}

/// `byte` is what RAM or an interrupt register holds at `addr`, if one is there.
pub open spec fn held_at<M: Machine>(mmu: Mmu<M>, addr: int, byte: u8) -> bool {
    &&& 0xC000 <= addr < 0xFE00 ==> byte == ram_at(mmu, addr)
    &&& 0xFF80 <= addr < 0xFFFF ==> byte == mmu.hram[addr - 0xFF80]
    &&& addr == 0xFF0F ==> byte == mmu.if_reg
    &&& addr == 0xFFFF ==> byte == mmu.ie_reg
}

/// Reading changes neither WRAM nor high RAM nor the interrupt registers, and gives
/// what they hold at each address.
proof fn lemma_run_reads_ram<M: Machine>(before: Mmu<M>, base: u16, bytes: Seq<u8>, after: Mmu<M>)
    requires
        before.wram_bank < 8,
        reads_run(before, base, bytes, after),
    ensures
        after.wram == before.wram,
        after.wram_bank == before.wram_bank,
        after.hram == before.hram,
        after.if_reg == before.if_reg,
        after.ie_reg == before.ie_reg,
        forall|i: int|
            0 <= i < bytes.len() ==> held_at(before, (base + i) % 0x1_0000, #[trigger] bytes[i]),
    decreases bytes.len(),
{
    if bytes.len() > 0 {
        let last = crate::mmu::src_at(base, bytes.len() - 1);
        let mid = choose|mid: Mmu<M>|
            reads_run(before, base, bytes.drop_last(), mid) && #[trigger] mid.reads(
                last,
                false,
                after,
                bytes.last(),
            );
        lemma_run_reads_ram(before, base, bytes.drop_last(), mid);
        assert(last == (base + bytes.len() - 1) % 0x1_0000);
        assert(held_at(before, last as int, bytes.last()));
        assert forall|i: int| 0 <= i < bytes.len() implies held_at(
            before,
            (base + i) % 0x1_0000,
            #[trigger] bytes[i],
        ) by {
            if i < bytes.len() - 1 {
                assert(bytes.drop_last()[i] == bytes[i]);
            }
        }
    }
}

/// What the debugger shows of a machine: the interrupt registers and the banks; of
/// memory 512 bytes from 64 before the program counter on, and 64 bytes from the
/// stack pointer on; and, while paused, all of it. Where an address lies in WRAM, in
/// high RAM or at an interrupt register, the byte shown for it is the byte that is
/// there.
pub proof fn law_debugger_shows_memory<M: Machine>(
    s: DebuggerSnapshot,
    paused: bool,
    pc: u16,
    sp: u16,
    before: Mmu<M>,
    after: Mmu<M>,
    i: int,
)
    requires
        before.wf(),
        s.shows(paused, pc, sp, before, after),
    ensures
        s.paused == paused,
        s.mem_image is Some <==> paused,
        s.if_reg == before.if_reg,
        s.ie_reg == before.ie_reg,
        s.cgb_mode == before.cgb_mode,
        s.vram_bank == before.ppu.vram_bank,
        s.wram_bank == before.wram_bank,
        s.active_rom_bank == cart_banks(before.cart).0,
        s.sram_bank == cart_banks(before.cart).1,
        s.sram_enabled == cart_banks(before.cart).2,
        pc >= 64 ==> s.disassembly_base == pc - 64,
        pc < 64 ==> s.disassembly_base == 0,
        s.disassembly_bytes@.len() == 512,
        s.stack_base == sp,
        s.stack_bytes@.len() == 64,
        0 <= i < 512 ==> held_at(
            before,
            (s.disassembly_base + i) % 0x1_0000,
            s.disassembly_bytes@[i],
        ),
        0 <= i < 64 ==> held_at(before, (sp + i) % 0x1_0000, s.stack_bytes@[i]),
        s.mem_image matches Some(image) ==> (0 <= i < 0x1_0000 ==> held_at(before, i, image@[i])),
{
    let (imaged, disassembled) = choose|imaged: Mmu<M>, disassembled: Mmu<M>|
        #[trigger] s.imaged(paused, before, imaged) && #[trigger] s.disassembled(
            imaged,
            disassembled,
        ) && reads_run(disassembled, s.stack_base, s.stack_bytes@, after);
    if let Some(image) = s.mem_image {
        lemma_run_reads_ram(before, 0, image@, imaged);
        if 0 <= i < 0x1_0000 {
            assert(held_at(before, (0 + i) % 0x1_0000, image@[i]));
        }
    }
    lemma_run_reads_ram(imaged, s.disassembly_base, s.disassembly_bytes@, disassembled);
    lemma_run_reads_ram(disassembled, s.stack_base, s.stack_bytes@, after);
    if 0 <= i < 512 {
        let addr = (s.disassembly_base + i) % 0x1_0000;
        assert(held_at(imaged, addr, s.disassembly_bytes@[i]));
        assert(ram_at(imaged, addr) == ram_at(before, addr));
    }
    if 0 <= i < 64 {
        let addr = (sp + i) % 0x1_0000;
        assert(held_at(disassembled, addr, s.stack_bytes@[i]));
        assert(ram_at(disassembled, addr) == ram_at(before, addr));
    }
}

/// Registers that reading does not change are each read as they are.
proof fn lemma_registers_as_they_are<E: PpuEngine>(
    ppu: Ppu<E>,
    addrs: Seq<u16>,
    vals: Seq<u8>,
    after: Ppu<E>,
)
    requires
        forall|p: Ppu<E>, addr: u16, q: Ppu<E>, val: u8| #[trigger]
            E::reads(p, addr, q, val) ==> q == p,
        reads_registers(ppu, addrs, vals, after),
    ensures
        after == ppu,
        forall|i: int| 0 <= i < vals.len() ==> E::reads(ppu, addrs[i], ppu, #[trigger] vals[i]),
    decreases vals.len(),
{
    if vals.len() > 0 {
        let mid = choose|mid: Ppu<E>|
            reads_registers(ppu, addrs, vals.drop_last(), mid) && #[trigger] E::reads(
                mid,
                addrs[vals.len() - 1],
                after,
                vals.last(),
            );
        lemma_registers_as_they_are(ppu, addrs, vals.drop_last(), mid);
        assert forall|i: int| 0 <= i < vals.len() implies E::reads(
            ppu,
            addrs[i],
            ppu,
            #[trigger] vals[i],
        ) by {
            if i < vals.len() - 1 {
                assert(vals.drop_last()[i] == vals[i]);
            }
        }
    }
}

/// What the viewers show of a picture unit whose registers reading does not change:
/// each register as it reads at its address, both banks of VRAM, the sprite table,
/// the picture, and, of a CGB, all colors.
pub proof fn law_viewers_show_the_picture_unit<E: PpuEngine>(
    s: PpuSnapshot,
    ppu: Ppu<E>,
    after: Ppu<E>,
    palette: int,
    color: int,
)
    requires
        forall|p: Ppu<E>, addr: u16, q: Ppu<E>, val: u8| #[trigger]
            E::reads(p, addr, q, val) ==> q == p,
        s.shows(ppu, after),
        0 <= palette < 8,
        0 <= color < 4,
    ensures
        after == ppu,
        E::reads(ppu, 0xFF40, ppu, s.lcdc),
        E::reads(ppu, 0xFF41, ppu, s.stat),
        E::reads(ppu, 0xFF42, ppu, s.scy),
        E::reads(ppu, 0xFF43, ppu, s.scx),
        E::reads(ppu, 0xFF44, ppu, s.ly),
        E::reads(ppu, 0xFF47, ppu, s.bgp),
        E::reads(ppu, 0xFF48, ppu, s.obp0),
        E::reads(ppu, 0xFF49, ppu, s.obp1),
        s.vram0@ == ppu.vram[0]@,
        s.vram1@ == ppu.vram[1]@,
        s.oam@ == ppu.oam@,
        s.framebuffer@ == E::picture(ppu),
        s.bank_shown(0) == ppu.vram[0]@,
        s.bank_shown(1) == ppu.vram[1]@,
        s.obp_shown(0) == s.obp0,
        s.obp_shown(1) == s.obp1,
        s.frame_counter == E::frame_count(ppu),
        s.cgb == E::cgb(ppu),
        s.cgb ==> s.cgb_bg_colors[palette][color] == E::bg_color(ppu, palette, color),
        s.cgb ==> s.cgb_ob_colors[palette][color] == E::ob_color(ppu, palette, color),
        !s.cgb ==> s.cgb_bg_colors[palette][color] == 0 && s.cgb_ob_colors[palette][color] == 0,
{
    let vals = s.registers();
    lemma_registers_as_they_are(ppu, crate::snapshot::shown_registers(), vals, after);
    assert(vals[0] == s.lcdc && vals[1] == s.stat && vals[2] == s.scy && vals[3] == s.scx && vals[4]
        == s.ly && vals[5] == s.bgp && vals[6] == s.obp0 && vals[7] == s.obp1);
}

/// A snapshot is taken of one moment: registers, picture and memory are those of the
/// machine before it, and the machine after it has the same CPU, RAM and model.
pub proof fn law_snapshot_of_a_machine<M: Machine>(
    s: UiSnapshot,
    before: GameBoy<M>,
    paused: bool,
    after: GameBoy<M>,
    addr: int,
)
    requires
        before.wf(),
        s.shows(before, paused, after),
        0xC000 <= addr < 0xFE00,
    ensures
        s.cpu.pc == before.cpu.pc,
        s.cpu.sp == before.cpu.sp,
        s.cpu.a == before.cpu.a,
        s.debugger.paused == paused,
        s.debugger.stack_base == before.cpu.sp,
        before.cpu.pc >= 64 ==> s.debugger.disassembly_base == before.cpu.pc - 64,
        s.debugger.if_reg == before.mmu.if_reg,
        s.debugger.ie_reg == before.mmu.ie_reg,
        s.debugger.mem_image matches Some(image) ==> image@[addr] == ram_at(before.mmu, addr),
        after.cpu == before.cpu,
        after.cgb == before.cgb,
        after.dmg_revision == before.dmg_revision,
        after.cgb_revision == before.cgb_revision,
        s.ppu.frame_counter == M::Ppu::frame_count(before.mmu.ppu),
        s.ppu.cgb == M::Ppu::cgb(before.mmu.ppu),
{
    let ppu = choose|ppu: Ppu<M::Ppu>|
        {
            &&& #[trigger] s.ppu.shows(before.mmu.ppu, ppu)
            &&& s.debugger.shows(
                paused,
                before.cpu.pc,
                before.cpu.sp,
                with_ppu(before.mmu, ppu),
                after.mmu,
            )
        };
    let (imaged, disassembled) = choose|imaged: Mmu<M>, disassembled: Mmu<M>|
        #[trigger] s.debugger.imaged(paused, with_ppu(before.mmu, ppu), imaged)
            && #[trigger] s.debugger.disassembled(imaged, disassembled) && reads_run(
            disassembled,
            s.debugger.stack_base,
            s.debugger.stack_bytes@,
            after.mmu,
        );
    let shown = with_ppu(before.mmu, ppu);
    crate::snapshot::law_snapshot_shows_ram(
        imaged,
        s.debugger.disassembly_base,
        s.debugger.disassembly_bytes@,
        disassembled,
    );
    crate::snapshot::law_snapshot_shows_ram(
        disassembled,
        s.debugger.stack_base,
        s.debugger.stack_bytes@,
        after.mmu,
    );
    if let Some(image) = s.debugger.mem_image {
        crate::snapshot::law_snapshot_shows_ram(shown, 0, image@, imaged);
        assert(crate::mmu::src_at(0, addr) == addr);
        assert(image@[addr] == shown.wram_byte(addr as u16));
        assert(ram_at(shown, addr) == ram_at(before.mmu, addr));
    }
}

} // verus!
