//! The debugger window.

use crate::snapshot::CpuSnapshot;
use crate::text::{decimal, hex2, hex4, push_decimal, push_hex2, push_hex4};
use vstd::prelude::*;
use vstd::string::StringExecFns;

verus! {

/// A register and its value.
pub struct RegisterRow {
    pub label: &'static str,
    pub text: String,
}

/// The names of the registers, in the order in which they are shown.
pub open spec fn register_labels() -> Seq<Seq<char>> {
    seq![
        "A"@,
        "F"@,
        "B"@,
        "C"@,
        "D"@,
        "E"@,
        "H"@,
        "L"@,
        "SP"@,
        "PC"@,
        "IME"@,
        "Cycles"@,
    ]
}

/// The values of the registers, in the order in which they are shown.
pub open spec fn register_texts(cpu: CpuSnapshot) -> Seq<Seq<char>> {
    seq![
        hex2(cpu.a),
        hex2(cpu.f),
        hex2(cpu.b),
        hex2(cpu.c),
        hex2(cpu.d),
        hex2(cpu.e),
        hex2(cpu.h),
        hex2(cpu.l),
        hex4(cpu.sp),
        hex4(cpu.pc),
        if cpu.ime {
            "true"@
        } else {
            "false"@
        },
        decimal(cpu.cycles as nat),
    ]
}

fn byte_row(label: &'static str, n: u8) -> (row: RegisterRow)
    ensures
        row.label == label,
        row.text@ == hex2(n),
{
    let mut text = String::new();
    push_hex2(&mut text, n);
    proof {
        assert(text@ =~= hex2(n));
    }
    RegisterRow { label, text }
}

fn word_row(label: &'static str, n: u16) -> (row: RegisterRow)
    ensures
        row.label == label,
        row.text@ == hex4(n),
{
    let mut text = String::new();
    push_hex4(&mut text, n);
    proof {
        assert(text@ =~= hex4(n));
    }
    RegisterRow { label, text }
}

fn flag_row(label: &'static str, on: bool) -> (row: RegisterRow)
    ensures
        row.label == label,
        row.text@ == (if on {
            "true"@
        } else {
            "false"@
        }),
{
    let mut text = String::new();
    text.append(
        if on {
            "true"
        } else {
            "false"
        },
    );
    proof {
        assert(text@ =~= (if on {
            "true"@
        } else {
            "false"@
        }));
    }
    RegisterRow { label, text }
}

fn number_row(label: &'static str, n: u64) -> (row: RegisterRow)
    ensures
        row.label == label,
        row.text@ == decimal(n as nat),
{
    let mut text = String::new();
    push_decimal(&mut text, n);
    proof {
        assert(text@ =~= decimal(n as nat));
    }
    RegisterRow { label, text }
}

/// The table of registers that the debugger draws.
pub fn register_rows(cpu: &CpuSnapshot) -> (rows: Vec<RegisterRow>)
    ensures
        rows@.len() == register_labels().len(),
        forall|i: int|
            0 <= i < rows@.len() ==> (#[trigger] rows@[i]).label@ == register_labels()[i]
                && rows@[i].text@ == register_texts(*cpu)[i],
{
    let mut rows: Vec<RegisterRow> = Vec::new();
    rows.push(byte_row("A", cpu.a));
    rows.push(byte_row("F", cpu.f));
    rows.push(byte_row("B", cpu.b));
    rows.push(byte_row("C", cpu.c));
    rows.push(byte_row("D", cpu.d));
    rows.push(byte_row("E", cpu.e));
    rows.push(byte_row("H", cpu.h));
    rows.push(byte_row("L", cpu.l));
    rows.push(word_row("SP", cpu.sp));
    rows.push(word_row("PC", cpu.pc));
    rows.push(flag_row("IME", cpu.ime));
    rows.push(number_row("Cycles", cpu.cycles));
    rows
}

} // verus!
