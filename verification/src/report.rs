//! The kernel-fault diagnostic report: a deterministic, human-readable,
//! multi-line rendering of a decoded fault record, emitted once before the
//! system halts on an unrecoverable kernel fault.  Its exact text is a
//! stable contract consumed by developers over the debug channel, so every
//! line is specified to the character.

use crate::fault::FaultRecord;
use vstd::prelude::*;
use vstd::string::StringExecFns;

verus! {

/// The digit character a nibble renders as.
pub open spec fn spec_hex_digit(d: u32) -> Seq<char> {
    if d == 0 {
        "0"@
    } else if d == 1 {
        "1"@
    } else if d == 2 {
        "2"@
    } else if d == 3 {
        "3"@
    } else if d == 4 {
        "4"@
    } else if d == 5 {
        "5"@
    } else if d == 6 {
        "6"@
    } else if d == 7 {
        "7"@
    } else if d == 8 {
        "8"@
    } else if d == 9 {
        "9"@
    } else if d == 10 {
        "a"@
    } else if d == 11 {
        "b"@
    } else if d == 12 {
        "c"@
    } else if d == 13 {
        "d"@
    } else if d == 14 {
        "e"@
    } else {
        "f"@
    }
}

/// Renders one nibble as its lower-case hexadecimal digit.
pub fn hex_digit_str(d: u32) -> (r: &'static str)
    requires
        d < 16,
    ensures
        r@ == spec_hex_digit(d),
{
    if d == 0 {
        "0"
    } else if d == 1 {
        "1"
    } else if d == 2 {
        "2"
    } else if d == 3 {
        "3"
    } else if d == 4 {
        "4"
    } else if d == 5 {
        "5"
    } else if d == 6 {
        "6"
    } else if d == 7 {
        "7"
    } else if d == 8 {
        "8"
    } else if d == 9 {
        "9"
    } else if d == 10 {
        "a"
    } else if d == 11 {
        "b"
    } else if d == 12 {
        "c"
    } else if d == 13 {
        "d"
    } else if d == 14 {
        "e"
    } else {
        "f"
    }
}

/// A word rendered as eight lower-case hexadecimal digits, highest nibble
/// first, always zero-padded.
pub open spec fn spec_hex32(x: u32) -> Seq<char> {
    spec_hex_digit((x >> 28) & 0xf) + spec_hex_digit((x >> 24) & 0xf) + spec_hex_digit(
        (x >> 20) & 0xf,
    ) + spec_hex_digit((x >> 16) & 0xf) + spec_hex_digit((x >> 12) & 0xf) + spec_hex_digit(
        (x >> 8) & 0xf,
    ) + spec_hex_digit((x >> 4) & 0xf) + spec_hex_digit(x & 0xf)
}

/// Every nibble extracted from a word is below sixteen.
proof fn lemma_nibbles_bounded(x: u32)
    by (bit_vector)
    ensures
        (x >> 28) & 0xf < 16,
        (x >> 24) & 0xf < 16,
        (x >> 20) & 0xf < 16,
        (x >> 16) & 0xf < 16,
        (x >> 12) & 0xf < 16,
        (x >> 8) & 0xf < 16,
        (x >> 4) & 0xf < 16,
        x & 0xf < 16,
{
}

/// Renders a word as eight zero-padded lower-case hexadecimal digits.
pub fn hex32(x: u32) -> (s: String)
    ensures
        s@ == spec_hex32(x),
{
    proof {
        lemma_nibbles_bounded(x);
    }
    let mut s = String::new();
    s.append(hex_digit_str((x >> 28) & 0xf));
    proof {
        assert(s@ =~= spec_hex_digit((x >> 28) & 0xf));
    }
    s.append(hex_digit_str((x >> 24) & 0xf));
    s.append(hex_digit_str((x >> 20) & 0xf));
    s.append(hex_digit_str((x >> 16) & 0xf));
    s.append(hex_digit_str((x >> 12) & 0xf));
    s.append(hex_digit_str((x >> 8) & 0xf));
    s.append(hex_digit_str((x >> 4) & 0xf));
    s.append(hex_digit_str(x & 0xf));
    s
}

/// The words a flag renders as.
pub open spec fn spec_bool_str(b: bool) -> Seq<char> {
    if b {
        "true"@
    } else {
        "false"@
    }
}

/// Renders a flag.
pub fn bool_str(b: bool) -> (r: &'static str)
    ensures
        r@ == spec_bool_str(b),
{
    if b {
        "true"
    } else {
        "false"
    }
}

/// The architectural name of a stacked exception number.
pub open spec fn spec_exception_name(n: usize) -> Seq<char> {
    if n == 0 {
        "Thread Mode"@
    } else if n == 2 {
        "NMI"@
    } else if n == 3 {
        "HardFault"@
    } else if n == 4 {
        "MemManage"@
    } else if n == 5 {
        "BusFault"@
    } else if n == 6 {
        "UsageFault"@
    } else if n == 11 {
        "SVCall"@
    } else if n == 12 {
        "Reserved for Debug"@
    } else if n == 14 {
        "PendSV"@
    } else if n == 15 {
        "SysTick"@
    } else if n >= 16 {
        "IRQn"@
    } else {
        "Reserved"@
    }
}

/// Names the exception a stacked program-status word reports.
pub fn ipsr_isr_number_to_str(n: usize) -> (r: &'static str)
    ensures
        r@ == spec_exception_name(n),
{
    if n == 0 {
        "Thread Mode"
    } else if n == 2 {
        "NMI"
    } else if n == 3 {
        "HardFault"
    } else if n == 4 {
        "MemManage"
    } else if n == 5 {
        "BusFault"
    } else if n == 6 {
        "UsageFault"
    } else if n == 11 {
        "SVCall"
    } else if n == 12 {
        "Reserved for Debug"
    } else if n == 14 {
        "PendSV"
    } else if n == 15 {
        "SysTick"
    } else if n >= 16 {
        "IRQn"
    } else {
        "Reserved"
    }
}

/// One register line: its label, the word in hexadecimal, a line break.
pub open spec fn spec_reg_line(label: Seq<char>, value: u32) -> Seq<char> {
    label + spec_hex32(value) + "\n"@
}

/// Appends one register line.
fn push_reg_line(out: &mut String, label: &str, value: u32)
    ensures
        final(out)@ == old(out)@ + spec_reg_line(label@, value),
{
    out.append(label);
    let h = hex32(value);
    out.append(h.as_str());
    out.append("\n");
    proof {
        assert(out@ =~= old(out)@ + spec_reg_line(label@, value));
    }
}

/// One flag line: its label, the flag, a line break.
pub open spec fn spec_flag_line(label: Seq<char>, value: bool) -> Seq<char> {
    label + spec_bool_str(value) + "\n"@
}

/// Appends one flag line.
fn push_flag_line(out: &mut String, label: &str, value: bool)
    ensures
        final(out)@ == old(out)@ + spec_flag_line(label@, value),
{
    out.append(label);
    out.append(bool_str(value));
    out.append("\n");
    proof {
        assert(out@ =~= old(out)@ + spec_flag_line(label@, value));
    }
}

/// One fault-address line: its label, the validity flag, the address.
pub open spec fn spec_addr_line(label: Seq<char>, valid: bool, addr: u32) -> Seq<char> {
    label + spec_bool_str(valid) + ") 0x"@ + spec_hex32(addr) + "\n"@
}

/// Appends one fault-address line.
fn push_addr_line(out: &mut String, label: &str, valid: bool, addr: u32)
    ensures
        final(out)@ == old(out)@ + spec_addr_line(label@, valid, addr),
{
    out.append(label);
    out.append(bool_str(valid));
    out.append(") 0x");
    let h = hex32(addr);
    out.append(h.as_str());
    out.append("\n");
    proof {
        assert(out@ =~= old(out)@ + spec_addr_line(label@, valid, addr));
    }
}

/// The report's opening: the mode line and the kernel version tag.
pub open spec fn spec_report_header(version: Seq<char>) -> Seq<char> {
    "Kernel HardFault.\n"@ + "\tKernel version "@ + version + "\n"@
}

/// Renders the report's opening.
fn report_header(version: &str) -> (s: String)
    ensures
        s@ == spec_report_header(version@),
{
    let mut s = String::new();
    s.append("Kernel HardFault.\n");
    proof {
        assert(s@ =~= "Kernel HardFault.\n"@);
    }
    s.append("\tKernel version ");
    s.append(version);
    s.append("\n");
    s
}

/// The stacked-register section: the eight hardware-pushed registers and
/// the fields decoded from the stacked program-status word.
pub open spec fn spec_report_stacked(rec: FaultRecord) -> Seq<char> {
    spec_reg_line("\tr0  0x"@, rec.stacked.r0) + spec_reg_line("\tr1  0x"@, rec.stacked.r1)
        + spec_reg_line("\tr2  0x"@, rec.stacked.r2) + spec_reg_line("\tr3  0x"@, rec.stacked.r3)
        + spec_reg_line("\tr12 0x"@, rec.stacked.r12) + spec_reg_line("\tlr  0x"@, rec.stacked.lr)
        + spec_reg_line("\tpc  0x"@, rec.stacked.pc) + spec_reg_line("\tpsr 0x"@, rec.stacked.xpsr)
        + spec_reg_line("\tici.it 0x"@, rec.ici_it) + spec_flag_line("\tthumb "@, rec.thumb_bit)
        + "\texception "@ + spec_exception_name(rec.exception_number) + "\n"@
}

/// Renders the stacked-register section.
fn report_stacked(rec: &FaultRecord) -> (s: String)
    ensures
        s@ == spec_report_stacked(*rec),
{
    let mut s = String::new();
    push_reg_line(&mut s, "\tr0  0x", rec.stacked.r0);
    proof {
        assert(s@ =~= spec_reg_line("\tr0  0x"@, rec.stacked.r0));
    }
    push_reg_line(&mut s, "\tr1  0x", rec.stacked.r1);
    push_reg_line(&mut s, "\tr2  0x", rec.stacked.r2);
    push_reg_line(&mut s, "\tr3  0x", rec.stacked.r3);
    push_reg_line(&mut s, "\tr12 0x", rec.stacked.r12);
    push_reg_line(&mut s, "\tlr  0x", rec.stacked.lr);
    push_reg_line(&mut s, "\tpc  0x", rec.stacked.pc);
    push_reg_line(&mut s, "\tpsr 0x", rec.stacked.xpsr);
    push_reg_line(&mut s, "\tici.it 0x", rec.ici_it);
    push_flag_line(&mut s, "\tthumb ", rec.thumb_bit);
    s.append("\texception ");
    s.append(ipsr_isr_number_to_str(rec.exception_number));
    s.append("\n");
    s
}

/// The stack-bounds and raw-status section.
pub open spec fn spec_report_status(
    rec: FaultRecord,
    faulting_stack: u32,
    stack_top: u32,
    stack_bottom: u32,
) -> Seq<char> {
    spec_reg_line("\tsp  0x"@, faulting_stack) + spec_reg_line(
        "\ttop of stack     0x"@,
        stack_top,
    ) + spec_reg_line("\tbottom of stack  0x"@, stack_bottom) + spec_reg_line(
        "\tSHCSR 0x"@,
        rec.status.shcsr,
    ) + spec_reg_line("\tCFSR  0x"@, rec.status.cfsr) + spec_reg_line(
        "\tHFSR  0x"@,
        rec.status.hfsr,
    )
}

/// Renders the stack-bounds and raw-status section.
fn report_status(rec: &FaultRecord, faulting_stack: u32, stack_top: u32, stack_bottom: u32) -> (s:
    String)
    ensures
        s@ == spec_report_status(*rec, faulting_stack, stack_top, stack_bottom),
{
    let mut s = String::new();
    push_reg_line(&mut s, "\tsp  0x", faulting_stack);
    proof {
        assert(s@ =~= spec_reg_line("\tsp  0x"@, faulting_stack));
    }
    push_reg_line(&mut s, "\ttop of stack     0x", stack_top);
    push_reg_line(&mut s, "\tbottom of stack  0x", stack_bottom);
    push_reg_line(&mut s, "\tSHCSR 0x", rec.status.shcsr);
    push_reg_line(&mut s, "\tCFSR  0x", rec.status.cfsr);
    push_reg_line(&mut s, "\tHFSR  0x", rec.status.hfsr);
    s
}

/// The memory-management and bus fault bits, one named line each.
pub open spec fn spec_report_mem_bus_flags(rec: FaultRecord) -> Seq<char> {
    spec_flag_line("\tInstruction Access Violation:       "@, rec.iaccviol) + spec_flag_line(
        "\tData Access Violation:              "@,
        rec.daccviol,
    ) + spec_flag_line("\tMemory Management Unstacking Fault: "@, rec.munstkerr) + spec_flag_line(
        "\tMemory Management Stacking Fault:   "@,
        rec.mstkerr,
    ) + spec_flag_line("\tMemory Management Lazy FP Fault:    "@, rec.mlsperr) + spec_flag_line(
        "\tInstruction Bus Error:              "@,
        rec.ibuserr,
    ) + spec_flag_line("\tPrecise Data Bus Error:             "@, rec.preciserr) + spec_flag_line(
        "\tImprecise Data Bus Error:           "@,
        rec.impreciserr,
    ) + spec_flag_line("\tBus Unstacking Fault:               "@, rec.unstkerr) + spec_flag_line(
        "\tBus Stacking Fault:                 "@,
        rec.stkerr,
    ) + spec_flag_line("\tBus Lazy FP Fault:                  "@, rec.lsperr)
}

/// Renders the memory-management and bus fault bits.
fn report_mem_bus_flags(rec: &FaultRecord) -> (s: String)
    ensures
        s@ == spec_report_mem_bus_flags(*rec),
{
    let mut s = String::new();
    push_flag_line(&mut s, "\tInstruction Access Violation:       ", rec.iaccviol);
    proof {
        assert(s@ =~= spec_flag_line("\tInstruction Access Violation:       "@, rec.iaccviol));
    }
    push_flag_line(&mut s, "\tData Access Violation:              ", rec.daccviol);
    push_flag_line(&mut s, "\tMemory Management Unstacking Fault: ", rec.munstkerr);
    push_flag_line(&mut s, "\tMemory Management Stacking Fault:   ", rec.mstkerr);
    push_flag_line(&mut s, "\tMemory Management Lazy FP Fault:    ", rec.mlsperr);
    push_flag_line(&mut s, "\tInstruction Bus Error:              ", rec.ibuserr);
    push_flag_line(&mut s, "\tPrecise Data Bus Error:             ", rec.preciserr);
    push_flag_line(&mut s, "\tImprecise Data Bus Error:           ", rec.impreciserr);
    push_flag_line(&mut s, "\tBus Unstacking Fault:               ", rec.unstkerr);
    push_flag_line(&mut s, "\tBus Stacking Fault:                 ", rec.stkerr);
    push_flag_line(&mut s, "\tBus Lazy FP Fault:                  ", rec.lsperr);
    s
}

/// The usage-fault and hard-fault bits and both fault addresses.
pub open spec fn spec_report_usage_flags(rec: FaultRecord) -> Seq<char> {
    spec_flag_line("\tUndefined Instruction Usage Fault:  "@, rec.undefinstr) + spec_flag_line(
        "\tInvalid State Usage Fault:          "@,
        rec.invstate,
    ) + spec_flag_line("\tInvalid PC Load Usage Fault:        "@, rec.invpc) + spec_flag_line(
        "\tNo Coprocessor Usage Fault:         "@,
        rec.nocp,
    ) + spec_flag_line("\tUnaligned Access Usage Fault:       "@, rec.unaligned) + spec_flag_line(
        "\tDivide By Zero:                     "@,
        rec.divbyzero,
    ) + spec_flag_line("\tBus Fault on Vector Table Read:     "@, rec.vecttbl) + spec_flag_line(
        "\tForced Hard Fault:                  "@,
        rec.forced,
    ) + spec_addr_line("\tFaulting Memory Address: (valid: "@, rec.mmfarvalid, rec.status.mmfar)
        + spec_addr_line("\tBus Fault Address:       (valid: "@, rec.bfarvalid, rec.status.bfar)
}

/// Renders the usage-fault and hard-fault bits and the fault addresses.
fn report_usage_flags(rec: &FaultRecord) -> (s: String)
    ensures
        s@ == spec_report_usage_flags(*rec),
{
    let mut s = String::new();
    push_flag_line(&mut s, "\tUndefined Instruction Usage Fault:  ", rec.undefinstr);
    proof {
        assert(s@ =~= spec_flag_line("\tUndefined Instruction Usage Fault:  "@, rec.undefinstr));
    }
    push_flag_line(&mut s, "\tInvalid State Usage Fault:          ", rec.invstate);
    push_flag_line(&mut s, "\tInvalid PC Load Usage Fault:        ", rec.invpc);
    push_flag_line(&mut s, "\tNo Coprocessor Usage Fault:         ", rec.nocp);
    push_flag_line(&mut s, "\tUnaligned Access Usage Fault:       ", rec.unaligned);
    push_flag_line(&mut s, "\tDivide By Zero:                     ", rec.divbyzero);
    push_flag_line(&mut s, "\tBus Fault on Vector Table Read:     ", rec.vecttbl);
    push_flag_line(&mut s, "\tForced Hard Fault:                  ", rec.forced);
    push_addr_line(&mut s, "\tFaulting Memory Address: (valid: ", rec.mmfarvalid, rec.status.mmfar);
    push_addr_line(&mut s, "\tBus Fault Address:       (valid: ", rec.bfarvalid, rec.status.bfar);
    s
}

/// The whole report, to the character: the mode line, the kernel version
/// tag, every stacked register, the decoded program-status fields, the
/// stack bounds, the raw status words, every individually named fault bit,
/// and both fault addresses with their validity flags.
pub open spec fn spec_kernel_fault_report(
    rec: FaultRecord,
    version: Seq<char>,
    faulting_stack: u32,
    stack_top: u32,
    stack_bottom: u32,
) -> Seq<char> {
    spec_report_header(version) + spec_report_stacked(rec) + spec_report_status(
        rec,
        faulting_stack,
        stack_top,
        stack_bottom,
    ) + spec_report_mem_bus_flags(rec) + spec_report_usage_flags(rec)
}

/// Renders the fatal kernel-fault report.  Deterministic: a function of
/// the decoded record, the version tag and the stack bounds alone.
pub fn kernel_fault_report(
    rec: &FaultRecord,
    version: &str,
    faulting_stack: u32,
    stack_top: u32,
    stack_bottom: u32,
) -> (r: String)
    ensures
        r@ == spec_kernel_fault_report(*rec, version@, faulting_stack, stack_top, stack_bottom),
{
    let mut s = report_header(version);
    let stacked = report_stacked(rec);
    s.append(stacked.as_str());
    let status = report_status(rec, faulting_stack, stack_top, stack_bottom);
    s.append(status.as_str());
    let mem_bus = report_mem_bus_flags(rec);
    s.append(mem_bus.as_str());
    let usage = report_usage_flags(rec);
    s.append(usage.as_str());
    s
}

} // verus!
