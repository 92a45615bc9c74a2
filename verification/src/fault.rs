//! Fault decoder: a pure transformation from the raw hardware fault-status
//! words and the eight registers stacked by the hardware at trap time into a
//! fully named diagnostic record.  Every individually architected bit of the
//! configurable-fault and hard-fault status registers is decoded, together
//! with the flag fields of the stacked program-status register.

use vstd::prelude::*;

verus! {

/// The eight registers pushed by the hardware onto the faulting stack.
#[derive(Clone, Copy, Debug, PartialEq, Eq, Structural)]
pub struct StackedRegisters {
    pub r0: u32,
    pub r1: u32,
    pub r2: u32,
    pub r3: u32,
    pub r12: u32,
    pub lr: u32,
    pub pc: u32,
    pub xpsr: u32,
}

/// The system-control-block words read at fault time: the system handler
/// control and state register, the configuration and control register, the
/// configurable-fault status register, the hard-fault status register, and
/// the two fault-address registers.
#[derive(Clone, Copy, Debug, PartialEq, Eq, Structural)]
pub struct FaultStatusRegisters {
    pub shcsr: u32,
    pub ccr: u32,
    pub cfsr: u32,
    pub hfsr: u32,
    pub mmfar: u32,
    pub bfar: u32,
}

/// A fault snapshot with every status bit decoded and named.  Created only
/// at fault time from the hardware's stacked frame and status words; read
/// back solely for diagnostic reporting.
#[derive(Clone, Copy, Debug, PartialEq, Eq, Structural)]
pub struct FaultRecord {
    pub stacked: StackedRegisters,
    pub status: FaultStatusRegisters,
    // Memory-management faults (low byte of the configurable-fault status).
    pub iaccviol: bool,
    pub daccviol: bool,
    pub munstkerr: bool,
    pub mstkerr: bool,
    pub mlsperr: bool,
    pub mmfarvalid: bool,
    // Bus faults (second byte).
    pub ibuserr: bool,
    pub preciserr: bool,
    pub impreciserr: bool,
    pub unstkerr: bool,
    pub stkerr: bool,
    pub lsperr: bool,
    pub bfarvalid: bool,
    // Usage faults (upper half).
    pub undefinstr: bool,
    pub invstate: bool,
    pub invpc: bool,
    pub nocp: bool,
    pub unaligned: bool,
    pub divbyzero: bool,
    // Hard-fault status.
    pub vecttbl: bool,
    pub forced: bool,
    // Decoded fields of the stacked program-status register.
    pub ici_it: u32,
    pub thumb_bit: bool,
    pub exception_number: usize,
}

/// Whether every bit of `mask` is set in `word`.
pub open spec fn spec_bits_set(word: u32, mask: u32) -> bool {
    word & mask == mask
}

/// The interruptible-instruction continuation field of a stacked
/// program-status word: bits 26..=25 over bits 15..=10.
pub open spec fn spec_ici_it(xpsr: u32) -> u32 {
    (((xpsr >> 25) & 0x3) << 6) | ((xpsr >> 10) & 0x3f)
}

/// The exception-number field of a stacked program-status word.
pub open spec fn spec_exception_number(xpsr: u32) -> usize {
    (xpsr & 0x1ff) as usize
}

/// That `rec` is the decoding of the given stacked frame and status words:
/// every named flag holds exactly when its architected bit is set in the
/// corresponding status word.  This pins every field of the record.
pub open spec fn spec_fault_record_decodes(
    rec: FaultRecord,
    stacked: StackedRegisters,
    status: FaultStatusRegisters,
) -> bool {
    &&& rec.stacked == stacked
    &&& rec.status == status
    &&& rec.iaccviol == spec_bits_set(status.cfsr, 0x01)
    &&& rec.daccviol == spec_bits_set(status.cfsr, 0x02)
    &&& rec.munstkerr == spec_bits_set(status.cfsr, 0x08)
    &&& rec.mstkerr == spec_bits_set(status.cfsr, 0x10)
    &&& rec.mlsperr == spec_bits_set(status.cfsr, 0x20)
    &&& rec.mmfarvalid == spec_bits_set(status.cfsr, 0x80)
    &&& rec.ibuserr == spec_bits_set(status.cfsr >> 8, 0x01)
    &&& rec.preciserr == spec_bits_set(status.cfsr >> 8, 0x02)
    &&& rec.impreciserr == spec_bits_set(status.cfsr >> 8, 0x04)
    &&& rec.unstkerr == spec_bits_set(status.cfsr >> 8, 0x08)
    &&& rec.stkerr == spec_bits_set(status.cfsr >> 8, 0x10)
    &&& rec.lsperr == spec_bits_set(status.cfsr >> 8, 0x20)
    &&& rec.bfarvalid == spec_bits_set(status.cfsr >> 8, 0x80)
    &&& rec.undefinstr == spec_bits_set(status.cfsr >> 16, 0x01)
    &&& rec.invstate == spec_bits_set(status.cfsr >> 16, 0x02)
    &&& rec.invpc == spec_bits_set(status.cfsr >> 16, 0x04)
    &&& rec.nocp == spec_bits_set(status.cfsr >> 16, 0x08)
    &&& rec.unaligned == spec_bits_set(status.cfsr >> 16, 0x100)
    &&& rec.divbyzero == spec_bits_set(status.cfsr >> 16, 0x200)
    &&& rec.vecttbl == spec_bits_set(status.hfsr, 0x02)
    &&& rec.forced == spec_bits_set(status.hfsr, 0x40000000)
    &&& rec.ici_it == spec_ici_it(stacked.xpsr)
    &&& rec.thumb_bit == ((stacked.xpsr >> 24) & 0x1 == 1)
    &&& rec.exception_number == spec_exception_number(stacked.xpsr)
}

/// Decodes the raw status words and the stacked frame into a named record.
/// Pure: reads nothing but its arguments and touches no hardware state.
pub fn decode_fault(stacked: StackedRegisters, status: FaultStatusRegisters) -> (rec: FaultRecord)
    ensures
        spec_fault_record_decodes(rec, stacked, status),
{
    let cfsr = status.cfsr;
    let hfsr = status.hfsr;
    let xpsr = stacked.xpsr;
    let rec = FaultRecord {
        stacked,
        status,
        iaccviol: cfsr & 0x01 == 0x01,
        daccviol: cfsr & 0x02 == 0x02,
        munstkerr: cfsr & 0x08 == 0x08,
        mstkerr: cfsr & 0x10 == 0x10,
        mlsperr: cfsr & 0x20 == 0x20,
        mmfarvalid: cfsr & 0x80 == 0x80,
        ibuserr: (cfsr >> 8) & 0x01 == 0x01,
        preciserr: (cfsr >> 8) & 0x02 == 0x02,
        impreciserr: (cfsr >> 8) & 0x04 == 0x04,
        unstkerr: (cfsr >> 8) & 0x08 == 0x08,
        stkerr: (cfsr >> 8) & 0x10 == 0x10,
        lsperr: (cfsr >> 8) & 0x20 == 0x20,
        bfarvalid: (cfsr >> 8) & 0x80 == 0x80,
        undefinstr: (cfsr >> 16) & 0x01 == 0x01,
        invstate: (cfsr >> 16) & 0x02 == 0x02,
        invpc: (cfsr >> 16) & 0x04 == 0x04,
        nocp: (cfsr >> 16) & 0x08 == 0x08,
        unaligned: (cfsr >> 16) & 0x100 == 0x100,
        divbyzero: (cfsr >> 16) & 0x200 == 0x200,
        vecttbl: hfsr & 0x02 == 0x02,
        forced: hfsr & 0x40000000 == 0x40000000,
        ici_it: (((xpsr >> 25) & 0x3) << 6) | ((xpsr >> 10) & 0x3f),
        thumb_bit: (xpsr >> 24) & 0x1 == 1,
        exception_number: (xpsr & 0x1ff) as usize,
    };
    rec
}

} // verus!
