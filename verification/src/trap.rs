//! Trap router: the single entry path for every hardware exception and
//! interrupt.  A vector-table entry selects the action; the hard-fault path
//! classifies the execution context once per trap and either halts the
//! whole system with a decoded diagnostic record (kernel context) or marks
//! the one active process as faulted and returns control to kernel code
//! (process context), leaving every other process untouched.

use crate::context::{classify_context, spec_classify, ExecutionContext};
use crate::fault::{decode_fault, spec_fault_record_decodes, FaultRecord, FaultStatusRegisters,
    StackedRegisters};
use crate::process::{Process, ProcessTable};
use crate::vectors::VectorEntry;
use vstd::prelude::*;

verus! {

/// What taking a trap through a vector-table entry leads to.
#[derive(Clone, Copy, Debug, PartialEq, Eq, Structural)]
pub enum TrapAction {
    /// The boot path: only entries 0 and 1 lead here, and only at reset.
    Boot,
    /// Run the hard-fault classification and routing.
    RunHardFault,
    /// Transfer into the scheduler's system-call completion path; no fault
    /// logic runs.
    Syscall,
    /// The periodic tick.
    Tick,
    /// Forward, with no interpretation, to the shared peripheral service
    /// routine;
    /// the capsule that owns the source polls its own pending flags.
    PeripheralInterrupt,
    /// Halt forever: a reserved or unused source was taken, which is
    /// treated as impossible and therefore fatal on purpose.
    Halt,
}

/// The action each kind of vector entry leads to.
pub open spec fn spec_action_for(e: VectorEntry) -> TrapAction {
    match e {
        VectorEntry::InitialStack => TrapAction::Halt,
        VectorEntry::Reset => TrapAction::Boot,
        VectorEntry::HardFault => TrapAction::RunHardFault,
        VectorEntry::Svc => TrapAction::Syscall,
        VectorEntry::SysTick => TrapAction::Tick,
        VectorEntry::GenericIsr => TrapAction::PeripheralInterrupt,
        VectorEntry::Unhandled => TrapAction::Halt,
    }
}

/// Resolves a vector entry to the action the router takes for it.
pub fn action_for(e: VectorEntry) -> (a: TrapAction)
    ensures
        a == spec_action_for(e),
{
    match e {
        VectorEntry::InitialStack => TrapAction::Halt,
        VectorEntry::Reset => TrapAction::Boot,
        VectorEntry::HardFault => TrapAction::RunHardFault,
        VectorEntry::Svc => TrapAction::Syscall,
        VectorEntry::SysTick => TrapAction::Tick,
        VectorEntry::GenericIsr => TrapAction::PeripheralInterrupt,
        VectorEntry::Unhandled => TrapAction::Halt,
    }
}

/// How a hard fault leaves the system.
#[derive(Clone, Copy, Debug, PartialEq, Eq, Structural)]
pub enum HardFaultOutcome {
    /// A kernel-context fault: the protection invariant can no longer be
    /// trusted, so the only safe action is to report and stop forever.
    KernelPanic { record: FaultRecord },
    /// A process-context fault: recorded on the one faulting process; the
    /// kernel and every other process continue.
    ReturnToKernel,
}

/// Routes one hard fault.  The execution context is classified exactly once
/// from the exception-return value.  In kernel context the fault is decoded
/// into a diagnostic record and the outcome is the fatal panic path, with
/// no process touched.  In process context nothing is decoded: the active
/// process's fault flags go up, the five status words are copied into its
/// diagnostic scratch area, and control returns to kernel code, which will
/// apply that process's fault-response policy; every other slot is left
/// exactly as it was.
pub fn handle_hard_fault(
    exc_return: u32,
    stacked: StackedRegisters,
    status: FaultStatusRegisters,
    table: &mut ProcessTable,
    current: usize,
) -> (o: HardFaultOutcome)
    requires
        old(table).well_formed(),
        spec_classify(exc_return) == ExecutionContext::Process ==> current < old(
            table,
        ).slots@.len() && old(table).slots@[current as int] is Some,
    ensures
        final(table).well_formed(),
        spec_classify(exc_return) == ExecutionContext::Kernel ==> {
            &&& o is KernelPanic
            &&& spec_fault_record_decodes(o->record, stacked, status)
            &&& final(table).slots@ == old(table).slots@
        },
        spec_classify(exc_return) == ExecutionContext::Process ==> {
            &&& o == HardFaultOutcome::ReturnToKernel
            &&& final(table).slots@.len() == old(table).slots@.len()
            &&& forall|k: int|
                0 <= k < old(table).slots@.len() && k != current ==> final(table).slots@[k] == old(
                    table,
                ).slots@[k]
            &&& final(table).slots@[current as int] is Some
            &&& ({
                let p = old(table).slots@[current as int]->0;
                let q = final(table).slots@[current as int]->0;
                &&& q.syscall_fired
                &&& q.app_fault
                &&& q.scb_registers@ =~= seq![
                    status.ccr,
                    status.cfsr,
                    status.hfsr,
                    status.mmfar,
                    status.bfar,
                ]
                &&& q.code_start == p.code_start
                &&& q.code_size == p.code_size
                &&& q.ram_start == p.ram_start
                &&& q.ram_size == p.ram_size
                &&& q.fault_response == p.fault_response
                &&& q.active == p.active
                &&& q.grants == p.grants
                &&& q.grant_used == p.grant_used
            })
        },
{
    match classify_context(exc_return) {
        ExecutionContext::Kernel => HardFaultOutcome::KernelPanic {
            record: decode_fault(stacked, status),
        },
        ExecutionContext::Process => {
            let ghost pre_slots = table.slots@;
            let slot = table.slots.remove(current);
            match slot {
                Option::Some(mut p) => {
                    p.record_fault([status.ccr, status.cfsr, status.hfsr, status.mmfar, status.bfar]);
                    table.slots.insert(current, Option::Some(p));
                    proof {
                        assert(table.slots@ =~= pre_slots.update(
                            current as int,
                            Option::Some(p),
                        ));
                    }
                    HardFaultOutcome::ReturnToKernel
                },
                Option::None => vstd::pervasive::unreached(),
            }
        },
    }
}

} // verus!
