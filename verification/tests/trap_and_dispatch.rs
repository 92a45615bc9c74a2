//! Trap routing, fault classification, and driver dispatch.

use launchxl::context::{classify_context, ExecutionContext};
use launchxl::dispatch::{
    dispatch, grant_size, CapsuleId, Command, DispatchResult, Platform, DRIVER_NUM_ALARM,
    DRIVER_NUM_BUTTON, DRIVER_NUM_CONSOLE, DRIVER_NUM_GPIO, DRIVER_NUM_LED, DRIVER_NUM_RNG,
};
use launchxl::fault::{decode_fault, FaultStatusRegisters, StackedRegisters};
use launchxl::process::{load_processes, FaultResponse, ProcessImage, ProcessTable};
use launchxl::trap::{action_for, handle_hard_fault, HardFaultOutcome, TrapAction};
use launchxl::vectors::{VectorEntry, VectorTable, FIRST_IRQ_VECTOR, NUM_VECTORS};

fn command(cmd_num: usize) -> Command {
    Command { cmd_num, arg0: 0, arg1: 0, arg2: 0, arg3: 0 }
}

fn three_process_table() -> ProcessTable {
    let images = vec![
        ProcessImage { code_start: 0x1000, code_size: 0x100, ram_size: 64 },
        ProcessImage { code_start: 0x2000, code_size: 0x100, ram_size: 64 },
        ProcessImage { code_start: 0x3000, code_size: 0x100, ram_size: 64 },
    ];
    load_processes(&images, 0x20000, 0x300, 3, FaultResponse::Panic)
}

fn stacked() -> StackedRegisters {
    StackedRegisters {
        r0: 0xdeadbeef,
        r1: 1,
        r2: 2,
        r3: 3,
        r12: 12,
        lr: 0xfffffff1,
        pc: 0x0000_1234,
        xpsr: 0x0100_0003,
    }
}

fn status() -> FaultStatusRegisters {
    FaultStatusRegisters {
        shcsr: 0x0007_0008,
        ccr: 0x0000_0200,
        cfsr: 0x0000_0001,
        hfsr: 0x4000_0000,
        mmfar: 0x2000_0040,
        bfar: 0x0000_0000,
    }
}

// Vector table completeness: every index resolves to a defined handler and
// unused indices resolve to the default handler.
#[test]
fn vector_table_complete() {
    let table = VectorTable::base_vectors();
    assert_eq!(table.len(), NUM_VECTORS);
    assert_eq!(table.entry(0), VectorEntry::InitialStack);
    assert_eq!(table.entry(1), VectorEntry::Reset);
    assert_eq!(table.entry(3), VectorEntry::HardFault);
    assert_eq!(table.entry(11), VectorEntry::Svc);
    assert_eq!(table.entry(15), VectorEntry::SysTick);
    for i in 0..NUM_VECTORS {
        let e = table.entry(i);
        if i >= FIRST_IRQ_VECTOR {
            assert_eq!(e, VectorEntry::GenericIsr);
        } else if ![0, 1, 3, 11, 15].contains(&i) {
            assert_eq!(e, VectorEntry::Unhandled);
        }
    }
}

#[test]
fn vector_actions() {
    assert_eq!(action_for(VectorEntry::HardFault), TrapAction::RunHardFault);
    assert_eq!(action_for(VectorEntry::Svc), TrapAction::Syscall);
    assert_eq!(action_for(VectorEntry::SysTick), TrapAction::Tick);
    assert_eq!(action_for(VectorEntry::GenericIsr), TrapAction::PeripheralInterrupt);
    assert_eq!(action_for(VectorEntry::Unhandled), TrapAction::Halt);
    assert_eq!(action_for(VectorEntry::Reset), TrapAction::Boot);
}

// Fault classification totality: the stack-selector bit alone decides, and
// every value lands on exactly one of the two contexts.
#[test]
fn classification_total() {
    assert_eq!(classify_context(0xfffffff1), ExecutionContext::Kernel);
    assert_eq!(classify_context(0xfffffff9), ExecutionContext::Kernel);
    assert_eq!(classify_context(0xfffffffd), ExecutionContext::Process);
    assert_eq!(classify_context(0x00000004), ExecutionContext::Process);
    for lr in [0u32, 1, 2, 3, 4, 5, 6, 7, 0xffffffff, 0x80000000] {
        let ctx = classify_context(lr);
        assert!(ctx == ExecutionContext::Kernel || ctx == ExecutionContext::Process);
        assert_eq!(ctx == ExecutionContext::Kernel, lr & 0x4 == 0);
    }
}

#[test]
fn decode_named_bits() {
    let rec = decode_fault(stacked(), status());
    assert!(rec.iaccviol);
    assert!(!rec.daccviol);
    assert!(rec.forced);
    assert!(!rec.vecttbl);
    assert!(!rec.mmfarvalid);
    assert!(!rec.bfarvalid);
    assert_eq!(rec.exception_number, 3);
    // Bit 24 of the stacked program-status word is set.
    assert!(rec.thumb_bit);
    // Bits 26..=25 are zero; bits 15..=10 are zero.
    assert_eq!(rec.ici_it, 0);
}

#[test]
fn decode_bus_and_usage_bits() {
    let st = FaultStatusRegisters {
        shcsr: 0,
        ccr: 0,
        cfsr: 0x0202_0202,
        hfsr: 0x0000_0002,
        mmfar: 0xffff_ffff,
        bfar: 0xffff_ffff,
    };
    let rec = decode_fault(stacked(), st);
    assert!(rec.daccviol);
    assert!(rec.preciserr);
    assert!(rec.invstate);
    assert!(rec.vecttbl);
    assert!(!rec.forced);
    assert!(!rec.iaccviol);
    let st2 = FaultStatusRegisters { cfsr: 0x0300_0000, ..st };
    let rec2 = decode_fault(stacked(), st2);
    assert!(rec2.unaligned);
    assert!(rec2.divbyzero);
}

#[test]
fn decode_ici_it_field() {
    // Bits 26..=25 both set and bits 15..=10 all set.
    let xpsr = (0x3 << 25) | (0x3f << 10);
    let rec = decode_fault(
        StackedRegisters { xpsr, ..stacked() },
        status(),
    );
    assert_eq!(rec.ici_it, 0xff);
    assert_eq!(rec.exception_number, 0);
}

// Kernel-fault fatality: a kernel-classified fault decodes the record and
// halts; no process slot is touched.
#[test]
fn kernel_fault_is_fatal() {
    let mut table = three_process_table();
    let outcome = handle_hard_fault(0xfffffff1, stacked(), status(), &mut table, 0);
    match outcome {
        HardFaultOutcome::KernelPanic { record } => {
            assert!(record.iaccviol);
            assert!(record.forced);
            assert_eq!(record.stacked.r0, 0xdeadbeef);
        }
        HardFaultOutcome::ReturnToKernel => panic!("a kernel fault must be fatal"),
    }
    for slot in table.slots.iter() {
        let p = slot.as_ref().unwrap();
        assert!(!p.app_fault);
        assert!(!p.syscall_fired);
    }
}

// Process-fault containment: the one faulting process is marked, every
// other slot is untouched, and dispatch for the others still succeeds with
// unchanged results.
#[test]
fn process_fault_contained() {
    let platform = Platform::new();
    let mut table = three_process_table();
    let before_0 = dispatch(&platform, DRIVER_NUM_ALARM, command(1), &mut table, 0);
    let before_2 = dispatch(&platform, DRIVER_NUM_ALARM, command(1), &mut table, 2);

    let outcome = handle_hard_fault(0xfffffffd, stacked(), status(), &mut table, 1);
    assert_eq!(outcome, HardFaultOutcome::ReturnToKernel);

    let p1 = table.slots[1].as_ref().unwrap();
    assert!(p1.app_fault);
    assert!(p1.syscall_fired);
    assert_eq!(p1.scb_registers, vec![0x0000_0200, 0x0000_0001, 0x4000_0000, 0x2000_0040, 0]);

    let p0 = table.slots[0].as_ref().unwrap();
    let p2 = table.slots[2].as_ref().unwrap();
    assert!(!p0.app_fault && !p2.app_fault);

    let after_0 = dispatch(&platform, DRIVER_NUM_ALARM, command(1), &mut table, 0);
    let after_2 = dispatch(&platform, DRIVER_NUM_ALARM, command(1), &mut table, 2);
    assert_eq!(before_0, after_0);
    assert_eq!(before_2, after_2);
    assert!(matches!(after_0, DispatchResult::Handled { capsule: CapsuleId::Alarm, .. }));
}

// Dispatch correctness: each driver number reaches its one capsule with the
// caller's identity; an unknown number answers the defined miss without any
// side effect.
#[test]
fn dispatch_reaches_one_capsule() {
    let platform = Platform::new();
    let mut table = three_process_table();
    let r = dispatch(&platform, DRIVER_NUM_ALARM, command(1), &mut table, 0);
    match r {
        DispatchResult::Handled { capsule, grant_start, grant_size: gs } => {
            assert_eq!(capsule, CapsuleId::Alarm);
            assert_eq!(grant_start, 0x20000);
            assert_eq!(gs, grant_size(CapsuleId::Alarm));
        }
        _ => panic!("the alarm capsule must handle its own driver number"),
    }
    let r2 = dispatch(&platform, DRIVER_NUM_CONSOLE, command(1), &mut table, 0);
    assert!(matches!(r2, DispatchResult::Handled { capsule: CapsuleId::Console, .. }));
}

#[test]
fn dispatch_unknown_driver_is_defined() {
    let platform = Platform::new();
    let mut table = three_process_table();
    let used_before = table.slots[0].as_ref().unwrap().grant_used;
    let r = dispatch(&platform, 7, command(1), &mut table, 0);
    assert_eq!(r, DispatchResult::NoSuchDriver);
    assert_eq!(table.slots[0].as_ref().unwrap().grant_used, used_before);
    assert!(table.slots[0].as_ref().unwrap().grants.is_empty());
}

#[test]
fn dispatch_probe_touches_nothing() {
    let platform = Platform::new();
    let mut table = three_process_table();
    let r = dispatch(&platform, DRIVER_NUM_LED, command(0), &mut table, 0);
    assert_eq!(r, DispatchResult::Present { capsule: CapsuleId::Led });
    assert!(table.slots[0].as_ref().unwrap().grants.is_empty());
}

#[test]
fn driver_numbers_fixed() {
    let platform = Platform::new();
    assert_eq!(platform.with_driver(DRIVER_NUM_ALARM), Some(CapsuleId::Alarm));
    assert_eq!(platform.with_driver(DRIVER_NUM_CONSOLE), Some(CapsuleId::Console));
    assert_eq!(platform.with_driver(DRIVER_NUM_LED), Some(CapsuleId::Led));
    assert_eq!(platform.with_driver(DRIVER_NUM_BUTTON), Some(CapsuleId::Button));
    assert_eq!(platform.with_driver(DRIVER_NUM_GPIO), Some(CapsuleId::Gpio));
    assert_eq!(platform.with_driver(DRIVER_NUM_RNG), Some(CapsuleId::Rng));
    assert_eq!(platform.with_driver(5), None);
    assert_eq!(platform.with_driver(1000), None);
}

#[test]
fn dispatch_grant_exhaustion_is_local() {
    let platform = Platform::new();
    // One process with a budget of 3 words: the console's 4-word grant
    // cannot fit, the led's 1-word grant can.
    let images = vec![ProcessImage { code_start: 0, code_size: 0, ram_size: 3 }];
    let mut table = load_processes(&images, 0x100, 0x10, 1, FaultResponse::Panic);
    let r = dispatch(&platform, DRIVER_NUM_CONSOLE, command(1), &mut table, 0);
    assert_eq!(r, DispatchResult::NoMemory { capsule: CapsuleId::Console });
    let r2 = dispatch(&platform, DRIVER_NUM_LED, command(1), &mut table, 0);
    assert!(matches!(r2, DispatchResult::Handled { capsule: CapsuleId::Led, .. }));
}
