//! Boot initialization, process loading, grant isolation, and the
//! diagnostic report text.

use launchxl::boot::{init, BootLayout, InterruptController};
use launchxl::ccfg::Ccfg;
use launchxl::dispatch::DRIVER_NUM_ALARM;
use launchxl::fault::{decode_fault, FaultStatusRegisters, StackedRegisters};
use launchxl::hello_world::HelloWorld;
use launchxl::process::{load_processes, FaultAction, FaultResponse, ProcessImage};
use launchxl::report::{bool_str, hex32, ipsr_isr_number_to_str, kernel_fault_report};

fn stacked() -> StackedRegisters {
    StackedRegisters {
        r0: 0xdeadbeef,
        r1: 0x00000001,
        r2: 0x00000002,
        r3: 0x00000003,
        r12: 0x0000000c,
        lr: 0xfffffff1,
        pc: 0x00001234,
        xpsr: 0x01000003,
    }
}

fn status() -> FaultStatusRegisters {
    FaultStatusRegisters {
        shcsr: 0x00070008,
        ccr: 0x00000200,
        cfsr: 0x00000001,
        hfsr: 0x40000000,
        mmfar: 0x20000040,
        bfar: 0x00000000,
    }
}

// Boot idempotent bounds: the live region equals the stored image, the zero
// region is all zero, and nothing else changes.
#[test]
fn boot_copies_and_zeroes() {
    let mut mem: Vec<u32> = (0..16).map(|i| 100 + i).collect();
    let layout = BootLayout { etext: 2, srelocate: 6, erelocate: 9, szero: 9, ezero: 12 };
    let mut nvic = InterruptController::reset();
    assert!(!nvic.enabled);
    init(&mut mem, layout, &mut nvic);
    assert!(nvic.enabled);
    // The live data region now holds the stored image.
    assert_eq!(&mem[6..9], &[102, 103, 104]);
    // The uninitialized region reads back zero.
    assert_eq!(&mem[9..12], &[0, 0, 0]);
    // Everything else is untouched.
    assert_eq!(&mem[0..6], &[100, 101, 102, 103, 104, 105]);
    assert_eq!(&mem[12..16], &[112, 113, 114, 115]);
}

#[test]
fn boot_coincident_image_writes_nothing() {
    let mut mem: Vec<u32> = (0..12).map(|i| 200 + i).collect();
    let layout = BootLayout { etext: 3, srelocate: 3, erelocate: 6, szero: 8, ezero: 10 };
    let mut nvic = InterruptController::reset();
    init(&mut mem, layout, &mut nvic);
    assert!(nvic.enabled);
    assert_eq!(&mem[0..8], &[200, 201, 202, 203, 204, 205, 206, 207]);
    assert_eq!(&mem[8..10], &[0, 0]);
    assert_eq!(&mem[10..12], &[210, 211]);
}

#[test]
fn boot_layout_check() {
    let good = BootLayout { etext: 2, srelocate: 6, erelocate: 9, szero: 9, ezero: 12 };
    assert!(good.check(16));
    assert!(!good.check(10));
    // The zero region may not overlap the live data region.
    let overlapping = BootLayout { etext: 0, srelocate: 6, erelocate: 9, szero: 8, ezero: 12 };
    assert!(!overlapping.check(16));
    // A stored image halfway over its live location cannot be copied
    // forward correctly.
    let sliding = BootLayout { etext: 5, srelocate: 6, erelocate: 9, szero: 10, ezero: 12 };
    assert!(!sliding.check(16));
}

#[test]
fn boot_empty_zero_region() {
    let mut mem: Vec<u32> = vec![7, 8, 9, 10];
    let layout = BootLayout { etext: 0, srelocate: 2, erelocate: 4, szero: 0, ezero: 0 };
    let mut nvic = InterruptController::reset();
    init(&mut mem, layout, &mut nvic);
    assert_eq!(mem, vec![7, 8, 7, 8]);
}

// Process table capacity: more images than slots fill exactly the capacity;
// the remainder is skipped, never written out of bounds.
#[test]
fn load_respects_capacity() {
    let images: Vec<ProcessImage> = (0..5)
        .map(|i| ProcessImage { code_start: i * 0x1000, code_size: 0x100, ram_size: 32 })
        .collect();
    let table = load_processes(&images, 0x40000, 0x200, 3, FaultResponse::Panic);
    assert_eq!(table.slots.len(), 3);
    assert_eq!(table.slots.iter().filter(|s| s.is_some()).count(), 3);
    for (k, slot) in table.slots.iter().enumerate() {
        let p = slot.as_ref().unwrap();
        assert_eq!(p.code_start, k * 0x1000);
        assert_eq!(p.ram_start, 0x40000 + k * 32);
        assert_eq!(p.ram_size, 32);
        assert_eq!(p.fault_response, FaultResponse::Panic);
        assert!(!p.app_fault && !p.syscall_fired);
    }
}

#[test]
fn load_skips_image_that_does_not_fit() {
    let images = vec![
        ProcessImage { code_start: 0x1000, code_size: 0x100, ram_size: 48 },
        ProcessImage { code_start: 0x2000, code_size: 0x100, ram_size: 1000 },
        ProcessImage { code_start: 0x3000, code_size: 0x100, ram_size: 16 },
    ];
    let table = load_processes(&images, 0x40000, 64, 3, FaultResponse::Stop);
    assert_eq!(table.slots.len(), 3);
    let p0 = table.slots[0].as_ref().unwrap();
    let p1 = table.slots[1].as_ref().unwrap();
    assert_eq!(p0.code_start, 0x1000);
    assert_eq!(p1.code_start, 0x3000);
    assert_eq!(p1.ram_start, 0x40000 + 48);
    assert!(table.slots[2].is_none());
}

#[test]
fn load_empty_images() {
    let images: Vec<ProcessImage> = Vec::new();
    let table = load_processes(&images, 0x40000, 0x200, 3, FaultResponse::Panic);
    assert_eq!(table.slots.len(), 3);
    assert!(table.slots.iter().all(|s| s.is_none()));
}

// Grant isolation: the same capsule's grants for two processes are distinct
// and non-overlapping; asking again for the same pair returns the same
// region.
#[test]
fn grants_are_isolated_and_idempotent() {
    let images = vec![
        ProcessImage { code_start: 0x1000, code_size: 0x100, ram_size: 64 },
        ProcessImage { code_start: 0x2000, code_size: 0x100, ram_size: 64 },
    ];
    let mut table = load_processes(&images, 0x20000, 0x100, 2, FaultResponse::Panic);
    let g1 = {
        let p1 = table.slots[0].as_mut().unwrap();
        p1.grant_for(DRIVER_NUM_ALARM, 8).unwrap()
    };
    let g2 = {
        let p2 = table.slots[1].as_mut().unwrap();
        p2.grant_for(DRIVER_NUM_ALARM, 8).unwrap()
    };
    assert_ne!(g1.0, g2.0);
    assert!(g1.0 + g1.1 <= g2.0 || g2.0 + g2.1 <= g1.0);
    let g1_again = {
        let p1 = table.slots[0].as_mut().unwrap();
        p1.grant_for(DRIVER_NUM_ALARM, 8).unwrap()
    };
    assert_eq!(g1, g1_again);
}

#[test]
fn grant_budget_exhaustion_fails_locally() {
    let images = vec![ProcessImage { code_start: 0, code_size: 0, ram_size: 10 }];
    let mut table = load_processes(&images, 0x100, 0x40, 1, FaultResponse::Panic);
    let p = table.slots[0].as_mut().unwrap();
    assert_eq!(p.grant_for(1, 6), Some((0x100, 6)));
    assert_eq!(p.grant_for(2, 6), None);
    assert_eq!(p.grant_for(3, 4), Some((0x106, 4)));
    assert_eq!(p.grant_for(4, 1), None);
    // The failed requests changed nothing.
    assert_eq!(p.grants.len(), 2);
    assert_eq!(p.grant_used, 10);
}

#[test]
fn fault_response_policies() {
    let images = vec![
        ProcessImage { code_start: 0x1000, code_size: 0x100, ram_size: 64 },
        ProcessImage { code_start: 0x2000, code_size: 0x100, ram_size: 64 },
        ProcessImage { code_start: 0x3000, code_size: 0x100, ram_size: 64 },
    ];
    // The panic policy asks the kernel to halt the whole system.
    let mut table = load_processes(&images, 0x20000, 0x300, 3, FaultResponse::Panic);
    let p = table.slots[0].as_mut().unwrap();
    assert_eq!(p.apply_fault_response(), FaultAction::HaltSystem);
    assert!(p.active);

    // The stop policy withdraws only that one process from scheduling.
    let mut table = load_processes(&images, 0x20000, 0x300, 3, FaultResponse::Stop);
    let p1 = table.slots[1].as_mut().unwrap();
    assert_eq!(p1.apply_fault_response(), FaultAction::Stopped);
    assert!(!table.slots[1].as_ref().unwrap().active);
    assert!(table.slots[0].as_ref().unwrap().active);
    assert!(table.slots[2].as_ref().unwrap().active);

    // The restart policy resets the process in place: fault state cleared,
    // grant memory given back, bounds kept.
    let mut table = load_processes(&images, 0x20000, 0x300, 3, FaultResponse::Restart);
    let p0 = table.slots[0].as_mut().unwrap();
    p0.grant_for(1, 8).unwrap();
    p0.record_fault([1, 2, 3, 4, 5]);
    assert!(p0.app_fault);
    assert_eq!(p0.apply_fault_response(), FaultAction::Restarted);
    assert!(!p0.app_fault && !p0.syscall_fired && p0.active);
    assert!(p0.grants.is_empty());
    assert_eq!(p0.grant_used, 0);
    assert_eq!(p0.scb_registers, vec![0, 0, 0, 0, 0]);
    assert_eq!(p0.ram_start, 0x20000);
}

#[test]
fn hex_rendering_exact() {
    assert_eq!(hex32(0xdeadbeef), "deadbeef");
    assert_eq!(hex32(0), "00000000");
    assert_eq!(hex32(0x12345678), "12345678");
    assert_eq!(hex32(0xffffffff), "ffffffff");
    assert_eq!(hex32(0x0000000a), "0000000a");
    assert_eq!(bool_str(true), "true");
    assert_eq!(bool_str(false), "false");
}

#[test]
fn exception_names() {
    assert_eq!(ipsr_isr_number_to_str(0), "Thread Mode");
    assert_eq!(ipsr_isr_number_to_str(2), "NMI");
    assert_eq!(ipsr_isr_number_to_str(3), "HardFault");
    assert_eq!(ipsr_isr_number_to_str(11), "SVCall");
    assert_eq!(ipsr_isr_number_to_str(15), "SysTick");
    assert_eq!(ipsr_isr_number_to_str(16), "IRQn");
    assert_eq!(ipsr_isr_number_to_str(42), "IRQn");
    assert_eq!(ipsr_isr_number_to_str(7), "Reserved");
}

// Kernel-fault fatality, report half: the emitted text names every decoded
// bit with its exact value.
#[test]
fn report_names_decoded_bits() {
    let rec = decode_fault(stacked(), status());
    let report = kernel_fault_report(&rec, "1.0", 0x2000fff0, 0x20010000, 0x20008000);
    assert!(report.starts_with("Kernel HardFault.\n"));
    assert!(report.contains("\tKernel version 1.0\n"));
    assert!(report.contains("\tr0  0xdeadbeef\n"));
    assert!(report.contains("\tpc  0x00001234\n"));
    assert!(report.contains("\tsp  0x2000fff0\n"));
    assert!(report.contains("\ttop of stack     0x20010000\n"));
    assert!(report.contains("\tbottom of stack  0x20008000\n"));
    assert!(report.contains("\tCFSR  0x00000001\n"));
    assert!(report.contains("\tInstruction Access Violation:       true\n"));
    assert!(report.contains("\tData Access Violation:              false\n"));
    assert!(report.contains("\tForced Hard Fault:                  true\n"));
    assert!(report.contains("\tBus Fault on Vector Table Read:     false\n"));
    assert!(report.contains("\tDivide By Zero:                     false\n"));
    assert!(report.contains("\texception HardFault\n"));
    assert!(report.contains("\tFaulting Memory Address: (valid: false) 0x20000040\n"));
    assert!(report.contains("\tBus Fault Address:       (valid: false) 0x00000000\n"));
}

#[test]
fn report_reflects_flag_changes() {
    let st = FaultStatusRegisters { cfsr: 0x0200_0000, ..status() };
    let rec = decode_fault(stacked(), st);
    let report = kernel_fault_report(&rec, "1.0", 0, 0, 0);
    assert!(report.contains("\tDivide By Zero:                     true\n"));
    assert!(report.contains("\tInstruction Access Violation:       false\n"));
}

#[test]
fn ccfg_board_defaults() {
    let c = Ccfg::board_conf();
    assert_eq!(c.ext_lf_clk, 0x01800000);
    assert_eq!(c.bl_config, 0xC5FE0EC5);
    assert_eq!(c.image_valid_conf, 0);
    assert_eq!(c.ccfg_prot_127_96, 0xFFFFFFFF);
    assert_eq!(c.ccfg_tap_dap_0, 0xFFC5C5C5);
}

#[test]
fn hello_world_greets() {
    let capsule = HelloWorld::new();
    assert_eq!(capsule.start(), "Hello World");
    capsule.fired();
}
