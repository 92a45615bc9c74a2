//! Trap-and-dispatch core of a small embedded kernel for a Cortex-M class
//! microcontroller: the boot-time memory initializer, the fixed exception
//! vector table, the hard-fault decoder and router, the driver-number
//! dispatch over a closed set of capsules, and the fixed-capacity process
//! table with its per-(capsule, process) grant allocator.

pub mod boot;
pub mod ccfg;
pub mod context;
pub mod dispatch;
pub mod fault;
pub mod hello_world;
pub mod process;
pub mod report;
pub mod trap;
pub mod vectors;
