//! Capability registry and driver dispatch: the fixed association between
//! small integer driver numbers and the closed set of capsules wired into
//! the platform at assembly time.  Lookup is the dispatch operation; an
//! unknown driver number is an expected, defined response, never a fault.

use crate::process::{spec_find_grant, Process, ProcessTable};
use vstd::prelude::*;

verus! {

/// The closed, statically wired set of capsules this platform offers.
#[derive(Clone, Copy, Debug, PartialEq, Eq, Structural)]
pub enum CapsuleId {
    Alarm,
    Console,
    Led,
    Button,
    Gpio,
    Rng,
}

/// Driver numbers advertised to processes.  Stable across kernel builds:
/// process binaries name capsules by these values.
pub const DRIVER_NUM_ALARM: usize = 0;

pub const DRIVER_NUM_CONSOLE: usize = 1;

pub const DRIVER_NUM_LED: usize = 2;

pub const DRIVER_NUM_BUTTON: usize = 3;

pub const DRIVER_NUM_GPIO: usize = 4;

pub const DRIVER_NUM_RNG: usize = 14;

/// The capsule a driver number names, if any.
pub open spec fn spec_with_driver(driver_num: usize) -> Option<CapsuleId> {
    if driver_num == DRIVER_NUM_ALARM {
        Option::Some(CapsuleId::Alarm)
    } else if driver_num == DRIVER_NUM_CONSOLE {
        Option::Some(CapsuleId::Console)
    } else if driver_num == DRIVER_NUM_LED {
        Option::Some(CapsuleId::Led)
    } else if driver_num == DRIVER_NUM_BUTTON {
        Option::Some(CapsuleId::Button)
    } else if driver_num == DRIVER_NUM_GPIO {
        Option::Some(CapsuleId::Gpio)
    } else if driver_num == DRIVER_NUM_RNG {
        Option::Some(CapsuleId::Rng)
    } else {
        Option::None
    }
}

/// Words of grant memory each capsule keeps per process.
pub open spec fn spec_grant_size(c: CapsuleId) -> usize {
    match c {
        CapsuleId::Alarm => 2,
        CapsuleId::Console => 4,
        CapsuleId::Led => 1,
        CapsuleId::Button => 1,
        CapsuleId::Gpio => 1,
        CapsuleId::Rng => 2,
    }
}

/// Words of grant memory the capsule keeps per process.
pub fn grant_size(c: CapsuleId) -> (n: usize)
    ensures
        n == spec_grant_size(c),
        n >= 1,
{
    match c {
        CapsuleId::Alarm => 2,
        CapsuleId::Console => 4,
        CapsuleId::Led => 1,
        CapsuleId::Button => 1,
        CapsuleId::Gpio => 1,
        CapsuleId::Rng => 2,
    }
}

/// One system-call request: an operation selector plus up to four
/// machine-word arguments whose meaning the addressed capsule owns.
/// Selector zero is the existence probe every driver answers.
#[derive(Clone, Copy, Debug, PartialEq, Eq, Structural)]
pub struct Command {
    pub cmd_num: usize,
    pub arg0: usize,
    pub arg1: usize,
    pub arg2: usize,
    pub arg3: usize,
}

/// The defined responses of a dispatch.  An unknown driver number answers
/// `NoSuchDriver`; a grant budget already spent answers `NoMemory`; neither
/// ever escalates to a fault.
#[derive(Clone, Copy, Debug, PartialEq, Eq, Structural)]
pub enum DispatchResult {
    /// The capsule handled the request over its grant for the caller.
    Handled { capsule: CapsuleId, grant_start: usize, grant_size: usize },
    /// The existence probe: the capsule is present; no state is touched.
    Present { capsule: CapsuleId },
    /// No capsule advertises this driver number.
    NoSuchDriver,
    /// The caller's grant budget cannot hold this capsule's grant.
    NoMemory { capsule: CapsuleId },
}

/// The platform: the fixed driver set assembled once at boot.  No dynamic
/// registration exists, so the set of capabilities any process can reach is
/// statically auditable.
pub struct Platform {}

impl Platform {
    /// Assembles the platform's fixed driver set.
    pub fn new() -> Platform {
        Platform {  }
    }

    /// Resolves a driver number against the fixed set.  A miss is a normal,
    /// expected condition.
    pub fn with_driver(&self, driver_num: usize) -> (r: Option<CapsuleId>)
        ensures
            r == spec_with_driver(driver_num),
    {
        if driver_num == DRIVER_NUM_ALARM {
            Option::Some(CapsuleId::Alarm)
        } else if driver_num == DRIVER_NUM_CONSOLE {
            Option::Some(CapsuleId::Console)
        } else if driver_num == DRIVER_NUM_LED {
            Option::Some(CapsuleId::Led)
        } else if driver_num == DRIVER_NUM_BUTTON {
            Option::Some(CapsuleId::Button)
        } else if driver_num == DRIVER_NUM_GPIO {
            Option::Some(CapsuleId::Gpio)
        } else if driver_num == DRIVER_NUM_RNG {
            Option::Some(CapsuleId::Rng)
        } else {
            Option::None
        }
    }
}

/// What dispatching a request changes and answers.  A miss leaves the table
/// untouched and answers `NoSuchDriver`; the existence probe touches
/// nothing; otherwise exactly the calling process's slot is updated, by the
/// addressed capsule fetching or carving its grant for that one caller.
pub open spec fn spec_dispatch_post(
    pre: ProcessTable,
    post: ProcessTable,
    r: DispatchResult,
    driver_num: usize,
    command: Command,
    proc_idx: usize,
) -> bool {
    match spec_with_driver(driver_num) {
        Option::None => r == DispatchResult::NoSuchDriver && post.slots@ == pre.slots@,
        Option::Some(c) => {
            if command.cmd_num == 0 {
                r == (DispatchResult::Present { capsule: c }) && post.slots@ == pre.slots@
            } else {
                let p = pre.slots@[proc_idx as int]->0;
                let size = spec_grant_size(c);
                match spec_find_grant(p.grants@, driver_num) {
                    Option::Some(g) => r == (DispatchResult::Handled {
                        capsule: c,
                        grant_start: g.start,
                        grant_size: g.size,
                    }) && post.slots@ == pre.slots@,
                    Option::None => {
                        if p.grant_used + size <= p.ram_size {
                            &&& r == (DispatchResult::Handled {
                                capsule: c,
                                grant_start: (p.ram_start + p.grant_used) as usize,
                                grant_size: size,
                            })
                            &&& post.slots@ =~= pre.slots@.update(
                                proc_idx as int,
                                Option::Some(
                                    Process {
                                        grants: post.slots@[proc_idx as int]->0.grants,
                                        grant_used: (p.grant_used + size) as usize,
                                        ..p
                                    },
                                ),
                            )
                            &&& post.slots@[proc_idx as int]->0.grants@ == p.grants@.push(
                                crate::process::Grant {
                                    driver_num,
                                    start: (p.ram_start + p.grant_used) as usize,
                                    size,
                                },
                            )
                        } else {
                            r == (DispatchResult::NoMemory { capsule: c }) && post.slots@
                                == pre.slots@
                        }
                    },
                }
            }
        },
    }
}

/// Routes one system call: resolves the driver number against the fixed
/// set and forwards the request to that one capsule, which serves it over
/// its grant for the calling process.  Never touches any other process's
/// slot.
pub fn dispatch(
    platform: &Platform,
    driver_num: usize,
    command: Command,
    table: &mut ProcessTable,
    proc_idx: usize,
) -> (r: DispatchResult)
    requires
        old(table).well_formed(),
        proc_idx < old(table).slots@.len(),
        old(table).slots@[proc_idx as int] is Some,
    ensures
        final(table).well_formed(),
        final(table).slots@.len() == old(table).slots@.len(),
        forall|k: int|
            0 <= k < old(table).slots@.len() && k != proc_idx ==> final(table).slots@[k] == old(
                table,
            ).slots@[k],
        spec_dispatch_post(*old(table), *final(table), r, driver_num, command, proc_idx),
{
    let c_opt = platform.with_driver(driver_num);
    match c_opt {
        Option::None => DispatchResult::NoSuchDriver,
        Option::Some(c) => {
            if command.cmd_num == 0 {
                return DispatchResult::Present { capsule: c };
            }
            let size = grant_size(c);
            let ghost pre_slots = table.slots@;
            let slot = table.slots.remove(proc_idx);
            match slot {
                Option::Some(mut p) => {
                    let res = p.grant_for(driver_num, size);
                    table.slots.insert(proc_idx, Option::Some(p));
                    proof {
                        assert(table.slots@ =~= pre_slots.update(
                            proc_idx as int,
                            Option::Some(p),
                        ));
                        lemma_update_well_formed(*old(table), *table, proc_idx as int);
                        let pp = pre_slots[proc_idx as int]->0;
                        match spec_find_grant(pp.grants@, driver_num) {
                            Option::Some(_) => {
                                assert(table.slots@ =~= pre_slots);
                            },
                            Option::None => {
                                if pp.grant_used + size <= pp.ram_size {
                                    assert(table.slots@[proc_idx as int]->0 == Process {
                                        grants: table.slots@[proc_idx as int]->0.grants,
                                        grant_used: (pp.grant_used + size) as usize,
                                        ..pp
                                    });
                                } else {
                                    assert(table.slots@ =~= pre_slots);
                                }
                            },
                        }
                    }
                    match res {
                        Option::Some((start, sz)) => DispatchResult::Handled {
                            capsule: c,
                            grant_start: start,
                            grant_size: sz,
                        },
                        Option::None => DispatchResult::NoMemory { capsule: c },
                    }
                },
                Option::None => vstd::pervasive::unreached(),
            }
        },
    }
}

/// Updating one slot with a well-formed process of unchanged memory bounds
/// preserves the table's well-formedness.
proof fn lemma_update_well_formed(pre: ProcessTable, post: ProcessTable, i: int)
    requires
        pre.well_formed(),
        0 <= i < pre.slots@.len(),
        pre.slots@[i] is Some,
        post.slots@.len() == pre.slots@.len(),
        forall|k: int| 0 <= k < pre.slots@.len() && k != i ==> post.slots@[k] == pre.slots@[k],
        post.slots@[i] is Some,
        post.slots@[i]->0.well_formed(),
        post.slots@[i]->0.ram_start == pre.slots@[i]->0.ram_start,
        post.slots@[i]->0.ram_size == pre.slots@[i]->0.ram_size,
    ensures
        post.well_formed(),
{
}

} // verus!
