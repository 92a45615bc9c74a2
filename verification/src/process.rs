//! Process and grant table: the fixed-capacity table of process slots and
//! the lazy per-(capsule, process) grant allocator.  A grant is carved out
//! of the owning process's own memory budget on first use by a capsule and
//! handed back unchanged on every later use; exhaustion of the budget is a
//! process-local failure, never a kernel fault.

use vstd::prelude::*;

verus! {

/// What the kernel does when a process faults.  Configured once at system
/// assembly and copied into every loaded process.
#[derive(Clone, Copy, Debug, PartialEq, Eq, Structural)]
pub enum FaultResponse {
    /// Halt the entire system with a diagnostic report.
    Panic,
    /// Reset the process's memory and restart it from its entry point.
    Restart,
    /// Stop the process but keep serving every other process.
    Stop,
}

/// One lazily carved per-(capsule, process) memory region, identified by
/// the capsule's driver number.  `start` and `size` are word indices into
/// the system's memory, inside the owning process's own region.
#[derive(Clone, Copy, Debug, PartialEq, Eq, Structural)]
pub struct Grant {
    pub driver_num: usize,
    pub start: usize,
    pub size: usize,
}

/// Number of scratch words a faulting process's diagnostic snapshot holds.
pub const SCB_SNAPSHOT_WORDS: usize = 5;

/// One loaded process: its code and memory bounds, its copy of the fault
/// policy, its fault flags, its diagnostic scratch area, and its grants.
pub struct Process {
    pub code_start: usize,
    pub code_size: usize,
    pub ram_start: usize,
    pub ram_size: usize,
    pub fault_response: FaultResponse,
    pub syscall_fired: bool,
    pub app_fault: bool,
    /// Whether the scheduler will resume this process.  Cleared only by the
    /// stop policy after a recorded fault.
    pub active: bool,
    pub scb_registers: Vec<u32>,
    pub grants: Vec<Grant>,
    pub grant_used: usize,
}

/// What applying a fault-response policy asks of the surrounding kernel.
#[derive(Clone, Copy, Debug, PartialEq, Eq, Structural)]
pub enum FaultAction {
    /// Halt the entire system; the caller emits the diagnostic report and
    /// loops forever.
    HaltSystem,
    /// The process was reset in place and will run again from its entry
    /// point.
    Restarted,
    /// The process will never be resumed; every other process continues.
    Stopped,
}

/// Total words consumed by a sequence of grants.
pub open spec fn spec_grants_used(grants: Seq<Grant>) -> int
    decreases grants.len(),
{
    if grants.len() == 0 {
        0
    } else {
        spec_grants_used(grants.drop_last()) + grants.last().size
    }
}

/// The first grant with the given driver number, if any.
pub open spec fn spec_find_grant(grants: Seq<Grant>, driver_num: usize) -> Option<Grant>
    decreases grants.len(),
{
    if grants.len() == 0 {
        Option::None
    } else if grants[0].driver_num == driver_num {
        Option::Some(grants[0])
    } else {
        spec_find_grant(grants.subrange(1, grants.len() as int), driver_num)
    }
}

impl Process {
    /// Internal consistency of one process: its region bounds fit the
    /// address space, the grants are carved consecutively from the bottom
    /// of its own region without exceeding the budget, at most one grant
    /// exists per capsule, and the diagnostic scratch area holds exactly
    /// one word per snapshotted status register.
    pub open spec fn well_formed(self) -> bool {
        &&& self.ram_start + self.ram_size <= usize::MAX
        &&& self.grant_used == spec_grants_used(self.grants@)
        &&& self.grant_used <= self.ram_size
        &&& forall|i: int|
            0 <= i < self.grants@.len() ==> (#[trigger] self.grants@[i]).start == self.ram_start
                + spec_grants_used(self.grants@.take(i))
        &&& forall|i: int, j: int|
            0 <= i < j < self.grants@.len() ==> self.grants@[i].driver_num
                != self.grants@[j].driver_num
        &&& self.scb_registers@.len() == SCB_SNAPSHOT_WORDS
    }

    /// A freshly loaded process: given bounds, the system's fault policy,
    /// no fault recorded, an all-zero diagnostic scratch area, no grants.
    pub fn load(
        code_start: usize,
        code_size: usize,
        ram_start: usize,
        ram_size: usize,
        fault_response: FaultResponse,
    ) -> (p: Process)
        requires
            ram_start + ram_size <= usize::MAX,
        ensures
            p.well_formed(),
            p.code_start == code_start,
            p.code_size == code_size,
            p.ram_start == ram_start,
            p.ram_size == ram_size,
            p.fault_response == fault_response,
            !p.syscall_fired,
            !p.app_fault,
            p.active,
            p.scb_registers@ =~= seq![0u32, 0u32, 0u32, 0u32, 0u32],
            p.grants@ =~= Seq::<Grant>::empty(),
            p.grant_used == 0,
    {
        let mut scb: Vec<u32> = Vec::new();
        scb.push(0);
        scb.push(0);
        scb.push(0);
        scb.push(0);
        scb.push(0);
        Process {
            code_start,
            code_size,
            ram_start,
            ram_size,
            fault_response,
            syscall_fired: false,
            app_fault: false,
            active: true,
            scb_registers: scb,
            grants: Vec::new(),
            grant_used: 0,
        }
    }

    /// Returns the existing grant region for the capsule with this driver
    /// number, or carves a new one of `size` words out of this process's
    /// remaining budget; `None` exactly when no grant exists yet and the
    /// budget cannot hold one, a process-local condition.
    pub fn grant_for(&mut self, driver_num: usize, size: usize) -> (r: Option<(usize, usize)>)
        requires
            old(self).well_formed(),
        ensures
            final(self).well_formed(),
            match spec_find_grant(old(self).grants@, driver_num) {
                Option::Some(g) => {
                    &&& r == Option::Some((g.start, g.size))
                    &&& *final(self) == *old(self)
                },
                Option::None => {
                    if old(self).grant_used + size <= old(self).ram_size {
                        &&& r == Option::Some(
                            (
                                (old(self).ram_start + old(self).grant_used) as usize,
                                size,
                            ),
                        )
                        &&& final(self).grants@ == old(self).grants@.push(
                            Grant {
                                driver_num,
                                start: (old(self).ram_start + old(self).grant_used) as usize,
                                size,
                            },
                        )
                        &&& final(self).grant_used == old(self).grant_used + size
                        &&& final(self).code_start == old(self).code_start
                        &&& final(self).code_size == old(self).code_size
                        &&& final(self).ram_start == old(self).ram_start
                        &&& final(self).ram_size == old(self).ram_size
                        &&& final(self).fault_response == old(self).fault_response
                        &&& final(self).syscall_fired == old(self).syscall_fired
                        &&& final(self).app_fault == old(self).app_fault
                        &&& final(self).active == old(self).active
                        &&& final(self).scb_registers == old(self).scb_registers
                    } else {
                        &&& r == Option::<(usize, usize)>::None
                        &&& *final(self) == *old(self)
                    }
                },
            },
    {
        let ghost all = self.grants@;
        let n = self.grants.len();
        let mut i: usize = 0;
        proof {
            assert(all.skip(0) =~= all);
        }
        while i < n
            invariant
                *self == *old(self),
                old(self).well_formed(),
                n == all.len(),
                self.grants@ == all,
                0 <= i <= n,
                spec_find_grant(all.skip(i as int), driver_num) == spec_find_grant(
                    all,
                    driver_num,
                ),
                forall|j: int| 0 <= j < i ==> all[j].driver_num != driver_num,
            decreases n - i,
        {
            let g = self.grants[i];
            if g.driver_num == driver_num {
                proof {
                    assert(all.skip(i as int)[0] == all[i as int]);
                }
                return Option::Some((g.start, g.size));
            }
            proof {
                assert(all.skip(i as int).subrange(1, all.skip(i as int).len() as int) =~= all.skip(
                    i as int + 1,
                ));
            }
            i = i + 1;
        }
        proof {
            assert(all.skip(n as int) =~= Seq::<Grant>::empty());
        }
        if size <= self.ram_size - self.grant_used {
            let start = self.ram_start + self.grant_used;
            let g = Grant { driver_num, start, size };
            self.grants.push(g);
            self.grant_used = self.grant_used + size;
            proof {
                lemma_grants_used_push(all, g);
                assert(self.grants@.drop_last() =~= all);
                assert forall|k: int| 0 <= k < self.grants@.len() implies (
                #[trigger] self.grants@[k]).start == self.ram_start + spec_grants_used(
                    self.grants@.take(k),
                ) by {
                    assert(self.grants@.take(k) =~= if k < all.len() {
                        all.take(k)
                    } else {
                        all
                    });
                    if k < all.len() {
                        assert(all[k].start == old(self).ram_start + spec_grants_used(all.take(k)));
                    } else {
                        assert(self.grants@.take(k) =~= all);
                    }
                }
            }
            Option::Some((start, size))
        } else {
            Option::None
        }
    }

    /// Records a fault raised while this process was executing: both the
    /// syscall-fired and the app-fault flag go up, and the five status
    /// words are copied into the diagnostic scratch area.  Nothing else of
    /// the process changes.
    pub fn record_fault(&mut self, snapshot: [u32; 5])
        requires
            old(self).well_formed(),
        ensures
            final(self).well_formed(),
            final(self).syscall_fired,
            final(self).app_fault,
            final(self).scb_registers@ =~= seq![
                snapshot[0],
                snapshot[1],
                snapshot[2],
                snapshot[3],
                snapshot[4],
            ],
            final(self).code_start == old(self).code_start,
            final(self).code_size == old(self).code_size,
            final(self).ram_start == old(self).ram_start,
            final(self).ram_size == old(self).ram_size,
            final(self).fault_response == old(self).fault_response,
            final(self).active == old(self).active,
            final(self).grants == old(self).grants,
            final(self).grant_used == old(self).grant_used,
    {
        self.syscall_fired = true;
        self.app_fault = true;
        let mut scb: Vec<u32> = Vec::new();
        scb.push(snapshot[0]);
        scb.push(snapshot[1]);
        scb.push(snapshot[2]);
        scb.push(snapshot[3]);
        scb.push(snapshot[4]);
        self.scb_registers = scb;
    }

    /// Applies this process's fault-response policy after a recorded fault.
    /// The panic policy asks the caller to halt the whole system; the
    /// restart policy resets the process in place, giving back its grant
    /// memory and clearing its fault state; the stop policy only withdraws
    /// the process from scheduling.  Never touches any other process.
    pub fn apply_fault_response(&mut self) -> (r: FaultAction)
        requires
            old(self).well_formed(),
        ensures
            final(self).well_formed(),
            match old(self).fault_response {
                FaultResponse::Panic => r == FaultAction::HaltSystem && *final(self) == *old(self),
                FaultResponse::Restart => {
                    &&& r == FaultAction::Restarted
                    &&& final(self).grants@ =~= Seq::<Grant>::empty()
                    &&& final(self).grant_used == 0
                    &&& !final(self).syscall_fired
                    &&& !final(self).app_fault
                    &&& final(self).active
                    &&& final(self).scb_registers@ =~= seq![0u32, 0u32, 0u32, 0u32, 0u32]
                    &&& final(self).code_start == old(self).code_start
                    &&& final(self).code_size == old(self).code_size
                    &&& final(self).ram_start == old(self).ram_start
                    &&& final(self).ram_size == old(self).ram_size
                    &&& final(self).fault_response == old(self).fault_response
                },
                FaultResponse::Stop => {
                    &&& r == FaultAction::Stopped
                    &&& !final(self).active
                    &&& final(self).grants == old(self).grants
                    &&& final(self).grant_used == old(self).grant_used
                    &&& final(self).syscall_fired == old(self).syscall_fired
                    &&& final(self).app_fault == old(self).app_fault
                    &&& final(self).scb_registers == old(self).scb_registers
                    &&& final(self).code_start == old(self).code_start
                    &&& final(self).code_size == old(self).code_size
                    &&& final(self).ram_start == old(self).ram_start
                    &&& final(self).ram_size == old(self).ram_size
                    &&& final(self).fault_response == old(self).fault_response
                },
            },
    {
        match self.fault_response {
            FaultResponse::Panic => FaultAction::HaltSystem,
            FaultResponse::Restart => {
                self.grants = Vec::new();
                self.grant_used = 0;
                self.syscall_fired = false;
                self.app_fault = false;
                self.active = true;
                let mut scb: Vec<u32> = Vec::new();
                scb.push(0);
                scb.push(0);
                scb.push(0);
                scb.push(0);
                scb.push(0);
                self.scb_registers = scb;
                FaultAction::Restarted
            },
            FaultResponse::Stop => {
                self.active = false;
                FaultAction::Stopped
            },
        }
    }
}

/// Appending a grant adds exactly its size to the words consumed.
pub proof fn lemma_grants_used_push(grants: Seq<Grant>, g: Grant)
    ensures
        spec_grants_used(grants.push(g)) == spec_grants_used(grants) + g.size,
{
    assert(grants.push(g).drop_last() =~= grants);
}

/// Extending a prefix by one grant adds exactly that grant's size.
pub proof fn lemma_grants_used_take_succ(grants: Seq<Grant>, i: int)
    requires
        0 <= i < grants.len(),
    ensures
        spec_grants_used(grants.take(i + 1)) == spec_grants_used(grants.take(i)) + grants[i].size,
{
    assert(grants.take(i + 1).drop_last() =~= grants.take(i));
    assert(grants.take(i + 1).last() == grants[i]);
}

/// The words consumed by a prefix never exceed those of the whole.
pub proof fn lemma_grants_used_take_le(grants: Seq<Grant>, i: int)
    requires
        0 <= i <= grants.len(),
    ensures
        spec_grants_used(grants.take(i)) <= spec_grants_used(grants),
    decreases grants.len() - i,
{
    if i == grants.len() {
        assert(grants.take(i) =~= grants);
    } else {
        lemma_grants_used_take_succ(grants, i);
        lemma_grants_used_take_le(grants, i + 1);
    }
}

/// Every grant of a well-formed process lies inside that process's own
/// memory region.
pub proof fn lemma_grant_within_ram(p: Process, i: int)
    requires
        p.well_formed(),
        0 <= i < p.grants@.len(),
    ensures
        p.ram_start <= p.grants@[i].start,
        p.grants@[i].start + p.grants@[i].size <= p.ram_start + p.ram_size,
{
    lemma_grants_used_take_succ(p.grants@, i);
    lemma_grants_used_take_le(p.grants@, i + 1);
    assert(spec_grants_used(p.grants@.take(0)) == 0) by {
        assert(p.grants@.take(0) =~= Seq::<Grant>::empty());
    }
    lemma_grants_used_take_le(p.grants@.take(i), 0);
    assert(p.grants@.take(i).take(0) =~= p.grants@.take(0));
    assert(spec_grants_used(p.grants@.take(i)) >= 0) by {
        lemma_grants_used_nonneg(p.grants@.take(i));
    }
}

/// The words consumed by any grant sequence are never negative.
pub proof fn lemma_grants_used_nonneg(grants: Seq<Grant>)
    ensures
        spec_grants_used(grants) >= 0,
    decreases grants.len(),
{
    if grants.len() > 0 {
        lemma_grants_used_nonneg(grants.drop_last());
    }
}

/// Within one well-formed process, grants of different capsules occupy
/// disjoint regions: each grant ends before the next one starts.
pub proof fn lemma_grants_disjoint(p: Process, i: int, j: int)
    requires
        p.well_formed(),
        0 <= i < j < p.grants@.len(),
    ensures
        p.grants@[i].start + p.grants@[i].size <= p.grants@[j].start,
{
    lemma_grants_used_take_succ(p.grants@, i);
    lemma_grants_used_take_mono(p.grants@, i + 1, j);
}

/// The words consumed by prefixes grow with the prefix.
pub proof fn lemma_grants_used_take_mono(grants: Seq<Grant>, i: int, j: int)
    requires
        0 <= i <= j <= grants.len(),
    ensures
        spec_grants_used(grants.take(i)) <= spec_grants_used(grants.take(j)),
    decreases j - i,
{
    if i < j {
        lemma_grants_used_take_succ(grants, i);
        lemma_grants_used_take_mono(grants, i + 1, j);
    }
}

/// Grant isolation across processes: when two well-formed processes own
/// disjoint memory regions, a grant of one can never overlap a grant of the
/// other, whatever capsules they serve.
pub proof fn lemma_grant_isolation(p1: Process, p2: Process, i: int, j: int)
    requires
        p1.well_formed(),
        p2.well_formed(),
        p1.ram_start + p1.ram_size <= p2.ram_start || p2.ram_start + p2.ram_size <= p1.ram_start,
        0 <= i < p1.grants@.len(),
        0 <= j < p2.grants@.len(),
    ensures
        p1.grants@[i].start + p1.grants@[i].size <= p2.grants@[j].start || p2.grants@[j].start
            + p2.grants@[j].size <= p1.grants@[i].start,
{
    lemma_grant_within_ram(p1, i);
    lemma_grant_within_ram(p2, j);
}

/// Idempotent allocation: once a grant for a capsule exists at the end of
/// the list and no earlier grant names the same capsule, looking the
/// capsule up finds exactly that grant.
pub proof fn lemma_grant_idempotent(grants: Seq<Grant>, g: Grant)
    requires
        forall|j: int| 0 <= j < grants.len() ==> grants[j].driver_num != g.driver_num,
    ensures
        spec_find_grant(grants.push(g), g.driver_num) == Option::Some(g),
    decreases grants.len(),
{
    if grants.len() == 0 {
        assert(grants.push(g)[0] == g);
    } else {
        let rest = grants.subrange(1, grants.len() as int);
        assert(grants.push(g).subrange(1, grants.push(g).len() as int) =~= rest.push(g));
        lemma_grant_idempotent(rest, g);
    }
}

/// One entry of the on-flash process-image table: where the process's code
/// sits and how many words of memory it asks for.
#[derive(Clone, Copy, Debug, PartialEq, Eq, Structural)]
pub struct ProcessImage {
    pub code_start: usize,
    pub code_size: usize,
    pub ram_size: usize,
}

/// Total memory the given images ask for.
pub open spec fn spec_images_used(images: Seq<ProcessImage>) -> int
    decreases images.len(),
{
    if images.len() == 0 {
        0
    } else {
        spec_images_used(images.drop_last()) + images.last().ram_size
    }
}

/// The images the loader accepts, in order: one image after another, each
/// taken exactly when a table slot is still free and its memory demand
/// still fits the remaining region, and skipped otherwise.
pub open spec fn spec_loaded(images: Seq<ProcessImage>, avail: int, cap: int) -> Seq<ProcessImage>
    decreases images.len(),
{
    if images.len() == 0 || cap <= 0 {
        Seq::empty()
    } else if images[0].ram_size <= avail {
        seq![images[0]] + spec_loaded(
            images.subrange(1, images.len() as int),
            avail - images[0].ram_size,
            cap - 1,
        )
    } else {
        spec_loaded(images.subrange(1, images.len() as int), avail, cap)
    }
}

/// Prepending an image adds exactly its demand to the total.
pub proof fn lemma_images_used_cons(h: ProcessImage, t: Seq<ProcessImage>)
    ensures
        spec_images_used(seq![h] + t) == h.ram_size + spec_images_used(t),
    decreases t.len(),
{
    if t.len() == 0 {
        assert(seq![h] + t =~= seq![h]);
        assert(seq![h].drop_last() =~= Seq::<ProcessImage>::empty());
        assert(spec_images_used(Seq::<ProcessImage>::empty()) == 0);
        assert(t =~= Seq::<ProcessImage>::empty());
        assert(spec_images_used(seq![h]) == h.ram_size);
    } else {
        assert((seq![h] + t).drop_last() =~= seq![h] + t.drop_last());
        lemma_images_used_cons(h, t.drop_last());
        assert((seq![h] + t).last() == t.last());
    }
}

/// The demand of any accepted set is never negative.
pub proof fn lemma_images_used_nonneg(images: Seq<ProcessImage>)
    ensures
        spec_images_used(images) >= 0,
    decreases images.len(),
{
    if images.len() > 0 {
        lemma_images_used_nonneg(images.drop_last());
    }
}

/// The loader never accepts more images than it has slots.
pub proof fn lemma_loaded_le_cap(images: Seq<ProcessImage>, avail: int, cap: int)
    requires
        cap >= 0,
    ensures
        spec_loaded(images, avail, cap).len() <= cap,
    decreases images.len(),
{
    if images.len() == 0 || cap <= 0 {
    } else if images[0].ram_size <= avail {
        lemma_loaded_le_cap(images.subrange(1, images.len() as int), avail - images[0].ram_size, cap - 1);
    } else {
        lemma_loaded_le_cap(images.subrange(1, images.len() as int), avail, cap);
    }
}

/// Appending one image to the table: it is accepted exactly when a slot is
/// still free after the earlier images and the remaining memory holds it.
pub proof fn lemma_loaded_push(images: Seq<ProcessImage>, x: ProcessImage, avail: int, cap: int)
    ensures
        ({
            let l = spec_loaded(images, avail, cap);
            spec_loaded(images.push(x), avail, cap) == if l.len() < cap && spec_images_used(l)
                + x.ram_size <= avail {
                l.push(x)
            } else {
                l
            }
        }),
    decreases images.len(),
{
    let l = spec_loaded(images, avail, cap);
    if cap <= 0 {
        assert(l =~= Seq::<ProcessImage>::empty());
        assert(spec_loaded(images.push(x), avail, cap) =~= Seq::<ProcessImage>::empty());
    } else if images.len() == 0 {
        assert(l =~= Seq::<ProcessImage>::empty());
        assert(spec_images_used(l) == 0);
        let p = images.push(x);
        assert(p[0] == x);
        assert(p.subrange(1, p.len() as int) =~= Seq::<ProcessImage>::empty());
        if x.ram_size <= avail {
            assert(spec_loaded(p.subrange(1, p.len() as int), avail - x.ram_size, cap - 1)
                =~= Seq::<ProcessImage>::empty());
            assert(spec_loaded(p, avail, cap) =~= seq![x]);
            assert(l.push(x) =~= seq![x]);
        } else {
            assert(spec_loaded(p.subrange(1, p.len() as int), avail, cap) =~= Seq::<
                ProcessImage,
            >::empty());
            assert(spec_loaded(p, avail, cap) =~= Seq::<ProcessImage>::empty());
        }
    } else {
        let rest = images.subrange(1, images.len() as int);
        let p = images.push(x);
        assert(p[0] == images[0]);
        assert(p.subrange(1, p.len() as int) =~= rest.push(x));
        if images[0].ram_size <= avail {
            let l2 = spec_loaded(rest, avail - images[0].ram_size, cap - 1);
            lemma_loaded_push(rest, x, avail - images[0].ram_size, cap - 1);
            lemma_images_used_cons(images[0], l2);
            assert(l == seq![images[0]] + l2);
            if l2.len() < cap - 1 && spec_images_used(l2) + x.ram_size <= avail
                - images[0].ram_size {
                assert(spec_loaded(p, avail, cap) == seq![images[0]] + l2.push(x));
                assert(seq![images[0]] + l2.push(x) =~= l.push(x));
            } else {
                assert(spec_loaded(p, avail, cap) == seq![images[0]] + l2);
            }
        } else {
            lemma_loaded_push(rest, x, avail, cap);
        }
    }
}

/// Extending the accepted set by one adds exactly its demand.
pub proof fn lemma_images_used_take_succ(images: Seq<ProcessImage>, i: int)
    requires
        0 <= i < images.len(),
    ensures
        spec_images_used(images.take(i + 1)) == spec_images_used(images.take(i))
            + images[i].ram_size,
{
    assert(images.take(i + 1).drop_last() =~= images.take(i));
    assert(images.take(i + 1).last() == images[i]);
}

/// Demand grows with the prefix of accepted images.
pub proof fn lemma_images_used_take_mono(images: Seq<ProcessImage>, i: int, j: int)
    requires
        0 <= i <= j <= images.len(),
    ensures
        spec_images_used(images.take(i)) <= spec_images_used(images.take(j)),
    decreases j - i,
{
    if i < j {
        lemma_images_used_take_succ(images, i);
        lemma_images_used_take_mono(images, i + 1, j);
    }
}

/// What a slot filled from `img` at `ram_start` looks like: freshly loaded,
/// no fault recorded, no grants, the system's fault policy.
pub open spec fn spec_slot_matches(
    slot: Option<Process>,
    img: ProcessImage,
    ram_start: int,
    fault_response: FaultResponse,
) -> bool {
    &&& slot is Some
    &&& slot->0.code_start == img.code_start
    &&& slot->0.code_size == img.code_size
    &&& slot->0.ram_start == ram_start
    &&& slot->0.ram_size == img.ram_size
    &&& slot->0.fault_response == fault_response
    &&& !slot->0.syscall_fired
    &&& !slot->0.app_fault
    &&& slot->0.active
    &&& slot->0.scb_registers@ == seq![0u32, 0u32, 0u32, 0u32, 0u32]
    &&& slot->0.grants@ == Seq::<Grant>::empty()
    &&& slot->0.grant_used == 0
}

/// The fixed-capacity table of process slots.  Assembled once at boot by
/// the loader; mutated afterwards only through the slot it names.
pub struct ProcessTable {
    pub slots: Vec<Option<Process>>,
}

impl ProcessTable {
    /// Every occupied slot holds a well-formed process, and the memory
    /// regions of any two occupied slots are disjoint.
    pub open spec fn well_formed(self) -> bool {
        &&& forall|i: int|
            0 <= i < self.slots@.len() && (#[trigger] self.slots@[i]) is Some
                ==> self.slots@[i]->0.well_formed()
        &&& forall|i: int, j: int|
            #![trigger self.slots@[i], self.slots@[j]]
            0 <= i < j < self.slots@.len() && self.slots@[i] is Some && self.slots@[j] is Some
                ==> (self.slots@[i]->0.ram_start + self.slots@[i]->0.ram_size
                <= self.slots@[j]->0.ram_start || self.slots@[j]->0.ram_start
                + self.slots@[j]->0.ram_size <= self.slots@[i]->0.ram_start)
    }

    /// Number of slots.
    pub fn len(&self) -> (n: usize)
        ensures
            n == self.slots@.len(),
    {
        self.slots.len()
    }
}

/// Partitions one memory region of `mem_size` words starting at `mem_start`
/// among up to `capacity` processes, one table slot per accepted image, in
/// image order.  Images beyond the table capacity, and images whose demand
/// does not fit what is left of the region, are skipped; neither is fatal.
pub fn load_processes(
    images: &Vec<ProcessImage>,
    mem_start: usize,
    mem_size: usize,
    capacity: usize,
    fault_response: FaultResponse,
) -> (table: ProcessTable)
    requires
        mem_start + mem_size <= usize::MAX,
    ensures
        table.slots@.len() == capacity,
        table.well_formed(),
        ({
            let loaded = spec_loaded(images@, mem_size as int, capacity as int);
            &&& forall|k: int|
                0 <= k < loaded.len() ==> spec_slot_matches(
                    #[trigger] table.slots@[k],
                    loaded[k],
                    mem_start + spec_images_used(loaded.take(k)),
                    fault_response,
                )
            &&& forall|k: int|
                loaded.len() <= k < capacity ==> (#[trigger] table.slots@[k]) is None
        }),
{
    let ghost loaded_all = spec_loaded(images@, mem_size as int, capacity as int);
    let mut slots: Vec<Option<Process>> = Vec::new();
    let mut used: usize = 0;
    let mut i: usize = 0;
    proof {
        assert(images@.take(0) =~= Seq::<ProcessImage>::empty());
        assert(spec_loaded(Seq::<ProcessImage>::empty(), mem_size as int, capacity as int) =~= Seq::<
            ProcessImage,
        >::empty());
        assert(spec_images_used(Seq::<ProcessImage>::empty()) == 0);
    }
    while i < images.len()
        invariant
            mem_start + mem_size <= usize::MAX,
            0 <= i <= images@.len(),
            used <= mem_size,
            slots@.len() <= capacity,
            ({
                let l = spec_loaded(images@.take(i as int), mem_size as int, capacity as int);
                &&& slots@.len() == l.len()
                &&& used == spec_images_used(l)
                &&& forall|k: int|
                    0 <= k < l.len() ==> spec_slot_matches(
                        #[trigger] slots@[k],
                        l[k],
                        mem_start + spec_images_used(l.take(k)),
                        fault_response,
                    )
            }),
        decreases images@.len() - i,
    {
        let ghost l_old = spec_loaded(images@.take(i as int), mem_size as int, capacity as int);
        let img = images[i];
        proof {
            lemma_loaded_push(images@.take(i as int), img, mem_size as int, capacity as int);
            assert(images@.take(i as int).push(img) =~= images@.take(i as int + 1));
        }
        if slots.len() < capacity && img.ram_size <= mem_size - used {
            let p = Process::load(
                img.code_start,
                img.code_size,
                mem_start + used,
                img.ram_size,
                fault_response,
            );
            slots.push(Option::Some(p));
            used = used + img.ram_size;
            proof {
                let l_new = spec_loaded(images@.take(i as int + 1), mem_size as int, capacity as int);
                assert(l_new == l_old.push(img));
                assert(l_new.drop_last() =~= l_old);
                assert(l_new.last() == img);
                assert(spec_images_used(l_new) == spec_images_used(l_old) + img.ram_size);
                assert forall|k: int| 0 <= k < l_new.len() implies spec_slot_matches(
                    #[trigger] slots@[k],
                    l_new[k],
                    mem_start + spec_images_used(l_new.take(k)),
                    fault_response,
                ) by {
                    assert(l_new.take(k) =~= if k < l_old.len() {
                        l_old.take(k)
                    } else {
                        l_old
                    });
                    if k < l_old.len() {
                        assert(spec_slot_matches(
                            slots@[k],
                            l_old[k],
                            mem_start + spec_images_used(l_old.take(k)),
                            fault_response,
                        ));
                    }
                }
            }
        } else {
            proof {
                let l_new = spec_loaded(images@.take(i as int + 1), mem_size as int, capacity as int);
                assert(l_new == l_old);
            }
        }
        i = i + 1;
    }
    proof {
        assert(images@.take(images@.len() as int) =~= images@);
    }
    while slots.len() < capacity
        invariant
            loaded_all == spec_loaded(images@, mem_size as int, capacity as int),
            loaded_all.len() <= slots@.len() <= capacity,
            used == spec_images_used(loaded_all),
            used <= mem_size,
            mem_start + mem_size <= usize::MAX,
            forall|k: int|
                0 <= k < loaded_all.len() ==> spec_slot_matches(
                    #[trigger] slots@[k],
                    loaded_all[k],
                    mem_start + spec_images_used(loaded_all.take(k)),
                    fault_response,
                ),
            forall|k: int| loaded_all.len() <= k < slots@.len() ==> (#[trigger] slots@[k]) is None,
        decreases capacity - slots@.len(),
    {
        slots.push(Option::None);
    }
    proof {
        lemma_table_well_formed(slots@, loaded_all, mem_start as int, mem_size as int, fault_response);
    }
    ProcessTable { slots }
}

/// A table whose occupied prefix was carved consecutively from one region
/// is well formed: each process is internally consistent and no two of
/// their memory regions overlap.
proof fn lemma_table_well_formed(
    slots: Seq<Option<Process>>,
    loaded: Seq<ProcessImage>,
    mem_start: int,
    mem_size: int,
    fault_response: FaultResponse,
)
    requires
        mem_start + mem_size <= usize::MAX,
        loaded.len() <= slots.len(),
        spec_images_used(loaded) <= mem_size,
        forall|k: int|
            0 <= k < loaded.len() ==> spec_slot_matches(
                #[trigger] slots[k],
                loaded[k],
                mem_start + spec_images_used(loaded.take(k)),
                fault_response,
            ),
        forall|k: int| loaded.len() <= k < slots.len() ==> (#[trigger] slots[k]) is None,
    ensures
        forall|i: int|
            0 <= i < slots.len() && (#[trigger] slots[i]) is Some ==> slots[i]->0.well_formed(),
        forall|i: int, j: int|
            #![trigger slots[i], slots[j]]
            0 <= i < j < slots.len() && slots[i] is Some && slots[j] is Some ==> (
            slots[i]->0.ram_start + slots[i]->0.ram_size <= slots[j]->0.ram_start
                || slots[j]->0.ram_start + slots[j]->0.ram_size <= slots[i]->0.ram_start),
{
    assert forall|i: int|
        0 <= i < slots.len() && (#[trigger] slots[i]) is Some implies slots[i]->0.well_formed() by {
        assert(i < loaded.len());
        lemma_images_used_take_succ(loaded, i);
        lemma_images_used_take_mono(loaded, i + 1, loaded.len() as int);
        assert(loaded.take(loaded.len() as int) =~= loaded);
        lemma_images_used_nonneg(loaded.take(i));
        assert(spec_grants_used(Seq::<Grant>::empty()) == 0);
        assert(slots[i]->0.grants@.len() == 0);
    }
    assert forall|i: int, j: int|
        #![trigger slots[i], slots[j]]
        0 <= i < j < slots.len() && slots[i] is Some && slots[j] is Some implies (
    slots[i]->0.ram_start + slots[i]->0.ram_size <= slots[j]->0.ram_start
        || slots[j]->0.ram_start + slots[j]->0.ram_size <= slots[i]->0.ram_start) by {
        assert(i < loaded.len() && j < loaded.len());
        lemma_images_used_take_succ(loaded, i);
        lemma_images_used_take_mono(loaded, i + 1, j);
    }
}

/// Process-table capacity: offered at least as many loadable images as it
/// has slots, the loader fills exactly its capacity with the first images
/// and silently skips the remainder.
pub proof fn lemma_load_capacity(images: Seq<ProcessImage>, avail: int, cap: int)
    requires
        0 <= cap <= images.len(),
        spec_images_used(images.take(cap)) <= avail,
    ensures
        spec_loaded(images, avail, cap) == images.take(cap),
        spec_loaded(images, avail, cap).len() == cap,
    decreases images.len(),
{
    if cap == 0 {
        assert(images.take(0) =~= Seq::<ProcessImage>::empty());
    } else {
        let rest = images.subrange(1, images.len() as int);
        lemma_images_used_cons(images[0], rest.take(cap - 1));
        assert(images.take(cap) =~= seq![images[0]] + rest.take(cap - 1));
        lemma_images_used_nonneg(rest.take(cap - 1));
        assert(images[0].ram_size <= avail);
        lemma_load_capacity(rest, avail - images[0].ram_size, cap - 1);
        assert(spec_loaded(images, avail, cap) == seq![images[0]] + rest.take(cap - 1));
        assert(seq![images[0]] + rest.take(cap - 1) =~= images.take(cap));
    }
}

} // verus!
