//! The fixed exception vector table: fifty entries indexed by the
//! hardware-assigned exception number.  Entry 0 carries the initial stack
//! pointer, entry 1 the reset entry point; entry 3 routes hard faults,
//! entry 11 supervisor calls, entry 15 the periodic tick, and entries 16
//! and up are the chip's peripheral interrupts, all of which share one
//! generic service routine.  Every reserved or unused source routes to the
//! default handler, which halts on purpose.

use vstd::prelude::*;

verus! {

/// Number of exception and interrupt sources the table covers.
pub const NUM_VECTORS: usize = 50;

/// Index of the first peripheral-interrupt entry.
pub const FIRST_IRQ_VECTOR: usize = 16;

/// What one slot of the vector table routes to.  There is no "absent"
/// variant: every slot names a defined destination.
#[derive(Clone, Copy, Debug, PartialEq, Eq, Structural)]
pub enum VectorEntry {
    /// Entry 0: the initial stack-pointer value, not executable code.
    InitialStack,
    /// Entry 1: the boot entry point.
    Reset,
    /// Entry 3: the hard-fault handler.
    HardFault,
    /// Entry 11: the supervisor-call (system call) handler.
    Svc,
    /// Entry 15: the periodic system-tick handler.
    SysTick,
    /// Entries 16 and up: the shared peripheral interrupt-service routine.
    GenericIsr,
    /// Every reserved or unused source: halts on purpose if ever taken.
    Unhandled,
}

/// The handler the hardware-mandated layout assigns to index `i`.
pub open spec fn spec_vector_entry(i: int) -> VectorEntry {
    if i == 0 {
        VectorEntry::InitialStack
    } else if i == 1 {
        VectorEntry::Reset
    } else if i == 3 {
        VectorEntry::HardFault
    } else if i == 11 {
        VectorEntry::Svc
    } else if i == 15 {
        VectorEntry::SysTick
    } else if FIRST_IRQ_VECTOR <= i < NUM_VECTORS {
        VectorEntry::GenericIsr
    } else {
        VectorEntry::Unhandled
    }
}

/// The vector table, constructed once at system assembly and immutable
/// afterwards.
pub struct VectorTable {
    pub entries: Vec<VectorEntry>,
}

impl VectorTable {
    /// The table is complete: it holds exactly one entry per source, and
    /// each index carries the entry the layout mandates.
    pub open spec fn well_formed(self) -> bool {
        &&& self.entries@.len() == NUM_VECTORS
        &&& forall|i: int|
            0 <= i < NUM_VECTORS ==> self.entries@[i] == spec_vector_entry(i)
    }

    /// Builds the fifty-entry table in the hardware-mandated order.
    pub fn base_vectors() -> (table: VectorTable)
        ensures
            table.well_formed(),
    {
        let mut entries: Vec<VectorEntry> = Vec::new();
        entries.push(VectorEntry::InitialStack);  // 0: initial stack pointer
        entries.push(VectorEntry::Reset);  // 1: reset
        entries.push(VectorEntry::Unhandled);  // 2: NMI
        entries.push(VectorEntry::HardFault);  // 3: hard fault
        entries.push(VectorEntry::Unhandled);  // 4: memory-management fault
        entries.push(VectorEntry::Unhandled);  // 5: bus fault
        entries.push(VectorEntry::Unhandled);  // 6: usage fault
        entries.push(VectorEntry::Unhandled);  // 7: reserved
        entries.push(VectorEntry::Unhandled);  // 8: reserved
        entries.push(VectorEntry::Unhandled);  // 9: reserved
        entries.push(VectorEntry::Unhandled);  // 10: reserved
        entries.push(VectorEntry::Svc);  // 11: supervisor call
        entries.push(VectorEntry::Unhandled);  // 12: debug monitor
        entries.push(VectorEntry::Unhandled);  // 13: reserved
        entries.push(VectorEntry::Unhandled);  // 14: deferred service call
        entries.push(VectorEntry::SysTick);  // 15: system tick
        let mut i: usize = FIRST_IRQ_VECTOR;
        while i < NUM_VECTORS
            invariant
                FIRST_IRQ_VECTOR <= i <= NUM_VECTORS,
                entries@.len() == i,
                forall|j: int| 0 <= j < i ==> entries@[j] == spec_vector_entry(j),
            decreases NUM_VECTORS - i,
        {
            entries.push(VectorEntry::GenericIsr);
            i = i + 1;
        }
        VectorTable { entries }
    }

    /// Number of entries.
    pub fn len(&self) -> (n: usize)
        ensures
            n == self.entries@.len(),
    {
        self.entries.len()
    }

    /// The handler routed to for exception number `i`.
    pub fn entry(&self, i: usize) -> (e: VectorEntry)
        requires
            i < self.entries@.len(),
        ensures
            e == self.entries@[i as int],
    {
        self.entries[i]
    }
}

/// Vector-table completeness: in a well-formed table every index below the
/// table length resolves to a defined handler, and every index that is not
/// one of the named sources resolves to the designated default handler.
pub proof fn lemma_vector_table_complete(table: VectorTable)
    requires
        table.well_formed(),
    ensures
        table.entries@.len() == NUM_VECTORS,
        forall|i: int|
            0 <= i < NUM_VECTORS ==> table.entries@[i] == spec_vector_entry(i),
        forall|i: int|
            0 <= i < NUM_VECTORS && i != 0 && i != 1 && i != 3 && i != 11 && i != 15
                && i < FIRST_IRQ_VECTOR ==> table.entries@[i] == VectorEntry::Unhandled,
        forall|i: int|
            FIRST_IRQ_VECTOR <= i < NUM_VECTORS ==> table.entries@[i] == VectorEntry::GenericIsr,
{
    assert forall|i: int|
        0 <= i < NUM_VECTORS && i != 0 && i != 1 && i != 3 && i != 11 && i != 15
            && i < FIRST_IRQ_VECTOR implies table.entries@[i] == VectorEntry::Unhandled by {
        assert(table.entries@[i] == spec_vector_entry(i));
    }
    assert forall|i: int|
        FIRST_IRQ_VECTOR <= i < NUM_VECTORS implies table.entries@[i]
        == VectorEntry::GenericIsr by {
        assert(table.entries@[i] == spec_vector_entry(i));
    }
}

} // verus!
