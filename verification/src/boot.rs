//! Boot initializer: the one-shot pass that runs before anything else.  It
//! copies the initialized-data image from its stored location to its live
//! location word by word, zero-fills the uninitialized-data region, and only
//! then enables interrupt delivery.  Memory is modeled as a word-addressed
//! array; the region bounds are link-time constants, never computed.

use vstd::prelude::*;

verus! {

/// The interrupt controller's delivery switch.  Nothing is delivered until
/// the boot initializer has finished both memory passes.
pub struct InterruptController {
    pub enabled: bool,
}

impl InterruptController {
    /// A controller with delivery still off, as the hardware resets it.
    pub fn reset() -> (nvic: InterruptController)
        ensures
            !nvic.enabled,
    {
        InterruptController { enabled: false }
    }

    /// Turns on delivery of every interrupt source.
    pub fn enable_all(&mut self)
        ensures
            final(self).enabled,
    {
        self.enabled = true;
    }
}

/// The link-time memory layout the initializer works from: the stored data
/// image begins at `etext`, its live location is `[srelocate, erelocate)`,
/// and the region to zero-fill is `[szero, ezero)`.  All are word indices.
#[derive(Clone, Copy, Debug, PartialEq, Eq, Structural)]
pub struct BootLayout {
    pub etext: usize,
    pub srelocate: usize,
    pub erelocate: usize,
    pub szero: usize,
    pub ezero: usize,
}

impl BootLayout {
    /// Length of the initialized-data image, in words.
    pub open spec fn reloc_len(self) -> int {
        self.erelocate - self.srelocate
    }

    /// The bounds a linker can actually emit for a memory of `mem_len`
    /// words: ordered regions inside memory, a stored image that either
    /// coincides with its live location or does not overlap it, and a
    /// zero region disjoint from the live image.
    pub open spec fn well_formed(self, mem_len: int) -> bool {
        &&& self.srelocate <= self.erelocate <= mem_len
        &&& self.szero <= self.ezero <= mem_len
        &&& self.etext + self.reloc_len() <= mem_len
        &&& (self.etext == self.srelocate
            || self.etext + self.reloc_len() <= self.srelocate
            || self.erelocate <= self.etext)
        &&& (self.ezero <= self.srelocate || self.erelocate <= self.szero)
    }

    /// Tests at run time what `well_formed` states, for callers that get
    /// their bounds from outside.
    pub fn check(&self, mem_len: usize) -> (r: bool)
        ensures
            r == self.well_formed(mem_len as int),
    {
        self.srelocate <= self.erelocate && self.erelocate <= mem_len && self.szero <= self.ezero
            && self.ezero <= mem_len && self.etext <= mem_len && self.erelocate - self.srelocate
            <= mem_len - self.etext && (self.etext == self.srelocate || (self.etext
            <= self.srelocate && self.erelocate - self.srelocate <= self.srelocate - self.etext)
            || self.erelocate <= self.etext) && (self.ezero <= self.srelocate || self.erelocate
            <= self.szero)
    }
}

/// What one run of the initializer does to memory: the live data region now
/// holds the stored image, the zero region is all zero, and every other
/// word is untouched.
pub open spec fn spec_boot_post(pre: Seq<u32>, post: Seq<u32>, layout: BootLayout) -> bool {
    &&& post.len() == pre.len()
    &&& forall|k: int|
        0 <= k < layout.reloc_len() ==> #[trigger] post[layout.srelocate + k] == pre[layout.etext
            + k]
    &&& forall|i: int| layout.szero <= i < layout.ezero ==> post[i] == 0u32
    &&& forall|i: int|
        0 <= i < pre.len() && !(layout.srelocate <= i < layout.erelocate) && !(layout.szero <= i
            < layout.ezero) ==> post[i] == pre[i]
}

/// Copies the stored data image to its live location (a no-op walk when the
/// two coincide), zero-fills the uninitialized region, then enables
/// interrupt delivery.  Runs exactly once, before any other component.
pub fn init(mem: &mut Vec<u32>, layout: BootLayout, nvic: &mut InterruptController)
    requires
        layout.well_formed(old(mem)@.len() as int),
    ensures
        spec_boot_post(old(mem)@, final(mem)@, layout),
        final(nvic).enabled,
{
    let n = mem.len();
    if layout.etext != layout.srelocate {
        let mut src: usize = layout.etext;
        let mut dest: usize = layout.srelocate;
        while dest < layout.erelocate
            invariant
                layout.well_formed(n as int),
                mem@.len() == n,
                layout.etext != layout.srelocate,
                layout.srelocate <= dest <= layout.erelocate,
                src == layout.etext + (dest - layout.srelocate),
                mem@.len() == old(mem)@.len(),
                forall|k: int|
                    0 <= k < dest - layout.srelocate ==> #[trigger] mem@[layout.srelocate + k]
                        == old(mem)@[layout.etext + k],
                forall|i: int|
                    0 <= i < mem@.len() && !(layout.srelocate <= i < dest) ==> mem@[i]
                        == old(mem)@[i],
            decreases layout.erelocate - dest,
        {
            let word = mem[src];
            mem.set(dest, word);
            src = src + 1;
            dest = dest + 1;
        }
    }
    assert forall|j: int|
        0 <= j < mem@.len() implies mem@[j] == (if layout.etext != layout.srelocate
        && layout.srelocate <= j < layout.erelocate {
        old(mem)@[layout.etext + (j - layout.srelocate)]
    } else {
        old(mem)@[j]
    }) by {
        if layout.etext != layout.srelocate && layout.srelocate <= j < layout.erelocate {
            let k = j - layout.srelocate;
            assert(mem@[layout.srelocate + k] == old(mem)@[layout.etext + k]);
        }
    }
    let mut i: usize = layout.szero;
    while i < layout.ezero
        invariant
            layout.szero <= i <= layout.ezero,
            layout.ezero <= mem@.len(),
            mem@.len() == old(mem)@.len(),
            forall|j: int| layout.szero <= j < i ==> mem@[j] == 0u32,
            forall|j: int|
                0 <= j < mem@.len() && !(layout.szero <= j < i) ==> mem@[j]
                    == (if layout.etext != layout.srelocate && layout.srelocate <= j
                        < layout.erelocate {
                        old(mem)@[layout.etext + (j - layout.srelocate)]
                    } else {
                        old(mem)@[j]
                    }),
        decreases layout.ezero - i,
    {
        mem.set(i, 0u32);
        i = i + 1;
    }
    assert forall|k: int|
        0 <= k < layout.reloc_len() implies #[trigger] mem@[layout.srelocate + k]
        == old(mem)@[layout.etext + k] by {
        let j = layout.srelocate + k;
        if layout.etext == layout.srelocate {
            assert(mem@[j] == old(mem)@[j]);
        }
    }
    nvic.enable_all();
}

/// Boot bounds: after the initializer runs, live memory equals the stored
/// image across the whole relocation region, the zero region reads back all
/// zero, and when the stored image already sits at its live location no
/// word outside the zero region changes at all.
pub proof fn lemma_boot_bounds(pre: Seq<u32>, post: Seq<u32>, layout: BootLayout)
    requires
        layout.well_formed(pre.len() as int),
        spec_boot_post(pre, post, layout),
    ensures
        post.subrange(layout.srelocate as int, layout.erelocate as int) =~= pre.subrange(
            layout.etext as int,
            layout.etext + layout.reloc_len(),
        ),
        forall|i: int| layout.szero <= i < layout.ezero ==> post[i] == 0u32,
        layout.etext == layout.srelocate ==> forall|i: int|
            0 <= i < pre.len() && !(layout.szero <= i < layout.ezero) ==> post[i] == pre[i],
{
    assert forall|k: int|
        0 <= k < layout.reloc_len() implies post.subrange(
        layout.srelocate as int,
        layout.erelocate as int,
    )[k] == pre.subrange(layout.etext as int, layout.etext + layout.reloc_len())[k] by {
        assert(post[layout.srelocate + k] == pre[layout.etext + k]);
    }
    if layout.etext == layout.srelocate {
        assert forall|i: int|
            0 <= i < pre.len() && !(layout.szero <= i < layout.ezero) implies post[i] == pre[i] by {
            if layout.srelocate <= i < layout.erelocate {
                let k = i - layout.srelocate;
                assert(post[layout.srelocate + k] == pre[layout.etext + k]);
            }
        }
    }
}

} // verus!
