//! Execution-context classification: on every fault trap the hardware hands
//! the handler an exception-return value in the link register whose bit 2
//! selects the stack that was in use.  A clear bit means the main (kernel)
//! stack, a set bit means the process stack.

use vstd::prelude::*;

verus! {

/// The two execution contexts a trap can arrive from.  A fault in kernel
/// context is fatal to the whole system; a fault in process context is
/// attributed to the one active process.
#[derive(Clone, Copy, Debug, PartialEq, Eq, Structural)]
pub enum ExecutionContext {
    Kernel,
    Process,
}

/// The exception-return bit that selects the process stack.
pub const EXC_RETURN_PSP_BIT: u32 = 0x4;

/// What context an exception-return value names: kernel when the
/// stack-selector bit is clear, process when it is set.
pub open spec fn spec_classify(exc_return: u32) -> ExecutionContext {
    if exc_return & EXC_RETURN_PSP_BIT == 0 {
        ExecutionContext::Kernel
    } else {
        ExecutionContext::Process
    }
}

/// Classifies the context a trap arrived from by the stack-selector bit of
/// the exception-return value.
pub fn classify_context(exc_return: u32) -> (ctx: ExecutionContext)
    ensures
        ctx == spec_classify(exc_return),
{
    if exc_return & EXC_RETURN_PSP_BIT == 0 {
        ExecutionContext::Kernel
    } else {
        ExecutionContext::Process
    }
}

/// Classification is total: every possible exception-return value resolves
/// to exactly one of the two contexts, and never to anything else.
pub proof fn lemma_classification_total(exc_return: u32)
    ensures
        spec_classify(exc_return) == ExecutionContext::Kernel
            || spec_classify(exc_return) == ExecutionContext::Process,
        !(spec_classify(exc_return) == ExecutionContext::Kernel
            && spec_classify(exc_return) == ExecutionContext::Process),
{
}

} // verus!
