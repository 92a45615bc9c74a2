//! Sample capsule: greets once when started and ignores its periodic alarm.
//! The smallest example of the uniform capsule shape; the kernel's debug
//! channel prints what `start` hands back.

use vstd::prelude::*;

verus! {

/// The greeting capsule.
pub struct HelloWorld {}

impl HelloWorld {
    /// Builds the capsule.
    pub fn new() -> HelloWorld {
        HelloWorld {  }
    }

    /// The greeting to print on start.
    pub fn start(&self) -> (s: &'static str)
        ensures
            s@ == "Hello World"@,
    {
        "Hello World"
    }

    /// The alarm callback: nothing to do.
    pub fn fired(&self) {
    }
}

} // verus!
