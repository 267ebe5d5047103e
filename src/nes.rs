//! The console, which owns its processor.
use vstd::prelude::*;
use crate::cpu::CPU;

verus! {

/// A console; its processor is the one component modelled here.
pub struct NES {
    pub cpu: CPU,
}

impl NES {
    /// A console whose processor is in its power-on state.
    pub fn new() -> (r: NES)
        ensures
            r.cpu == CPU::initial(),
    {
        NES { cpu: CPU::new() }
    }
}

} // verus!
