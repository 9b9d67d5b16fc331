//! The identity of a processor.

use vstd::prelude::*;

verus! {

/// The ordinal of a processor. The platform hands them out, starting at 0.
pub type CpuId = u32;

/// One physical processor. Its ordinal is fixed when the value is made.
#[derive(Debug)]
pub struct Cpu {
    cpu_id: CpuId,
}

impl Cpu {
    /// The ordinal this processor was made with.
    pub closed spec fn spec_id(&self) -> CpuId {
        self.cpu_id
    }

    /// The processor with ordinal `cpu_id`.
    pub fn new(cpu_id: CpuId) -> (cpu: Cpu)
        ensures
            cpu.id() == cpu_id,
    {
        Cpu { cpu_id }
    }

    /// The ordinal of this processor.
    #[verifier::when_used_as_spec(spec_id)]
    pub fn id(&self) -> (id: CpuId)
        ensures
            id == self.id(),
    {
        self.cpu_id
    }
}

} // verus!
