//! The state of the machine that the bring-up rules read and write.

use vstd::prelude::*;
use crate::irq::IrqController;
use crate::local::Local;

verus! {

/// The interrupt-enable bit of RFLAGS.
pub const INTERRUPT_FLAG: u64 = 0x200;

/// The value of RFLAGS after reset: only the reserved bit 1 is set.
pub const RFLAGS_RESET: u64 = 0x2;

/// The registers of one processor, as far as this crate is concerned.
///
/// Every combination of values is a state that a processor can be in.
#[derive(Debug, Clone, Copy, PartialEq, Eq)]
pub struct Core {
    /// The RFLAGS register.
    pub rflags: u64,
    /// The GS.Base register: the slot in which the processor keeps the
    /// address of its local block. Zero until bring-up has written it.
    pub gs_base: u64,
    /// Whether the processor sits in a halt, waiting for an interrupt.
    pub halted: bool,
}

impl Core {
    /// Whether maskable interrupts are delivered in this state.
    pub open spec fn interrupts_enabled(&self) -> bool {
        self.rflags & INTERRUPT_FLAG != 0
    }

    /// A processor as it leaves reset: interrupts masked, nothing published,
    /// running.
    pub fn new() -> (core: Core)
        ensures
            core == (Core { rflags: RFLAGS_RESET, gs_base: 0, halted: false }),
            !core.interrupts_enabled(),
    {
        assert(RFLAGS_RESET & INTERRUPT_FLAG == 0) by (bit_vector);
        Core { rflags: RFLAGS_RESET, gs_base: 0, halted: false }
    }

    /// A maskable interrupt arrives at the processor.
    ///
    /// It is delivered exactly when interrupts are enabled, and delivery ends
    /// a halt. A masked interrupt changes nothing.
    pub fn interrupt(&mut self) -> (delivered: bool)
        ensures
            delivered == old(self).interrupts_enabled(),
            *final(self) == if delivered {
                Core { halted: false, ..*old(self) }
            } else {
                *old(self)
            },
    {
        if IrqController::enabled(self) {
            self.halted = false;
            true
        } else {
            false
        }
    }
}

/// The memory that all processors share: the heap on which local blocks are
/// placed, and the memory that thread stacks are cut from.
///
/// A block, once placed, stays at its address for good; the heap only grows.
/// The `n`-th block placed lives at address `n`, counting from 1, so that no
/// block lives at the null address.
#[derive(Debug)]
pub struct Memory {
    blocks: Vec<Local>,
    stack_free: usize,
}

impl Memory {
    /// The blocks on the heap, in the order in which they were placed.
    pub closed spec fn blocks(&self) -> Seq<Local> {
        self.blocks@
    }

    /// The bytes of stack memory that are left.
    pub closed spec fn spec_stack_free(&self) -> usize {
        self.stack_free
    }

    /// Whether a block lives at `address`.
    pub open spec fn spec_holds(&self, address: u64) -> bool {
        1 <= address <= self.blocks().len()
    }

    /// The block that lives at `address`.
    pub open spec fn block(&self, address: u64) -> Local
        recommends
            self.holds(address),
    {
        self.blocks()[address - 1]
    }

    /// Whether the heap can take one more block.
    pub open spec fn spec_has_room(&self) -> bool {
        self.blocks().len() < usize::MAX
    }

    /// A memory with an empty heap and `stack_bytes` bytes of stack memory.
    pub fn new(stack_bytes: usize) -> (memory: Memory)
        ensures
            memory.blocks() == Seq::<Local>::empty(),
            memory.stack_free() == stack_bytes,
    {
        Memory { blocks: Vec::new(), stack_free: stack_bytes }
    }

    /// The bytes of stack memory that are left.
    #[verifier::when_used_as_spec(spec_stack_free)]
    pub fn stack_free(&self) -> (bytes: usize)
        ensures
            bytes == self.stack_free(),
    {
        self.stack_free
    }

    /// Whether the heap can take one more block.
    #[verifier::when_used_as_spec(spec_has_room)]
    pub fn has_room(&self) -> (room: bool)
        ensures
            room == self.has_room(),
    {
        self.blocks.len() < usize::MAX
    }

    /// Whether a block lives at `address`.
    #[verifier::when_used_as_spec(spec_holds)]
    pub fn holds(&self, address: u64) -> (held: bool)
        ensures
            held == self.holds(address),
    {
        1 <= address && address - 1 < self.blocks.len() as u64
    }

    /// The block that lives at `address`, to be read.
    pub fn block_ref(&self, address: u64) -> (block: &Local)
        requires
            self.holds(address),
        ensures
            *block == self.block(address),
    {
        assert(address <= self.blocks.len());
        &self.blocks[(address - 1) as usize]
    }

    /// The block that lives at `address`, to be changed in place.
    pub fn block_mut(&mut self, address: u64) -> (block: &mut Local)
        requires
            old(self).holds(address),
        ensures
            *block == old(self).block(address),
            final(self).blocks() == old(self).blocks().update(address - 1, *final(block)),
            final(self).stack_free() == old(self).stack_free(),
    {
        assert(address <= self.blocks.len());
        &mut self.blocks[(address - 1) as usize]
    }

    /// Places `block` on the heap, behind all blocks placed before, and
    /// returns the address at which it now lives.
    pub fn allocate(&mut self, block: Local) -> (address: u64)
        requires
            old(self).has_room(),
        ensures
            address == old(self).blocks().len() + 1,
            final(self).blocks() == old(self).blocks().push(block),
            final(self).stack_free() == old(self).stack_free(),
    {
        self.blocks.push(block);
        self.blocks.len() as u64
    }

    /// Takes `size` bytes from the stack memory, if that many are left, and
    /// says whether it did.
    pub fn reserve_stack(&mut self, size: usize) -> (taken: bool)
        ensures
            taken == (size <= old(self).stack_free()),
            final(self).blocks() == old(self).blocks(),
            taken ==> final(self).stack_free() == old(self).stack_free() - size,
            !taken ==> final(self).stack_free() == old(self).stack_free(),
    {
        if size <= self.stack_free {
            self.stack_free = self.stack_free - size;
            true
        } else {
            false
        }
    }
}

} // verus!
