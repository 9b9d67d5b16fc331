//! Masking and unmasking of interrupts on one processor.

use vstd::prelude::*;
use x86_64::registers::rflags::RFlags;
use crate::machine::{Core, INTERRUPT_FLAG};

verus! {

/// Whether a raw RFLAGS value has the interrupt-enable bit set.
///
/// Calls `RFlags::contains` of the `x86_64` crate with
/// `RFlags::INTERRUPT_FLAG`, on the flags made from `rflags` by
/// `RFlags::from_bits_retain`, which keeps every bit. The contract claims
/// that the answer is whether bit 9 of `rflags` is set.
#[verifier::external_body]
fn has_interrupt_flag(rflags: u64) -> (set: bool)
    ensures
        set == (rflags & INTERRUPT_FLAG != 0),
{
    RFlags::from_bits_retain(rflags).contains(RFlags::INTERRUPT_FLAG)
}

/// The switch for maskable interrupts of the executing processor.
///
/// Masking is the only critical section there is: what must not be seen half
/// done by an interrupt handler is bracketed by `disable` and `enable`. The
/// calls do not nest and are not counted.
pub struct IrqController;

impl IrqController {
    /// The processor `core` with interrupts masked: the interrupt flag is
    /// clear and everything else is as in `core`.
    pub open spec fn masked(core: Core) -> Core {
        Core { rflags: core.rflags & !INTERRUPT_FLAG, ..core }
    }

    /// The processor `core` with interrupts unmasked: the interrupt flag is
    /// set and everything else is as in `core`.
    pub open spec fn unmasked(core: Core) -> Core {
        Core { rflags: core.rflags | INTERRUPT_FLAG, ..core }
    }

    /// Masks interrupts: clears the interrupt flag and leaves the rest of the
    /// processor as it was.
    #[inline]
    pub fn disable(core: &mut Core)
        ensures
            *final(core) == IrqController::masked(*old(core)),
            !final(core).interrupts_enabled(),
    {
        let rflags: u64 = core.rflags;
        assert((rflags & !INTERRUPT_FLAG) & INTERRUPT_FLAG == 0) by (bit_vector);
        core.rflags = rflags & !INTERRUPT_FLAG;
    }

    /// Unmasks interrupts: sets the interrupt flag and leaves the rest of the
    /// processor as it was.
    #[inline]
    pub fn enable(core: &mut Core)
        ensures
            *final(core) == IrqController::unmasked(*old(core)),
            final(core).interrupts_enabled(),
    {
        let rflags: u64 = core.rflags;
        assert((rflags | INTERRUPT_FLAG) & INTERRUPT_FLAG != 0) by (bit_vector);
        core.rflags = rflags | INTERRUPT_FLAG;
    }

    /// Whether interrupts are unmasked. Only looks.
    #[inline]
    #[must_use]
    pub fn enabled(core: &Core) -> (on: bool)
        ensures
            on == core.interrupts_enabled(),
    {
        has_interrupt_flag(core.rflags)
    }

    /// Masking shows and unmasking shows: after `disable` interrupts are
    /// reported as masked, after `enable` as unmasked, whatever the processor
    /// was doing before and whichever of the two was called last. Neither
    /// touches anything but the interrupt flag, and doing one twice is the
    /// same as doing it once.
    pub proof fn masking_shows(core: Core)
        ensures
            !IrqController::masked(core).interrupts_enabled(),
            IrqController::unmasked(core).interrupts_enabled(),
            IrqController::unmasked(IrqController::masked(core)).interrupts_enabled(),
            !IrqController::masked(IrqController::unmasked(core)).interrupts_enabled(),
            IrqController::masked(IrqController::masked(core)) == IrqController::masked(core),
            IrqController::unmasked(IrqController::unmasked(core)) == IrqController::unmasked(
                core,
            ),
            IrqController::masked(core).rflags & !INTERRUPT_FLAG == core.rflags & !INTERRUPT_FLAG,
            IrqController::unmasked(core).rflags & !INTERRUPT_FLAG == core.rflags
                & !INTERRUPT_FLAG,
            core.interrupts_enabled() ==> IrqController::unmasked(core) == core,
            !core.interrupts_enabled() ==> IrqController::masked(core) == core,
    {
        let r: u64 = core.rflags;
        assert((r & !INTERRUPT_FLAG) & INTERRUPT_FLAG == 0) by (bit_vector);
        assert((r | INTERRUPT_FLAG) & INTERRUPT_FLAG != 0) by (bit_vector);
        assert(((r & !INTERRUPT_FLAG) | INTERRUPT_FLAG) & INTERRUPT_FLAG != 0) by (bit_vector);
        assert(((r | INTERRUPT_FLAG) & !INTERRUPT_FLAG) & INTERRUPT_FLAG == 0) by (bit_vector);
        assert((r & !INTERRUPT_FLAG) & !INTERRUPT_FLAG == r & !INTERRUPT_FLAG) by (bit_vector);
        assert((r | INTERRUPT_FLAG) | INTERRUPT_FLAG == r | INTERRUPT_FLAG) by (bit_vector);
        assert((r | INTERRUPT_FLAG) & !INTERRUPT_FLAG == r & !INTERRUPT_FLAG) by (bit_vector);
        assert(r & INTERRUPT_FLAG != 0 ==> r | INTERRUPT_FLAG == r) by (bit_vector);
        assert(r & INTERRUPT_FLAG == 0 ==> r & !INTERRUPT_FLAG == r) by (bit_vector);
    }
}

} // verus!
