//! The local block of a processor: how it is built, published and found.

use vstd::prelude::*;
use crate::cpu::{Cpu, CpuId};
use crate::machine::{Core, Memory};
use crate::task::{Entry, Scheduler, State, Thread, ThreadError};

verus! {

/// The stack that the idle thread of a processor gets, in bytes.
pub const IDLE_STACK_SIZE: usize = 4096;

/// The local block of one processor, found through its GS.Base.
#[derive(Debug)]
pub struct Local {
    /// The address at which the block lives; zero until it has been placed.
    direct: u64,
    /// The processor that the block belongs to.
    pub cpu: Cpu,
    /// The scheduler of that processor.
    pub scheduler: Scheduler,
}

/// What a local block holds.
pub struct LocalView {
    /// The address that the block holds as its own; zero while it has none.
    pub self_address: u64,
    /// The processor that the block belongs to.
    pub cpu: Cpu,
    /// The scheduler of that processor.
    pub scheduler: Scheduler,
}

impl View for Local {
    type V = LocalView;

    closed spec fn view(&self) -> LocalView {
        LocalView { self_address: self.direct, cpu: self.cpu, scheduler: self.scheduler }
    }
}

impl Local {
    /// Whether `scheduler` holds what bring-up seeds it with: as the thread
    /// now running a suspended thread without a stack of its own, and as
    /// fallback a runnable thread with a stack of `IDLE_STACK_SIZE` bytes;
    /// both start in the idle path with argument 0.
    pub open spec fn seeded(scheduler: Scheduler) -> bool {
        scheduler == (Scheduler {
            kernel_thread: Thread { stack_size: 0, entry: Entry::Idle, arg: 0, state: State::Suspended },
            idle_thread: Thread {
                stack_size: IDLE_STACK_SIZE,
                entry: Entry::Idle,
                arg: 0,
                state: State::Runnable,
            },
        })
    }

    /// Builds the block of processor `cpu`, not yet placed: its scheduler is
    /// seeded with the two threads, whose stacks come from `memory`, and its
    /// own address is unset.
    ///
    /// Fails, and takes nothing, exactly when less than `IDLE_STACK_SIZE`
    /// bytes of stack memory are left.
    pub fn new(cpu: Cpu, memory: &mut Memory) -> (built: Result<Local, ThreadError>)
        ensures
            built is Ok <==> IDLE_STACK_SIZE <= old(memory).stack_free(),
            final(memory).blocks() == old(memory).blocks(),
            match built {
                Ok(local) => {
                    &&& local@.self_address == 0
                    &&& local@.cpu == cpu
                    &&& Local::seeded(local@.scheduler)
                    &&& final(memory).stack_free() == old(memory).stack_free() - IDLE_STACK_SIZE
                },
                Err(error) => {
                    &&& error == ThreadError::OutOfMemory
                    &&& final(memory).stack_free() == old(memory).stack_free()
                },
            },
    {
        let idle_thread = match Thread::new(memory, IDLE_STACK_SIZE, Entry::Idle, 0) {
            Ok(thread) => thread,
            Err(error) => {
                return Err(error);
            },
        };

        let mut kernel_thread = match Thread::new(memory, 0, Entry::Idle, 0) {
            Ok(thread) => thread,
            Err(error) => {
                return Err(error);
            },
        };

        kernel_thread.state = State::Suspended;

        let scheduler = Scheduler::new(kernel_thread, idle_thread);

        Ok(Local { direct: 0, cpu, scheduler })
    }

    /// Whether bring-up has run on `core`: its GS.Base holds the address of a
    /// block, and that block holds the same address as its own.
    pub open spec fn spec_is_up(core: &Core, memory: &Memory) -> bool {
        &&& memory.holds(core.gs_base)
        &&& memory.block(core.gs_base)@.self_address == core.gs_base
    }

    /// Whether bring-up has run on `core`: its GS.Base holds the address of a
    /// block, and that block holds the same address as its own.
    #[verifier::when_used_as_spec(spec_is_up)]
    pub fn is_up(core: &Core, memory: &Memory) -> (up: bool)
        ensures
            up == Local::is_up(core, memory),
    {
        memory.holds(core.gs_base) && memory.block_ref(core.gs_base).direct == core.gs_base
    }

    /// The local block of the processor `core`: the block at the address
    /// that its GS.Base holds.
    pub open spec fn spec_current(core: &Core, memory: &Memory) -> Local
        recommends
            Local::is_up(core, memory),
    {
        memory.block(core.gs_base)
    }

    /// The local block of the processor `core`.
    ///
    /// Reads the word at offset 0 from GS.Base, which is the address that the
    /// block there holds as its own, and hands out the block at that address.
    /// What the caller writes through the reference is written to that block.
    pub fn current<'a>(core: &Core, memory: &'a mut Memory) -> (local: &'a mut Local)
        requires
            Local::is_up(core, &*old(memory)),
        ensures
            *local == Local::spec_current(core, &*old(memory)),
            local@.self_address == core.gs_base,
            final(memory).blocks() == old(memory).blocks().update(
                core.gs_base - 1,
                *final(local),
            ),
            final(memory).stack_free() == old(memory).stack_free(),
    {
        let direct: u64 = memory.block_ref(core.gs_base).direct;
        memory.block_mut(direct)
    }

    /// The address that the block holds as its own; zero while it has none.
    pub fn self_address(&self) -> (address: u64)
        ensures
            address == self@.self_address,
    {
        self.direct
    }

    /// The processor that the block belongs to.
    pub fn cpu(&self) -> (cpu: &Cpu)
        ensures
            *cpu == self@.cpu,
    {
        &self.cpu
    }

    /// The scheduler of the processor, to be read.
    pub fn scheduler(&self) -> (scheduler: &Scheduler)
        ensures
            *scheduler == self@.scheduler,
    {
        &self.scheduler
    }

    /// The scheduler of the processor, to be changed in place. Nothing else
    /// in the block changes with it.
    pub fn scheduler_mut(&mut self) -> (scheduler: &mut Scheduler)
        ensures
            *scheduler == old(self)@.scheduler,
            final(self)@ == (LocalView { scheduler: *final(scheduler), ..old(self)@ }),
    {
        &mut self.scheduler
    }
}

/// Whether `(core1, memory1)` is what the bring-up of processor `cpu_id`
/// makes of `(core0, memory0)`.
///
/// The heap holds one block more, behind those it held. The new block belongs
/// to processor `cpu_id`, holds its own address, and its scheduler is seeded.
/// The stack of the idle thread has left the stack memory. GS.Base of the
/// core holds the address of the new block; the rest of the core is as it
/// was.
pub open spec fn brought_up(
    core0: Core,
    memory0: Memory,
    cpu_id: CpuId,
    core1: Core,
    memory1: Memory,
) -> bool {
    let address = (memory0.blocks().len() + 1) as u64;
    &&& memory1.blocks().len() == memory0.blocks().len() + 1
    &&& memory1.blocks().drop_last() == memory0.blocks()
    &&& memory1.blocks().last()@.self_address == address
    &&& memory1.blocks().last()@.cpu.id() == cpu_id
    &&& Local::seeded(memory1.blocks().last()@.scheduler)
    &&& memory1.stack_free() == memory0.stack_free() - IDLE_STACK_SIZE
    &&& core1 == (Core { gs_base: address, ..core0 })
}

/// Brings up the processor `core` as processor `cpu_id`.
///
/// Builds the identity of the processor and its local block, places the block
/// on the heap, writes the address at which it lives into the block, and
/// publishes that address in GS.Base.
///
/// Fails exactly when less than `IDLE_STACK_SIZE` bytes of stack memory are
/// left, and then leaves core and memory as they were: no block is placed and
/// nothing is published.
pub fn init(core: &mut Core, memory: &mut Memory, cpu_id: CpuId) -> (done: Result<(), ThreadError>)
    requires
        old(memory).has_room(),
    ensures
        done is Ok <==> IDLE_STACK_SIZE <= old(memory).stack_free(),
        match done {
            Ok(_) => brought_up(*old(core), *old(memory), cpu_id, *final(core), *final(memory)),
            Err(error) => {
                &&& error == ThreadError::OutOfMemory
                &&& *final(core) == *old(core)
                &&& final(memory).blocks() == old(memory).blocks()
                &&& final(memory).stack_free() == old(memory).stack_free()
            },
        },
{
    let cpu = Cpu::new(cpu_id);

    let cpu_local = match Local::new(cpu, memory) {
        Ok(local) => local,
        Err(error) => {
            return Err(error);
        },
    };

    let address: u64 = memory.allocate(cpu_local);

    let placed = memory.block_mut(address);
    placed.direct = address;

    core.gs_base = address;

    proof {
        assert(memory.blocks().drop_last() =~= old(memory).blocks());
    }
    Ok(())
}

/// A processor that was brought up finds its own block: after the bring-up
/// of processor `cpu_id` on a core, the core is up and its local block belongs
/// to processor `cpu_id`, with its scheduler seeded.
pub proof fn current_after_init(
    core0: Core,
    memory0: Memory,
    cpu_id: CpuId,
    core1: Core,
    memory1: Memory,
)
    requires
        memory0.has_room(),
        brought_up(core0, memory0, cpu_id, core1, memory1),
    ensures
        Local::is_up(&core1, &memory1),
        Local::spec_current(&core1, &memory1)@.cpu.id() == cpu_id,
        Local::seeded(Local::spec_current(&core1, &memory1)@.scheduler),
{
}

/// The local block stays where it is: on a core that is up, the block handed
/// out holds the address at which it lives, and following that address leads
/// to the same block. When the reference is given back, with whatever was
/// written through it, the core is still up, and the next reference is to the
/// block at the same address, which holds what was written.
pub proof fn current_is_stable(core: Core, memory0: Memory, written: Local, memory1: Memory)
    requires
        Local::is_up(&core, &memory0),
        written@.self_address == Local::spec_current(&core, &memory0)@.self_address,
        memory1.blocks() == memory0.blocks().update(core.gs_base - 1, written),
    ensures
        Local::spec_current(&core, &memory0)@.self_address == core.gs_base,
        memory0.block(Local::spec_current(&core, &memory0)@.self_address) == Local::spec_current(
            &core,
            &memory0,
        ),
        Local::is_up(&core, &memory1),
        Local::spec_current(&core, &memory1) == written,
        Local::spec_current(&core, &memory1)@.self_address == Local::spec_current(
            &core,
            &memory0,
        )@.self_address,
{
}

/// Processors do not share blocks: the bring-up of one processor places its
/// block at an address that no block had before, so a core that was up is
/// still up afterwards, with the block it had, and its GS.Base differs from
/// that of the core just brought up.
pub proof fn init_keeps_other_cores(
    core: Core,
    other0: Core,
    memory0: Memory,
    cpu_id: CpuId,
    other1: Core,
    memory1: Memory,
)
    requires
        Local::is_up(&core, &memory0),
        memory0.has_room(),
        brought_up(other0, memory0, cpu_id, other1, memory1),
    ensures
        Local::is_up(&core, &memory1),
        Local::spec_current(&core, &memory1) == Local::spec_current(&core, &memory0),
        other1.gs_base != core.gs_base,
        !memory0.holds(other1.gs_base),
{
    let index = core.gs_base - 1;
    assert(memory1.blocks().drop_last()[index] == memory1.blocks()[index]);
}

/// The idle path of processor `core`, followed until `interrupts` interrupts
/// have arrived.
///
/// The path halts the processor, and halts it again whenever an interrupt has
/// woken it. It never looks at its argument and never leaves the loop: however
/// many interrupts arrive, the processor is halted at the end. With
/// interrupts masked the first halt never ends. Returns the number of halts.
pub fn idle_thread_entry(core: &mut Core, _arg: usize, interrupts: u32) -> (halts: u64)
    ensures
        final(core).halted,
        final(core).rflags == old(core).rflags,
        final(core).gs_base == old(core).gs_base,
        halts == if old(core).interrupts_enabled() {
            interrupts + 1
        } else {
            1
        },
{
    let ghost enabled = core.interrupts_enabled();
    let ghost rflags = core.rflags;
    let ghost gs_base = core.gs_base;
    let mut halts: u64 = 0;
    let mut left: u32 = interrupts;
    loop
        invariant_except_break
            halts == interrupts - left,
        invariant
            core.rflags == rflags,
            core.gs_base == gs_base,
            enabled == core.interrupts_enabled(),
            left <= interrupts,
            left < interrupts ==> enabled,
        ensures
            core.halted,
            halts == if enabled {
                interrupts + 1
            } else {
                1
            },
        decreases left,
    {
        core.halted = true;
        halts = halts + 1;
        if left == 0 {
            break ;
        }
        let woken = core.interrupt();
        if !woken {
            break ;
        }
        left = left - 1;
    }
    halts
}

} // verus!
