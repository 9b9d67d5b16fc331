//! Threads and the scheduler, as far as bring-up needs them.
//!
//! A thread is the record that the scheduler keeps of it; its stack is drawn
//! from the stack memory of the machine.

use vstd::prelude::*;
use crate::machine::Memory;

verus! {

/// Whether the scheduler may pick a thread.
#[derive(Debug, Clone, Copy, PartialEq, Eq)]
pub enum State {
    /// The thread may be picked and started from its entry point.
    Runnable,
    /// The thread is set aside until somebody resumes it.
    Suspended,
}

/// The code that a thread starts in.
#[derive(Debug, Clone, Copy, PartialEq, Eq)]
pub enum Entry {
    /// The idle path: halt, wake for an interrupt, halt again.
    Idle,
}

/// Why a thread could not be made.
#[derive(Debug, Clone, Copy, PartialEq, Eq)]
pub enum ThreadError {
    /// The stack memory that is left is smaller than the stack asked for.
    OutOfMemory,
}

/// A thread of execution, as the scheduler records it.
#[derive(Debug)]
pub struct Thread {
    /// The size of the thread's stack, in bytes.
    pub stack_size: usize,
    /// The code the thread starts in.
    pub entry: Entry,
    /// The argument handed to the entry point.
    pub arg: usize,
    /// Whether the scheduler may pick this thread.
    pub state: State,
}

impl Thread {
    /// Makes a runnable thread with a stack of `stack_size` bytes taken from
    /// the stack memory of `memory`.
    ///
    /// Fails, and takes nothing, exactly when less than `stack_size` bytes of
    /// stack memory are left.
    pub fn new(memory: &mut Memory, stack_size: usize, entry: Entry, arg: usize) -> (made: Result<
        Thread,
        ThreadError,
    >)
        ensures
            made is Ok <==> stack_size <= old(memory).stack_free(),
            final(memory).blocks() == old(memory).blocks(),
            match made {
                Ok(thread) => {
                    &&& thread == (Thread { stack_size, entry, arg, state: State::Runnable })
                    &&& final(memory).stack_free() == old(memory).stack_free() - stack_size
                },
                Err(error) => {
                    &&& error == ThreadError::OutOfMemory
                    &&& final(memory).stack_free() == old(memory).stack_free()
                },
            },
    {
        if memory.reserve_stack(stack_size) {
            Ok(Thread { stack_size, entry, arg, state: State::Runnable })
        } else {
            Err(ThreadError::OutOfMemory)
        }
    }
}

/// The scheduler of one processor, holding the two threads it starts with.
#[derive(Debug)]
pub struct Scheduler {
    /// The thread that is running when the scheduler is made.
    pub kernel_thread: Thread,
    /// The thread that runs when no other is runnable.
    pub idle_thread: Thread,
}

impl Scheduler {
    /// A scheduler that holds `kernel_thread` as the thread now running and
    /// `idle_thread` as its fallback.
    pub fn new(kernel_thread: Thread, idle_thread: Thread) -> (scheduler: Scheduler)
        ensures
            scheduler == (Scheduler { kernel_thread, idle_thread }),
    {
        Scheduler { kernel_thread, idle_thread }
    }
}

} // verus!
