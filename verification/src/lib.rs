//! Per-processor bring-up and processor-local storage for an x86_64 kernel.
//!
//! Every processor of the machine owns one block of local storage, reachable
//! in constant time through its GS.Base register. This crate holds the rules
//! of that scheme: how a block is built and seeded, where it is published, how
//! it is found again, and how interrupts are masked around it. The rules are
//! written against an explicit machine state, [`Core`] and [`Memory`], so that
//! each of them has a contract and the laws that connect them are proved.

pub mod cpu;
pub mod irq;
pub mod local;
pub mod machine;
pub mod task;

pub use cpu::{Cpu, CpuId};
pub use irq::IrqController;
pub use local::{idle_thread_entry, init, Local, IDLE_STACK_SIZE};
pub use machine::{Core, Memory};
pub use task::{Entry, Scheduler, State, Thread, ThreadError};
