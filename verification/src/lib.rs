//! Process and memory management core of a small single-core kernel.
//!
//! The crate keeps three pieces of kernel state and the operations on them:
//! the address space of every task, the table of task control blocks with
//! their parent and child links, and the ready queue of the scheduler. The
//! system calls in [`syscall`] are the way user programs change that state.
//!
//! All state lives in one [`task::kernel::Kernel`] value that every operation
//! takes by exclusive reference. What the value means is its view, a
//! [`task::state::KernelView`]; the contracts of the operations are stated
//! over views, and [`task::preservation`] shows that every operation keeps
//! the invariant of the state.
pub mod config;
pub mod loader;
pub mod mm;
pub mod syscall;
pub mod task;
