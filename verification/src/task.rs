//! Tasks: their control blocks, the ready queue, and the state of the kernel
//! as a whole with the steps that change it.
pub mod context;
pub mod control_block;
pub mod kernel;
pub mod lifecycle;
pub mod manager;
pub mod preservation;
pub mod state;
