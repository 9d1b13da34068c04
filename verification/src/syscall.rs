//! The system calls that user programs make.
pub mod process;
