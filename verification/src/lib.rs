//! Task management core of a small uniprocessor teaching kernel: task
//! control blocks, a round-robin task manager, per-task system call
//! accounting, time conversion and the system call dispatcher.
//!
//! Everything that touches hardware (reading the `time` CSR, programming the
//! timer through the SBI, context switching, writing to user memory) is left
//! to the caller: the functions here compute the next state and say what the
//! caller has to do.

pub mod config;
pub mod context;
pub mod up;
pub mod task;
pub mod round_robin;
pub mod manager;
pub mod laws;
pub mod timer;
pub mod process;
pub mod syscall;
pub mod user;
