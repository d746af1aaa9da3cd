use vstd::prelude::*;

verus! {

/// Number of task slots the kernel keeps.
pub const MAX_APP_NUM: usize = 16;

/// Number of distinct system call ids that are counted per task.
pub const MAX_SYSCALL_NUM: usize = 500;

/// Frequency of the `time` counter, in ticks per second.
pub const CLOCK_FREQ: usize = 12500000;

} // verus!
