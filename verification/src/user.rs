use vstd::prelude::*;
use crate::manager::TaskManager;
use crate::syscall::{SYSCALL_YIELD, SyscallOutcome, syscall, syscall_allowed, syscall_step};

verus! {

/// Issues the yield system call with all arguments zero.
fn sys_yield(tm: &mut TaskManager, now_us: usize, start_us: usize) -> (out: SyscallOutcome)
    requires
        old(tm).wf(),
        syscall_allowed(old(tm)@, SYSCALL_YIELD, now_us),
    ensures
        final(tm).wf(),
        syscall_step(old(tm)@, final(tm)@, SYSCALL_YIELD, [0, 0, 0], now_us, start_us, out),
{
    syscall(tm, SYSCALL_YIELD, [0, 0, 0], now_us, start_us)
}

/// Gives up the CPU: the yield system call, made by the current task at
/// time `now_us`; the next task is switched in at `start_us`.
pub fn yield_(tm: &mut TaskManager, now_us: usize, start_us: usize) -> (out: SyscallOutcome)
    requires
        old(tm).wf(),
        syscall_allowed(old(tm)@, SYSCALL_YIELD, now_us),
    ensures
        final(tm).wf(),
        syscall_step(old(tm)@, final(tm)@, SYSCALL_YIELD, [0, 0, 0], now_us, start_us, out),
{
    sys_yield(tm, now_us, start_us)
}

} // verus!
