use vstd::prelude::*;
use crate::config::MAX_SYSCALL_NUM;
use crate::manager::{RunNext, TaskManager, TaskTable, can_stop_current, count_syscall, switch_step};
use crate::process::{
    TaskInfo, TimeVal, is_info_of, is_time_val_of, sys_exit, sys_get_time, sys_task_info, sys_yield,
};
use crate::laws::law_only_current_runs;
use crate::task::TaskStatus;

verus! {

pub const SYSCALL_WRITE: usize = 64;
pub const SYSCALL_EXIT: usize = 93;
pub const SYSCALL_YIELD: usize = 124;
pub const SYSCALL_GET_TIME: usize = 169;
pub const SYSCALL_TASK_INFO: usize = 410;

/// What the kernel has to do to finish a system call, once the task
/// manager has been updated.
#[derive(Debug)]
pub enum SyscallOutcome {
    /// Write `len` bytes at user address `buf` to the file `fd`.
    Write { fd: usize, buf: usize, len: usize },
    /// Report the exit code, then switch as `next` says; the exiting task
    /// never resumes.
    Exit { exit_code: i32, next: RunNext },
    /// Switch as `next` says; `ret` is the value returned to the task when
    /// it resumes.
    Yield { next: RunNext, ret: isize },
    /// Store `time` at user address `ts`; return `ret`.
    GetTime { ts: usize, time: TimeVal, ret: isize },
    /// Store `info` at user address `ti`; return `ret`.
    TaskInfo { ti: usize, info: TaskInfo, ret: isize },
}

/// The system call ids the kernel serves.
pub open spec fn is_supported_syscall(syscall_id: usize) -> bool {
    ||| syscall_id == SYSCALL_WRITE
    ||| syscall_id == SYSCALL_EXIT
    ||| syscall_id == SYSCALL_YIELD
    ||| syscall_id == SYSCALL_GET_TIME
    ||| syscall_id == SYSCALL_TASK_INFO
}

/// What the kernel needs of the task table `s` to serve `syscall_id` at
/// `now_us` without fault: the id is served, its counter can grow, and the
/// current task can stop when the call stops it.
pub open spec fn syscall_allowed(s: TaskTable, syscall_id: usize, now_us: usize) -> bool {
    &&& is_supported_syscall(syscall_id)
    &&& s.current_task().syscall_counts[syscall_id as int] < u32::MAX
    &&& (syscall_id == SYSCALL_EXIT || syscall_id == SYSCALL_YIELD) ==> can_stop_current(s, now_us)
}

/// Serving `syscall_id` with `args` at `now_us` takes the table `before` to
/// `after` with outcome `out`: the call is counted for the current task,
/// then exit and yield stop the current task at `now_us` and switch in the
/// next one at `start_us`, the others leave the table as it is.
pub open spec fn syscall_step(
    before: TaskTable,
    after: TaskTable,
    syscall_id: usize,
    args: [usize; 3],
    now_us: usize,
    start_us: usize,
    out: SyscallOutcome,
) -> bool {
    let mid = count_syscall(before, syscall_id as int);
    if syscall_id == SYSCALL_WRITE {
        &&& out == SyscallOutcome::Write { fd: args[0], buf: args[1], len: args[2] }
        &&& after == mid
    } else if syscall_id == SYSCALL_EXIT {
        &&& out matches SyscallOutcome::Exit { exit_code, next }
        &&& exit_code == args[0] as i32
        &&& switch_step(mid, after, now_us, start_us, TaskStatus::Exited, next)
    } else if syscall_id == SYSCALL_YIELD {
        &&& out matches SyscallOutcome::Yield { next, ret }
        &&& ret == 0
        &&& switch_step(mid, after, now_us, start_us, TaskStatus::Ready, next)
    } else if syscall_id == SYSCALL_GET_TIME {
        &&& out matches SyscallOutcome::GetTime { ts, time, ret }
        &&& ts == args[0]
        &&& is_time_val_of(time, now_us)
        &&& ret == 0
        &&& after == mid
    } else {
        &&& out matches SyscallOutcome::TaskInfo { ti, info, ret }
        &&& ti == args[0]
        &&& is_info_of(info, mid.current_task())
        &&& ret == 0
        &&& after == mid
    }
}

/// Whether the kernel serves `syscall_id`.
pub fn is_supported(syscall_id: usize) -> (ok: bool)
    ensures
        ok == is_supported_syscall(syscall_id),
{
    syscall_id == SYSCALL_WRITE || syscall_id == SYSCALL_EXIT || syscall_id == SYSCALL_YIELD
        || syscall_id == SYSCALL_GET_TIME || syscall_id == SYSCALL_TASK_INFO
}

/// Whether `syscall_id` can be served at `now_us` without fault (see
/// `syscall_allowed`).
pub fn syscall_allowed_now(tm: &mut TaskManager, syscall_id: usize, now_us: usize) -> (ok: bool)
    requires
        old(tm).wf(),
    ensures
        final(tm)@ == old(tm)@,
        ok == syscall_allowed(old(tm)@, syscall_id, now_us),
{
    if !is_supported(syscall_id) {
        return false;
    }
    let counts = tm.current_task_syscall_arr();
    if counts[syscall_id] == u32::MAX {
        return false;
    }
    if (syscall_id == SYSCALL_EXIT || syscall_id == SYSCALL_YIELD) && !tm.can_stop_current_at(now_us) {
        return false;
    }
    true
}

/// Serves system call `syscall_id` with arguments `args` for the current
/// task at time `now_us` (microseconds): counts the call, updates the task
/// manager, and says what is left to do. A task switched in by the call is
/// switched in at `start_us`, a second clock reading.
pub fn syscall(
    tm: &mut TaskManager,
    syscall_id: usize,
    args: [usize; 3],
    now_us: usize,
    start_us: usize,
) -> (out: SyscallOutcome)
    requires
        old(tm).wf(),
        syscall_allowed(old(tm)@, syscall_id, now_us),
    ensures
        final(tm).wf(),
        syscall_step(old(tm)@, final(tm)@, syscall_id, args, now_us, start_us, out),
        old(tm)@.only_current_runs() ==> final(tm)@.only_current_runs(),
{
    tm.current_task_mark_syscall(syscall_id);
    let ghost counted_state = tm@;
    if syscall_id == SYSCALL_WRITE {
        SyscallOutcome::Write { fd: args[0], buf: args[1], len: args[2] }
    } else if syscall_id == SYSCALL_EXIT {
        let next = sys_exit(tm, now_us, start_us);
        proof {
            if counted_state.only_current_runs() {
                law_only_current_runs(counted_state, tm@, now_us, start_us, TaskStatus::Exited, next);
            }
        }
        SyscallOutcome::Exit { exit_code: args[0] as i32, next }
    } else if syscall_id == SYSCALL_YIELD {
        let (next, ret) = sys_yield(tm, now_us, start_us);
        proof {
            if counted_state.only_current_runs() {
                law_only_current_runs(counted_state, tm@, now_us, start_us, TaskStatus::Ready, next);
            }
        }
        SyscallOutcome::Yield { next, ret }
    } else if syscall_id == SYSCALL_GET_TIME {
        let mut time = TimeVal { sec: 0, usec: 0 };
        let ret = sys_get_time(now_us, &mut time, args[1]);
        SyscallOutcome::GetTime { ts: args[0], time, ret }
    } else {
        let mut info = TaskInfo {
            status: TaskStatus::UnInit,
            syscall_time: [0u32; MAX_SYSCALL_NUM],
            time: 0,
        };
        let ret = sys_task_info(tm, &mut info);
        SyscallOutcome::TaskInfo { ti: args[0], info, ret }
    }
}

} // verus!
