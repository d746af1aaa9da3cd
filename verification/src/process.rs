use vstd::prelude::*;
use crate::config::MAX_SYSCALL_NUM;
use crate::manager::{RunNext, TaskManager, can_stop_current, switch_step};
use crate::task::{TaskState, TaskStatus};

verus! {

/// A point in time as seconds and microseconds.
#[derive(Copy, Clone, PartialEq, Eq, Structural, Debug)]
pub struct TimeVal {
    pub sec: usize,
    pub usec: usize,
}

/// What a task can learn about itself: its status, how often it made each
/// system call, and how long it has run in total (in milliseconds).
#[derive(Debug)]
pub struct TaskInfo {
    pub status: TaskStatus,
    pub syscall_time: [u32; MAX_SYSCALL_NUM],
    pub time: usize,
}

/// `tv` splits `us` microseconds into whole seconds and the microseconds
/// left over.
pub open spec fn is_time_val_of(tv: TimeVal, us: usize) -> bool {
    &&& tv.sec == us / 1_000_000
    &&& tv.usec == us % 1_000_000
}

/// `info` describes the task `t`.
pub open spec fn is_info_of(info: TaskInfo, t: TaskState) -> bool {
    &&& info.status == t.status
    &&& info.syscall_time@ == t.syscall_counts
    &&& info.time == t.run_total_time / 1_000
}

/// The current task exits: it is marked `Exited` at `stop_us` and the
/// scheduler switches to the next ready task, if any, at `start_us`.
pub fn sys_exit(tm: &mut TaskManager, stop_us: usize, start_us: usize) -> (r: RunNext)
    requires
        old(tm).wf(),
        can_stop_current(old(tm)@, stop_us),
    ensures
        final(tm).wf(),
        switch_step(old(tm)@, final(tm)@, stop_us, start_us, TaskStatus::Exited, r),
{
    tm.exit_current_and_run_next(stop_us, start_us)
}

/// The current task yields: it is suspended at `stop_us` and the scheduler
/// switches to the next ready task at `start_us`; the call returns 0.
pub fn sys_yield(tm: &mut TaskManager, stop_us: usize, start_us: usize) -> (r: (RunNext, isize))
    requires
        old(tm).wf(),
        can_stop_current(old(tm)@, stop_us),
    ensures
        final(tm).wf(),
        switch_step(old(tm)@, final(tm)@, stop_us, start_us, TaskStatus::Ready, r.0),
        r.1 == 0,
{
    let next = tm.suspend_current_and_run_next(stop_us, start_us);
    (next, 0)
}

/// Writes the time `us` (in microseconds) into `ts` as seconds and
/// microseconds; returns 0.
pub fn sys_get_time(us: usize, ts: &mut TimeVal, _tz: usize) -> (r: isize)
    ensures
        is_time_val_of(*final(ts), us),
        r == 0,
{
    *ts = TimeVal { sec: us / 1_000_000, usec: us % 1_000_000 };
    0
}

/// Writes into `ti` the status, the system call counters and the total
/// running time in milliseconds of the current task; returns 0.
pub fn sys_task_info(tm: &mut TaskManager, ti: &mut TaskInfo) -> (r: isize)
    requires
        old(tm).wf(),
    ensures
        final(tm)@ == old(tm)@,
        is_info_of(*final(ti), old(tm).current_task()),
        r == 0,
{
    let counts = tm.current_task_syscall_arr();
    let mut syscall_time = [0u32; MAX_SYSCALL_NUM];
    let mut i: usize = 0;
    while i < MAX_SYSCALL_NUM
        invariant
            i <= MAX_SYSCALL_NUM,
            counts@.len() == MAX_SYSCALL_NUM,
            forall|j: int| 0 <= j < i ==> syscall_time@[j] == counts@[j],
        decreases MAX_SYSCALL_NUM - i,
    {
        syscall_time[i] = counts[i];
        i += 1;
    }
    assert(syscall_time@ =~= counts@);
    let time = tm.current_task_run_total_time() / 1_000;
    let status = tm.current_task_status();
    *ti = TaskInfo { status, syscall_time, time };
    0
}

} // verus!
