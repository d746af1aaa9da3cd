use vstd::prelude::*;
use crate::manager::{
    RunNext, TaskTable, can_stop_current, count_syscall, run_next_step, stop_current, switch_step,
};
use crate::round_robin::{is_next_ready, ready_after, none_ready};
use crate::process::{TaskInfo, TimeVal, is_info_of, is_time_val_of};
use crate::syscall::{SyscallOutcome, is_supported_syscall, syscall_allowed, syscall_step};
use crate::task::TaskStatus;

verus! {

proof fn lemma_full_turn(current: int, n: int)
    requires
        0 <= current < n,
    ensures
        (current + n) % n == current,
{
    vstd::arithmetic::div_mod::lemma_mod_add_multiples_vanish(current, n);
    vstd::arithmetic::div_mod::lemma_small_mod(current as nat, n as nat);
}

/// Yielding never ends the system: when there is at least one application,
/// suspending the current task and running the next one always switches to
/// some task, if need be back to the one that yielded, and that task is the
/// current one, running since the switch.
pub proof fn law_yield_always_switches(
    before: TaskTable,
    after: TaskTable,
    stop_us: usize,
    start_us: usize,
    r: RunNext,
)
    requires
        before.wf(),
        before.num_app > 0,
        switch_step(before, after, stop_us, start_us, TaskStatus::Ready, r),
    ensures
        r is Switch,
        after.current_task().status == TaskStatus::Running,
        after.current_task().run_start_time == start_us,
{
    let mid = stop_current(before, TaskStatus::Ready, stop_us);
    let n = before.num_app as int;
    let c = before.current as int;
    lemma_full_turn(c, n);
    assert(ready_after(mid.tasks, c, n, n));
    assert(!none_ready(mid.tasks, c, n));
}

/// Only the current task runs: if no task but the current one was running,
/// the same holds after it stops (yielding or exiting) and the scheduler
/// switches.
pub proof fn law_only_current_runs(
    before: TaskTable,
    after: TaskTable,
    stop_us: usize,
    start_us: usize,
    status: TaskStatus,
    r: RunNext,
)
    requires
        before.wf(),
        before.only_current_runs(),
        status != TaskStatus::Running,
        switch_step(before, after, stop_us, start_us, status, r),
    ensures
        after.only_current_runs(),
{
}

/// An exited task never comes back: a task that had exited, or the current
/// task when it exits, is `Exited` after the switch.
pub proof fn law_exited_stays_exited(
    before: TaskTable,
    after: TaskTable,
    stop_us: usize,
    start_us: usize,
    status: TaskStatus,
    r: RunNext,
    i: int,
)
    requires
        before.wf(),
        switch_step(before, after, stop_us, start_us, status, r),
        0 <= i < before.tasks.len(),
        (i == before.current && status == TaskStatus::Exited) || (i != before.current
            && before.tasks[i].status == TaskStatus::Exited),
    ensures
        after.tasks[i].status == TaskStatus::Exited,
{
}

/// Exiting hands the CPU to another task: after an exit the scheduler never
/// switches back to the task that exited.
pub proof fn law_exit_switches_away(
    before: TaskTable,
    after: TaskTable,
    stop_us: usize,
    start_us: usize,
    r: RunNext,
)
    requires
        before.wf(),
        switch_step(before, after, stop_us, start_us, TaskStatus::Exited, r),
    ensures
        r matches RunNext::Switch { from, to } ==> from == before.current && to != before.current,
{
}

/// Running time is only ever added: across a switch no task's total running
/// time decreases, and the task that stops gains exactly the time since it
/// was switched in, if it was running.
pub proof fn law_run_time_accumulates(
    before: TaskTable,
    after: TaskTable,
    stop_us: usize,
    start_us: usize,
    status: TaskStatus,
    r: RunNext,
    i: int,
)
    requires
        before.wf(),
        can_stop_current(before, stop_us),
        switch_step(before, after, stop_us, start_us, status, r),
        0 <= i < before.tasks.len(),
    ensures
        after.tasks[i].run_total_time >= before.tasks[i].run_total_time,
        i == before.current && before.tasks[i].status == TaskStatus::Running
            ==> after.tasks[i].run_total_time == before.tasks[i].run_total_time + (stop_us
            - before.tasks[i].run_start_time),
{
}

/// Every system call is counted exactly once for the task that made it,
/// whatever the call does next: its counter for that id grows by one, its
/// other counters stay, and a task-info call already reports itself.
pub proof fn law_syscall_counted_once(
    before: TaskTable,
    after: TaskTable,
    syscall_id: usize,
    args: [usize; 3],
    now_us: usize,
    start_us: usize,
    out: SyscallOutcome,
    j: int,
)
    requires
        before.wf(),
        syscall_allowed(before, syscall_id, now_us),
        syscall_step(before, after, syscall_id, args, now_us, start_us, out),
        0 <= j < before.current_task().syscall_counts.len(),
    ensures
        after.tasks[before.current as int].syscall_counts[j] == if j == syscall_id {
            before.current_task().syscall_counts[j] + 1
        } else {
            before.current_task().syscall_counts[j] as int
        },
        out matches SyscallOutcome::TaskInfo { info, .. } ==> info.syscall_time@
            == after.tasks[before.current as int].syscall_counts,
{
}

/// A time value splits the microseconds exactly: `sec` whole seconds and
/// fewer than a million microseconds make up the time it was made from.
pub proof fn law_time_val_exact(tv: TimeVal, us: usize)
    requires
        is_time_val_of(tv, us),
    ensures
        tv.sec * 1_000_000 + tv.usec == us,
        tv.usec < 1_000_000,
{
    vstd::arithmetic::div_mod::lemma_fundamental_div_mod(us as int, 1_000_000);
}

/// Switching a task in changes nothing but that task's status, which
/// becomes `Running`, and its switch-in time: every task keeps its saved
/// context, so the context loaded for the task switched in is its own, and
/// every other task is left as it was.
pub proof fn law_switch_in_keeps_contexts(before: TaskTable, after: TaskTable, now_us: usize, r: RunNext)
    requires
        before.wf(),
        run_next_step(before, after, now_us, r),
    ensures
        after.num_app == before.num_app,
        after.tasks.len() == before.tasks.len(),
        forall|i: int|
            0 <= i < before.tasks.len() ==> {
                &&& (#[trigger] after.tasks[i]).cx == before.tasks[i].cx
                &&& after.tasks[i].start_time == before.tasks[i].start_time
                &&& after.tasks[i].run_total_time == before.tasks[i].run_total_time
                &&& after.tasks[i].syscall_total_time == before.tasks[i].syscall_total_time
                &&& after.tasks[i].syscall_counts == before.tasks[i].syscall_counts
            },
        r matches RunNext::Switch { from, to } ==> {
            &&& from == before.current
            &&& after.current == to
            &&& 0 <= to < before.num_app
            &&& before.tasks[to as int].status == TaskStatus::Ready
            &&& after.tasks[to as int].status == TaskStatus::Running
            &&& after.tasks[to as int].run_start_time == now_us
            &&& forall|i: int| 0 <= i < before.tasks.len() && i != to ==> after.tasks[i] == before.tasks[i]
        },
        r is AllCompleted ==> after == before && forall|i: int|
            0 <= i < before.num_app ==> before.tasks[i].status != TaskStatus::Ready,
{
    if r is AllCompleted {
        assert forall|i: int| 0 <= i < before.num_app implies before.tasks[i].status != TaskStatus::Ready by {
            let n = before.num_app as int;
            let c = before.current as int;
            // slot i is reached k steps after the current task
            let k = if i > c { i - c } else { i - c + n };
            assert(1 <= k <= n);
            assert((c + k) % n == i) by {
                if i > c {
                    vstd::arithmetic::div_mod::lemma_small_mod(i as nat, n as nat);
                } else {
                    vstd::arithmetic::div_mod::lemma_mod_add_multiples_vanish(i, n);
                    vstd::arithmetic::div_mod::lemma_small_mod(i as nat, n as nat);
                }
            }
            assert(!ready_after(before.tasks, c, n, k));
        }
    }
    if r is Switch {
        let to = r->to;
        let n = before.num_app as int;
        let c = before.current as int;
        let k = choose|k: int|
            #![trigger ready_after(before.tasks, c, n, k)]
            ready_after(before.tasks, c, n, k) && to == (c + k) % n && forall|j: int|
                1 <= j < k ==> !ready_after(before.tasks, c, n, j);
        assert(before.tasks[to as int].status == TaskStatus::Ready);
    }
}

/// A current task that is not running can always stop, at any time: no
/// running time is added, so nothing can overflow. A running task can stop
/// at any time no earlier than its switch-in time at which its total running
/// time still fits.
pub proof fn law_stop_allowed(s: TaskTable, now_us: usize)
    ensures
        s.current_task().status != TaskStatus::Running ==> can_stop_current(s, now_us),
        s.current_task().status == TaskStatus::Running ==> (can_stop_current(s, now_us) <==> (
        s.current_task().run_start_time <= now_us && s.current_task().run_total_time + (now_us
            - s.current_task().run_start_time) <= usize::MAX)),
{
}

/// The served system calls are exactly write (64), exit (93), yield (124),
/// get_time (169) and task_info (410).
pub proof fn law_supported_syscalls(syscall_id: usize)
    ensures
        is_supported_syscall(syscall_id) <==> (syscall_id == 64 || syscall_id == 93 || syscall_id
            == 124 || syscall_id == 169 || syscall_id == 410),
{
}

/// A system call is served exactly when its id is one of the five served
/// ones and its 32-bit counter can grow; exit and yield also need the
/// current task to be able to stop, which a task that is not running always
/// can. Nothing else, in particular not the task's status, refuses a call.
pub proof fn law_syscall_allowed_exactly(s: TaskTable, syscall_id: usize, now_us: usize)
    ensures
        syscall_allowed(s, syscall_id, now_us) <==> {
            &&& (syscall_id == 64 || syscall_id == 93 || syscall_id == 124 || syscall_id == 169
                || syscall_id == 410)
            &&& s.current_task().syscall_counts[syscall_id as int] < 4294967295u32
            &&& (syscall_id == 93 || syscall_id == 124) ==> can_stop_current(s, now_us)
        },
        (syscall_id == 64 || syscall_id == 93 || syscall_id == 124 || syscall_id == 169
            || syscall_id == 410) && s.current_task().syscall_counts[syscall_id as int]
            < 4294967295u32 && s.current_task().status != TaskStatus::Running ==> syscall_allowed(
            s,
            syscall_id,
            now_us,
        ),
{
    law_stop_allowed(s, now_us);
}

/// How many steps after `current` the slot `j` comes in round-robin order
/// among `n` slots: 1 for the slot right after it, `n` for `current` itself.
pub open spec fn round_robin_distance(current: int, j: int, n: int) -> int {
    if j > current {
        j - current
    } else {
        j - current + n
    }
}

/// The next task chosen is a ready one among the first `n`, and no ready
/// task among them comes before it in round-robin order after `current`.
pub proof fn law_round_robin_order(
    tasks: Seq<crate::task::TaskState>,
    current: int,
    n: int,
    id: int,
    j: int,
)
    requires
        0 <= current < n <= tasks.len(),
        is_next_ready(tasks, current, n, id),
        0 <= j < n,
        tasks[j].status == TaskStatus::Ready,
    ensures
        0 <= id < n,
        tasks[id].status == TaskStatus::Ready,
        round_robin_distance(current, id, n) <= round_robin_distance(current, j, n),
{
    let k = choose|k: int|
        #![trigger ready_after(tasks, current, n, k)]
        ready_after(tasks, current, n, k) && id == (current + k) % n && forall|i: int|
            1 <= i < k ==> !ready_after(tasks, current, n, i);
    lemma_slot_at_distance(current, id, n, k);
    let dj = round_robin_distance(current, j, n);
    lemma_distance_slot(current, j, n);
    if dj < k {
        assert(!ready_after(tasks, current, n, dj));
    }
}

proof fn lemma_distance_slot(current: int, j: int, n: int)
    requires
        0 <= current < n,
        0 <= j < n,
    ensures
        1 <= round_robin_distance(current, j, n) <= n,
        (current + round_robin_distance(current, j, n)) % n == j,
{
    if j > current {
        vstd::arithmetic::div_mod::lemma_small_mod(j as nat, n as nat);
    } else {
        vstd::arithmetic::div_mod::lemma_mod_add_multiples_vanish(j, n);
        vstd::arithmetic::div_mod::lemma_small_mod(j as nat, n as nat);
    }
}

proof fn lemma_slot_at_distance(current: int, id: int, n: int, k: int)
    requires
        0 <= current < n,
        1 <= k <= n,
        id == (current + k) % n,
    ensures
        0 <= id < n,
        round_robin_distance(current, id, n) == k,
{
    if current + k < n {
        vstd::arithmetic::div_mod::lemma_small_mod((current + k) as nat, n as nat);
    } else {
        vstd::arithmetic::div_mod::lemma_mod_sub_multiples_vanish(current + k, n);
        vstd::arithmetic::div_mod::lemma_small_mod((current + k - n) as nat, n as nat);
    }
}

/// Stopping the current task touches nothing but its status, its
/// switch-in time (cleared) and its total running time (which gains the
/// elapsed time only if it was running); its saved context, counters and
/// the other tasks stay as they were.
pub proof fn law_stop_keeps_the_rest(s: TaskTable, status: TaskStatus, now_us: usize, i: int)
    requires
        s.wf(),
        can_stop_current(s, now_us),
        0 <= i < s.tasks.len(),
    ensures
        ({
            let a = stop_current(s, status, now_us);
            &&& a.num_app == s.num_app
            &&& a.current == s.current
            &&& a.tasks.len() == s.tasks.len()
            &&& i != s.current ==> a.tasks[i] == s.tasks[i]
            &&& i == s.current ==> {
                &&& a.tasks[i].status == status
                &&& a.tasks[i].run_start_time == 0
                &&& a.tasks[i].cx == s.tasks[i].cx
                &&& a.tasks[i].start_time == s.tasks[i].start_time
                &&& a.tasks[i].syscall_total_time == s.tasks[i].syscall_total_time
                &&& a.tasks[i].syscall_counts == s.tasks[i].syscall_counts
                &&& a.tasks[i].run_total_time == if s.tasks[i].status == TaskStatus::Running {
                    s.tasks[i].run_total_time + (now_us - s.tasks[i].run_start_time)
                } else {
                    s.tasks[i].run_total_time as int
                }
            }
        }),
{
}

/// Counting a system call changes one counter of the current task, by one,
/// and nothing else.
pub proof fn law_count_changes_one_counter(s: TaskTable, syscall_id: int, i: int, j: int)
    requires
        s.wf(),
        0 <= syscall_id < s.current_task().syscall_counts.len(),
        s.current_task().syscall_counts[syscall_id] < u32::MAX,
        0 <= i < s.tasks.len(),
        0 <= j < s.tasks[i].syscall_counts.len(),
    ensures
        ({
            let a = count_syscall(s, syscall_id);
            &&& a.num_app == s.num_app
            &&& a.current == s.current
            &&& a.tasks.len() == s.tasks.len()
            &&& a.tasks[i].status == s.tasks[i].status
            &&& a.tasks[i].cx == s.tasks[i].cx
            &&& a.tasks[i].start_time == s.tasks[i].start_time
            &&& a.tasks[i].run_start_time == s.tasks[i].run_start_time
            &&& a.tasks[i].run_total_time == s.tasks[i].run_total_time
            &&& a.tasks[i].syscall_total_time == s.tasks[i].syscall_total_time
            &&& a.tasks[i].syscall_counts.len() == s.tasks[i].syscall_counts.len()
            &&& a.tasks[i].syscall_counts[j] == if i == s.current && j == syscall_id {
                s.tasks[i].syscall_counts[j] + 1
            } else {
                s.tasks[i].syscall_counts[j] as int
            }
        }),
{
}

/// A task-info report gives the task's status, its counters, and its total
/// running time in whole milliseconds.
pub proof fn law_task_info_reports(info: TaskInfo, t: crate::task::TaskState)
    requires
        is_info_of(info, t),
    ensures
        info.status == t.status,
        info.syscall_time@ == t.syscall_counts,
        info.time * 1000 <= t.run_total_time < (info.time + 1) * 1000,
{
}

/// The dispatcher serves each id with its own handler: write passes on
/// `(args[0], args[1], args[2])`; exit reports `args[0]` as an `i32` and
/// leaves the caller `Exited`; yield returns 0 and leaves the caller
/// `Ready`; get_time stores at `args[0]` the time `now_us` split into
/// seconds and microseconds; task_info stores at `args[0]` the caller's
/// report, with this call already counted.
pub proof fn law_syscall_dispatch(
    before: TaskTable,
    after: TaskTable,
    syscall_id: usize,
    args: [usize; 3],
    now_us: usize,
    start_us: usize,
    out: SyscallOutcome,
)
    requires
        before.wf(),
        syscall_allowed(before, syscall_id, now_us),
        syscall_step(before, after, syscall_id, args, now_us, start_us, out),
    ensures
        syscall_id == 64 ==> (out == (SyscallOutcome::Write { fd: args[0], buf: args[1], len: args[2] })),
        syscall_id == 93 ==> ({
            &&& out matches SyscallOutcome::Exit { exit_code, .. }
            &&& exit_code == args[0] as i32
            &&& after.tasks[before.current as int].status == TaskStatus::Exited
        }),
        syscall_id == 124 ==> ({
            &&& out matches SyscallOutcome::Yield { ret, next }
            &&& ret == 0
            &&& (next matches RunNext::Switch { to, .. } && to != before.current) ==> after.tasks[
                before.current as int].status == TaskStatus::Ready
        }),
        syscall_id == 169 ==> ({
            &&& out matches SyscallOutcome::GetTime { ts, time, ret }
            &&& ts == args[0]
            &&& ret == 0
            &&& time.sec * 1_000_000 + time.usec == now_us
            &&& time.usec < 1_000_000
        }),
        syscall_id == 410 ==> ({
            &&& out matches SyscallOutcome::TaskInfo { ti, info, ret }
            &&& ti == args[0]
            &&& ret == 0
            &&& info.status == before.current_task().status
            &&& info.time == before.current_task().run_total_time / 1000
            &&& info.syscall_time@[410] == before.current_task().syscall_counts[410] + 1
        }),
        (syscall_id == 64 || syscall_id == 169 || syscall_id == 410) ==> (after.current
            == before.current),
{
    if syscall_id == 169 {
        if let SyscallOutcome::GetTime { time, .. } = out {
            law_time_val_exact(time, now_us);
        }
    }
}

} // verus!
