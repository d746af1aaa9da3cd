use vstd::prelude::*;
use crate::config::{MAX_APP_NUM, MAX_SYSCALL_NUM};
use crate::context::TaskContext;
use crate::task::{TaskControlBlock, TaskState, TaskStatus, task_states};
use crate::up::UPSafeCell;
use crate::laws::{law_exit_switches_away, law_only_current_runs, law_yield_always_switches};
use crate::round_robin::{is_next_ready, none_ready, next_ready_task};

verus! {

/// A context that returns into `entry` on the stack `sp`, with the saved
/// registers cleared.
pub open spec fn is_restore_context(cx: TaskContext, sp: usize, entry: usize) -> bool {
    &&& cx.ra == entry
    &&& cx.sp == sp
    &&& forall|i: int| 0 <= i < 12 ==> cx.s[i] == 0
}

/// The all-zero context.
pub open spec fn is_zero_context(cx: TaskContext) -> bool {
    is_restore_context(cx, 0, 0)
}

/// Per-task system call counters, all zero.
pub open spec fn zero_counts(counts: Seq<u32>) -> bool {
    &&& counts.len() == MAX_SYSCALL_NUM
    &&& forall|j: int| 0 <= j < MAX_SYSCALL_NUM ==> counts[j] == 0
}

/// The mutable part of the task manager: the task table and the index of
/// the task that owns the CPU.
pub struct TaskManagerInner {
    pub tasks: Vec<TaskControlBlock>,
    pub current_task: usize,
}

/// Round-robin manager of the first `num_app` task slots.
pub struct TaskManager {
    num_app: usize,
    inner: UPSafeCell<TaskManagerInner>,
}

/// What a task manager holds: the number of applications, the index of
/// the current task and the task table.
#[verifier::ext_equal]
pub struct TaskTable {
    pub num_app: usize,
    pub current: usize,
    pub tasks: Seq<TaskState>,
}

impl TaskTable {
    /// Well-formedness: a full task table whose every slot has one counter
    /// per system call id, at most `MAX_APP_NUM` applications, and a current
    /// task among them.
    pub open spec fn wf(self) -> bool {
        &&& self.tasks.len() == MAX_APP_NUM
        &&& self.num_app <= MAX_APP_NUM
        &&& self.current < MAX_APP_NUM
        &&& self.num_app > 0 ==> self.current < self.num_app
        &&& forall|i: int|
            0 <= i < MAX_APP_NUM ==> (#[trigger] self.tasks[i]).syscall_counts.len() == MAX_SYSCALL_NUM
    }

    /// No task but the current one is `Running`.
    pub open spec fn only_current_runs(self) -> bool {
        forall|i: int|
            0 <= i < self.tasks.len() && (#[trigger] self.tasks[i]).status == TaskStatus::Running
                ==> i == self.current
    }

    /// The current task.
    pub open spec fn current_task(self) -> TaskState {
        self.tasks[self.current as int]
    }
}

impl View for TaskManager {
    type V = TaskTable;

    closed spec fn view(&self) -> TaskTable {
        TaskTable {
            num_app: self.num_app,
            current: self.inner@.current_task,
            tasks: task_states(self.inner@.tasks@),
        }
    }
}

/// A fresh set of system call counters.
fn zeroed_syscall_counts() -> (counts: Vec<u32>)
    ensures
        zero_counts(counts@),
{
    let mut v: Vec<u32> = Vec::with_capacity(MAX_SYSCALL_NUM);
    let mut index: usize = 0;
    while index < MAX_SYSCALL_NUM
        invariant
            index <= MAX_SYSCALL_NUM,
            v@.len() == index,
            forall|j: int| 0 <= j < index ==> v@[j] == 0,
        decreases MAX_SYSCALL_NUM - index,
    {
        v.push(0);
        index += 1;
    }
    v
}

impl TaskManager {
    /// Number of applications managed.
    pub open spec fn num_apps(&self) -> usize {
        self@.num_app
    }

    /// The task table.
    pub open spec fn tasks(&self) -> Seq<TaskState> {
        self@.tasks
    }

    /// Index of the current task.
    pub open spec fn current(&self) -> usize {
        self@.current
    }

    /// The current task.
    pub open spec fn current_task(&self) -> TaskState {
        self@.current_task()
    }

    /// Well-formedness of the held table.
    pub open spec fn wf(&self) -> bool {
        self@.wf()
    }

    /// Builds the task table: the first `num_app` slots are `Ready` to
    /// return to user mode through `restore_entry` on their kernel stacks,
    /// the others are `UnInit`; all are created at `now_us`; task 0 is
    /// current.
    pub fn new(num_app: usize, now_us: usize, kernel_stack_ptrs: &Vec<usize>, restore_entry: usize) -> (tm: Self)
        requires
            num_app <= MAX_APP_NUM,
            kernel_stack_ptrs@.len() == num_app,
        ensures
            tm.wf(),
            tm@.only_current_runs(),
            tm.num_apps() == num_app,
            tm.current() == 0,
            forall|i: int|
                #![trigger tm.tasks()[i]]
                0 <= i < MAX_APP_NUM ==> {
                    let t = tm.tasks()[i];
                    &&& t.status == (if i < num_app {
                        TaskStatus::Ready
                    } else {
                        TaskStatus::UnInit
                    })
                    &&& (if i < num_app {
                        is_restore_context(t.cx, kernel_stack_ptrs@[i], restore_entry)
                    } else {
                        is_zero_context(t.cx)
                    })
                    &&& t.start_time == now_us
                    &&& t.run_start_time == now_us
                    &&& t.run_total_time == 0
                    &&& t.syscall_total_time == 0
                    &&& zero_counts(t.syscall_counts)
                },
    {
        let mut tasks: Vec<TaskControlBlock> = Vec::new();
        let mut i: usize = 0;
        while i < MAX_APP_NUM
            invariant
                i <= MAX_APP_NUM,
                num_app <= MAX_APP_NUM,
                kernel_stack_ptrs@.len() == num_app,
                tasks@.len() == i,
                forall|j: int|
                    #![trigger tasks@[j]]
                    0 <= j < i ==> {
                        let t = tasks@[j]@;
                        &&& t.status == (if j < num_app {
                            TaskStatus::Ready
                        } else {
                            TaskStatus::UnInit
                        })
                        &&& (if j < num_app {
                            is_restore_context(t.cx, kernel_stack_ptrs@[j], restore_entry)
                        } else {
                            is_zero_context(t.cx)
                        })
                        &&& t.start_time == now_us
                        &&& t.run_start_time == now_us
                        &&& t.run_total_time == 0
                        &&& t.syscall_total_time == 0
                        &&& zero_counts(t.syscall_counts)
                    },
            decreases MAX_APP_NUM - i,
        {
            let (task_status, task_cx) = if i < num_app {
                (TaskStatus::Ready, TaskContext::goto_restore(kernel_stack_ptrs[i], restore_entry))
            } else {
                (TaskStatus::UnInit, TaskContext::zero_init())
            };
            tasks.push(
                TaskControlBlock {
                    task_status,
                    task_cx,
                    task_start_time: now_us,
                    task_run_start_time: now_us,
                    task_run_total_time: 0,
                    task_run_syscall_total_time: 0,
                    syscall_arr: zeroed_syscall_counts(),
                },
            );
            i += 1;
        }
        TaskManager {
            num_app,
            inner: UPSafeCell::new(TaskManagerInner { tasks, current_task: 0 }),
        }
    }

    /// Takes the CPU away from the current task: if it was running, the time
    /// since it was switched to is added to its total; it becomes `Ready`.
    pub fn mark_current_suspended(&mut self, now_us: usize)
        requires
            old(self).wf(),
            can_stop_current(old(self)@, now_us),
        ensures
            final(self).wf(),
            final(self)@ == stop_current(old(self)@, TaskStatus::Ready, now_us),
            old(self)@.only_current_runs() ==> final(self)@.only_current_runs(),
    {
        let ghost before = self@;
        let inner = self.inner.exclusive_access();
        let current = inner.current_task;
        if inner.tasks[current].task_status == TaskStatus::Running {
            inner.tasks[current].task_run_total_time = inner.tasks[current].task_run_total_time + (
            now_us - inner.tasks[current].task_run_start_time);
        }
        inner.tasks[current].task_status = TaskStatus::Ready;
        inner.tasks[current].task_run_start_time = 0;
        assert(self@ =~= stop_current(before, TaskStatus::Ready, now_us));
    }

    /// Marks the current task as exited: if it was running, the time since
    /// it was switched to is added to its total; it becomes `Exited`.
    pub fn mark_current_exited(&mut self, now_us: usize)
        requires
            old(self).wf(),
            can_stop_current(old(self)@, now_us),
        ensures
            final(self).wf(),
            final(self)@ == stop_current(old(self)@, TaskStatus::Exited, now_us),
            old(self)@.only_current_runs() ==> final(self)@.only_current_runs(),
    {
        let ghost before = self@;
        let inner = self.inner.exclusive_access();
        let current = inner.current_task;
        if inner.tasks[current].task_status == TaskStatus::Running {
            inner.tasks[current].task_run_total_time = inner.tasks[current].task_run_total_time + (
            now_us - inner.tasks[current].task_run_start_time);
        }
        inner.tasks[current].task_status = TaskStatus::Exited;
        inner.tasks[current].task_run_start_time = 0;
        assert(self@ =~= stop_current(before, TaskStatus::Exited, now_us));
    }

    /// Looks for the next task to run: the first `Ready` task after the
    /// current one in round-robin order, the current task itself last.
    pub fn find_next_task(&mut self) -> (next: Option<usize>)
        requires
            old(self).wf(),
        ensures
            final(self)@ == old(self)@,
            match next {
                Some(id) => id < old(self).num_apps() && is_next_ready(
                    old(self).tasks(),
                    old(self).current() as int,
                    old(self).num_apps() as int,
                    id as int,
                ),
                None => none_ready(
                    old(self).tasks(),
                    old(self).current() as int,
                    old(self).num_apps() as int,
                ),
            },
    {
        let num_app = self.num_app;
        let inner = self.inner.exclusive_access();
        next_ready_task(&inner.tasks, inner.current_task, num_app)
    }

    /// Switches the scheduler's choice to the next ready task: it becomes
    /// `Running`, switched in at `now_us`, and current. When no task is ready
    /// nothing changes and every application has completed.
    pub fn run_next_task(&mut self, now_us: usize) -> (r: RunNext)
        requires
            old(self).wf(),
        ensures
            final(self).wf(),
            run_next_step(old(self)@, final(self)@, now_us, r),
    {
        let ghost before = self@;
        match self.find_next_task() {
            Some(next) => {
                let inner = self.inner.exclusive_access();
                let current = inner.current_task;
                inner.tasks[next].task_status = TaskStatus::Running;
                inner.tasks[next].task_run_start_time = now_us;
                inner.current_task = next;
                assert(self@ =~= TaskTable {
                    current: next,
                    tasks: before.tasks.update(next as int, started(before.tasks[next as int], now_us)),
                    ..before
                });
                RunNext::Switch { from: current, to: next }
            },
            None => RunNext::AllCompleted,
        }
    }

    /// Readies the first task to run: task 0 becomes `Ready`; its saved
    /// context is the one to load.
    pub fn run_first_task(&mut self) -> (cx: TaskContext)
        requires
            old(self).wf(),
        ensures
            final(self).wf(),
            old(self)@.only_current_runs() ==> final(self)@.only_current_runs(),
            cx == old(self).tasks()[0].cx,
            final(self)@ == (TaskTable {
                tasks: old(self).tasks().update(
                    0,
                    TaskState { status: TaskStatus::Ready, ..old(self).tasks()[0] },
                ),
                ..old(self)@
            }),
    {
        let ghost before = self@;
        let inner = self.inner.exclusive_access();
        inner.tasks[0].task_status = TaskStatus::Ready;
        let cx = inner.tasks[0].task_cx;
        assert(self@ =~= TaskTable {
            tasks: before.tasks.update(0, TaskState { status: TaskStatus::Ready, ..before.tasks[0] }),
            ..before
        });
        cx
    }

    /// Yields the CPU: the current task is suspended (`Ready`) at `stop_us`,
    /// then the next ready task is switched in at `start_us` (the two clock
    /// readings taken one after the other).
    pub fn suspend_current_and_run_next(&mut self, stop_us: usize, start_us: usize) -> (r: RunNext)
        requires
            old(self).wf(),
            can_stop_current(old(self)@, stop_us),
        ensures
            final(self).wf(),
            switch_step(old(self)@, final(self)@, stop_us, start_us, TaskStatus::Ready, r),
            old(self)@.only_current_runs() ==> final(self)@.only_current_runs(),
            old(self).num_apps() > 0 ==> r is Switch && final(self).current_task().status
                == TaskStatus::Running,
    {
        let ghost before = self@;
        self.mark_current_suspended(stop_us);
        let r = self.run_next_task(start_us);
        proof {
            if before.only_current_runs() {
                law_only_current_runs(before, self@, stop_us, start_us, TaskStatus::Ready, r);
            }
            if before.num_app > 0 {
                law_yield_always_switches(before, self@, stop_us, start_us, r);
            }
        }
        r
    }

    /// Ends the current task: it is marked `Exited` at `stop_us`, then the
    /// next ready task is switched in at `start_us`.
    pub fn exit_current_and_run_next(&mut self, stop_us: usize, start_us: usize) -> (r: RunNext)
        requires
            old(self).wf(),
            can_stop_current(old(self)@, stop_us),
        ensures
            final(self).wf(),
            switch_step(old(self)@, final(self)@, stop_us, start_us, TaskStatus::Exited, r),
            old(self)@.only_current_runs() ==> final(self)@.only_current_runs(),
            r matches RunNext::Switch { to, .. } ==> to != old(self).current(),
    {
        let ghost before = self@;
        self.mark_current_exited(stop_us);
        let r = self.run_next_task(start_us);
        proof {
            if before.only_current_runs() {
                law_only_current_runs(before, self@, stop_us, start_us, TaskStatus::Exited, r);
            }
            law_exit_switches_away(before, self@, stop_us, start_us, r);
        }
        r
    }

    /// Counts one call of system call `syscall_id` for the current task.
    pub fn current_task_mark_syscall(&mut self, syscall_id: usize)
        requires
            old(self).wf(),
            syscall_id < MAX_SYSCALL_NUM,
            old(self).current_task().syscall_counts[syscall_id as int] < u32::MAX,
        ensures
            final(self).wf(),
            final(self)@ == count_syscall(old(self)@, syscall_id as int),
            old(self)@.only_current_runs() ==> final(self)@.only_current_runs(),
    {
        let ghost before = self@;
        let inner = self.inner.exclusive_access();
        let current = inner.current_task;
        let count = inner.tasks[current].syscall_arr[syscall_id];
        inner.tasks[current].syscall_arr.set(syscall_id, count + 1);
        assert(self@ =~= count_syscall(before, syscall_id as int));
    }

    /// The system call counters of the current task.
    pub fn current_task_syscall_arr(&mut self) -> (counts: Vec<u32>)
        requires
            old(self).wf(),
        ensures
            final(self)@ == old(self)@,
            counts@ == old(self).current_task().syscall_counts,
    {
        let inner = self.inner.exclusive_access();
        let current = inner.current_task;
        let mut counts: Vec<u32> = Vec::with_capacity(MAX_SYSCALL_NUM);
        let mut index: usize = 0;
        while index < inner.tasks[current].syscall_arr.len()
            invariant
                current < inner.tasks@.len(),
                index <= inner.tasks@[current as int].syscall_arr@.len(),
                counts@ == inner.tasks@[current as int].syscall_arr@.subrange(0, index as int),
            decreases inner.tasks@[current as int].syscall_arr@.len() - index,
        {
            counts.push(inner.tasks[current].syscall_arr[index]);
            index += 1;
        }
        counts
    }

    /// The status of the current task.
    pub fn current_task_status(&mut self) -> (status: TaskStatus)
        requires
            old(self).wf(),
        ensures
            final(self)@ == old(self)@,
            status == old(self).current_task().status,
    {
        let inner = self.inner.exclusive_access();
        inner.tasks[inner.current_task].task_status
    }

    /// The total running time of the current task, in microseconds.
    pub fn current_task_run_total_time(&mut self) -> (time: usize)
        requires
            old(self).wf(),
        ensures
            final(self)@ == old(self)@,
            time == old(self).current_task().run_total_time,
    {
        let inner = self.inner.exclusive_access();
        inner.tasks[inner.current_task].task_run_total_time
    }

    /// The total time the current task has spent in system calls, in
    /// microseconds.
    pub fn task_run_syscall_total_time(&mut self) -> (time: usize)
        requires
            old(self).wf(),
        ensures
            final(self)@ == old(self)@,
            time == old(self).current_task().syscall_total_time,
    {
        let inner = self.inner.exclusive_access();
        inner.tasks[inner.current_task].task_run_syscall_total_time
    }

    /// Adds `time` microseconds to the system call time of the current task.
    pub fn mark_task_run_syscall_total_time(&mut self, time: usize)
        requires
            old(self).wf(),
            old(self).current_task().syscall_total_time + time <= usize::MAX,
        ensures
            final(self).wf(),
            final(self)@ == update_current(
                old(self)@,
                TaskState {
                    syscall_total_time: (old(self).current_task().syscall_total_time + time) as usize,
                    ..old(self).current_task()
                },
            ),
    {
        let ghost before = self@;
        let inner = self.inner.exclusive_access();
        let current = inner.current_task;
        inner.tasks[current].task_run_syscall_total_time = inner.tasks[current].task_run_syscall_total_time + time;
        assert(self@ =~= update_current(
            before,
            TaskState {
                syscall_total_time: (before.current_task().syscall_total_time + time) as usize,
                ..before.current_task()
            },
        ));
    }

    /// Whether the current task may stop at `now_us` (see
    /// `can_stop_current`).
    pub fn can_stop_current_at(&mut self, now_us: usize) -> (ok: bool)
        requires
            old(self).wf(),
        ensures
            final(self)@ == old(self)@,
            ok == can_stop_current(old(self)@, now_us),
    {
        let inner = self.inner.exclusive_access();
        let t = &inner.tasks[inner.current_task];
        if t.task_status == TaskStatus::Running {
            t.task_run_start_time <= now_us && t.task_run_total_time <= usize::MAX - (now_us
                - t.task_run_start_time)
        } else {
            true
        }
    }

    /// The saved context of task `id`, where a context switch stores the
    /// registers of a task leaving the CPU and loads those of a task taking
    /// it.
    pub fn task_context_mut(&mut self, id: usize) -> (cx: &mut TaskContext)
        requires
            old(self).wf(),
            id < MAX_APP_NUM,
        ensures
            *cx == old(self).tasks()[id as int].cx,
            final(self)@ == (TaskTable {
                tasks: old(self).tasks().update(
                    id as int,
                    TaskState { cx: *final(cx), ..old(self).tasks()[id as int] },
                ),
                ..old(self)@
            }),
    {
        let inner = self.inner.exclusive_access();
        &mut inner.tasks[id].task_cx
    }

    /// The creation time of the current task, in microseconds.
    pub fn current_task_start_time(&mut self) -> (time: usize)
        requires
            old(self).wf(),
        ensures
            final(self)@ == old(self)@,
            time == old(self).current_task().start_time,
    {
        let inner = self.inner.exclusive_access();
        inner.tasks[inner.current_task].task_start_time
    }
}

/// Where the scheduler switches to: the task `to`, saving the registers of
/// the task `from`; or nowhere, because no task is ready any more.
#[derive(Copy, Clone, PartialEq, Eq, Structural, Debug)]
pub enum RunNext {
    Switch { from: usize, to: usize },
    AllCompleted,
}

/// The task `t` after it stops running at `now_us` and enters `status`: if
/// it was running, the time since it was switched to is added to its total;
/// its switch-in time is cleared.
pub open spec fn stopped(t: TaskState, status: TaskStatus, now_us: usize) -> TaskState {
    TaskState {
        status: status,
        run_start_time: 0,
        run_total_time: if t.status == TaskStatus::Running {
            (t.run_total_time + (now_us - t.run_start_time)) as usize
        } else {
            t.run_total_time
        },
        ..t
    }
}

/// The task `t` switched in at `now_us`.
pub open spec fn started(t: TaskState, now_us: usize) -> TaskState {
    TaskState { status: TaskStatus::Running, run_start_time: now_us, ..t }
}

/// The task `t` with one more call of `syscall_id` counted.
pub open spec fn counted(t: TaskState, syscall_id: int) -> TaskState {
    TaskState {
        syscall_counts: t.syscall_counts.update(syscall_id, (t.syscall_counts[syscall_id] + 1) as u32),
        ..t
    }
}

/// The table `s` with its current task replaced by `t`.
pub open spec fn update_current(s: TaskTable, t: TaskState) -> TaskTable {
    TaskTable { tasks: s.tasks.update(s.current as int, t), ..s }
}

/// The table `s` with one more call of `syscall_id` counted for its current
/// task.
pub open spec fn count_syscall(s: TaskTable, syscall_id: int) -> TaskTable {
    update_current(s, counted(s.current_task(), syscall_id))
}

/// The current task of `s` may stop at `now_us`: if it is running, it was
/// switched in no later than `now_us` and its total running time does not
/// overflow.
pub open spec fn can_stop_current(s: TaskTable, now_us: usize) -> bool {
    let t = s.current_task();
    t.status == TaskStatus::Running ==> {
        &&& t.run_start_time <= now_us
        &&& t.run_total_time + (now_us - t.run_start_time) <= usize::MAX
    }
}

/// The table `s` once its current task has stopped at `now_us` and entered
/// `status`.
pub open spec fn stop_current(s: TaskTable, status: TaskStatus, now_us: usize) -> TaskTable {
    update_current(s, stopped(s.current_task(), status, now_us))
}

/// One scheduling decision at `now_us`, from `before` to `after`, with
/// outcome `r`: the first ready task in round-robin order is switched in and
/// becomes current; with none ready, nothing changes.
pub open spec fn run_next_step(before: TaskTable, after: TaskTable, now_us: usize, r: RunNext) -> bool {
    match r {
        RunNext::Switch { from, to } => {
            &&& from == before.current
            &&& to < before.num_app
            &&& is_next_ready(before.tasks, before.current as int, before.num_app as int, to as int)
            &&& after == TaskTable {
                current: to,
                tasks: before.tasks.update(to as int, started(before.tasks[to as int], now_us)),
                ..before
            }
        },
        RunNext::AllCompleted => {
            &&& none_ready(before.tasks, before.current as int, before.num_app as int)
            &&& after == before
        },
    }
}

/// The current task stops at `stop_us`, entering `status`, and the
/// scheduler then decides at `start_us` with outcome `r`.
pub open spec fn switch_step(
    before: TaskTable,
    after: TaskTable,
    stop_us: usize,
    start_us: usize,
    status: TaskStatus,
    r: RunNext,
) -> bool {
    run_next_step(stop_current(before, status, stop_us), after, start_us, r)
}

} // verus!
