use vstd::prelude::*;
use crate::context::TaskContext;

verus! {

/// Lifecycle state of a task.
#[derive(Copy, Clone, PartialEq, Eq, Structural, Debug)]
pub enum TaskStatus {
    UnInit,
    Ready,
    Running,
    Exited,
}

/// Task control block.
pub struct TaskControlBlock {
    /// Current state.
    pub task_status: TaskStatus,
    /// Saved registers, loaded when the task is switched to.
    pub task_cx: TaskContext,
    /// Time (in microseconds) at which the task was created.
    pub task_start_time: usize,
    /// Time (in microseconds) at which the task was last switched to.
    pub task_run_start_time: usize,
    /// Total time (in microseconds) the task has spent running.
    pub task_run_total_time: usize,
    /// Total time (in microseconds) the task has spent in system calls.
    pub task_run_syscall_total_time: usize,
    /// Number of calls of each system call id.
    pub syscall_arr: Vec<u32>,
}

/// The content of a task control block, with the system call counters as a
/// sequence.
pub struct TaskState {
    pub status: TaskStatus,
    pub cx: TaskContext,
    pub start_time: usize,
    pub run_start_time: usize,
    pub run_total_time: usize,
    pub syscall_total_time: usize,
    pub syscall_counts: Seq<u32>,
}

impl View for TaskControlBlock {
    type V = TaskState;

    open spec fn view(&self) -> TaskState {
        TaskState {
            status: self.task_status,
            cx: self.task_cx,
            start_time: self.task_start_time,
            run_start_time: self.task_run_start_time,
            run_total_time: self.task_run_total_time,
            syscall_total_time: self.task_run_syscall_total_time,
            syscall_counts: self.syscall_arr@,
        }
    }
}

} // verus!

verus! {

/// The states of a sequence of task control blocks.
pub open spec fn task_states(tasks: Seq<TaskControlBlock>) -> Seq<TaskState> {
    tasks.map_values(|t: TaskControlBlock| t@)
}

} // verus!
