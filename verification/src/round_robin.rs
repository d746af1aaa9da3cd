use vstd::prelude::*;
use crate::config::MAX_APP_NUM;
use crate::task::{TaskControlBlock, TaskState, TaskStatus, task_states};

verus! {

/// The `k`-th slot after `current` in round-robin order among `n` slots
/// (`1 <= k <= n`, the slot `current` itself being the `n`-th) holds a
/// `Ready` task.
pub open spec fn ready_after(tasks: Seq<TaskState>, current: int, n: int, k: int) -> bool {
    &&& 1 <= k <= n
    &&& tasks[(current + k) % n].status == TaskStatus::Ready
}

/// `id` is the first ready task after `current` in round-robin order among
/// the first `n` slots, the task `current` itself coming last.
pub open spec fn is_next_ready(tasks: Seq<TaskState>, current: int, n: int, id: int) -> bool {
    exists|k: int|
        #![trigger ready_after(tasks, current, n, k)]
        ready_after(tasks, current, n, k) && id == (current + k) % n && forall|j: int|
            1 <= j < k ==> !ready_after(tasks, current, n, j)
}

/// No task among the first `n` slots is ready.
pub open spec fn none_ready(tasks: Seq<TaskState>, current: int, n: int) -> bool {
    forall|k: int| 1 <= k <= n ==> !ready_after(tasks, current, n, k)
}

/// The first `Ready` task after `current` in round-robin order among the
/// first `num_app` slots of `tasks`, the task `current` itself coming last.
pub fn next_ready_task(tasks: &Vec<TaskControlBlock>, current: usize, num_app: usize) -> (next: Option<usize>)
    requires
        num_app <= tasks@.len(),
        num_app <= MAX_APP_NUM,
        num_app > 0 ==> current < num_app,
    ensures
        match next {
            Some(id) => id < num_app && is_next_ready(task_states(tasks@), current as int, num_app as int, id as int),
            None => none_ready(task_states(tasks@), current as int, num_app as int),
        },
{
    let mut k: usize = 1;
    while k <= num_app
        invariant
            1 <= k <= num_app + 1,
            num_app <= tasks@.len(),
            num_app <= MAX_APP_NUM,
            num_app > 0 ==> current < num_app,
            forall|j: int| 1 <= j < k ==> !ready_after(task_states(tasks@), current as int, num_app as int, j),
        decreases num_app + 1 - k,
    {
        let id = (current + k) % num_app;
        if tasks[id].task_status == TaskStatus::Ready {
            assert(ready_after(task_states(tasks@), current as int, num_app as int, k as int));
            return Some(id);
        }
        k += 1;
    }
    None
}

/// The round-robin choice is unique: at most one task is the next ready one.
pub proof fn lemma_next_ready_unique(tasks: Seq<TaskState>, current: int, n: int, a: int, b: int)
    requires
        is_next_ready(tasks, current, n, a),
        is_next_ready(tasks, current, n, b),
    ensures
        a == b,
{
    let ka = choose|k: int|
        #![trigger ready_after(tasks, current, n, k)]
        ready_after(tasks, current, n, k) && a == (current + k) % n && forall|j: int|
            1 <= j < k ==> !ready_after(tasks, current, n, j);
    let kb = choose|k: int|
        #![trigger ready_after(tasks, current, n, k)]
        ready_after(tasks, current, n, k) && b == (current + k) % n && forall|j: int|
            1 <= j < k ==> !ready_after(tasks, current, n, j);
    assert(ka == kb);
}

} // verus!
