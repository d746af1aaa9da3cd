# os3

The task-management core of a small RISC-V teaching kernel, verified with
Verus.

- `src/` holds the verified library: task contexts and control blocks, the
  round-robin task manager with run-time accounting, per-task system call
  counters, time conversions and the system call dispatcher. Contracts are
  stated over `TaskTable`, the view of a `TaskManager`; `src/laws.rs`
  proves properties that span operations (only the current task runs,
  yielding always switches, exited tasks never return, run time only
  grows, every system call is counted once).
- `app/` is the hardware side: the global task manager, the `time` CSR,
  the SBI timer, context switches and the handlers that touch user memory.
- `tests/` exercises the library on concrete scenarios.
