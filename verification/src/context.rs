use vstd::prelude::*;

verus! {

/// Registers saved across a task switch: the return address, the kernel
/// stack pointer and the callee-saved registers `s0`..`s11`.
#[derive(Copy, Clone)]
pub struct TaskContext {
    pub ra: usize,
    pub sp: usize,
    pub s: [usize; 12],
}

impl TaskContext {
    /// The all-zero context.
    pub fn zero_init() -> (cx: Self)
        ensures
            cx.ra == 0,
            cx.sp == 0,
            forall|i: int| 0 <= i < 12 ==> cx.s[i] == 0,
    {
        Self { ra: 0, sp: 0, s: [0; 12] }
    }

    /// A context that, when switched to, returns into `restore_entry` (the
    /// trap-return routine) on the kernel stack `kstack_ptr`.
    pub fn goto_restore(kstack_ptr: usize, restore_entry: usize) -> (cx: Self)
        ensures
            cx.ra == restore_entry,
            cx.sp == kstack_ptr,
            forall|i: int| 0 <= i < 12 ==> cx.s[i] == 0,
    {
        Self { ra: restore_entry, sp: kstack_ptr, s: [0; 12] }
    }
}

} // verus!
