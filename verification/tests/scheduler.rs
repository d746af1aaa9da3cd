use os3::manager::{RunNext, TaskManager};
use os3::round_robin::next_ready_task;
use os3::task::TaskStatus;

const RESTORE: usize = 0x8020_1000;

fn manager(num_app: usize, now: usize) -> TaskManager {
    let sps: Vec<usize> = (0..num_app).map(|i| 0x8030_0000 + i * 0x2000).collect();
    TaskManager::new(num_app, now, &sps, RESTORE)
}

#[test]
fn new_manager_starts_with_task_zero_ready() {
    let mut tm = manager(3, 100);
    assert_eq!(tm.current_task_status(), TaskStatus::Ready);
    assert_eq!(tm.current_task_start_time(), 100);
    assert_eq!(tm.current_task_run_total_time(), 0);
    assert_eq!(tm.task_run_syscall_total_time(), 0);
    let counts = tm.current_task_syscall_arr();
    assert_eq!(counts.len(), 500);
    assert!(counts.iter().all(|c| *c == 0));
}

#[test]
fn run_first_task_hands_out_task_zero_context() {
    let mut tm = manager(2, 0);
    let cx = tm.run_first_task();
    assert_eq!(cx.ra, RESTORE);
    assert_eq!(cx.sp, 0x8030_0000);
    assert_eq!(cx.s, [0; 12]);
    assert_eq!(tm.current_task_status(), TaskStatus::Ready);
}

#[test]
fn find_next_task_goes_round_robin() {
    let mut tm = manager(3, 0);
    assert_eq!(tm.find_next_task(), Some(1));
    assert_eq!(tm.run_next_task(10), RunNext::Switch { from: 0, to: 1 });
    assert_eq!(tm.current_task_status(), TaskStatus::Running);
    assert_eq!(tm.suspend_current_and_run_next(20, 20), RunNext::Switch { from: 1, to: 2 });
    assert_eq!(tm.suspend_current_and_run_next(30, 30), RunNext::Switch { from: 2, to: 0 });
    assert_eq!(tm.suspend_current_and_run_next(40, 40), RunNext::Switch { from: 0, to: 1 });
}

#[test]
fn lone_task_yields_to_itself() {
    let mut tm = manager(1, 0);
    assert_eq!(tm.run_next_task(5), RunNext::Switch { from: 0, to: 0 });
    assert_eq!(tm.suspend_current_and_run_next(9, 9), RunNext::Switch { from: 0, to: 0 });
    assert_eq!(tm.current_task_status(), TaskStatus::Running);
    assert_eq!(tm.current_task_run_total_time(), 4);
}

#[test]
fn suspending_adds_elapsed_running_time() {
    let mut tm = manager(2, 0);
    assert_eq!(tm.run_next_task(1_000), RunNext::Switch { from: 0, to: 1 });
    assert_eq!(tm.suspend_current_and_run_next(1_600, 1_600), RunNext::Switch { from: 1, to: 0 });
    // task 0 was never running, so it gained no time
    assert_eq!(tm.current_task_run_total_time(), 0);
    assert_eq!(tm.suspend_current_and_run_next(2_000, 2_000), RunNext::Switch { from: 0, to: 1 });
    assert_eq!(tm.current_task_run_total_time(), 600);
}

#[test]
fn marking_a_ready_task_adds_no_time() {
    let mut tm = manager(2, 0);
    tm.mark_current_suspended(5_000);
    assert_eq!(tm.current_task_run_total_time(), 0);
    assert_eq!(tm.current_task_status(), TaskStatus::Ready);
    tm.mark_current_exited(6_000);
    assert_eq!(tm.current_task_run_total_time(), 0);
    assert_eq!(tm.current_task_status(), TaskStatus::Exited);
}

#[test]
fn exited_tasks_are_skipped_until_all_complete() {
    let mut tm = manager(3, 0);
    assert_eq!(tm.run_next_task(0), RunNext::Switch { from: 0, to: 1 });
    assert_eq!(tm.exit_current_and_run_next(10, 10), RunNext::Switch { from: 1, to: 2 });
    assert_eq!(tm.suspend_current_and_run_next(20, 20), RunNext::Switch { from: 2, to: 0 });
    assert_eq!(tm.suspend_current_and_run_next(30, 30), RunNext::Switch { from: 0, to: 2 });
    assert_eq!(tm.exit_current_and_run_next(40, 40), RunNext::Switch { from: 2, to: 0 });
    assert_eq!(tm.exit_current_and_run_next(50, 50), RunNext::AllCompleted);
    assert_eq!(tm.current_task_status(), TaskStatus::Exited);
    assert_eq!(tm.find_next_task(), None);
}

#[test]
fn no_applications_means_nothing_to_run() {
    let mut tm = manager(0, 0);
    assert_eq!(tm.find_next_task(), None);
    assert_eq!(tm.run_next_task(1), RunNext::AllCompleted);
}

#[test]
fn syscall_time_accumulates() {
    let mut tm = manager(1, 0);
    tm.mark_task_run_syscall_total_time(7);
    tm.mark_task_run_syscall_total_time(5);
    assert_eq!(tm.task_run_syscall_total_time(), 12);
}

#[test]
fn marking_a_syscall_counts_it_once() {
    let mut tm = manager(2, 0);
    tm.current_task_mark_syscall(64);
    tm.current_task_mark_syscall(64);
    tm.current_task_mark_syscall(499);
    let counts = tm.current_task_syscall_arr();
    assert_eq!(counts[64], 2);
    assert_eq!(counts[499], 1);
    assert_eq!(counts.iter().map(|c| *c as u64).sum::<u64>(), 3);
    // the other task's counters are untouched
    assert_eq!(tm.run_next_task(0), RunNext::Switch { from: 0, to: 1 });
    assert!(tm.current_task_syscall_arr().iter().all(|c| *c == 0));
}

#[test]
fn next_ready_task_wraps_around() {
    let mut tm = manager(4, 0);
    // make task 1 and 2 exit so that from 0 the search wraps past them
    assert_eq!(tm.run_next_task(0), RunNext::Switch { from: 0, to: 1 });
    assert_eq!(tm.exit_current_and_run_next(0, 0), RunNext::Switch { from: 1, to: 2 });
    assert_eq!(tm.exit_current_and_run_next(0, 0), RunNext::Switch { from: 2, to: 3 });
    assert_eq!(tm.suspend_current_and_run_next(0, 0), RunNext::Switch { from: 3, to: 0 });
    assert_eq!(tm.find_next_task(), Some(3));
    assert_eq!(next_ready_task(&Vec::new(), 0, 0), None);
}

#[test]
fn yielded_task_is_ready_again() {
    let mut tm = manager(2, 0);
    assert_eq!(tm.run_next_task(0), RunNext::Switch { from: 0, to: 1 });
    assert_eq!(tm.suspend_current_and_run_next(3, 3), RunNext::Switch { from: 1, to: 0 });
    // task 1 is no longer running: it is the next ready task
    assert_eq!(tm.find_next_task(), Some(1));
    assert_eq!(tm.current_task_status(), TaskStatus::Running);
}

#[test]
fn next_task_starts_at_the_second_reading() {
    let mut tm = manager(2, 0);
    assert_eq!(tm.run_next_task(1_000), RunNext::Switch { from: 0, to: 1 });
    // task 1 stops at 1_600; task 0 is switched in at 1_700
    assert_eq!(tm.suspend_current_and_run_next(1_600, 1_700), RunNext::Switch { from: 1, to: 0 });
    assert_eq!(tm.suspend_current_and_run_next(2_000, 2_050), RunNext::Switch { from: 0, to: 1 });
    assert_eq!(tm.current_task_run_total_time(), 600);
    assert_eq!(tm.suspend_current_and_run_next(2_060, 2_070), RunNext::Switch { from: 1, to: 0 });
    // task 0 ran from 1_700 to 2_000
    assert_eq!(tm.current_task_run_total_time(), 300);
}
