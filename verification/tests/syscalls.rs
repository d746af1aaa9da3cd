use os3::manager::{RunNext, TaskManager};
use os3::process::{sys_exit, sys_task_info, sys_yield, TaskInfo, TimeVal};
use os3::syscall::{
    syscall, SyscallOutcome, SYSCALL_EXIT, SYSCALL_GET_TIME, SYSCALL_TASK_INFO, SYSCALL_WRITE,
    SYSCALL_YIELD,
};
use os3::task::TaskStatus;
use os3::user::yield_;

fn manager(num_app: usize) -> TaskManager {
    let sps: Vec<usize> = (0..num_app).map(|i| 0x1000 * (i + 1)).collect();
    TaskManager::new(num_app, 0, &sps, 0x42)
}

#[test]
fn write_is_counted_and_passed_on() {
    let mut tm = manager(1);
    match syscall(&mut tm, SYSCALL_WRITE, [1, 0x8040_0000, 12], 0, 0) {
        SyscallOutcome::Write { fd, buf, len } => {
            assert_eq!((fd, buf, len), (1, 0x8040_0000, 12));
        }
        other => panic!("unexpected outcome {:?}", other),
    }
    assert_eq!(tm.current_task_syscall_arr()[SYSCALL_WRITE], 1);
}

#[test]
fn exit_reports_code_and_switches() {
    let mut tm = manager(2);
    match syscall(&mut tm, SYSCALL_EXIT, [usize::MAX, 0, 0], 0, 0) {
        SyscallOutcome::Exit { exit_code, next } => {
            assert_eq!(exit_code, -1);
            assert_eq!(next, RunNext::Switch { from: 0, to: 1 });
        }
        other => panic!("unexpected outcome {:?}", other),
    }
    match syscall(&mut tm, SYSCALL_EXIT, [3, 0, 0], 0, 0) {
        SyscallOutcome::Exit { exit_code, next } => {
            assert_eq!(exit_code, 3);
            assert_eq!(next, RunNext::AllCompleted);
        }
        other => panic!("unexpected outcome {:?}", other),
    }
}

#[test]
fn yield_returns_zero_and_switches() {
    let mut tm = manager(2);
    match syscall(&mut tm, SYSCALL_YIELD, [0, 0, 0], 0, 0) {
        SyscallOutcome::Yield { next, ret } => {
            assert_eq!(ret, 0);
            assert_eq!(next, RunNext::Switch { from: 0, to: 1 });
        }
        other => panic!("unexpected outcome {:?}", other),
    }
    match yield_(&mut tm, 10, 10) {
        SyscallOutcome::Yield { next, ret } => {
            assert_eq!(ret, 0);
            assert_eq!(next, RunNext::Switch { from: 1, to: 0 });
        }
        other => panic!("unexpected outcome {:?}", other),
    }
    // each task counted its own yield
    assert_eq!(tm.current_task_syscall_arr()[SYSCALL_YIELD], 1);
}

#[test]
fn get_time_gives_the_time_to_store() {
    let mut tm = manager(1);
    match syscall(&mut tm, SYSCALL_GET_TIME, [0x8040_1000, 0, 0], 12_345_678, 12_345_678) {
        SyscallOutcome::GetTime { ts, time, ret } => {
            assert_eq!(ts, 0x8040_1000);
            assert_eq!(time, TimeVal { sec: 12, usec: 345_678 });
            assert_eq!(ret, 0);
        }
        other => panic!("unexpected outcome {:?}", other),
    }
}

#[test]
fn task_info_reports_counts_and_time() {
    let mut tm = manager(1);
    assert_eq!(tm.run_next_task(0), RunNext::Switch { from: 0, to: 0 });
    match syscall(&mut tm, SYSCALL_YIELD, [0, 0, 0], 800_000, 800_000) {
        SyscallOutcome::Yield { next, .. } => assert_eq!(next, RunNext::Switch { from: 0, to: 0 }),
        other => panic!("unexpected outcome {:?}", other),
    }
    match syscall(&mut tm, SYSCALL_TASK_INFO, [0x9000, 0, 0], 900_000, 900_000) {
        SyscallOutcome::TaskInfo { ti, info, ret } => {
            assert_eq!(ti, 0x9000);
            assert_eq!(ret, 0);
            assert_eq!(info.status, TaskStatus::Running);
            assert_eq!(info.time, 800);
            assert_eq!(info.syscall_time[SYSCALL_YIELD], 1);
            assert_eq!(info.syscall_time[SYSCALL_TASK_INFO], 1);
            assert_eq!(info.syscall_time.iter().map(|c| *c as u64).sum::<u64>(), 2);
        }
        other => panic!("unexpected outcome {:?}", other),
    }
}

#[test]
fn process_calls_act_on_the_current_task() {
    let mut tm = manager(2);
    let (next, ret) = sys_yield(&mut tm, 0, 0);
    assert_eq!((next, ret), (RunNext::Switch { from: 0, to: 1 }, 0));
    assert_eq!(sys_exit(&mut tm, 0, 0), RunNext::Switch { from: 1, to: 0 });
    // task 0 has been running since it was switched in at 0
    assert_eq!(tm.current_task_status(), TaskStatus::Running);
    tm.mark_current_suspended(2_000_000);
    let mut info = TaskInfo { status: TaskStatus::UnInit, syscall_time: [7; 500], time: 0 };
    assert_eq!(sys_task_info(&mut tm, &mut info), 0);
    assert_eq!(info.status, TaskStatus::Ready);
    assert_eq!(info.time, 2_000);
    assert!(info.syscall_time.iter().all(|c| *c == 0));
}

#[test]
fn task_info_reports_short_run_times() {
    let mut tm = manager(1);
    assert_eq!(tm.run_next_task(0), RunNext::Switch { from: 0, to: 0 });
    match syscall(&mut tm, SYSCALL_YIELD, [0, 0, 0], 1_999, 2_100) {
        SyscallOutcome::Yield { next, .. } => assert_eq!(next, RunNext::Switch { from: 0, to: 0 }),
        other => panic!("unexpected outcome {:?}", other),
    }
    match syscall(&mut tm, SYSCALL_TASK_INFO, [0x9000, 0, 0], 2_500, 2_500) {
        SyscallOutcome::TaskInfo { info, ret, .. } => {
            assert_eq!(ret, 0);
            // 1999 us of running time, reported in whole milliseconds
            assert_eq!(info.time, 1);
        }
        other => panic!("unexpected outcome {:?}", other),
    }
}
