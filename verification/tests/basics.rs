use os3::context::TaskContext;
use os3::process::{sys_get_time, TimeVal};
use os3::timer::{get_time_us, set_next_trigger};
use os3::up::UPSafeCell;

#[test]
fn zero_context_is_all_zero() {
    let cx = TaskContext::zero_init();
    assert_eq!(cx.ra, 0);
    assert_eq!(cx.sp, 0);
    assert_eq!(cx.s, [0; 12]);
}

#[test]
fn restore_context_returns_on_the_given_stack() {
    let cx = TaskContext::goto_restore(0x8040_2000, 0x8020_0abc);
    assert_eq!(cx.ra, 0x8020_0abc);
    assert_eq!(cx.sp, 0x8040_2000);
    assert_eq!(cx.s, [0; 12]);
}

#[test]
fn cell_gives_exclusive_access() {
    let mut cell = UPSafeCell::new(41u32);
    *cell.exclusive_access() += 1;
    assert_eq!(*cell.exclusive_access(), 42);
}

#[test]
fn ticks_convert_to_microseconds() {
    assert_eq!(get_time_us(0), 0);
    assert_eq!(get_time_us(11), 0);
    assert_eq!(get_time_us(12), 1);
    // the divisor CLOCK_FREQ / MICRO_PER_SEC is truncated to 12
    assert_eq!(get_time_us(12_500_000), 1_041_666);
}

#[test]
fn next_trigger_is_ten_milliseconds_later() {
    assert_eq!(set_next_trigger(0), 125_000);
    assert_eq!(set_next_trigger(1_000), 126_000);
}

#[test]
fn get_time_splits_seconds_and_microseconds() {
    let mut tv = TimeVal { sec: 9, usec: 9 };
    assert_eq!(sys_get_time(3_500_123, &mut tv, 0), 0);
    assert_eq!(tv, TimeVal { sec: 3, usec: 500_123 });
    assert_eq!(tv.sec * 1_000_000 + tv.usec, 3_500_123);
    sys_get_time(999_999, &mut tv, 0);
    assert_eq!(tv, TimeVal { sec: 0, usec: 999_999 });
    sys_get_time(1_000_000, &mut tv, 0);
    assert_eq!(tv, TimeVal { sec: 1, usec: 0 });
}
