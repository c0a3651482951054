use std::time::Duration;
use sync_linux_no_libc::futex::{
    absolute_deadline, wait_op, wake_request, woke_any, FutexWait, WaitAction, WaitEvent,
    WaitRequest, WakeRequest,
};
use sync_linux_no_libc::timespec::{KernelTimespec, Timespec};

#[test]
fn wait_operation_values() {
    assert_eq!(wait_op(true), 9 | 128);
    assert_eq!(wait_op(false), 9);
}

#[test]
fn wake_requests() {
    assert_eq!(wake_request(false, true), WakeRequest { op: 129, count: 1 });
    assert_eq!(wake_request(true, true), WakeRequest { op: 129, count: i32::MAX });
    assert_eq!(wake_request(false, false), WakeRequest { op: 1, count: 1 });
    assert_eq!(wake_request(true, false), WakeRequest { op: 1, count: i32::MAX });
}

#[test]
fn wake_reports_whether_someone_woke() {
    assert!(!woke_any(0));
    assert!(woke_any(1));
    assert!(woke_any(7));
}

#[test]
fn deadline_is_now_plus_timeout() {
    let now = Timespec::new(100, 999_000_000);
    let d = absolute_deadline(&now, &Duration::from_millis(2));
    assert_eq!(d, Some(KernelTimespec { tv_sec: 101, tv_nsec: 1_000_000 }));
}

#[test]
fn overflowing_deadline_is_no_deadline() {
    let now = Timespec::new(5, 0);
    assert_eq!(absolute_deadline(&now, &Duration::from_millis(u64::MAX)), Some(KernelTimespec {
        tv_sec: 5 + (u64::MAX / 1000) as isize,
        tv_nsec: ((u64::MAX % 1000) * 1_000_000) as isize,
    }));
    assert_eq!(absolute_deadline(&now, &Duration::from_secs(u64::MAX)), None);
}

#[test]
fn wait_request_carries_arguments() {
    let deadline = Some(KernelTimespec { tv_sec: 3, tv_nsec: 4 });
    let w = FutexWait::new(17, deadline, true);
    assert_eq!(
        w.request(),
        WaitRequest { op: 137, expected: 17, deadline, bitset: u32::MAX }
    );
    let shared = FutexWait::new(17, None, false);
    assert_eq!(shared.request().op, 9);
    assert_eq!(shared.request().deadline, None);
}

#[test]
fn changed_value_returns_true_at_once() {
    let w = FutexWait::new(1, None, true);
    assert_eq!(w.step(WaitEvent::Observed(2)), WaitAction::Finish(true));
    assert_eq!(w.step(WaitEvent::Observed(0)), WaitAction::Finish(true));
}

#[test]
fn unchanged_value_sleeps() {
    let w = FutexWait::new(1, None, true);
    assert_eq!(w.step(WaitEvent::Observed(1)), WaitAction::Sleep(w.request()));
}

#[test]
fn timeout_returns_false() {
    let w = FutexWait::new(1, Some(KernelTimespec { tv_sec: 0, tv_nsec: 0 }), true);
    assert_eq!(w.step(WaitEvent::Returned(Err(110))), WaitAction::Finish(false));
}

#[test]
fn interrupt_rechecks_the_word() {
    let w = FutexWait::new(1, None, true);
    assert_eq!(w.step(WaitEvent::Returned(Err(4))), WaitAction::Observe);
}

#[test]
fn other_returns_end_with_true() {
    let w = FutexWait::new(1, None, true);
    assert_eq!(w.step(WaitEvent::Returned(Ok(0))), WaitAction::Finish(true));
    assert_eq!(w.step(WaitEvent::Returned(Err(11))), WaitAction::Finish(true));
    assert_eq!(w.step(WaitEvent::Returned(Err(22))), WaitAction::Finish(true));
}

#[test]
fn a_full_wait_run() {
    let w = FutexWait::new(5, None, true);
    let mut action = w.step(WaitEvent::Observed(5));
    assert!(matches!(action, WaitAction::Sleep(_)));
    action = w.step(WaitEvent::Returned(Err(4)));
    assert_eq!(action, WaitAction::Observe);
    action = w.step(WaitEvent::Observed(6));
    assert_eq!(action, WaitAction::Finish(true));
}
