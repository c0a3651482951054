//! The decisions taken around the futex system call: which operation and
//! arguments a wait or a wake hands to the kernel, and how a wait goes on
//! after each observation of the futex word and each return of the call.

use core::time::Duration;
use vstd::prelude::*;
use crate::timespec::{add_duration, kernel_layout, KernelTimespec, Timespec};

verus! {

/// The error number the kernel reports when a wait reached its deadline.
pub open spec fn errno_timed_out() -> i32 {
    110
}

/// The error number the kernel reports when a signal interrupted a wait.
pub open spec fn errno_interrupted() -> i32 {
    4
}

/// The futex operation that waits until an absolute deadline on a bitset.
pub open spec fn op_wait_bitset() -> i32 {
    9
}

/// The futex operation that wakes waiters.
pub open spec fn op_wake() -> i32 {
    1
}

/// The flag that keeps a futex private to the calling process.
pub open spec fn op_private_flag() -> i32 {
    128
}

/// Reads `syscalls::Errno::ETIMEDOUT` as a raw error number.
#[verifier::external_body]
fn timed_out_code() -> (code: i32)
    ensures
        code == errno_timed_out(),
{
    syscalls::Errno::ETIMEDOUT.into_raw()
}

/// Reads `syscalls::Errno::EINTR` as a raw error number.
#[verifier::external_body]
fn interrupted_code() -> (code: i32)
    ensures
        code == errno_interrupted(),
{
    syscalls::Errno::EINTR.into_raw()
}

/// Reads `nc::FUTEX_WAIT_BITSET`.
#[verifier::external_body]
fn wait_bitset_op() -> (op: i32)
    ensures
        op == op_wait_bitset(),
{
    nc::FUTEX_WAIT_BITSET
}

/// Reads `nc::FUTEX_WAKE`.
#[verifier::external_body]
fn wake_op() -> (op: i32)
    ensures
        op == op_wake(),
{
    nc::FUTEX_WAKE
}

/// Reads `nc::FUTEX_PRIVATE_FLAG`.
#[verifier::external_body]
fn private_flag() -> (flag: i32)
    ensures
        flag == op_private_flag(),
{
    nc::FUTEX_PRIVATE_FLAG
}

/// The operation a wait hands to the kernel: waiting on a bitset until an
/// absolute deadline, private to the process unless the futex is shared.
pub open spec fn wait_op_spec(process_private: bool) -> i32 {
    if process_private {
        op_wait_bitset() | op_private_flag()
    } else {
        op_wait_bitset()
    }
}

/// The operation a wake hands to the kernel.
pub open spec fn wake_op_spec(process_private: bool) -> i32 {
    if process_private {
        op_wake() | op_private_flag()
    } else {
        op_wake()
    }
}

/// The futex operation for a wait.
pub fn wait_op(process_private: bool) -> (op: i32)
    ensures
        op == wait_op_spec(process_private),
        process_private ==> op == op_wait_bitset() | op_private_flag(),
        !process_private ==> op == op_wait_bitset(),
{
    let base = wait_bitset_op();
    if process_private {
        let flag = private_flag();
        base | flag
    } else {
        base
    }
}

/// What a wake asks of the kernel: the operation and how many waiters to wake.
#[derive(Copy, Clone, PartialEq, Eq, Structural, Debug)]
pub struct WakeRequest {
    pub op: i32,
    pub count: i32,
}

/// The request for waking one waiter, or every waiter when `wake_all`.
pub fn wake_request(wake_all: bool, process_private: bool) -> (r: WakeRequest)
    ensures
        r.op == wake_op_spec(process_private),
        process_private ==> r.op == op_wake() | op_private_flag(),
        !process_private ==> r.op == op_wake(),
        r.count == (if wake_all { i32::MAX as int } else { 1 }),
{
    let base = wake_op();
    let op = if process_private {
        let flag = private_flag();
        base | flag
    } else {
        base
    };
    let count = if wake_all { i32::MAX } else { 1 };
    WakeRequest { op, count }
}

/// Whether a wake that the kernel reports as having woken `woken` waiters
/// actually woke a thread.
pub fn woke_any(woken: usize) -> (b: bool)
    ensures
        b == (woken > 0),
{
    woken > 0
}

/// The absolute deadline of a wait that may last `timeout` from `now`, in
/// the kernel's layout. A deadline that does not fit is no deadline at all:
/// the wait then has no time limit.
pub fn absolute_deadline(now: &Timespec, timeout: &Duration) -> (r: Option<KernelTimespec>)
    ensures
        r == deadline_spec(*now, *timeout),
        // A deadline is missing only when `now + timeout` overflows the
        // seconds of an `i64` or of the kernel's `time_t`.
        r is Some <==> ({
            let sec = now.sec() + crate::timespec::duration_secs(*timeout) + (if now.nsec()
                + crate::timespec::duration_subsec_nanos_spec(*timeout)
                >= crate::timespec::NSEC_PER_SEC { 1int } else { 0int });
            sec <= i64::MAX && isize::MIN <= sec <= isize::MAX
        }),
        // A deadline is `now + timeout`, normalised: nanoseconds below one second.
        r matches Some(k) ==> {
            &&& 0 <= k.tv_nsec < crate::timespec::NSEC_PER_SEC
            &&& k.tv_sec * crate::timespec::NSEC_PER_SEC + k.tv_nsec == now.total_nanos()
                + crate::timespec::duration_nanos(*timeout)
        },
{
    match now.checked_add_duration(timeout) {
        Some(t) => t.to_timespec(),
        None => None,
    }
}

/// The deadline of a wait of `timeout` that starts at `now`.
pub open spec fn deadline_spec(now: Timespec, timeout: Duration) -> Option<KernelTimespec> {
    match add_duration(now, timeout) {
        Some(t) => kernel_layout(t),
        None => None,
    }
}

/// What the caller of a wait reports back.
#[derive(Copy, Clone, Debug)]
pub enum WaitEvent {
    /// The futex word was read and holds this value.
    Observed(u32),
    /// The wait system call returned: the count it reported, or the raw
    /// error number.
    Returned(Result<usize, i32>),
}

/// The arguments of the wait system call.
#[derive(Copy, Clone, PartialEq, Eq, Structural, Debug)]
pub struct WaitRequest {
    pub op: i32,
    pub expected: u32,
    pub deadline: Option<KernelTimespec>,
    pub bitset: u32,
}

/// What the caller of a wait does next.
#[derive(Copy, Clone, PartialEq, Eq, Structural, Debug)]
pub enum WaitAction {
    /// Read the futex word and report it.
    Observe,
    /// Make the wait system call with these arguments and report its result.
    Sleep(WaitRequest),
    /// The wait is over: `false` when it timed out, `true` otherwise.
    Finish(bool),
}

/// A wait on a futex word: sleeps while the word holds `expected`, until a
/// wake or the deadline. Its caller starts by observing the word, and then
/// follows the actions that `step` returns.
pub struct FutexWait {
    request: WaitRequest,
}

/// The action that follows `event` in a wait that sleeps with `request`.
pub open spec fn wait_transition(request: WaitRequest, event: WaitEvent) -> WaitAction {
    match event {
        WaitEvent::Observed(v) => if v != request.expected {
            WaitAction::Finish(true)
        } else {
            WaitAction::Sleep(request)
        },
        WaitEvent::Returned(r) => match r {
            Err(code) => if code == errno_timed_out() {
                WaitAction::Finish(false)
            } else if code == errno_interrupted() {
                WaitAction::Observe
            } else {
                WaitAction::Finish(true)
            },
            Ok(_) => WaitAction::Finish(true),
        },
    }
}

impl FutexWait {
    /// The system call arguments of this wait.
    pub closed spec fn request_spec(&self) -> WaitRequest {
        self.request
    }

    /// A wait for the word to leave `expected`, with an optional absolute
    /// deadline already in the kernel's layout.
    pub fn new(expected: u32, deadline: Option<KernelTimespec>, process_private: bool) -> (w: FutexWait)
        ensures
            w.request_spec() == (WaitRequest {
                op: wait_op_spec(process_private),
                expected,
                deadline,
                bitset: u32::MAX,
            }),
    {
        let op = wait_op(process_private);
        FutexWait { request: WaitRequest { op, expected, deadline, bitset: u32::MAX } }
    }

    /// The system call arguments of this wait.
    pub fn request(&self) -> (r: WaitRequest)
        ensures
            r == self.request_spec(),
    {
        self.request
    }

    /// The action that follows `event`.
    pub fn step(&self, event: WaitEvent) -> (a: WaitAction)
        ensures
            a == wait_transition(self.request_spec(), event),
            event matches WaitEvent::Observed(v) ==> (if v != self.request_spec().expected {
                a == WaitAction::Finish(true)
            } else {
                a == WaitAction::Sleep(self.request_spec())
            }),
            event matches WaitEvent::Returned(r) ==> (match r {
                Ok(_) => a == WaitAction::Finish(true),
                Err(code) => if code == errno_timed_out() {
                    a == WaitAction::Finish(false)
                } else if code == errno_interrupted() {
                    a == WaitAction::Observe
                } else {
                    a == WaitAction::Finish(true)
                },
            }),
    {
        match event {
            WaitEvent::Observed(v) => if v != self.request.expected {
                WaitAction::Finish(true)
            } else {
                WaitAction::Sleep(self.request)
            },
            WaitEvent::Returned(r) => match r {
                Err(code) => if code == timed_out_code() {
                    WaitAction::Finish(false)
                } else if code == interrupted_code() {
                    WaitAction::Observe
                } else {
                    WaitAction::Finish(true)
                },
                Ok(_) => WaitAction::Finish(true),
            },
        }
    }
}

/// A wait ends with `false` exactly when the wait call reported that the
/// deadline passed (`ETIMEDOUT`, 110); every other end of a wait is `true`.
pub proof fn lemma_false_only_on_timeout(request: WaitRequest, event: WaitEvent)
    ensures
        wait_transition(request, event) == WaitAction::Finish(false) <==> (event matches WaitEvent::Returned(
            Err(code),
        ) && code == 110),
{
}

/// A wait returns `true` at once when the futex word no longer holds the
/// expected value, and otherwise sleeps with its own request.
pub proof fn lemma_changed_value_returns_at_once(request: WaitRequest, value: u32)
    ensures
        value != request.expected ==> wait_transition(request, WaitEvent::Observed(value))
            == WaitAction::Finish(true),
        value == request.expected ==> wait_transition(request, WaitEvent::Observed(value))
            == WaitAction::Sleep(request),
{
}

/// A wait call interrupted by a signal (`EINTR`, 4) never ends the wait: the
/// word is read again.
pub proof fn lemma_interrupt_rechecks(request: WaitRequest)
    ensures
        wait_transition(request, WaitEvent::Returned(Err(4)))
            == WaitAction::Observe,
{
}

/// A wait call that returned normally, or failed with any error other than
/// a timeout or an interruption, ends the wait with `true`.
pub proof fn lemma_other_returns_finish_true(request: WaitRequest, r: Result<usize, i32>)
    ensures
        r is Ok ==> wait_transition(request, WaitEvent::Returned(r)) == WaitAction::Finish(true),
        r matches Err(code) && code != 110 && code != 4 ==> wait_transition(
            request,
            WaitEvent::Returned(r),
        ) == WaitAction::Finish(true),
{
}

/// A sleeping wait always hands the kernel its own arguments.
pub proof fn lemma_sleep_uses_request(request: WaitRequest, event: WaitEvent)
    ensures
        wait_transition(request, event) matches WaitAction::Sleep(r) ==> r == request,
{
}

/// A deadline that overflows is no deadline: the wait has no time limit.
/// A deadline that fits lies exactly `timeout` after `now`.
pub proof fn lemma_deadline(now: Timespec, timeout: Duration)
    requires
        crate::timespec::valid(now),
        crate::timespec::valid_duration(timeout),
    ensures
        add_duration(now, timeout) is None ==> deadline_spec(now, timeout) is None,
        deadline_spec(now, timeout) matches Some(k) ==> k.tv_sec * crate::timespec::NSEC_PER_SEC
            + k.tv_nsec == now.total_nanos() + crate::timespec::duration_nanos(timeout),
        add_duration(now, timeout) is Some && kernel_layout(add_duration(now, timeout).unwrap()) is Some
            ==> deadline_spec(now, timeout) is Some,
        deadline_spec(now, timeout) is Some <==> ({
            let sec = now.sec() + crate::timespec::duration_secs(timeout) + (if now.nsec()
                + crate::timespec::duration_subsec_nanos_spec(timeout)
                >= crate::timespec::NSEC_PER_SEC { 1int } else { 0int });
            sec <= i64::MAX && isize::MIN <= sec <= isize::MAX
        }),
        deadline_spec(now, timeout) matches Some(k) ==> {
            &&& 0 <= k.tv_nsec < crate::timespec::NSEC_PER_SEC
            &&& k.tv_sec == add_duration(now, timeout).unwrap().sec()
            &&& k.tv_nsec == add_duration(now, timeout).unwrap().nsec()
        },
{
    crate::timespec::lemma_add_duration_refuses_only_overflow(now, timeout);
    if add_duration(now, timeout) is Some {
        crate::timespec::lemma_kernel_layout_copies_fields(add_duration(now, timeout).unwrap());
        crate::timespec::lemma_add_duration_moves_forward(now, timeout);
        crate::timespec::lemma_add_parts_total(
            now,
            crate::timespec::duration_secs(timeout) as int,
            crate::timespec::duration_subsec_nanos_spec(timeout) as int,
        );
        crate::timespec::lemma_kernel_layout_keeps_time(add_duration(now, timeout).unwrap());
    }
}

} // verus!
