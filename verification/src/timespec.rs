//! Absolute points in time on a kernel clock, as seconds and nanoseconds.

use core::time::Duration;
use vstd::prelude::*;

verus! {

/// Nanoseconds in one second.
pub const NSEC_PER_SEC: u64 = 1_000_000_000;

/// A point in time: whole seconds since the clock's epoch and the nanoseconds
/// past that second. The nanosecond part is always below one second.
#[derive(Copy, Clone, PartialEq, Eq, Structural, PartialOrd, Ord, Hash, Debug)]
pub struct Timespec {
    tv_sec: i64,
    tv_nsec: u32,
}

/// A point in time laid out as the kernel's `timespec`, ready to be handed
/// to a system call.
#[derive(Copy, Clone, PartialEq, Eq, Structural, Debug)]
pub struct KernelTimespec {
    pub tv_sec: nc::time_t,
    pub tv_nsec: isize,
}

impl Timespec {
    #[verifier::type_invariant]
    spec fn normalized(self) -> bool {
        self.tv_nsec < NSEC_PER_SEC
    }

    /// Whole seconds of this point in time.
    pub closed spec fn sec(self) -> int {
        self.tv_sec as int
    }

    /// Nanoseconds past the whole second.
    pub closed spec fn nsec(self) -> int {
        self.tv_nsec as int
    }

    /// The point in time counted in nanoseconds since the clock's epoch.
    pub open spec fn total_nanos(self) -> int {
        self.sec() * NSEC_PER_SEC + self.nsec()
    }

    fn new_unchecked(tv_sec: i64, tv_nsec: u32) -> (t: Timespec)
        requires
            tv_nsec < NSEC_PER_SEC,
        ensures
            t.sec() == tv_sec,
            t.nsec() == tv_nsec,
    {
        Timespec { tv_sec, tv_nsec }
    }

    /// Builds a timestamp from seconds and nanoseconds; the nanoseconds must
    /// lie in `0..1_000_000_000`.
    pub fn new(tv_sec: i64, tv_nsec: i64) -> (t: Timespec)
        requires
            0 <= tv_nsec < NSEC_PER_SEC,
        ensures
            t.sec() == tv_sec,
            t.nsec() == tv_nsec,
    {
        Self::new_unchecked(tv_sec, tv_nsec as u32)
    }

    /// Whole seconds of this point in time.
    pub fn seconds(&self) -> (s: i64)
        ensures
            s == self.sec(),
    {
        self.tv_sec
    }

    /// Nanoseconds past the whole second, always below one second.
    pub fn nanoseconds(&self) -> (n: u32)
        ensures
            n == self.nsec(),
            n < NSEC_PER_SEC,
    {
        proof {
            use_type_invariant(self);
        }
        self.tv_nsec
    }

    /// Adds `secs` seconds and `nanos` nanoseconds (below one second) to
    /// this point in time. Returns `None` when the seconds of the sum do not
    /// fit in an `i64`.
    pub fn checked_add_parts(&self, secs: u64, nanos: u32) -> (r: Option<Timespec>)
        requires
            nanos < NSEC_PER_SEC,
        ensures
            r is Some <==> sum_fits(*self, secs as int, nanos as int),
            r matches Some(u) ==> {
                &&& u.sec() == sum_sec(*self, secs as int, nanos as int)
                &&& u.nsec() == sum_nsec(*self, nanos as int)
                &&& u.total_nanos() == self.total_nanos() + secs * NSEC_PER_SEC + nanos
                &&& 0 <= u.nsec() < NSEC_PER_SEC
            },
            // Only a sum whose seconds overflow `i64` is refused.
            self.sec() + secs + (if self.nsec() + nanos >= NSEC_PER_SEC { 1int } else { 0int })
                <= i64::MAX ==> r is Some,
            self.sec() + secs + (if self.nsec() + nanos >= NSEC_PER_SEC { 1int } else { 0int })
                > i64::MAX ==> r is None,
            // The sum, field by field, with a carry when the nanoseconds reach a second.
            r matches Some(u) ==> {
                &&& self.nsec() + nanos < NSEC_PER_SEC ==> u.sec() == self.sec() + secs && u.nsec()
                    == self.nsec() + nanos
                &&& self.nsec() + nanos >= NSEC_PER_SEC ==> u.sec() == self.sec() + secs + 1
                    && u.nsec() == self.nsec() + nanos - NSEC_PER_SEC
            },
    {
        proof {
            use_type_invariant(self);
        }
        let mut sec = match self.tv_sec.checked_add_unsigned(secs) {
            Some(s) => s,
            None => return None,
        };
        // Both parts are below one second, so their sum fits in a `u32`.
        let mut nsec = nanos + self.tv_nsec;
        if nsec >= NSEC_PER_SEC as u32 {
            nsec = nsec - NSEC_PER_SEC as u32;
            sec = match sec.checked_add(1) {
                Some(s) => s,
                None => return None,
            };
        }
        Some(Self::new_unchecked(sec, nsec))
    }

    /// The same point in time in the kernel's `timespec` layout. Returns
    /// `None` when the seconds do not fit in the kernel's `time_t`.
    pub fn to_timespec(&self) -> (r: Option<KernelTimespec>)
        ensures
            r == kernel_layout(*self),
            r is Some <==> isize::MIN <= self.sec() <= isize::MAX,
            r matches Some(k) ==> {
                &&& k.tv_sec == self.sec()
                &&& k.tv_nsec == self.nsec()
                &&& 0 <= k.tv_nsec < NSEC_PER_SEC
            },
    {
        proof {
            use_type_invariant(self);
        }
        let tv_sec: nc::time_t = match self.tv_sec.try_into() {
            Ok(s) => s,
            Err(_) => return None,
        };
        let tv_nsec: isize = match self.tv_nsec.try_into() {
            Ok(n) => n,
            Err(_) => return None,
        };
        Some(KernelTimespec { tv_sec, tv_nsec })
    }

    /// Adds a duration to this point in time. Returns `None` when the seconds
    /// of the sum do not fit in an `i64`.
    pub fn checked_add_duration(&self, other: &Duration) -> (r: Option<Timespec>)
        ensures
            r == add_duration(*self, *other),
            r is Some <==> sum_fits(
                *self,
                duration_secs(*other) as int,
                duration_subsec_nanos_spec(*other) as int,
            ),
            r matches Some(u) ==> {
                &&& u.total_nanos() == self.total_nanos() + duration_nanos(*other)
                &&& 0 <= u.nsec() < NSEC_PER_SEC
            },
            // Only a sum whose seconds overflow `i64` is refused.
            self.sec() + duration_secs(*other) + (if self.nsec() + duration_subsec_nanos_spec(*other)
                >= NSEC_PER_SEC { 1int } else { 0int }) <= i64::MAX ==> r is Some,
            self.sec() + duration_secs(*other) + (if self.nsec() + duration_subsec_nanos_spec(*other)
                >= NSEC_PER_SEC { 1int } else { 0int }) > i64::MAX ==> r is None,
            // The sum, field by field, with a carry when the nanoseconds reach a second.
            r matches Some(u) ==> {
                &&& self.nsec() + duration_subsec_nanos_spec(*other) < NSEC_PER_SEC ==> u.sec()
                    == self.sec() + duration_secs(*other) && u.nsec() == self.nsec()
                    + duration_subsec_nanos_spec(*other)
                &&& self.nsec() + duration_subsec_nanos_spec(*other) >= NSEC_PER_SEC ==> u.sec()
                    == self.sec() + duration_secs(*other) + 1 && u.nsec() == self.nsec()
                    + duration_subsec_nanos_spec(*other) - NSEC_PER_SEC
            },
    {
        let secs = duration_as_secs(other);
        let nanos = duration_subsec_nanos(other);
        self.checked_add_parts(secs, nanos)
    }
}

/// `t` in the kernel's layout, when its seconds fit in the kernel's `time_t`.
pub open spec fn kernel_layout(t: Timespec) -> Option<KernelTimespec> {
    if isize::MIN <= t.sec() <= isize::MAX {
        Some(KernelTimespec { tv_sec: t.sec() as isize, tv_nsec: t.nsec() as isize })
    } else {
        None
    }
}

/// One when the nanosecond parts of `t` and `nanos` sum to a full second.
pub open spec fn nsec_carry(t: Timespec, nanos: int) -> int {
    if t.nsec() + nanos >= NSEC_PER_SEC {
        1
    } else {
        0
    }
}

/// Seconds of `t` plus `secs` seconds and `nanos` nanoseconds.
pub open spec fn sum_sec(t: Timespec, secs: int, nanos: int) -> int {
    t.sec() + secs + nsec_carry(t, nanos)
}

/// Nanoseconds past the second of `t` plus `nanos` nanoseconds.
pub open spec fn sum_nsec(t: Timespec, nanos: int) -> int {
    t.nsec() + nanos - nsec_carry(t, nanos) * NSEC_PER_SEC
}

/// Whether the seconds of the sum fit in an `i64`.
pub open spec fn sum_fits(t: Timespec, secs: int, nanos: int) -> bool {
    sum_sec(t, secs, nanos) <= i64::MAX
}

/// What `Timespec::checked_add_parts` returns on valid parts.
pub open spec fn add_parts(t: Timespec, secs: int, nanos: int) -> Option<Timespec> {
    if sum_fits(t, secs, nanos) {
        Some(choose|u: Timespec| u.sec() == sum_sec(t, secs, nanos) && u.nsec() == sum_nsec(t, nanos))
    } else {
        None
    }
}

/// What `Timespec::checked_add_duration` returns.
pub open spec fn add_duration(t: Timespec, d: Duration) -> Option<Timespec> {
    add_parts(t, duration_secs(d) as int, duration_subsec_nanos_spec(d) as int)
}

/// The length of a duration in nanoseconds.
pub open spec fn duration_nanos(d: Duration) -> int {
    duration_secs(d) * NSEC_PER_SEC + duration_subsec_nanos_spec(d)
}

/// The whole seconds of a duration, as `Duration::as_secs` gives them.
pub uninterp spec fn duration_secs(d: Duration) -> u64;

/// The nanoseconds past the whole seconds of a duration, as
/// `Duration::subsec_nanos` gives them.
pub uninterp spec fn duration_subsec_nanos_spec(d: Duration) -> u32;

/// Calls `Duration::as_secs`: the number of whole seconds in the duration.
#[verifier::external_body]
fn duration_as_secs(d: &Duration) -> (secs: u64)
    ensures
        secs == duration_secs(*d),
{
    d.as_secs()
}

/// Calls `Duration::subsec_nanos`: the fractional part of the duration in
/// nanoseconds, which std documents as always below one billion.
#[verifier::external_body]
fn duration_subsec_nanos(d: &Duration) -> (nanos: u32)
    ensures
        nanos == duration_subsec_nanos_spec(*d),
        nanos < NSEC_PER_SEC,
{
    d.subsec_nanos()
}

/// A valid point in time: its nanoseconds lie below one second.
pub open spec fn valid(t: Timespec) -> bool {
    0 <= t.nsec() < NSEC_PER_SEC
}

/// A valid duration: its nanoseconds past the whole seconds lie below one
/// second, as std documents for every `Duration`.
pub open spec fn valid_duration(d: Duration) -> bool {
    duration_subsec_nanos_spec(d) < NSEC_PER_SEC
}

/// Adding a duration never moves a point in time backwards, and moves it
/// forwards unless the duration is zero.
pub proof fn lemma_add_duration_moves_forward(t: Timespec, d: Duration)
    requires
        valid(t),
        valid_duration(d),
        add_duration(t, d) is Some,
    ensures
        add_duration(t, d).unwrap().total_nanos() >= t.total_nanos(),
        add_duration(t, d).unwrap().total_nanos() == t.total_nanos() <==> duration_nanos(d) == 0,
{
    lemma_add_parts_total(t, duration_secs(d) as int, duration_subsec_nanos_spec(d) as int);
}

/// The sum of valid parts is the exact sum in nanoseconds, and it is valid.
pub proof fn lemma_add_parts_total(t: Timespec, secs: int, nanos: int)
    requires
        valid(t),
        0 <= secs,
        0 <= nanos < NSEC_PER_SEC,
        t.sec() + secs + (if t.nsec() + nanos >= NSEC_PER_SEC { 1int } else { 0int }) <= i64::MAX,
    ensures
        add_parts(t, secs, nanos) is Some,
        add_parts(t, secs, nanos).unwrap().total_nanos() == t.total_nanos() + secs * NSEC_PER_SEC
            + nanos,
        valid(add_parts(t, secs, nanos).unwrap()),
{
    let w = Timespec {
        tv_sec: sum_sec(t, secs, nanos) as i64,
        tv_nsec: sum_nsec(t, nanos) as u32,
    };
    assert(w.sec() == sum_sec(t, secs, nanos) && w.nsec() == sum_nsec(t, nanos));
}

/// Adding a valid duration to a valid point in time is refused only when the
/// seconds of the sum overflow `i64`; otherwise the sum is the field-wise sum
/// with a carry into the seconds, and its nanoseconds stay below one second.
pub proof fn lemma_add_duration_refuses_only_overflow(t: Timespec, d: Duration)
    requires
        valid(t),
        valid_duration(d),
    ensures
        add_duration(t, d) is Some <==> t.sec() + duration_secs(d) + (if t.nsec()
            + duration_subsec_nanos_spec(d) >= NSEC_PER_SEC { 1int } else { 0int }) <= i64::MAX,
        add_duration(t, d) matches Some(u) ==> {
            &&& 0 <= u.nsec() < NSEC_PER_SEC
            &&& t.nsec() + duration_subsec_nanos_spec(d) < NSEC_PER_SEC ==> u.sec() == t.sec()
                + duration_secs(d) && u.nsec() == t.nsec() + duration_subsec_nanos_spec(d)
            &&& t.nsec() + duration_subsec_nanos_spec(d) >= NSEC_PER_SEC ==> u.sec() == t.sec()
                + duration_secs(d) + 1 && u.nsec() == t.nsec() + duration_subsec_nanos_spec(d)
                - NSEC_PER_SEC
            &&& u.total_nanos() == t.total_nanos() + duration_nanos(d)
        },
{
    let secs = duration_secs(d) as int;
    let nanos = duration_subsec_nanos_spec(d) as int;
    if t.sec() + secs + (if t.nsec() + nanos >= NSEC_PER_SEC { 1int } else { 0int }) <= i64::MAX {
        lemma_add_parts_total(t, secs, nanos);
        let w = Timespec { tv_sec: sum_sec(t, secs, nanos) as i64, tv_nsec: sum_nsec(t, nanos) as u32 };
        assert(w.sec() == sum_sec(t, secs, nanos) && w.nsec() == sum_nsec(t, nanos));
    }
}

/// The kernel layout of a valid point in time copies its fields unchanged,
/// so it is normalised; it is missing only when the seconds do not fit the
/// kernel's `time_t`.
pub proof fn lemma_kernel_layout_copies_fields(t: Timespec)
    requires
        valid(t),
    ensures
        kernel_layout(t) is Some <==> isize::MIN <= t.sec() <= isize::MAX,
        kernel_layout(t) matches Some(k) ==> {
            &&& k.tv_sec == t.sec()
            &&& k.tv_nsec == t.nsec()
            &&& 0 <= k.tv_nsec < NSEC_PER_SEC
        },
{
}

/// Adding nothing gives back the same point in time.
pub proof fn lemma_add_zero(t: Timespec)
    requires
        valid(t),
    ensures
        add_parts(t, 0, 0) == Some(t),
{
    assert(t.sec() == sum_sec(t, 0, 0) && t.nsec() == sum_nsec(t, 0));
}

/// On valid timestamps, comparing the fields in order (seconds first, then
/// nanoseconds), as the derived ordering does, compares the points in time.
pub proof fn lemma_field_order_is_time_order(a: Timespec, b: Timespec)
    requires
        valid(a),
        valid(b),
    ensures
        (a.sec() < b.sec() || (a.sec() == b.sec() && a.nsec() < b.nsec())) <==> a.total_nanos()
            < b.total_nanos(),
        (a.sec() == b.sec() && a.nsec() == b.nsec()) <==> a.total_nanos() == b.total_nanos(),
{
}

/// The kernel layout keeps the point in time, and on a 64-bit target every
/// timestamp has one.
pub proof fn lemma_kernel_layout_keeps_time(t: Timespec)
    requires
        valid(t),
    ensures
        kernel_layout(t) matches Some(k) ==> k.tv_sec * NSEC_PER_SEC + k.tv_nsec == t.total_nanos(),
        usize::BITS == 64 ==> kernel_layout(t) is Some,
{
}

} // verus!
