//! Instants on the UTC time line as plain values, and the whole-second and
//! whole-day differences between them.

use vstd::prelude::*;

verus! {

pub const NANOS_PER_SECOND: i128 = 1_000_000_000;

pub const SECONDS_PER_DAY: i128 = 86_400;

/// An instant: whole seconds since the Unix epoch and the nanoseconds past
/// that second.
#[derive(Debug, Clone, Copy, PartialEq, Eq, Structural)]
pub struct Moment {
    pub secs: i64,
    pub nanos: u32,
}

/// The earliest and latest whole seconds a UTC date-time can name
/// (years -262144 to 262143).
pub const MIN_MOMENT_SECS: i64 = -8_334_632_851_200;

pub const MAX_MOMENT_SECS: i64 = 8_210_298_412_799;

/// The nanoseconds stay below one second, and the instant lies in the range
/// of representable dates.
pub open spec fn moment_wf(m: Moment) -> bool {
    &&& m.nanos < 1_000_000_000
    &&& MIN_MOMENT_SECS <= m.secs <= MAX_MOMENT_SECS
}

/// The instant in nanoseconds since the epoch.
pub open spec fn moment_nanos(m: Moment) -> int {
    m.secs * 1_000_000_000 + m.nanos
}

/// `a / b` rounded toward zero, as Rust's integer division rounds.
pub open spec fn div_toward_zero(a: int, b: int) -> int {
    if a >= 0 {
        a / b
    } else {
        -((-a) / b)
    }
}

/// The whole seconds from `earlier` to `later`, rounded toward zero (what
/// `signed_duration_since(..).num_seconds()` gives).
pub open spec fn seconds_between(later: Moment, earlier: Moment) -> int {
    div_toward_zero(moment_nanos(later) - moment_nanos(earlier), 1_000_000_000)
}

/// The whole days from `earlier` to `later`, rounded toward zero (what
/// `signed_duration_since(..).num_days()` gives).
pub open spec fn days_between(later: Moment, earlier: Moment) -> int {
    div_toward_zero(seconds_between(later, earlier), 86_400)
}

impl Moment {
    /// The instant `secs` seconds and `nanos` nanoseconds after the epoch,
    /// when that is a representable instant.
    pub fn new(secs: i64, nanos: u32) -> (r: Option<Moment>)
        ensures
            match r {
                Some(m) => m.secs == secs && m.nanos == nanos && moment_wf(m),
                None => !moment_wf(Moment { secs, nanos }),
            },
    {
        if nanos < 1_000_000_000 && MIN_MOMENT_SECS <= secs && secs <= MAX_MOMENT_SECS {
            Some(Moment { secs, nanos })
        } else {
            None
        }
    }
}

/// The instant `hours` hours after `m` (before it, for negative hours), as
/// adding `Duration::hours(hours)` gives it; the result must be a
/// representable instant.
pub fn plus_hours(m: Moment, hours: i64) -> (r: Moment)
    requires
        moment_wf(m),
        MIN_MOMENT_SECS <= m.secs + hours * 3600 <= MAX_MOMENT_SECS,
    ensures
        r == (Moment { secs: (m.secs + hours * 3600) as i64, nanos: m.nanos }),
        moment_wf(r),
{
    Moment { secs: m.secs + hours * 3600, nanos: m.nanos }
}

fn div_zero(a: i128, b: i128) -> (r: i128)
    requires
        b > 0,
        a > i128::MIN,
    ensures
        r == div_toward_zero(a as int, b as int),
{
    if a >= 0 {
        a / b
    } else {
        -((-a) / b)
    }
}

/// The whole seconds from `earlier` to `later`, rounded toward zero.
pub fn seconds_since(later: Moment, earlier: Moment) -> (r: i64)
    requires
        moment_wf(later),
        moment_wf(earlier),
    ensures
        r == seconds_between(later, earlier),
{
    let total: i128 = (later.secs as i128 - earlier.secs as i128) * NANOS_PER_SECOND + (later.nanos as i128
        - earlier.nanos as i128);
    let r = div_zero(total, NANOS_PER_SECOND);
    proof {
        assert(total == moment_nanos(later) - moment_nanos(earlier));
        assert(-17_000_000_000_000 <= r <= 17_000_000_000_000) by (nonlinear_arith)
            requires
                r == div_toward_zero(total as int, 1_000_000_000),
                -17_000_000_000_000 * 1_000_000_000 <= total <= 17_000_000_000_000 * 1_000_000_000,
        ;
    }
    r as i64
}

/// The whole days from `earlier` to `later`, rounded toward zero.
pub fn days_since(later: Moment, earlier: Moment) -> (r: i64)
    requires
        moment_wf(later),
        moment_wf(earlier),
    ensures
        r == days_between(later, earlier),
{
    let secs = seconds_since(later, earlier);
    div_zero(secs as i128, SECONDS_PER_DAY) as i64
}

} // verus!
