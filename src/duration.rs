//! Spans of time, held as whole seconds and the nanoseconds past them, and their
//! compact human-readable rendering.

use vstd::prelude::*;

use crate::text::{decimal, push_decimal};

verus! {

pub const SECS_IN_MINUTE: u64 = 60;
pub const SECS_IN_HOUR: u64 = 3600;
pub const SECS_IN_DAY: u64 = 86400;
pub const SECS_IN_WEEK: u64 = 604800;
pub const SECS_IN_MONTH: u64 = 2592000;
pub const SECS_IN_YEAR: u64 = 31104000;
pub const NANOS_IN_MICRO: u32 = 1000;
pub const NANOS_IN_MILLI: u32 = 1000000;
pub const NANOS_IN_SEC: u32 = 1000000000;

/// A span of time: `secs` whole seconds plus `nanos` nanoseconds (below one second).
#[derive(Clone, Copy, Debug, PartialEq, Eq, Structural)]
pub struct Duration {
    pub secs: u64,
    pub nanos: u32,
}

impl Duration {
    /// The span as a number of nanoseconds.
    pub open spec fn total_nanos(self) -> int {
        self.secs * NANOS_IN_SEC + self.nanos
    }

    /// Whether the nanosecond part stays below one second.
    pub open spec fn wf(self) -> bool {
        self.nanos < NANOS_IN_SEC
    }

    pub fn new(secs: u64, nanos: u32) -> (d: Duration)
        requires
            nanos < NANOS_IN_SEC,
        ensures
            d.secs == secs,
            d.nanos == nanos,
    {
        Duration { secs, nanos }
    }

    /// The span of `secs` whole seconds.
    pub open spec fn from_secs_spec(secs: u64) -> Duration {
        Duration { secs, nanos: 0 }
    }

    #[verifier::when_used_as_spec(from_secs_spec)]
    pub fn from_secs(secs: u64) -> (d: Duration)
        ensures
            d == Duration::from_secs_spec(secs),
    {
        Duration { secs, nanos: 0 }
    }

    /// The span as a number of nanoseconds.
    pub fn as_nanos(&self) -> (n: u128)
        ensures
            n == self.total_nanos(),
            n <= 0xffff_ffff_ffff_ffff * 1_000_000_000 + 0xffff_ffff,
    {
        proof {
            assert(self.secs * 1_000_000_000 <= 0xffff_ffff_ffff_ffff * 1_000_000_000) by (nonlinear_arith)
                requires
                    self.secs <= 0xffff_ffff_ffff_ffff,
            ;
        }
        self.secs as u128 * NANOS_IN_SEC as u128 + self.nanos as u128
    }

    pub fn as_secs(&self) -> (s: u64)
        ensures
            s == self.secs,
    {
        self.secs
    }

    pub fn subsec_nanos(&self) -> (n: u32)
        ensures
            n == self.nanos,
    {
        self.nanos
    }
}

/// `count` followed by `unit`, or nothing when `count` is zero.
pub open spec fn unit_text(count: nat, unit: Seq<char>) -> Seq<char> {
    if count > 0 {
        decimal(count) + unit
    } else {
        Seq::empty()
    }
}

/// The seconds part of a rendered span: years of twelve thirty-day months, months,
/// weeks, days, hours, minutes and seconds, largest first, zero counts left out.
pub open spec fn secs_text(secs: nat) -> Seq<char> {
    let r_year = secs % (SECS_IN_YEAR as nat);
    let r_month = r_year % (SECS_IN_MONTH as nat);
    let r_week = r_month % (SECS_IN_WEEK as nat);
    let r_day = r_week % (SECS_IN_DAY as nat);
    let r_hour = r_day % (SECS_IN_HOUR as nat);
    unit_text(secs / (SECS_IN_YEAR as nat), "y"@)
        + unit_text(r_year / (SECS_IN_MONTH as nat), "mon"@)
        + unit_text(r_month / (SECS_IN_WEEK as nat), "w"@)
        + unit_text(r_week / (SECS_IN_DAY as nat), "d"@)
        + unit_text(r_day / (SECS_IN_HOUR as nat), "h"@)
        + unit_text(r_hour / (SECS_IN_MINUTE as nat), "m"@)
        + unit_text(r_hour % (SECS_IN_MINUTE as nat), "s"@)
}

/// The sub-second part of a rendered span: milliseconds, microseconds and
/// nanoseconds, zero counts left out.
pub open spec fn nanos_text(nanos: nat) -> Seq<char> {
    let r_milli = nanos % (NANOS_IN_MILLI as nat);
    unit_text(nanos / (NANOS_IN_MILLI as nat), "ms"@)
        + unit_text(r_milli / (NANOS_IN_MICRO as nat), "us"@)
        + unit_text(r_milli % (NANOS_IN_MICRO as nat), "ns"@)
}

/// The rendering of a span, such as `1h30m` or `2d5s250ms`; a zero span renders empty.
pub open spec fn duration_text(d: Duration) -> Seq<char> {
    secs_text(d.secs as nat) + nanos_text(d.nanos as nat)
}

fn push_unit(out: &mut String, count: u64, unit: &str)
    ensures
        final(out)@ == old(out)@ + unit_text(count as nat, unit@),
{
    if count > 0 {
        push_decimal(out, count);
        out.append(unit);
        assert(final(out)@ =~= old(out)@ + unit_text(count as nat, unit@));
    } else {
        assert(old(out)@ + unit_text(count as nat, unit@) =~= old(out)@);
    }
}

/// Renders `value` compactly, largest unit first, leaving out the units whose count is zero.
pub fn format_duration(value: &Duration) -> (s: String)
    ensures
        s@ == duration_text(*value),
{
    let secs = value.as_secs();
    let nanos = value.subsec_nanos() as u64;
    let mut s = String::new();

    push_unit(&mut s, secs / SECS_IN_YEAR, "y");
    let r_year = secs % SECS_IN_YEAR;
    push_unit(&mut s, r_year / SECS_IN_MONTH, "mon");
    let r_month = r_year % SECS_IN_MONTH;
    push_unit(&mut s, r_month / SECS_IN_WEEK, "w");
    let r_week = r_month % SECS_IN_WEEK;
    push_unit(&mut s, r_week / SECS_IN_DAY, "d");
    let r_day = r_week % SECS_IN_DAY;
    push_unit(&mut s, r_day / SECS_IN_HOUR, "h");
    let r_hour = r_day % SECS_IN_HOUR;
    push_unit(&mut s, r_hour / SECS_IN_MINUTE, "m");
    push_unit(&mut s, r_hour % SECS_IN_MINUTE, "s");

    let r_milli = nanos % (NANOS_IN_MILLI as u64);
    push_unit(&mut s, nanos / (NANOS_IN_MILLI as u64), "ms");
    push_unit(&mut s, r_milli / (NANOS_IN_MICRO as u64), "us");
    push_unit(&mut s, r_milli % (NANOS_IN_MICRO as u64), "ns");

    assert(s@ =~= duration_text(*value));
    s
}

} // verus!
