//! When a watcher fetches: a random initial delay bounded by the stagger, then the
//! interval plus a random jitter bounded by a fraction of it.

use vstd::prelude::*;
use vstd::arithmetic::div_mod::{lemma_div_is_ordered, lemma_fundamental_div_mod};

use crate::duration::{Duration, NANOS_IN_SEC};

verus! {

/// Relies on rand::random: a `u32` drawn from the thread-local generator, of which
/// nothing is known.
#[verifier::external_body]
fn random_draw() -> (r: u32) {
    rand::random::<u32>()
}

/// One more than the largest `u32`: a draw `d` stands for the fraction `d / DRAW_RANGE`.
pub const DRAW_RANGE: u64 = 0x1_0000_0000;

/// Millionths in one.
pub const PPM: u64 = 1_000_000;

/// The part `draw / DRAW_RANGE` of `total`, rounded down.
pub open spec fn fraction_of(total: int, draw: u32) -> int {
    total * draw / (DRAW_RANGE as int)
}

/// The initial delay for a stagger bound and a draw, in nanoseconds.
pub open spec fn initial_delay_nanos(stagger: Duration, draw: u32) -> int {
    fraction_of(stagger.total_nanos(), draw)
}

/// The jitter added to an interval for a draw, in whole seconds: the drawn part of
/// `variation_ppm` millionths of the interval.
pub open spec fn jitter_secs(interval: Duration, variation_ppm: u32, draw: u32) -> int {
    fraction_of(interval.total_nanos(), draw) * variation_ppm / (PPM as int) / (NANOS_IN_SEC as int)
}

proof fn lemma_fraction_bounds(total: int, draw: u32)
    requires
        0 <= total,
    ensures
        0 <= fraction_of(total, draw) <= total,
        total * draw <= total * (DRAW_RANGE as int),
{
    assert(0 <= total * draw <= total * (DRAW_RANGE as int)) by (nonlinear_arith)
        requires
            0 <= total,
            0 <= draw < DRAW_RANGE,
    ;
    lemma_div_is_ordered(total * draw, total * (DRAW_RANGE as int), DRAW_RANGE as int);
    assert(total * (DRAW_RANGE as int) / (DRAW_RANGE as int) == total) by (nonlinear_arith);
    lemma_div_is_ordered(0, total * draw, DRAW_RANGE as int);
}

/// The delay before the first fetch: the drawn part of the stagger bound.
pub fn initial_delay(stagger: &Duration, draw: u32) -> (d: Duration)
    requires
        stagger.wf(),
    ensures
        d.wf(),
        d.total_nanos() == initial_delay_nanos(*stagger, draw),
{
    let total: u128 = stagger.as_nanos();
    proof {
        lemma_fraction_bounds(total as int, draw);
        assert(total * draw <= u128::MAX) by (nonlinear_arith)
            requires
                total <= 0xffff_ffff_ffff_ffff * 1_000_000_000 + 0xffff_ffff,
                draw < 0x1_0000_0000,
        ;
    }
    let part: u128 = total * draw as u128 / DRAW_RANGE as u128;
    proof {
        lemma_fundamental_div_mod(part as int, NANOS_IN_SEC as int);
        lemma_div_is_ordered(part as int, total as int, NANOS_IN_SEC as int);
        assert((total as int) / (NANOS_IN_SEC as int) == stagger.secs) by {
            lemma_fundamental_div_mod(total as int, NANOS_IN_SEC as int);
            vstd::arithmetic::div_mod::lemma_fundamental_div_mod_converse_div(
                total as int, NANOS_IN_SEC as int, stagger.secs as int, stagger.nanos as int);
        }
    }
    Duration::new((part / NANOS_IN_SEC as u128) as u64, (part % NANOS_IN_SEC as u128) as u32)
}

/// The delay between two fetches: the interval plus the drawn jitter, in whole
/// seconds, the seconds saturating at `u64::MAX`.
pub fn next_delay(interval: &Duration, variation_ppm: u32, draw: u32) -> (d: Duration)
    requires
        interval.wf(),
    ensures
        d.nanos == interval.nanos,
        d.secs == if interval.secs + jitter_secs(*interval, variation_ppm, draw) <= u64::MAX {
            interval.secs + jitter_secs(*interval, variation_ppm, draw)
        } else {
            u64::MAX as int
        },
{
    let total: u128 = interval.as_nanos();
    proof {
        lemma_fraction_bounds(total as int, draw);
        assert(total * draw <= u128::MAX) by (nonlinear_arith)
            requires
                total <= 0xffff_ffff_ffff_ffff * 1_000_000_000 + 0xffff_ffff,
                draw < 0x1_0000_0000,
        ;
    }
    let part: u128 = total * draw as u128 / DRAW_RANGE as u128;
    proof {
        assert(part * variation_ppm <= u128::MAX) by (nonlinear_arith)
            requires
                part <= 0xffff_ffff_ffff_ffff * 1_000_000_000 + 0xffff_ffff,
                variation_ppm < 0x1_0000_0000,
        ;
    }
    let jitter: u128 = part * variation_ppm as u128 / PPM as u128 / NANOS_IN_SEC as u128;
    let secs: u64 = if jitter <= (u64::MAX - interval.secs) as u128 {
        interval.secs + jitter as u64
    } else {
        u64::MAX
    };
    Duration { secs, nanos: interval.nanos }
}

/// Draws the delay before the first fetch: at most the stagger bound.
pub fn draw_initial_delay(stagger: &Duration) -> (d: Duration)
    requires
        stagger.wf(),
    ensures
        d.wf(),
        0 <= d.total_nanos() <= stagger.total_nanos(),
{
    let draw = random_draw();
    let d = initial_delay(stagger, draw);
    proof {
        lemma_fraction_bounds(stagger.total_nanos(), draw);
    }
    d
}

/// Draws the delay between two fetches: at least the interval, and at most the
/// interval plus `variation_ppm` millionths of it (in whole seconds).
pub fn draw_next_delay(interval: &Duration, variation_ppm: u32) -> (d: Duration)
    requires
        interval.wf(),
    ensures
        d.nanos == interval.nanos,
        interval.secs <= d.secs,
        d.secs <= interval.secs + interval.total_nanos() * variation_ppm / (PPM as int) / (NANOS_IN_SEC as int),
{
    let draw = random_draw();
    let d = next_delay(interval, variation_ppm, draw);
    proof {
        let total = interval.total_nanos();
        let part = fraction_of(total, draw);
        lemma_fraction_bounds(total, draw);
        assert(0 <= part * variation_ppm <= total * variation_ppm) by (nonlinear_arith)
            requires
                0 <= part <= total,
                0 <= variation_ppm,
        ;
        lemma_div_is_ordered(part * variation_ppm, total * variation_ppm, PPM as int);
        lemma_div_is_ordered(0, part * variation_ppm, PPM as int);
        lemma_div_is_ordered(part * variation_ppm / (PPM as int), total * variation_ppm / (PPM as int), NANOS_IN_SEC as int);
        lemma_div_is_ordered(0, part * variation_ppm / (PPM as int), NANOS_IN_SEC as int);
    }
    d
}

} // verus!
