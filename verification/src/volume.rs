//! Volume as the user sets it, in percent, and as the playback device takes
//! it, as an amplitude. Hearing is logarithmic: the amplitude is the fourth
//! power of the percentage, which makes equal steps sound equal.

use vstd::prelude::*;
use crate::models::Amplitude;

verus! {

/// `x` to the fourth power.
pub open spec fn fourth_power(x: int) -> int {
    x * x * x * x
}

/// Whether `percent` is the whole number nearest to the fourth root of
/// `units`: `percent - 1/2 <= root < percent + 1/2`, written without
/// fractions.
pub open spec fn is_nearest_fourth_root(units: int, percent: int) -> bool {
    &&& percent >= 0
    &&& percent == 0 || fourth_power(2 * percent - 1) <= 16 * units
    &&& 16 * units < fourth_power(2 * percent + 1)
}

/// The amplitude of a volume in percent: the fourth power of the
/// percentage, in hundred-millionths, so that 100 percent is full volume.
pub fn volume_percent_to_amplitude(percent: u8) -> (amplitude: Amplitude)
    ensures
        amplitude.units == fourth_power(percent as int),
{
    let p: u32 = percent as u32;
    assert(p * p <= 65025) by (nonlinear_arith)
        requires
            p <= 255,
    ;
    let square: u32 = p * p;
    assert(square * square <= 4228250625) by (nonlinear_arith)
        requires
            square <= 65025,
    ;
    assert(square * square == fourth_power(p as int)) by (nonlinear_arith)
        requires
            square == p * p,
    ;
    Amplitude { units: square * square }
}

/// Sixteen times the least amplitude that rounds to more than `percent`:
/// the fourth power of `percent` and a half, times sixteen.
pub open spec fn upper_edge(percent: int) -> int {
    fourth_power(2 * percent + 1)
}

/// The least percentage from `from` on whose upper half step lies beyond
/// the fourth root of `units`, and 255 where there is none below that.
pub open spec fn percent_from(units: int, from: int) -> int
    decreases 255 - from,
{
    if from >= 255 || 16 * units < fourth_power(2 * from + 1) {
        from
    } else {
        percent_from(units, from + 1)
    }
}

/// The volume in percent that stands for an amplitude of `units`
/// hundred-millionths: the whole number nearest to the fourth root of
/// `units`, and 255 where the root is beyond that.
pub open spec fn amplitude_percent(units: int) -> int {
    percent_from(units, 0)
}

/// The volume in percent of an amplitude.
pub fn amplitude_to_volume(amplitude: Amplitude) -> (percent: u8)
    ensures
        percent == amplitude_percent(amplitude.units as int),
        is_nearest_fourth_root(amplitude.units as int, percent as int) || (percent == 255 && 16
            * amplitude.units >= fourth_power(511)),
{
    let target: u64 = 16 * (amplitude.units as u64);
    let mut percent: u8 = 0;
    while percent < 255
        invariant
            target == 16 * amplitude.units,
            percent == 0 || fourth_power(2 * percent - 1) <= target,
            amplitude_percent(amplitude.units as int) == percent_from(
                amplitude.units as int,
                percent as int,
            ),
        decreases 255 - percent,
    {
        let odd: u64 = 2 * (percent as u64) + 1;
        assert(odd * odd <= 261121) by (nonlinear_arith)
            requires
                odd <= 511,
        ;
        let square: u64 = odd * odd;
        assert(square * square <= 68184176641) by (nonlinear_arith)
            requires
                square <= 261121,
        ;
        assert(square * square == fourth_power(odd as int)) by (nonlinear_arith)
            requires
                square == odd * odd,
        ;
        if square * square > target {
            return percent;
        }
        percent += 1;
    }
    percent
}

/// The fourth power grows with its argument.
pub proof fn lemma_fourth_power_grows(a: int, b: int)
    requires
        0 <= a < b,
    ensures
        fourth_power(a) < fourth_power(b),
{
    assert(a * a < b * b) by (nonlinear_arith)
        requires
            0 <= a < b,
    ;
    assert((a * a) * (a * a) < (b * b) * (b * b)) by (nonlinear_arith)
        requires
            0 <= a * a < b * b,
    ;
    assert(fourth_power(a) == (a * a) * (a * a)) by (nonlinear_arith);
    assert(fourth_power(b) == (b * b) * (b * b)) by (nonlinear_arith);
}

/// An amplitude has one nearest whole fourth root.
pub proof fn lemma_nearest_fourth_root_unique(units: int, a: int, b: int)
    requires
        is_nearest_fourth_root(units, a),
        is_nearest_fourth_root(units, b),
    ensures
        a == b,
{
    if a < b {
        if 2 * a + 1 < 2 * b - 1 {
            lemma_fourth_power_grows(2 * a + 1, 2 * b - 1);
        }
    } else if b < a {
        if 2 * b + 1 < 2 * a - 1 {
            lemma_fourth_power_grows(2 * b + 1, 2 * a - 1);
        }
    }
}

/// Turning a percentage into an amplitude and back gives the percentage.
pub proof fn lemma_percent_round_trip(percent: u8)
    ensures
        is_nearest_fourth_root(fourth_power(percent as int), percent as int),
        amplitude_percent(fourth_power(percent as int)) == percent,
{
    lemma_percent_is_nearest(percent);
    lemma_percent_from_reaches(fourth_power(percent as int), 0, percent as int);
}

/// Counting up from `from` stops at `percent` where `percent` is the first
/// to reach beyond the root.
proof fn lemma_percent_from_reaches(units: int, from: int, percent: int)
    requires
        0 <= from <= percent <= 255,
        percent == 255 || 16 * units < fourth_power(2 * percent + 1),
        forall|p: int| from <= p < percent ==> #[trigger] upper_edge(p) <= 16 * units,
    ensures
        percent_from(units, from) == percent,
    decreases percent - from,
{
    if from < percent {
        assert(upper_edge(from) <= 16 * units);
        lemma_percent_from_reaches(units, from + 1, percent);
    }
}

/// A percentage is the nearest whole fourth root of its own amplitude, and
/// every smaller percentage falls short of it.
proof fn lemma_percent_is_nearest(percent: u8)
    ensures
        is_nearest_fourth_root(fourth_power(percent as int), percent as int),
        forall|p: int|
            0 <= p < percent ==> #[trigger] upper_edge(p) <= 16 * fourth_power(percent as int),
{
    let p = percent as int;
    assert(16 * fourth_power(p) == fourth_power(2 * p)) by (nonlinear_arith);
    lemma_fourth_power_grows(2 * p, 2 * p + 1);
    if p > 0 {
        lemma_fourth_power_grows(2 * p - 1, 2 * p);
    }
    assert forall|q: int| 0 <= q < percent implies #[trigger] upper_edge(q) <= 16 * fourth_power(
        percent as int,
    ) by {
        lemma_fourth_power_grows(2 * q + 1, 2 * p);
    }
}

} // verus!
