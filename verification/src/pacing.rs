use vstd::prelude::*;
use crate::metadata::StreamMetadata;
use crate::rational::Rational;

verus! {

/// Neither the codec frame rate nor the container's average rate can
/// yield a strictly positive inter-frame delay. The caller must
/// substitute a sane default rather than pace with zero or stall.
#[derive(Clone, Copy, PartialEq, Eq, Structural, Debug)]
pub struct InvalidRateError;

/// Whole milliseconds between frames at rate `r` (frames per second as
/// a fraction): the floor of `1000 * denominator / numerator`.
pub open spec fn delay_ms_of(r: Rational) -> int {
    1000 * r.den / (r.num as int)
}

/// A rate the pacing policy accepts: strictly positive, and no faster
/// than one frame per millisecond, so the derived whole-millisecond
/// delay is itself strictly positive. A zero delay would cause runaway
/// presentation, so such a rate is treated as invalid rather than used.
pub open spec fn usable_rate(r: Rational) -> bool {
    r.is_positive() && r.num <= 1000 * r.den
}

/// Whether an optional codec-reported rate is present and usable.
pub open spec fn usable_opt_rate(r: Option<Rational>) -> bool {
    match r {
        Some(x) => usable_rate(x),
        None => false,
    }
}

/// The delay the pacing policy owes for `m`: derived from the codec
/// frame rate when that is usable, else from the container's average
/// frame rate, else nothing.
pub open spec fn pacing_delay_spec(m: StreamMetadata) -> Option<int> {
    if usable_opt_rate(m.frame_rate) {
        Some(delay_ms_of(m.frame_rate->Some_0))
    } else if usable_rate(m.avg_frame_rate) {
        Some(delay_ms_of(m.avg_frame_rate))
    } else {
        None
    }
}

/// Milliseconds per frame for a rational frame rate, or the error when
/// the rate cannot pace playback.
pub fn rational_fps_to_ms(rate: Rational) -> (r: Result<u64, InvalidRateError>)
    ensures
        usable_rate(rate) ==> r == Ok::<u64, InvalidRateError>(delay_ms_of(rate) as u64),
        !usable_rate(rate) ==> r == Err::<u64, InvalidRateError>(InvalidRateError),
        r matches Ok(d) ==> 1 <= d <= 2_148_000_000_000,
{
    if rate.num <= 0 || rate.den <= 0 {
        return Err(InvalidRateError);
    }
    let num = rate.num as u64;
    let den = rate.den as u64;
    let ms: u64 = (1000 * den) / num;
    if ms == 0 {
        proof {
            assert(1000 * (den as int) < num as int) by (nonlinear_arith)
                requires
                    ms as int == 1000 * (den as int) / (num as int),
                    ms == 0,
                    num > 0,
            ;
        }
        return Err(InvalidRateError);
    }
    proof {
        assert(1000 * (rate.den as int) / (rate.num as int) == 1000 * (den as int) / (num as int));
        assert(num as int <= 1000 * (den as int)) by (nonlinear_arith)
            requires
                ms as int == 1000 * (den as int) / (num as int),
                ms >= 1,
                num > 0,
        ;
        assert(ms as int <= 1000 * (den as int)) by (nonlinear_arith)
            requires
                ms as int == 1000 * (den as int) / (num as int),
                num >= 1,
                den >= 1,
        ;
    }
    Ok(ms)
}

/// Milliseconds per frame for a whole frames-per-second figure, or the
/// error when that figure cannot pace playback.
pub fn fps_to_ms(fps: u64) -> (r: Result<u64, InvalidRateError>)
    ensures
        1 <= fps <= 1000 ==> r == Ok::<u64, InvalidRateError>((1000 as int / fps as int) as u64),
        !(1 <= fps <= 1000) ==> r == Err::<u64, InvalidRateError>(InvalidRateError),
        r matches Ok(d) ==> 1 <= d <= 1000,
{
    if fps == 0 || fps > 1000 {
        return Err(InvalidRateError);
    }
    let d: u64 = 1000 / fps;
    proof {
        assert(1 <= 1000 as int / fps as int <= 1000) by (nonlinear_arith)
            requires
                1 <= fps <= 1000,
        ;
    }
    Ok(d)
}

/// The nominal time between frames, in whole milliseconds, derived
/// from the stream's metadata: the codec frame rate when it is usable,
/// the container's average frame rate as the fallback, and the error
/// when both are absent or unusable. Never returns zero.
pub fn frame_delay_ms(m: &StreamMetadata) -> (r: Result<u64, InvalidRateError>)
    ensures
        pacing_delay_spec(*m) matches Some(d) ==> r == Ok::<u64, InvalidRateError>(d as u64),
        pacing_delay_spec(*m) is None ==> r == Err::<u64, InvalidRateError>(InvalidRateError),
        r matches Ok(d) ==> d >= 1,
{
    match m.frame_rate {
        Some(fr) => {
            match rational_fps_to_ms(fr) {
                Ok(d) => Ok(d),
                Err(_) => rational_fps_to_ms(m.avg_frame_rate),
            }
        },
        None => rational_fps_to_ms(m.avg_frame_rate),
    }
}

/// The part of the pacing delay still owed after a tick spent
/// `spent_ms` on its own work: never negative, zero once the work has
/// already consumed the whole delay.
pub fn remaining_delay_ms(delay_ms: u64, spent_ms: u64) -> (r: u64)
    ensures
        spent_ms >= delay_ms ==> r == 0,
        spent_ms < delay_ms ==> r == delay_ms - spent_ms,
{
    if spent_ms >= delay_ms {
        0
    } else {
        delay_ms - spent_ms
    }
}

} // verus!
