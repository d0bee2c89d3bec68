use vstd::prelude::*;
use crate::rational::Rational;

verus! {

/// Containers report a whole source's duration in fixed microsecond
/// units rather than the stream's own time base.
pub const DURATION_UNITS_PER_SECOND: i64 = 1_000_000;

/// Elapsed whole seconds of stream time at timestamp `pts` under time
/// base `tb`. A timestamp before the start displays as zero.
pub open spec fn elapsed_seconds_spec(pts: int, tb: Rational) -> int
    recommends
        tb.is_positive(),
{
    if pts <= 0 {
        0
    } else {
        pts * tb.num / (tb.den as int)
    }
}

/// Elapsed stream seconds at `pts`, clamped into the result type's
/// range. Used only for the progress display, never for pacing.
pub fn elapsed_seconds(pts: i64, tb: Rational) -> (r: i64)
    requires
        tb.is_positive(),
    ensures
        elapsed_seconds_spec(pts as int, tb) <= i64::MAX ==> r == elapsed_seconds_spec(
            pts as int,
            tb,
        ),
        elapsed_seconds_spec(pts as int, tb) > i64::MAX ==> r == i64::MAX,
        r >= 0,
{
    if pts <= 0 {
        return 0;
    }
    let a: u128 = pts as u128;
    let b: u128 = tb.num as u128;
    proof {
        assert((a as int) * (b as int) < 0x1000000000000000000000000) by (nonlinear_arith)
            requires
                (a as int) < 0x10000000000000000,
                (b as int) < 0x100000000,
                a >= 0,
                b >= 0,
        ;
    }
    let prod: u128 = a * b;
    let q: u128 = prod / (tb.den as u128);
    if q > i64::MAX as u128 {
        i64::MAX
    } else {
        q as i64
    }
}

/// Whole seconds of a duration reported in fixed microsecond units;
/// an absent or negative duration counts as zero seconds.
pub open spec fn duration_seconds_spec(duration: int) -> int {
    if duration <= 0 {
        0
    } else {
        duration / (DURATION_UNITS_PER_SECOND as int)
    }
}

pub fn duration_seconds(duration: i64) -> (r: i64)
    ensures
        r == duration_seconds_spec(duration as int),
        r >= 0,
{
    if duration <= 0 {
        return 0;
    }
    let q: u64 = (duration as u64) / 1_000_000;
    q as i64
}

/// Playback progress as a whole percentage, clamped to 0..=100. A
/// source of unknown (zero or negative) duration has no defined
/// progress: the computation must not fault, it reports "unknown".
pub open spec fn progress_percent_spec(elapsed: int, duration_s: int) -> Option<int> {
    if duration_s <= 0 {
        None
    } else {
        let e: int = if elapsed <= 0 {
            0
        } else {
            elapsed
        };
        let p: int = 100 * e / duration_s;
        Some(
            if p > 100 {
                100
            } else {
                p
            },
        )
    }
}

pub fn progress_percent(elapsed: i64, duration_s: i64) -> (r: Option<u32>)
    ensures
        r is None <==> progress_percent_spec(elapsed as int, duration_s as int) is None,
        r matches Some(p) ==> progress_percent_spec(elapsed as int, duration_s as int) == Some(
            p as int,
        ) && p <= 100,
{
    if duration_s <= 0 {
        return None;
    }
    if elapsed <= 0 {
        return Some(0);
    }
    let num: u128 = 100 * (elapsed as u128);
    let p: u128 = num / (duration_s as u128);
    if p > 100 {
        Some(100)
    } else {
        Some(p as u32)
    }
}

/// The ASCII decimal digits of `n`, most significant first.
pub open spec fn dec_digits(n: nat) -> Seq<u8>
    decreases n,
{
    if n < 10 {
        seq![(48 + n) as u8]
    } else {
        dec_digits(n / 10).push((48 + n % 10) as u8)
    }
}

/// The digits of `n` padded with a leading zero to at least two, the
/// way clock displays write hours, minutes and seconds.
pub open spec fn dec_digits_pad2(n: nat) -> Seq<u8> {
    if n < 10 {
        seq![48u8, (48 + n) as u8]
    } else {
        dec_digits(n)
    }
}

/// The `HH:MM:SS` display of a duration of `total` whole seconds,
/// each field two digits or more, as ASCII bytes.
pub open spec fn duration_display_bytes(total: nat) -> Seq<u8> {
    dec_digits_pad2(total / 3600) + seq![58u8] + dec_digits_pad2((total % 3600) / 60) + seq![58u8]
        + dec_digits_pad2(total % 60)
}

/// Every byte of a decimal rendering is an ASCII digit.
pub proof fn lemma_dec_digits_ascii(n: nat)
    ensures
        forall|i: int| 0 <= i < dec_digits(n).len() ==> 48 <= #[trigger] dec_digits(n)[i] <= 57,
    decreases n,
{
    if n >= 10 {
        lemma_dec_digits_ascii(n / 10);
        assert forall|i: int| 0 <= i < dec_digits(n).len() implies 48 <= #[trigger] dec_digits(
            n,
        )[i] <= 57 by {
            if i < dec_digits(n / 10).len() {
                assert(dec_digits(n)[i] == dec_digits(n / 10)[i]);
            } else {
                assert(dec_digits(n)[i] == (48 + n % 10) as u8);
            }
        }
    }
}

fn push_decimal(v: &mut Vec<u8>, n: u64)
    ensures
        final(v)@ == old(v)@ + dec_digits(n as nat),
    decreases n,
{
    if n < 10 {
        v.push(48 + n as u8);
        proof {
            assert(v@ =~= old(v)@ + dec_digits(n as nat));
        }
    } else {
        push_decimal(v, n / 10);
        v.push(48 + (n % 10) as u8);
        proof {
            assert(v@ =~= old(v)@ + dec_digits(n as nat));
        }
    }
}

fn push_pad2(v: &mut Vec<u8>, n: u64)
    ensures
        final(v)@ == old(v)@ + dec_digits_pad2(n as nat),
{
    if n < 10 {
        v.push(48);
        v.push(48 + n as u8);
        proof {
            assert(v@ =~= old(v)@ + dec_digits_pad2(n as nat));
        }
    } else {
        push_decimal(v, n);
    }
}

/// Relies on `String::from_utf8`: bytes below 128 are valid UTF-8 and
/// decode to one character per byte, each with the byte's code point.
#[verifier::external_body]
fn ascii_to_string(bytes: Vec<u8>) -> (r: String)
    requires
        forall|i: int| 0 <= i < bytes@.len() ==> bytes@[i] < 128,
    ensures
        r@.len() == bytes@.len(),
        forall|i: int| 0 <= i < bytes@.len() ==> (#[trigger] r@[i]) as u32 == bytes@[i] as u32,
{
    match String::from_utf8(bytes) {
        Ok(s) => s,
        Err(_) => String::new(),
    }
}

/// The `HH:MM:SS` display of a duration, for the on-screen overlay:
/// each character of the result is the corresponding ASCII digit or
/// colon of the duration's display form.
pub fn format_duration(total_seconds: u64) -> (r: String)
    ensures
        r@.len() == duration_display_bytes(total_seconds as nat).len(),
        forall|i: int|
            0 <= i < r@.len() ==> (#[trigger] r@[i]) as u32 == duration_display_bytes(
                total_seconds as nat,
            )[i] as u32,
{
    let hours = total_seconds / 3600;
    let minutes = (total_seconds % 3600) / 60;
    let seconds = total_seconds % 60;
    let mut out: Vec<u8> = Vec::new();
    push_pad2(&mut out, hours);
    out.push(58);
    push_pad2(&mut out, minutes);
    out.push(58);
    push_pad2(&mut out, seconds);
    proof {
        assert(out@ =~= duration_display_bytes(total_seconds as nat));
        lemma_dec_digits_ascii((total_seconds / 3600) as nat);
        lemma_dec_digits_ascii(((total_seconds % 3600) / 60) as nat);
        lemma_dec_digits_ascii((total_seconds % 60) as nat);
    }
    ascii_to_string(out)
}

} // verus!
