use playback::metadata::StreamMetadata;
use playback::pacing::{
    fps_to_ms, frame_delay_ms, rational_fps_to_ms, remaining_delay_ms, InvalidRateError,
};
use playback::rational::Rational;

fn meta(frame_rate: Option<(i32, i32)>, avg: (i32, i32)) -> StreamMetadata {
    StreamMetadata {
        time_base: Rational::new(1, 1000),
        frame_rate: frame_rate.map(|(n, d)| Rational::new(n, d)),
        avg_frame_rate: Rational::new(avg.0, avg.1),
        duration: 0,
    }
}

#[test]
fn delay_from_codec_rate_30fps() {
    let m = meta(Some((30, 1)), (25, 1));
    assert_eq!(frame_delay_ms(&m), Ok(33));
}

#[test]
fn delay_falls_back_to_average_rate() {
    let m = meta(Some((0, 1)), (25, 1));
    assert_eq!(frame_delay_ms(&m), Ok(40));
}

#[test]
fn delay_absent_codec_rate_falls_back() {
    let m = meta(None, (50, 1));
    assert_eq!(frame_delay_ms(&m), Ok(20));
}

#[test]
fn delay_fails_when_both_rates_zero() {
    let m = meta(Some((0, 1)), (0, 1));
    assert_eq!(frame_delay_ms(&m), Err(InvalidRateError));
}

#[test]
fn delay_fails_when_absent_and_fallback_zero() {
    let m = meta(None, (0, 1));
    assert_eq!(frame_delay_ms(&m), Err(InvalidRateError));
}

#[test]
fn rational_rate_ntsc() {
    // 30000/1001 frames per second: 1000 * 1001 / 30000 ms, floored.
    assert_eq!(rational_fps_to_ms(Rational::new(30000, 1001)), Ok(33));
}

#[test]
fn rational_rate_24fps() {
    assert_eq!(rational_fps_to_ms(Rational::new(24, 1)), Ok(41));
}

#[test]
fn rational_rate_zero_numerator_is_invalid() {
    assert_eq!(rational_fps_to_ms(Rational::new(0, 1)), Err(InvalidRateError));
}

#[test]
fn rational_rate_zero_denominator_is_invalid() {
    assert_eq!(rational_fps_to_ms(Rational::new(30, 0)), Err(InvalidRateError));
}

#[test]
fn rational_rate_negative_is_invalid() {
    assert_eq!(rational_fps_to_ms(Rational::new(-30, 1)), Err(InvalidRateError));
}

#[test]
fn rational_rate_faster_than_one_per_ms_is_invalid() {
    // 2000 frames per second would floor to a zero delay.
    assert_eq!(rational_fps_to_ms(Rational::new(2000, 1)), Err(InvalidRateError));
}

#[test]
fn whole_fps_figures() {
    assert_eq!(fps_to_ms(25), Ok(40));
    assert_eq!(fps_to_ms(1), Ok(1000));
    assert_eq!(fps_to_ms(1000), Ok(1));
    assert_eq!(fps_to_ms(0), Err(InvalidRateError));
    assert_eq!(fps_to_ms(1001), Err(InvalidRateError));
}

#[test]
fn remainder_of_a_delay_after_work() {
    assert_eq!(remaining_delay_ms(33, 0), 33);
    assert_eq!(remaining_delay_ms(33, 10), 23);
    assert_eq!(remaining_delay_ms(33, 33), 0);
    assert_eq!(remaining_delay_ms(33, 100), 0);
}

#[test]
fn delay_never_zero() {
    let m = meta(Some((1000, 1)), (25, 1));
    assert_eq!(frame_delay_ms(&m), Ok(1));
    // A codec rate too fast to pace falls through to the average rate.
    let m2 = meta(Some((2000, 1)), (25, 1));
    assert_eq!(frame_delay_ms(&m2), Ok(40));
}
