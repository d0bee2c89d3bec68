use vstd::prelude::*;
use crate::rational::Rational;

verus! {

/// A presentation timestamp in stream time-base units. Signed, totally
/// ordered; comparisons are meaningful only within one time base.
pub type Timestamp = i64;

/// Read-only description of the selected video stream, resolved once
/// when the source is opened.
///
/// `frame_rate` is the codec-reported rate and may be absent or zero;
/// `avg_frame_rate` is the container's average rate and serves as the
/// fallback, itself validated before use. `duration` is the whole
/// source's length, in fixed microsecond units rather than the stream
/// time base.
#[derive(Clone, Copy, PartialEq, Eq, Structural, Debug)]
pub struct StreamMetadata {
    pub time_base: Rational,
    pub frame_rate: Option<Rational>,
    pub avg_frame_rate: Rational,
    pub duration: i64,
}

impl StreamMetadata {
    /// A usable stream description: the time base converts timestamps
    /// to seconds, so it must be strictly positive. Nothing is assumed
    /// of the two frame rates: pacing validates those itself.
    pub open spec fn wf(self) -> bool {
        self.time_base.is_positive()
    }
}

} // verus!
