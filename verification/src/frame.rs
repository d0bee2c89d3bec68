use vstd::prelude::*;
use crate::metadata::Timestamp;

verus! {

/// One decoded, pixel-converted picture together with its presentation
/// timestamp: three planes of pixel data (luma and two chroma planes)
/// with their row strides. Immutable once constructed; ownership moves
/// from the producer through the buffer to the consumer.
pub struct Frame {
    pub pts: Timestamp,
    pub planes: [Vec<u8>; 3],
    pub strides: [usize; 3],
    pub width: u32,
    pub height: u32,
}

impl Frame {
    pub fn new(
        pts: Timestamp,
        planes: [Vec<u8>; 3],
        strides: [usize; 3],
        width: u32,
        height: u32,
    ) -> (r: Frame)
        ensures
            r.pts == pts,
            r.planes == planes,
            r.strides == strides,
            r.width == width,
            r.height == height,
    {
        Frame { pts, planes, strides, width, height }
    }
}

} // verus!
