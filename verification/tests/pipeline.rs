use playback::buffer::{BufferMode, FrameBuffer};
use playback::frame::Frame;
use playback::pipeline::{drain_all, play_synthetic};

fn frame(pts: i64) -> Frame {
    Frame::new(pts, [Vec::new(), Vec::new(), Vec::new()], [0, 0, 0], 0, 0)
}

fn pts_of(frames: &[Frame]) -> Vec<i64> {
    frames.iter().map(|f| f.pts).collect()
}

#[test]
fn ten_frames_in_are_ten_frames_out_in_order() {
    // A synthetic source of ten frames at timestamps 0..=9, time base
    // 1, with no drops configured: exactly ten presented, ascending.
    let decoded: Vec<Frame> = (0i64..10).map(frame).collect();
    let presented = play_synthetic(decoded, None, BufferMode::KeepAll, 16);
    assert_eq!(pts_of(&presented), (0i64..10).collect::<Vec<_>>());
}

#[test]
fn shuffled_decode_order_still_presents_sorted() {
    let decoded: Vec<Frame> = [4i64, 0, 3, 1, 2].into_iter().map(frame).collect();
    let presented = play_synthetic(decoded, None, BufferMode::KeepAll, 8);
    assert_eq!(pts_of(&presented), vec![0, 1, 2, 3, 4]);
}

#[test]
fn seek_then_play_never_presents_an_earlier_frame() {
    let decoded: Vec<Frame> = (0i64..10).map(frame).collect();
    let presented = play_synthetic(decoded, Some(5), BufferMode::KeepAll, 16);
    assert_eq!(pts_of(&presented), vec![5, 6, 7, 8, 9]);
}

#[test]
fn live_mode_presents_only_the_newest() {
    let decoded: Vec<Frame> = (0i64..10).map(frame).collect();
    let presented = play_synthetic(decoded, None, BufferMode::DropOldest, 3);
    assert_eq!(pts_of(&presented), vec![7, 8, 9]);
}

#[test]
fn drain_empties_the_buffer_in_order() {
    let mut buf = FrameBuffer::new(BufferMode::KeepAll, 8);
    for pts in [2i64, 2, 1] {
        buf.publish(frame(pts));
    }
    let drained = drain_all(&mut buf);
    assert_eq!(pts_of(&drained), vec![1, 2, 2]);
    assert!(buf.is_empty());
}
