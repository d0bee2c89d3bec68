use playback::buffer::{BufferMode, FrameBuffer};
use playback::frame::Frame;
use playback::producer::{
    deliver_frame, effective_pts, passes_seek, producer_step, run_producer, ProducerAction,
    ProducerEvent,
};

fn frame(pts: i64) -> Frame {
    Frame::new(pts, [Vec::new(), Vec::new(), Vec::new()], [0, 0, 0], 0, 0)
}

#[test]
fn missing_decoder_timestamp_falls_back_to_zero() {
    assert_eq!(effective_pts(Some(42)), 42);
    assert_eq!(effective_pts(Some(-3)), -3);
    assert_eq!(effective_pts(None), 0);
}

#[test]
fn seek_filter_discards_strictly_earlier_frames() {
    assert!(passes_seek(None, -100));
    assert!(passes_seek(Some(5), 5));
    assert!(passes_seek(Some(5), 6));
    assert!(!passes_seek(Some(5), 4));
}

#[test]
fn deliver_respects_the_seek_target() {
    let mut buf = FrameBuffer::new(BufferMode::KeepAll, 8);
    assert!(!deliver_frame(&mut buf, Some(5), frame(3)));
    assert_eq!(buf.len(), 0);
    assert!(deliver_frame(&mut buf, Some(5), frame(5)));
    assert!(deliver_frame(&mut buf, Some(5), frame(9)));
    assert_eq!(buf.len(), 2);
}

#[test]
fn no_frame_before_the_seek_target_is_ever_published() {
    let mut buf = FrameBuffer::new(BufferMode::KeepAll, 16);
    let decoded: Vec<Frame> = (0i64..10).map(frame).collect();
    run_producer(&mut buf, decoded, Some(5));
    let mut seen = Vec::new();
    while let Some(f) = buf.take_earliest() {
        assert!(f.pts >= 5);
        seen.push(f.pts);
    }
    assert_eq!(seen, vec![5, 6, 7, 8, 9]);
}

#[test]
fn no_seek_publishes_everything() {
    let mut buf = FrameBuffer::new(BufferMode::KeepAll, 16);
    let decoded: Vec<Frame> = [3i64, 1, 2].into_iter().map(frame).collect();
    run_producer(&mut buf, decoded, None);
    assert_eq!(buf.len(), 3);
}

#[test]
fn producer_decision_table() {
    assert_eq!(producer_step(ProducerEvent::Cancelled), ProducerAction::Stop);
    assert_eq!(producer_step(ProducerEvent::EndOfSource), ProducerAction::Stop);
    assert_eq!(
        producer_step(ProducerEvent::Packet { video_stream: true }),
        ProducerAction::DecodePacket
    );
    assert_eq!(
        producer_step(ProducerEvent::Packet { video_stream: false }),
        ProducerAction::SkipPacket
    );
    assert_eq!(producer_step(ProducerEvent::DecodeFailed), ProducerAction::SkipPacket);
}
