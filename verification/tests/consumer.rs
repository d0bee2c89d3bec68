use playback::buffer::{BufferMode, FrameBuffer};
use playback::cancel::CancellationToken;
use playback::consumer::{consumer_step, consumer_tick, ConsumerEvent, ConsumerState, TickOutcome};
use playback::frame::Frame;

fn frame(pts: i64) -> Frame {
    Frame::new(pts, [Vec::new(), Vec::new(), Vec::new()], [0, 0, 0], 0, 0)
}

#[test]
fn lifecycle_transitions() {
    let starting = ConsumerState::Starting;
    let running = ConsumerState::Running;
    let draining = ConsumerState::Draining;
    let stopped = ConsumerState::Stopped;
    assert_eq!(consumer_step(starting, ConsumerEvent::BufferEmpty), running);
    assert_eq!(consumer_step(starting, ConsumerEvent::QuitRequested), draining);
    assert_eq!(consumer_step(running, ConsumerEvent::BufferEmpty), running);
    assert_eq!(consumer_step(running, ConsumerEvent::FramePresented), running);
    assert_eq!(consumer_step(running, ConsumerEvent::QuitRequested), draining);
    assert_eq!(consumer_step(draining, ConsumerEvent::BufferEmpty), draining);
    assert_eq!(consumer_step(draining, ConsumerEvent::QuitRequested), draining);
    assert_eq!(consumer_step(draining, ConsumerEvent::GraceExpired), stopped);
    assert_eq!(consumer_step(stopped, ConsumerEvent::FramePresented), stopped);
    assert_eq!(consumer_step(stopped, ConsumerEvent::QuitRequested), stopped);
}

#[test]
fn quit_sets_cancellation_and_stops() {
    let mut buf = FrameBuffer::new(BufferMode::KeepAll, 4);
    buf.publish(frame(1));
    let mut token = CancellationToken::new();
    let out = consumer_tick(true, &mut buf, &mut token);
    assert!(matches!(out, TickOutcome::ShutDown));
    assert!(token.is_set());
    // The queued frame is left alone on a quit tick.
    assert_eq!(buf.len(), 1);
}

#[test]
fn empty_buffer_is_idle_not_terminal() {
    let mut buf = FrameBuffer::new(BufferMode::KeepAll, 4);
    let mut token = CancellationToken::new();
    let out = consumer_tick(false, &mut buf, &mut token);
    assert!(matches!(out, TickOutcome::Idle));
    assert!(!token.is_set());
}

#[test]
fn a_tick_presents_the_earliest_due_frame() {
    let mut buf = FrameBuffer::new(BufferMode::KeepAll, 4);
    buf.publish(frame(9));
    buf.publish(frame(2));
    let mut token = CancellationToken::new();
    match consumer_tick(false, &mut buf, &mut token) {
        TickOutcome::Present(f) => assert_eq!(f.pts, 2),
        _ => panic!("expected a frame"),
    }
    assert_eq!(buf.len(), 1);
    assert!(!token.is_set());
}
