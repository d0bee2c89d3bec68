use vstd::prelude::*;
use crate::buffer::FrameBuffer;
use crate::cancel::CancellationToken;
use crate::frame::Frame;

verus! {

/// The present consumer's lifecycle. `Draining` differs from
/// `Stopped` only in granting the producer a bounded grace period to
/// observe cancellation before the controller joins it.
#[derive(Clone, Copy, PartialEq, Eq, Structural, Debug)]
pub enum ConsumerState {
    /// Created; no tick has run yet.
    Starting,
    /// Ticking: presenting due frames, idling while the buffer is
    /// empty (decode may merely be behind; emptiness is not terminal).
    Running,
    /// Quit requested: cancellation is set, the producer gets a grace
    /// period to notice it.
    Draining,
    /// Terminal: the controller joins the producer and returns.
    Stopped,
}

/// What one consumer tick observes.
#[derive(Clone, Copy, PartialEq, Eq, Structural, Debug)]
pub enum ConsumerEvent {
    /// An input event asked to quit or close.
    QuitRequested,
    /// No frame was due this tick.
    BufferEmpty,
    /// A frame was withdrawn and handed to the presentation surface.
    FramePresented,
    /// The grace period granted after a quit request ran out.
    GraceExpired,
}

/// The consumer's transition table: quitting leads through `Draining`
/// to `Stopped` and never back; an empty buffer and a presented frame
/// both keep the loop running.
pub open spec fn consumer_transition(s: ConsumerState, e: ConsumerEvent) -> ConsumerState {
    match s {
        ConsumerState::Starting => match e {
            ConsumerEvent::QuitRequested => ConsumerState::Draining,
            _ => ConsumerState::Running,
        },
        ConsumerState::Running => match e {
            ConsumerEvent::QuitRequested => ConsumerState::Draining,
            _ => ConsumerState::Running,
        },
        ConsumerState::Draining => match e {
            ConsumerEvent::GraceExpired => ConsumerState::Stopped,
            _ => ConsumerState::Draining,
        },
        ConsumerState::Stopped => ConsumerState::Stopped,
    }
}

/// A state from which playback never resumes.
pub open spec fn is_shutting_down(s: ConsumerState) -> bool {
    s == ConsumerState::Draining || s == ConsumerState::Stopped
}

pub fn consumer_step(s: ConsumerState, e: ConsumerEvent) -> (r: ConsumerState)
    ensures
        r == consumer_transition(s, e),
{
    match s {
        ConsumerState::Starting => match e {
            ConsumerEvent::QuitRequested => ConsumerState::Draining,
            _ => ConsumerState::Running,
        },
        ConsumerState::Running => match e {
            ConsumerEvent::QuitRequested => ConsumerState::Draining,
            _ => ConsumerState::Running,
        },
        ConsumerState::Draining => match e {
            ConsumerEvent::GraceExpired => ConsumerState::Stopped,
            _ => ConsumerState::Draining,
        },
        ConsumerState::Stopped => ConsumerState::Stopped,
    }
}

/// Law: shutdown is final. Once a quit request has moved the consumer
/// into `Draining` (or on to `Stopped`), no event ever returns it to
/// a playing state, and `Stopped` absorbs every event.
pub proof fn lemma_shutdown_is_final(s: ConsumerState, e: ConsumerEvent)
    ensures
        is_shutting_down(s) ==> is_shutting_down(consumer_transition(s, e)),
        consumer_transition(ConsumerState::Stopped, e) == ConsumerState::Stopped,
{
}

/// What the caller must do after one tick.
pub enum TickOutcome {
    /// Quit observed: cancellation has been set; leave the loop.
    ShutDown,
    /// Nothing due: idle briefly and poll again.
    Idle,
    /// Hand this frame to the presentation surface, then sleep the
    /// pacing delay (less the time the tick itself took).
    Present(Frame),
}

/// One consumer tick over the shared state: on a quit request it sets
/// the cancellation token and changes nothing else; otherwise it
/// withdraws the earliest-due frame, or reports the idle state when
/// none is queued. The token is touched by nothing but a quit.
pub fn consumer_tick(quit_requested: bool, buf: &mut FrameBuffer, token: &mut CancellationToken) -> (r:
    TickOutcome)
    requires
        old(buf).wf(),
    ensures
        final(buf).wf(),
        final(buf).mode() == old(buf).mode(),
        final(buf).depth() == old(buf).depth(),
        quit_requested ==> r is ShutDown && *final(token) == old(token).after_set()
            && final(buf)@ == old(buf)@,
        !quit_requested ==> *final(token) == *old(token),
        !quit_requested && old(buf)@.len() == 0 ==> r is Idle && final(buf)@ == old(buf)@,
        !quit_requested && old(buf)@.len() > 0 ==> r == TickOutcome::Present(old(buf)@[0])
            && final(buf)@ == old(buf)@.drop_first(),
{
    if quit_requested {
        token.set();
        TickOutcome::ShutDown
    } else {
        match buf.take_earliest() {
            None => TickOutcome::Idle,
            Some(f) => TickOutcome::Present(f),
        }
    }
}

} // verus!
