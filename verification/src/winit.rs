//! The life of one frame of an output, and the age its repaint goes by.

use vstd::prelude::*;

verus! {

/// Frames that are repainted in full after the buffers of an output were reset.
pub const FULL_REDRAW_FRAMES: u8 = 4;

/// Where an output stands in the life of a frame.
#[derive(Clone, Copy, Debug, PartialEq, Eq, Structural)]
pub enum FramePhase {
    /// Between two frames.
    Idle,
    /// The list of elements is being built.
    Composing,
    /// The list was handed to the backend.
    Rendering,
    /// The frame is on the output; feedback is being distributed.
    Presented,
}

/// How the backend failed to render.
#[derive(Clone, Copy, Debug, PartialEq, Eq, Structural)]
pub enum RenderError {
    /// This frame is lost; the next tick tries again.
    Recoverable,
    /// The rendering context is gone; the pipeline has to be set up anew.
    ContextLost,
}

/// What happened to the frame.
#[derive(Clone, Copy, Debug, PartialEq, Eq, Structural)]
pub enum FrameEvent {
    /// The refresh tick of the output.
    Tick,
    /// The list of elements is built. `buffer_age` is the age the backend
    /// reports for the buffer that will be painted, if it knows one.
    Composed { buffer_age: Option<usize> },
    /// The backend rendered. With `damaged` something was repainted.
    Rendered { damaged: bool },
    /// The backend failed.
    RenderFailed { error: RenderError },
    /// Feedback was distributed.
    FeedbackSent,
}

/// What is to be done next for the frame.
#[derive(Clone, Copy, Debug, PartialEq, Eq, Structural)]
pub enum FrameAction {
    /// Signal the timing barriers up to the frame target and build the list of elements.
    Compose,
    /// Hand the list to the backend with this age: 0 asks for a full repaint,
    /// `n > 0` goes by the damage of the last `n` frames.
    Render { age: usize },
    /// Send frame callbacks to the clients; with `submit`, first submit the
    /// damage to the output and distribute presentation feedback.
    Present { submit: bool },
    /// The frame is over.
    Rest,
    /// Drop the frame and leave the buffer of the output as it is; the next
    /// tick starts a new frame.
    Skip,
    /// Stop: the pipeline has to be set up anew.
    Reinitialize,
    /// The event does not belong to the phase; nothing changes.
    Ignore,
}

/// The frame state of an output: the phase, and for how many more frames the
/// whole output is repainted.
#[derive(Clone, Copy, Debug, PartialEq, Eq, Structural)]
pub struct WinitData {
    pub phase: FramePhase,
    pub full_redraw: u8,
}

/// The age a frame is rendered with: 0 while full repaints are owed or the
/// backend knows no age, the age of the buffer otherwise.
pub open spec fn frame_age(full_redraw: u8, buffer_age: Option<usize>) -> usize {
    if full_redraw > 0 {
        0
    } else {
        match buffer_age {
            Some(age) => age,
            None => 0,
        }
    }
}

/// The state after `event` and what is to be done. A tick starts a frame and
/// uses up one of the full repaints owed. A failure of the backend ends the
/// frame where it is; nothing is rendered again before the next tick.
pub open spec fn spec_step(state: WinitData, event: FrameEvent) -> (WinitData, FrameAction) {
    match (state.phase, event) {
        (FramePhase::Idle, FrameEvent::Tick) => (
            WinitData {
                phase: FramePhase::Composing,
                full_redraw: if state.full_redraw > 0 {
                    (state.full_redraw - 1) as u8
                } else {
                    0
                },
            },
            FrameAction::Compose,
        ),
        (FramePhase::Composing, FrameEvent::Composed { buffer_age }) => (
            WinitData { phase: FramePhase::Rendering, ..state },
            FrameAction::Render { age: frame_age(state.full_redraw, buffer_age) },
        ),
        (FramePhase::Rendering, FrameEvent::Rendered { damaged }) => (
            WinitData { phase: FramePhase::Presented, ..state },
            FrameAction::Present { submit: damaged },
        ),
        (FramePhase::Rendering, FrameEvent::RenderFailed { error }) => (
            WinitData { phase: FramePhase::Idle, ..state },
            match error {
                RenderError::Recoverable => FrameAction::Skip,
                RenderError::ContextLost => FrameAction::Reinitialize,
            },
        ),
        (FramePhase::Presented, FrameEvent::FeedbackSent) => (
            WinitData { phase: FramePhase::Idle, ..state },
            FrameAction::Rest,
        ),
        _ => (state, FrameAction::Ignore),
    }
}

/// A frame whose rendering succeeds goes from idle through composing,
/// rendering and presented back to idle, and is rendered once.
pub proof fn lemma_frame_cycle(state: WinitData, buffer_age: Option<usize>, damaged: bool)
    requires
        state.phase == FramePhase::Idle,
    ensures
        ({
            let (s1, a1) = spec_step(state, FrameEvent::Tick);
            let (s2, a2) = spec_step(s1, FrameEvent::Composed { buffer_age });
            let (s3, a3) = spec_step(s2, FrameEvent::Rendered { damaged });
            let (s4, a4) = spec_step(s3, FrameEvent::FeedbackSent);
            &&& s1.phase == FramePhase::Composing && a1 == FrameAction::Compose
            &&& s2.phase == FramePhase::Rendering && a2 is Render
            &&& s3.phase == FramePhase::Presented && a3 == (FrameAction::Present { submit: damaged })
            &&& s4.phase == FramePhase::Idle && a4 == FrameAction::Rest
        }),
{
}

/// After a failure of the backend the output is idle, and no event but the
/// next tick leads to rendering again: the failed frame is not retried.
pub proof fn lemma_failure_ends_frame(state: WinitData, error: RenderError, next: FrameEvent)
    requires
        state.phase == FramePhase::Rendering,
    ensures
        ({
            let (failed, action) = spec_step(state, FrameEvent::RenderFailed { error });
            &&& failed.phase == FramePhase::Idle
            &&& failed.full_redraw == state.full_redraw
            &&& action == FrameAction::Skip || action == FrameAction::Reinitialize
            &&& !(spec_step(failed, next).1 is Render)
            &&& !(next is Tick) ==> spec_step(failed, next) == (failed, FrameAction::Ignore)
        }),
{
}

impl WinitData {
    /// An idle output that owes no full repaint.
    pub fn new() -> (r: WinitData)
        ensures
            r == (WinitData { phase: FramePhase::Idle, full_redraw: 0 }),
    {
        WinitData { phase: FramePhase::Idle, full_redraw: 0 }
    }

    /// The buffers of the output were reset: the next frames are repainted in full.
    pub fn reset_buffers(&mut self)
        ensures
            *final(self) == (WinitData { full_redraw: FULL_REDRAW_FRAMES, ..*old(self) }),
    {
        self.full_redraw = FULL_REDRAW_FRAMES;
    }

    /// Takes `event` and says what is to be done next.
    pub fn step(&mut self, event: FrameEvent) -> (action: FrameAction)
        ensures
            (*final(self), action) == spec_step(*old(self), event),
    {
        match (self.phase, event) {
            (FramePhase::Idle, FrameEvent::Tick) => {
                self.phase = FramePhase::Composing;
                if self.full_redraw > 0 {
                    self.full_redraw = self.full_redraw - 1;
                }
                FrameAction::Compose
            },
            (FramePhase::Composing, FrameEvent::Composed { buffer_age }) => {
                self.phase = FramePhase::Rendering;
                let age: usize = if self.full_redraw > 0 {
                    0
                } else {
                    match buffer_age {
                        Some(age) => age,
                        None => 0,
                    }
                };
                FrameAction::Render { age }
            },
            (FramePhase::Rendering, FrameEvent::Rendered { damaged }) => {
                self.phase = FramePhase::Presented;
                FrameAction::Present { submit: damaged }
            },
            (FramePhase::Rendering, FrameEvent::RenderFailed { error }) => {
                self.phase = FramePhase::Idle;
                match error {
                    RenderError::Recoverable => FrameAction::Skip,
                    RenderError::ContextLost => FrameAction::Reinitialize,
                }
            },
            (FramePhase::Presented, FrameEvent::FeedbackSent) => {
                self.phase = FramePhase::Idle;
                FrameAction::Rest
            },
            _ => FrameAction::Ignore,
        }
    }
}

} // verus!
