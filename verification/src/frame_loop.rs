//! The outer frame loop as an explicit state machine.
//!
//! The engine is driven by an external event source; the glue around it
//! performs the blocking work (waiting for events, running the graph) and
//! feeds outcomes back.  The machine decides, per event, whether a frame
//! is run, the loop stops, or nothing happens, and counts the frames that
//! completed.  States cycle `Idle -> FrameRequested -> FrameSubmitted ->
//! Idle`; no frame overlaps another.

use vstd::prelude::*;

verus! {

/// Discrete event handed in by the windowing layer.
#[derive(Clone, Copy, Debug, PartialEq, Eq, Structural)]
pub enum LoopEvent {
    /// The window was asked to close; the loop must stop.
    CloseRequested,
    /// The window wants a new frame.
    Refresh,
    /// Any other event; ignored.
    Other,
}

/// What the glue around the machine must do next.
#[derive(Clone, Copy, Debug, PartialEq, Eq, Structural)]
pub enum LoopAction {
    /// Maintain the factory, run the graph once, then report the outcome.
    RunFrame,
    /// Leave the event loop.
    Stop,
    /// Do nothing and wait for the next event.
    Ignore,
}

/// State of the loop within one tick.
#[derive(Clone, Copy, Debug, PartialEq, Eq, Structural)]
pub enum LoopState {
    /// Waiting for an event.
    Idle,
    /// A frame was requested and is being run.
    FrameRequested,
    /// The frame's commands were submitted; the tick is being wound up.
    FrameSubmitted,
}

/// Drives one window's frame loop.
pub struct FrameLoop {
    pub state: LoopState,
    /// Frames completed so far; diagnostics only.
    pub frames_completed: u64,
}

impl FrameLoop {
    pub fn new() -> (l: FrameLoop)
        ensures
            l.state == LoopState::Idle,
            l.frames_completed == 0,
    {
        FrameLoop { state: LoopState::Idle, frames_completed: 0 }
    }

    /// Maps one event to the action the glue must take.  A frame is run
    /// exactly on `Refresh` while idle; `CloseRequested` always stops.
    pub fn on_event(&mut self, event: LoopEvent) -> (action: LoopAction)
        requires
            old(self).state == LoopState::Idle,
        ensures
            final(self).frames_completed == old(self).frames_completed,
            action == LoopAction::Stop <==> event == LoopEvent::CloseRequested,
            action == LoopAction::RunFrame <==> event == LoopEvent::Refresh,
            final(self).state == (if event == LoopEvent::Refresh {
                LoopState::FrameRequested
            } else {
                LoopState::Idle
            }),
    {
        match event {
            LoopEvent::CloseRequested => LoopAction::Stop,
            LoopEvent::Refresh => {
                self.state = LoopState::FrameRequested;
                LoopAction::RunFrame
            },
            LoopEvent::Other => LoopAction::Ignore,
        }
    }

    /// The requested frame's commands were submitted.
    pub fn frame_submitted(&mut self)
        requires
            old(self).state == LoopState::FrameRequested,
            old(self).frames_completed < u64::MAX,
        ensures
            final(self).state == LoopState::FrameSubmitted,
            final(self).frames_completed == old(self).frames_completed + 1,
    {
        self.state = LoopState::FrameSubmitted;
        self.frames_completed = self.frames_completed + 1;
    }

    /// The requested frame was skipped (a recoverable surface error); the
    /// tick ends without counting a frame.
    pub fn frame_skipped(&mut self)
        requires
            old(self).state == LoopState::FrameRequested,
        ensures
            final(self).state == LoopState::Idle,
            final(self).frames_completed == old(self).frames_completed,
    {
        self.state = LoopState::Idle;
    }

    /// Winds up the tick after a submitted frame; the loop is idle again.
    pub fn end_tick(&mut self)
        requires
            old(self).state == LoopState::FrameSubmitted,
        ensures
            final(self).state == LoopState::Idle,
            final(self).frames_completed == old(self).frames_completed,
    {
        self.state = LoopState::Idle;
    }
}

} // verus!
