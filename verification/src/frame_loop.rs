//! The decisions of the frame loop: what to do on each event of the window
//! system, in which order a frame is made, and which faults end the loop.
//!
//! The loop itself, which waits for events and talks to the window and the
//! GPU, is the caller's. It asks here what to do and does it.
use vstd::prelude::*;

verus! {

/// An event of the window system, as far as the loop tells events apart.
#[derive(Clone, Copy, Debug, PartialEq, Eq, Structural)]
pub enum Event {
    /// The user asked to close the window.
    CloseRequested,
    /// The window has to be drawn.
    RedrawRequested,
    /// All pending events are handled, and the loop is about to wait.
    AboutToWait,
    /// Any other event.
    Other,
}

/// Why the loop ends.
#[derive(Clone, Copy, Debug, PartialEq, Eq, Structural)]
pub enum Exit {
    /// The window was closed.
    WindowClosed,
    /// The window, the GPU context, the quad or any valid program could not
    /// be had at startup.
    FatalInit,
    /// The GPU context was lost.
    ContextLost,
}

/// What the loop does next.
#[derive(Clone, Copy, Debug, PartialEq, Eq, Structural)]
pub enum Action {
    /// Leave the loop and release the GPU resources, the newest first.
    Exit(Exit),
    /// Make one frame, step by step.
    Redraw,
    /// Ask the window system for a redraw.
    RequestRedraw,
    /// Go on with the next event.
    Continue,
}

/// A fault while a frame was made.
#[derive(Clone, Copy, Debug, PartialEq, Eq, Structural)]
pub enum Fault {
    /// The draw call failed.
    Draw,
    /// Presenting the frame failed.
    Present,
    /// The GPU context is gone.
    ContextLost,
}

/// One step of a redraw.
#[derive(Clone, Copy, Debug, PartialEq, Eq, Structural)]
pub enum FrameStep {
    /// Bring the program cache up to date with the source file.
    Refresh,
    /// Take the clock and the framebuffer size, and pack the uniforms.
    Uniforms,
    /// Clear the framebuffer to the background colour.
    Clear,
    /// Draw the quad with the current program and the uniforms.
    Draw,
    /// Present the frame.
    Present,
    /// Record how long the draw took.
    Record,
}

/// The steps of a redraw, in the order in which they are taken.
pub open spec fn frame_steps() -> Seq<FrameStep> {
    seq![
        FrameStep::Refresh,
        FrameStep::Uniforms,
        FrameStep::Clear,
        FrameStep::Draw,
        FrameStep::Present,
        FrameStep::Record,
    ]
}

/// What the loop does on `event`: it ends when the window is closed, makes
/// a frame when a redraw is due, and asks for the next redraw whenever it
/// is about to wait, so that frames follow each other without a pause.
pub open spec fn reaction(event: Event) -> Action {
    match event {
        Event::CloseRequested => Action::Exit(Exit::WindowClosed),
        Event::RedrawRequested => Action::Redraw,
        Event::AboutToWait => Action::RequestRedraw,
        Event::Other => Action::Continue,
    }
}

/// What the loop does after `fault`: only the loss of the context ends it.
pub open spec fn recovery(fault: Fault) -> Action {
    match fault {
        Fault::ContextLost => Action::Exit(Exit::ContextLost),
        Fault::Draw => Action::Continue,
        Fault::Present => Action::Continue,
    }
}

/// The fault that a frame counts as, of what its draw and its present
/// gave: the loss of the context before anything else, then the fault of
/// the draw, then that of the present.
pub open spec fn gravest(draw: Option<Fault>, present: Option<Fault>) -> Option<Fault> {
    if draw == Some(Fault::ContextLost) || present == Some(Fault::ContextLost) {
        Some(Fault::ContextLost)
    } else if draw is Some {
        draw
    } else {
        present
    }
}

/// The one fault that a frame counts as, if its draw or its present
/// failed.
pub fn worst(draw: Option<Fault>, present: Option<Fault>) -> (fault: Option<Fault>)
    ensures
        fault == gravest(draw, present),
{
    let lost = match (draw, present) {
        (Some(Fault::ContextLost), _) => true,
        (_, Some(Fault::ContextLost)) => true,
        _ => false,
    };
    if lost {
        Some(Fault::ContextLost)
    } else {
        match draw {
            Some(fault) => Some(fault),
            None => present,
        }
    }
}

/// What the loop does on `event`.
pub fn on_event(event: Event) -> (action: Action)
    ensures
        action == reaction(event),
{
    match event {
        Event::CloseRequested => Action::Exit(Exit::WindowClosed),
        Event::RedrawRequested => Action::Redraw,
        Event::AboutToWait => Action::RequestRedraw,
        Event::Other => Action::Continue,
    }
}

/// What the loop does after `fault`. Every fault is worth a line in the
/// log; what is returned here is whether the loop goes on.
pub fn on_fault(fault: Fault) -> (action: Action)
    ensures
        action == recovery(fault),
{
    match fault {
        Fault::ContextLost => Action::Exit(Exit::ContextLost),
        Fault::Draw => Action::Continue,
        Fault::Present => Action::Continue,
    }
}

impl Exit {
    /// The exit code of the process: 0 for a closed window, 1 otherwise.
    pub fn code(self) -> (code: i32)
        ensures
            code == if self == Exit::WindowClosed {
                0i32
            } else {
                1i32
            },
    {
        match self {
            Exit::WindowClosed => 0,
            Exit::FatalInit => 1,
            Exit::ContextLost => 1,
        }
    }
}

impl FrameStep {
    /// The place of the step in `frame_steps`.
    pub open spec fn position(self) -> int {
        match self {
            FrameStep::Refresh => 0,
            FrameStep::Uniforms => 1,
            FrameStep::Clear => 2,
            FrameStep::Draw => 3,
            FrameStep::Present => 4,
            FrameStep::Record => 5,
        }
    }

    /// The step that a redraw begins with.
    pub fn first() -> (step: FrameStep)
        ensures
            step == frame_steps()[0],
    {
        FrameStep::Refresh
    }

    /// The step that follows this one, or `None` after the last.
    pub fn next(self) -> (following: Option<FrameStep>)
        ensures
            frame_steps()[self.position()] == self,
            following == if self.position() + 1 < frame_steps().len() {
                Some(frame_steps()[self.position() + 1])
            } else {
                None
            },
    {
        match self {
            FrameStep::Refresh => Some(FrameStep::Uniforms),
            FrameStep::Uniforms => Some(FrameStep::Clear),
            FrameStep::Clear => Some(FrameStep::Draw),
            FrameStep::Draw => Some(FrameStep::Present),
            FrameStep::Present => Some(FrameStep::Record),
            FrameStep::Record => None,
        }
    }
}

/// Within one redraw every step is taken once, in the order of
/// `frame_steps`: the cache is refreshed before the uniforms are packed, the
/// framebuffer is cleared before the draw, and the draw is presented before
/// its duration is recorded. So a program is only ever replaced between two
/// draws.
pub proof fn lemma_steps_are_in_order()
    ensures
        forall|step: FrameStep| 0 <= #[trigger] step.position() < frame_steps().len(),
        forall|step: FrameStep| frame_steps()[#[trigger] step.position()] == step,
        forall|i: int| 0 <= i < frame_steps().len() ==> (#[trigger] frame_steps()[i]).position() == i,
        FrameStep::Refresh.position() < FrameStep::Uniforms.position() < FrameStep::Clear.position()
            < FrameStep::Draw.position() < FrameStep::Present.position() < FrameStep::Record.position(),
{
}

/// The background that every frame is cleared to before the draw: opaque
/// blue, as red, green, blue and alpha, each 0 or 1.
pub fn clear_color() -> (rgba: [u8; 4])
    ensures
        rgba@ == seq![0u8, 0u8, 1u8, 1u8],
{
    [0, 0, 1, 1]
}

} // verus!
