use vstd::prelude::*;

verus! {

/// Which pointer button was pressed.
#[derive(Clone, Copy, PartialEq, Eq, Structural, Debug)]
pub enum PointerButton {
    Left,
    Right,
    Other,
}

/// One event delivered by the hosting window layer, reduced to what the
/// render loop reacts to.
#[derive(Clone, Copy, PartialEq, Eq, Structural, Debug)]
pub enum InputEvent {
    /// The window was asked to close.
    CloseRequested,
    /// A key went down; `exit_key` tells whether it is the designated exit
    /// key.
    KeyPressed { exit_key: bool },
    /// A pointer button went down.
    PointerPressed { button: PointerButton },
    /// The window was resized to new pixel dimensions.
    Resized { width: u32, height: u32 },
    /// The window asked to be redrawn.
    RedrawRequested,
    /// All events of this tick have been processed.
    EventsCleared,
    /// Any other event.
    Other,
}

/// What the render loop must do next.
#[derive(Clone, Copy, PartialEq, Eq, Structural, Debug)]
pub enum LoopAction {
    /// Terminal: request loop exit.
    Exit,
    /// Minimize the window; it stays alive, hidden.
    Minimize,
    /// Reconfigure the render surface to the new dimensions.
    Reconfigure { width: u32, height: u32 },
    /// Sample telemetry, format it, and submit a frame.
    RenderFrame,
    /// Immediately request another redraw: continuous polling cadence.
    RequestRedraw,
    /// No transition: keep waiting for the next event.
    Wait,
}

/// The action each event classifies to: a close request, the exit key and
/// the right pointer button end the loop; the left pointer button
/// minimizes; a resize reconfigures the surface; a redraw request renders
/// a frame; a drained event batch requests the next redraw; everything
/// else waits.
pub open spec fn spec_classify(event: InputEvent) -> LoopAction {
    match event {
        InputEvent::CloseRequested => LoopAction::Exit,
        InputEvent::KeyPressed { exit_key } => if exit_key {
            LoopAction::Exit
        } else {
            LoopAction::Wait
        },
        InputEvent::PointerPressed { button } => match button {
            PointerButton::Left => LoopAction::Minimize,
            PointerButton::Right => LoopAction::Exit,
            PointerButton::Other => LoopAction::Wait,
        },
        InputEvent::Resized { width, height } => LoopAction::Reconfigure { width, height },
        InputEvent::RedrawRequested => LoopAction::RenderFrame,
        InputEvent::EventsCleared => LoopAction::RequestRedraw,
        InputEvent::Other => LoopAction::Wait,
    }
}

/// Decides when sampling and redrawing happen relative to the events the
/// hosting event loop delivers, and owns the input-event classification
/// that externally controls the window lifecycle.
pub struct FrameScheduler;

impl FrameScheduler {
    /// Classifies one delivered event into the action the loop takes.
    pub fn classify(event: &InputEvent) -> (action: LoopAction)
        ensures
            action == spec_classify(*event),
    {
        match event {
            InputEvent::CloseRequested => LoopAction::Exit,
            InputEvent::KeyPressed { exit_key } => if *exit_key {
                LoopAction::Exit
            } else {
                LoopAction::Wait
            },
            InputEvent::PointerPressed { button } => match button {
                PointerButton::Left => LoopAction::Minimize,
                PointerButton::Right => LoopAction::Exit,
                PointerButton::Other => LoopAction::Wait,
            },
            InputEvent::Resized { width, height } => LoopAction::Reconfigure {
                width: *width,
                height: *height,
            },
            InputEvent::RedrawRequested => LoopAction::RenderFrame,
            InputEvent::EventsCleared => LoopAction::RequestRedraw,
            InputEvent::Other => LoopAction::Wait,
        }
    }
}

} // verus!
