use vstd::prelude::*;

use crate::frame::SurfaceError;
use crate::size::Size;
use crate::viewport::{resized, SurfaceConfig, Viewport};

verus! {

/// A key the event loop tells apart.
#[derive(Clone, Copy, Debug, PartialEq, Eq, Structural)]
pub enum Key {
    Escape,
    Other,
}

#[derive(Clone, Copy, Debug, PartialEq, Eq, Structural)]
pub enum KeyState {
    Pressed,
    Released,
}

/// An event addressed to a window.
#[derive(Clone, Copy, Debug, PartialEq, Eq, Structural)]
pub enum WindowEvent {
    Resized { size: Size },
    ScaleFactorChanged { new_inner_size: Size },
    CloseRequested,
    KeyboardInput { state: KeyState, key: Option<Key> },
    Other,
}

/// An event of the event loop. `own_window` tells whether it concerns the
/// viewport's window.
#[derive(Clone, Copy, Debug, PartialEq, Eq, Structural)]
pub enum Event {
    WindowEvent { own_window: bool, event: WindowEvent },
    RedrawRequested { own_window: bool },
    /// All pending events were handled.
    MainEventsCleared,
    Other,
}

/// Whether the loop goes on or is terminating.
#[derive(Clone, Copy, Debug, PartialEq, Eq, Structural)]
pub enum ControlFlow {
    Running,
    Exit,
}

/// What the event loop is to do next.
#[derive(Clone, Copy, Debug)]
pub enum LoopAction {
    Nothing,
    /// Configure the surface anew with `config`.
    Configure { config: SurfaceConfig },
    /// Draw a frame: acquire the next image, lay the frame out with
    /// `Viewport::render`, carry it out, and hand the outcome of acquiring to
    /// `handle_frame_result`.
    DrawFrame,
    /// Ask the window for another redraw.
    RequestRedraw,
    /// Report an error that the next frame is expected to clear.
    Report { error: SurfaceError },
}

/// The size an event asks the viewport to take, if it asks one.
pub open spec fn resize_request(e: Event) -> Option<Size> {
    match e {
        Event::WindowEvent { own_window: true, event: WindowEvent::Resized { size } } => Some(size),
        Event::WindowEvent {
            own_window: true,
            event: WindowEvent::ScaleFactorChanged { new_inner_size },
        } => Some(new_inner_size),
        _ => None,
    }
}

/// The window is to close: a close request, or Escape pressed.
pub open spec fn exit_request(e: Event) -> bool {
    match e {
        Event::WindowEvent { own_window: true, event: WindowEvent::CloseRequested } => true,
        Event::WindowEvent {
            own_window: true,
            event: WindowEvent::KeyboardInput { state: KeyState::Pressed, key: Some(Key::Escape) },
        } => true,
        _ => false,
    }
}

pub open spec fn redraw_request(e: Event) -> bool {
    e == (Event::RedrawRequested { own_window: true })
}

/// Handles one event. While the loop runs: a resize request goes to
/// `Viewport::resize`, and a drawable size is to be configured; a close
/// request or Escape terminates the loop; a redraw request runs the per-frame
/// hook and asks for a frame; once all pending events are handled another
/// redraw is asked for. Everything else, and every event once the loop is
/// terminating, changes nothing.
pub fn handle_event(viewport: &mut Viewport, control_flow: &mut ControlFlow, event: Event) -> (action:
    LoopAction)
    requires
        old(viewport).wf(),
    ensures
        final(viewport).wf(),
        *old(control_flow) == ControlFlow::Exit ==> action is Nothing && *final(viewport) == *old(
            viewport,
        ) && *final(control_flow) == ControlFlow::Exit,
        *old(control_flow) == ControlFlow::Running ==> {
            match resize_request(event) {
                Some(size) => {
                    &&& *final(control_flow) == ControlFlow::Running
                    &&& final(viewport).current_size() == resized(old(viewport).current_size(), size)
                    &&& final(viewport).format() == old(viewport).format()
                    &&& final(viewport).frames_presented() == old(viewport).frames_presented()
                    &&& size.is_drawable() ==> action == (LoopAction::Configure {
                        config: final(viewport).configuration(),
                    })
                    &&& !size.is_drawable() ==> action is Nothing && *final(viewport) == *old(
                        viewport,
                    )
                },
                None => {
                    &&& *final(viewport) == *old(viewport)
                    &&& exit_request(event) ==> *final(control_flow) == ControlFlow::Exit
                        && action is Nothing
                    &&& !exit_request(event) ==> *final(control_flow) == ControlFlow::Running
                    &&& redraw_request(event) ==> action is DrawFrame
                    &&& event == Event::MainEventsCleared ==> action is RequestRedraw
                    &&& !exit_request(event) && !redraw_request(event) && event
                        != Event::MainEventsCleared ==> action is Nothing
                },
            }
        },
{
    if *control_flow == ControlFlow::Exit {
        return LoopAction::Nothing;
    }
    match event {
        Event::WindowEvent { own_window, event } => {
            if !own_window {
                return LoopAction::Nothing;
            }
            match event {
                WindowEvent::Resized { size } => resize_action(viewport, size),
                WindowEvent::ScaleFactorChanged { new_inner_size } => resize_action(
                    viewport,
                    new_inner_size,
                ),
                WindowEvent::CloseRequested => {
                    *control_flow = ControlFlow::Exit;
                    LoopAction::Nothing
                },
                WindowEvent::KeyboardInput { state, key } => {
                    if state == KeyState::Pressed && key == Some(Key::Escape) {
                        *control_flow = ControlFlow::Exit;
                    }
                    LoopAction::Nothing
                },
                WindowEvent::Other => LoopAction::Nothing,
            }
        },
        Event::RedrawRequested { own_window } => {
            if own_window {
                viewport.update();
                LoopAction::DrawFrame
            } else {
                LoopAction::Nothing
            }
        },
        Event::MainEventsCleared => LoopAction::RequestRedraw,
        Event::Other => LoopAction::Nothing,
    }
}

fn resize_action(viewport: &mut Viewport, size: Size) -> (action: LoopAction)
    requires
        old(viewport).wf(),
    ensures
        final(viewport).wf(),
        final(viewport).current_size() == resized(old(viewport).current_size(), size),
        final(viewport).format() == old(viewport).format(),
        final(viewport).frames_presented() == old(viewport).frames_presented(),
        size.is_drawable() ==> action == (LoopAction::Configure {
            config: final(viewport).configuration(),
        }),
        !size.is_drawable() ==> action is Nothing && *final(viewport) == *old(viewport),
{
    match viewport.resize(size) {
        Some(config) => LoopAction::Configure { config },
        None => LoopAction::Nothing,
    }
}

/// Decides what follows a frame, given how acquiring its image went. A lost
/// surface is configured anew at the last size it had, and the loop goes
/// on; running out of memory terminates the loop; a timeout or an outdated
/// surface is reported and left to the next frame.
pub fn handle_frame_result(
    viewport: &mut Viewport,
    control_flow: &mut ControlFlow,
    result: Result<(), SurfaceError>,
) -> (action: LoopAction)
    requires
        old(viewport).wf(),
    ensures
        final(viewport).wf(),
        *final(viewport) == *old(viewport),
        match result {
            Ok(()) => action is Nothing && *final(control_flow) == *old(control_flow),
            Err(SurfaceError::Lost) => action == (LoopAction::Configure {
                config: old(viewport).configuration(),
            }) && *final(control_flow) == *old(control_flow),
            Err(SurfaceError::OutOfMemory) => action is Nothing && *final(control_flow)
                == ControlFlow::Exit,
            Err(error) => action == (LoopAction::Report { error }) && *final(control_flow) == *old(
                control_flow,
            ),
        },
{
    match result {
        Ok(()) => LoopAction::Nothing,
        Err(SurfaceError::Lost) => {
            let size = viewport.size();
            match viewport.resize(size) {
                Some(config) => LoopAction::Configure { config },
                None => LoopAction::Nothing,
            }
        },
        Err(SurfaceError::OutOfMemory) => {
            *control_flow = ControlFlow::Exit;
            LoopAction::Nothing
        },
        Err(error) => LoopAction::Report { error },
    }
}

} // verus!
