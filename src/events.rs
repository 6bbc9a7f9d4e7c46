use vstd::prelude::*;
use crate::renderer::{Globals, Renderer};

verus! {

/// The window events the application reacts to.
#[derive(Debug, Clone, Copy, PartialEq, Eq, Structural)]
pub enum AppEvent {
    CloseRequested,
    Resized { width: u32, height: u32 },
    RedrawRequested,
    MainEventsCleared,
    Other,
}

/// What the event loop does next.
#[derive(Debug, Clone, Copy, PartialEq, Eq, Structural)]
pub enum AppAction {
    /// Leave the event loop.
    Exit,
    /// Render one frame: begin it, let the scene draw and update, end it.
    RenderFrame,
    /// Ask the window for a redraw.
    RequestRedraw,
    /// Nothing more to do for this event.
    Wait,
}

/// The application's decision for one window event. A resize is applied to
/// the renderer at once; everything else leaves it as it is.
pub fn on_event(renderer: &mut Renderer, event: AppEvent) -> (a: AppAction)
    ensures
        event == AppEvent::CloseRequested ==> a == AppAction::Exit,
        event == AppEvent::RedrawRequested ==> a == AppAction::RenderFrame,
        event == AppEvent::MainEventsCleared ==> a == AppAction::RequestRedraw,
        event == AppEvent::Other ==> a == AppAction::Wait,
        event is Resized ==> a == AppAction::Wait,
        event matches AppEvent::Resized { width, height } ==> *final(renderer) == (Renderer {
            window_size: (width, height),
            globals: Globals { width, height },
            has_to_update_globals: true,
            ..*old(renderer)
        }),
        !(event is Resized) ==> *final(renderer) == *old(renderer),
{
    match event {
        AppEvent::CloseRequested => AppAction::Exit,
        AppEvent::Resized { width, height } => {
            renderer.resize(width, height);
            AppAction::Wait
        },
        AppEvent::RedrawRequested => AppAction::RenderFrame,
        AppEvent::MainEventsCleared => AppAction::RequestRedraw,
        AppEvent::Other => AppAction::Wait,
    }
}

} // verus!
