//! Application lifecycle and window-event routing: when the renderer is
//! created, and what each window event asks of the application.

use vstd::prelude::*;

verus! {

/// Inner width, in physical pixels, of the window the application opens.
pub const WIDTH: u32 = 1280;

/// Inner height, in physical pixels, of the window the application opens.
pub const HEIGHT: u32 = 720;

/// Whether a key went down or came up.
#[derive(Clone, Copy, Debug, PartialEq, Eq, Structural)]
pub enum KeyState {
    Pressed,
    Released,
}

/// The window events the application tells apart.
#[derive(Clone, Copy, Debug, PartialEq, Eq, Structural)]
pub enum AppEvent {
    /// The user asked to close the window.
    CloseRequested,
    /// The window's inner size changed.
    Resized { width: u32, height: u32 },
    /// The window wants a new frame.
    RedrawRequested,
    /// A key changed state; `escape` tells whether it is the Escape key.
    Keyboard { state: KeyState, escape: bool },
    /// Any other event.
    Other,
}

/// What the application does in answer to a window event.
#[derive(Clone, Copy, Debug, PartialEq, Eq, Structural)]
pub enum AppAction {
    /// Leave the event loop.
    Exit,
    /// Resize the renderer's surface.
    Resize { width: u32, height: u32 },
    /// Render a frame.
    Render,
    /// Nothing.
    Ignore,
}

/// The application's lifecycle: the window and renderer exist only between a
/// resume and the end of the program, and are created on the first resume.
pub struct Lifecycle {
    pub renderer_created: bool,
}

/// The answer to a window event, given whether the renderer exists.
pub open spec fn spec_window_event_action(renderer_created: bool, event: AppEvent) -> AppAction {
    match event {
        AppEvent::CloseRequested => AppAction::Exit,
        AppEvent::Resized { width, height } => if renderer_created {
            AppAction::Resize { width, height }
        } else {
            AppAction::Ignore
        },
        AppEvent::RedrawRequested => if renderer_created {
            AppAction::Render
        } else {
            AppAction::Ignore
        },
        AppEvent::Keyboard { state, escape } => if state == KeyState::Pressed && escape {
            AppAction::Exit
        } else {
            AppAction::Ignore
        },
        AppEvent::Other => AppAction::Ignore,
    }
}

/// Routing laws, for every lifecycle state and every event: closing the
/// window always exits, whether or not the renderer exists; pressing Escape
/// exits; nothing else exits; the renderer is asked to render or resize only
/// once it exists, and a resize carries the event's own size.
pub proof fn lemma_window_event_routing(renderer_created: bool, event: AppEvent, w: u32, h: u32)
    ensures
        spec_window_event_action(renderer_created, AppEvent::CloseRequested) == AppAction::Exit,
        spec_window_event_action(
            renderer_created,
            AppEvent::Keyboard { state: KeyState::Pressed, escape: true },
        ) == AppAction::Exit,
        spec_window_event_action(renderer_created, event) == AppAction::Exit <==> (event
            == AppEvent::CloseRequested || event == (AppEvent::Keyboard {
            state: KeyState::Pressed,
            escape: true,
        })),
        spec_window_event_action(renderer_created, event) == AppAction::Render <==> (renderer_created
            && event == AppEvent::RedrawRequested),
        spec_window_event_action(renderer_created, event) == (AppAction::Resize { width: w, height: h })
            <==> (renderer_created && event == (AppEvent::Resized { width: w, height: h })),
        !renderer_created ==> spec_window_event_action(renderer_created, event) == AppAction::Exit
            || spec_window_event_action(renderer_created, event) == AppAction::Ignore,
{
}

impl Lifecycle {
    /// A lifecycle before the first resume: no renderer yet.
    pub fn new() -> (l: Self)
        ensures
            !l.renderer_created,
    {
        Lifecycle { renderer_created: false }
    }

    /// The application was resumed. Returns whether the window and renderer
    /// must be created now: only when they do not exist yet. Afterwards they
    /// exist.
    pub fn resumed(&mut self) -> (create: bool)
        ensures
            create == !old(self).renderer_created,
            final(self).renderer_created,
    {
        if self.renderer_created {
            return false;
        }
        self.renderer_created = true;
        true
    }

    /// Routes a window event: closing the window or pressing Escape exits;
    /// resizes and redraws go to the renderer once it exists; everything
    /// else is ignored.
    pub fn window_event_action(&self, event: AppEvent) -> (a: AppAction)
        ensures
            a == spec_window_event_action(self.renderer_created, event),
            event == AppEvent::CloseRequested ==> a == AppAction::Exit,
            (a == AppAction::Exit) <==> (event == AppEvent::CloseRequested || event == (AppEvent::Keyboard {
                state: KeyState::Pressed,
                escape: true,
            })),
            a == AppAction::Render <==> (self.renderer_created && event == AppEvent::RedrawRequested),
            forall|w: u32, h: u32|
                a == (AppAction::Resize { width: w, height: h }) <==> (self.renderer_created && event
                    == (AppEvent::Resized { width: w, height: h })),
    {
        match event {
            AppEvent::CloseRequested => AppAction::Exit,
            AppEvent::Resized { width, height } => {
                if self.renderer_created {
                    AppAction::Resize { width, height }
                } else {
                    AppAction::Ignore
                }
            },
            AppEvent::RedrawRequested => {
                if self.renderer_created {
                    AppAction::Render
                } else {
                    AppAction::Ignore
                }
            },
            AppEvent::Keyboard { state: KeyState::Pressed, escape: true } => AppAction::Exit,
            _ => AppAction::Ignore,
        }
    }
}

} // verus!
