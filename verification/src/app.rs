//! The application shell: the bootstrap state machine and the dispatch of
//! window events to the render state.

use vstd::prelude::*;
use crate::input::{command_of, key_of, KeyCommand};
use crate::state::{Frame, State, StateView};
use crate::surface::{AcquireError, SurfaceConfig};

verus! {

/// A window event, reduced to what the shell reads of it.
#[derive(Clone, Copy, Debug)]
pub enum Event {
    /// The user asked to close the window.
    CloseRequested,
    /// The window took a new inner size.
    Resized { width: u32, height: u32 },
    /// The window is to be drawn.
    RedrawRequested,
    /// A physical key was pressed or released.
    KeyboardInput { code: winit::keyboard::KeyCode, is_pressed: bool },
    /// The pointer moved to `(x, y)` while the window's inner size was
    /// `width` by `height`.
    CursorMoved { x: i64, y: i64, width: u32, height: u32 },
    /// Any other event.
    Other,
}

/// What the event loop is to do after an event was handled.
#[derive(Clone, Copy, Debug, PartialEq, Eq)]
pub enum Action {
    /// Nothing.
    Nothing,
    /// Create the window and the render state, then deliver the state with
    /// [`App::user_event`].
    Bootstrap,
    /// Terminate the event loop.
    Exit,
    /// Configure the surface against the device.
    Configure(SurfaceConfig),
    /// Carry out a frame, then report with [`App::render_finished`].
    Render(Frame),
    /// Log the error and go on.
    Report(AcquireError),
}

/// The action that goes with a resize.
pub open spec fn resize_action(state: StateView, width: u32, height: u32) -> Action {
    match state.reconfiguration(width, height) {
        Some(config) => Action::Configure(config),
        None => Action::Nothing,
    }
}

/// The render state after a window event.
pub open spec fn state_after(state: StateView, event: Event) -> StateView {
    match event {
        Event::Resized { width, height } => state.resized(width, height),
        Event::KeyboardInput { code, is_pressed } => state.key_handled(key_of(code), is_pressed),
        Event::CursorMoved { x, y, width, height } => state.pointer_moved(x, y, width, height),
        _ => state,
    }
}

/// The action that a window event leads to in the given render state.
pub open spec fn action_for(state: StateView, event: Event) -> Action {
    match event {
        Event::CloseRequested => Action::Exit,
        Event::Resized { width, height } => resize_action(state, width, height),
        Event::RedrawRequested => Action::Render(state.frame()),
        Event::KeyboardInput { code, is_pressed } => if command_of(key_of(code), is_pressed)
            == KeyCommand::Exit {
            Action::Exit
        } else {
            Action::Nothing
        },
        Event::CursorMoved { .. } => Action::Nothing,
        Event::Other => Action::Nothing,
    }
}

/// Whether a render result calls for reconfiguring the surface.
pub open spec fn needs_reconfiguration(result: Result<(), AcquireError>) -> bool {
    result == Err::<(), AcquireError>(AcquireError::Lost) || result == Err::<(), AcquireError>(
        AcquireError::Outdated,
    )
}

/// The render state after a frame ended in `result` while the window's
/// inner size was `width` by `height`: a lost or outdated surface is resized
/// to the window, every other result leaves the state.
pub open spec fn state_after_render(
    state: StateView,
    result: Result<(), AcquireError>,
    width: u32,
    height: u32,
) -> StateView {
    if needs_reconfiguration(result) {
        state.resized(width, height)
    } else {
        state
    }
}

/// The action after a frame ended in `result`.
pub open spec fn action_after_render(
    state: StateView,
    result: Result<(), AcquireError>,
    width: u32,
    height: u32,
) -> Action {
    match result {
        Ok(_) => Action::Nothing,
        Err(error) => if needs_reconfiguration(result) {
            resize_action(state, width, height)
        } else {
            Action::Report(error)
        },
    }
}

/// The shell is either waiting for its first window or holds the render
/// state.
#[derive(Clone, Copy, Debug)]
pub enum Lifecycle {
    Uninitialized,
    Ready(State),
}

/// The application shell.
#[derive(Clone, Copy, Debug)]
pub struct App {
    lifecycle: Lifecycle,
}

impl View for App {
    type V = Option<StateView>;

    closed spec fn view(&self) -> Option<StateView> {
        match self.lifecycle {
            Lifecycle::Uninitialized => None,
            Lifecycle::Ready(state) => Some(state@),
        }
    }
}

impl App {
    /// A shell without a render state.
    pub fn new() -> (app: App)
        ensures
            app@ is None,
    {
        App { lifecycle: Lifecycle::Uninitialized }
    }

    /// The render state, once the shell is ready.
    pub fn state(&self) -> (state: Option<State>)
        ensures
            state is Some <==> self@ is Some,
            state matches Some(s) ==> self@ == Some(s@) && s@.wf(),
    {
        match self.lifecycle {
            Lifecycle::Uninitialized => None,
            Lifecycle::Ready(state) => {
                proof {
                    use_type_invariant(&state);
                }
                Some(state)
            },
        }
    }

    /// A window became available: asks for the bootstrap the first time,
    /// and for nothing once the shell is ready.
    pub fn resumed(&self) -> (action: Action)
        ensures
            action == (if self@ is None {
                Action::Bootstrap
            } else {
                Action::Nothing
            }),
    {
        match self.lifecycle {
            Lifecycle::Uninitialized => Action::Bootstrap,
            Lifecycle::Ready(_) => Action::Nothing,
        }
    }

    /// Takes a constructed render state: the shell is ready from now on.
    pub fn user_event(&mut self, state: State)
        ensures
            final(self)@ == Some(state@),
    {
        self.lifecycle = Lifecycle::Ready(state);
    }

    /// Dispatches a window event. While the shell is uninitialized the event
    /// is dropped. Once ready: a close request or a press of Escape exits, a
    /// resize goes to the render state and yields the configuration to
    /// apply, a redraw request yields the frame to carry out, a press of
    /// Space toggles the pipeline, and a pointer move steers the clear
    /// color.
    pub fn window_event(&mut self, event: Event) -> (action: Action)
        ensures
            old(self)@ is None ==> final(self)@ is None && action == Action::Nothing,
            old(self)@ matches Some(state) ==> final(self)@ == Some(state_after(state, event))
                && action == action_for(state, event) && state_after(state, event).wf(),
    {
        match self.lifecycle {
            Lifecycle::Uninitialized => Action::Nothing,
            Lifecycle::Ready(state) => {
                proof {
                    use_type_invariant(&state);
                }
                let mut state = state;
                let action = match event {
                    Event::CloseRequested => Action::Exit,
                    Event::Resized { width, height } => match state.resize(width, height) {
                        Some(config) => Action::Configure(config),
                        None => Action::Nothing,
                    },
                    Event::RedrawRequested => {
                        state.update();
                        Action::Render(state.render())
                    },
                    Event::KeyboardInput { code, is_pressed } => {
                        if state.handle_key(code, is_pressed) {
                            Action::Exit
                        } else {
                            Action::Nothing
                        }
                    },
                    Event::CursorMoved { x, y, width, height } => {
                        state.update_clear_color(x, y, width, height);
                        Action::Nothing
                    },
                    Event::Other => Action::Nothing,
                };
                self.lifecycle = Lifecycle::Ready(state);
                action
            },
        }
    }

    /// Takes the result of a frame together with the window's current inner
    /// size. A lost or outdated surface is resized to the window at once; any
    /// other error is handed back to be logged; the loop goes on either way.
    pub fn render_finished(&mut self, result: Result<(), AcquireError>, width: u32, height: u32) -> (action: Action)
        ensures
            old(self)@ is None ==> final(self)@ is None && action == Action::Nothing,
            old(self)@ matches Some(state) ==> final(self)@ == Some(
                state_after_render(state, result, width, height),
            ) && action == action_after_render(state, result, width, height),
            action != Action::Exit,
    {
        match self.lifecycle {
            Lifecycle::Uninitialized => Action::Nothing,
            Lifecycle::Ready(state) => {
                let mut state = state;
                let action = match result {
                    Ok(_) => Action::Nothing,
                    Err(AcquireError::Lost) | Err(AcquireError::Outdated) => match state.resize(
                        width,
                        height,
                    ) {
                        Some(config) => Action::Configure(config),
                        None => Action::Nothing,
                    },
                    Err(error) => Action::Report(error),
                };
                self.lifecycle = Lifecycle::Ready(state);
                action
            },
        }
    }
}

/// Once ready, the shell stays ready: no event and no render result takes
/// the render state away.
pub proof fn lemma_ready_is_absorbing(state: StateView, event: Event)
    requires
        state.wf(),
    ensures
        state_after(state, event).wf(),
        action_for(state, event) != Action::Bootstrap,
{
}

/// The render state after a run of window events, handled in order.
pub open spec fn state_after_all(state: StateView, events: Seq<Event>) -> StateView
    decreases events.len(),
{
    if events.len() == 0 {
        state
    } else {
        state_after(state_after_all(state, events.drop_last()), events.last())
    }
}

/// A resize to a size with area: the only event that configures the surface.
pub open spec fn is_effective_resize(event: Event) -> bool {
    event matches Event::Resized { width, height } && width > 0 && height > 0
}

/// After any run of window events the surface is configured exactly when it
/// was configured before or one of the events resized it to a size with
/// area; so no frame draws before the first such resize. The state stays
/// well formed, and format and modes stay as negotiated.
pub proof fn lemma_configured_only_by_resize(state: StateView, events: Seq<Event>)
    requires
        state.wf(),
    ensures
        state_after_all(state, events).wf(),
        state_after_all(state, events).configured <==> (state.configured || exists|i: int|
            0 <= i < events.len() && is_effective_resize(#[trigger] events[i])),
        !state_after_all(state, events).configured ==> state_after_all(
            state,
            events,
        ).frame().pass is None,
        state_after_all(state, events).config.format == state.config.format,
        state_after_all(state, events).config.present_mode == state.config.present_mode,
        state_after_all(state, events).config.alpha_mode == state.config.alpha_mode,
    decreases events.len(),
{
    if events.len() > 0 {
        let front = events.drop_last();
        lemma_configured_only_by_resize(state, front);
        let before = state_after_all(state, front);
        if before.configured && !state.configured {
            let i = choose|i: int| 0 <= i < front.len() && is_effective_resize(#[trigger] front[i]);
            assert(events[i] == front[i]);
        }
        if is_effective_resize(events.last()) {
            assert(is_effective_resize(events[events.len() - 1]));
        }
        if exists|i: int| 0 <= i < events.len() && is_effective_resize(#[trigger] events[i]) {
            let i = choose|i: int| 0 <= i < events.len() && is_effective_resize(#[trigger] events[i]);
            if i < front.len() {
                assert(front[i] == events[i]);
            }
        }
    }
}

/// The device is never asked for what it refuses: a configuration handed
/// out has positive dimensions and the format and modes of the state, and a
/// frame holds a pass exactly when the surface has been configured.
pub proof fn lemma_actions_respect_surface(state: StateView, event: Event)
    requires
        state.wf(),
    ensures
        action_for(state, event) matches Action::Configure(config) ==> config.width > 0
            && config.height > 0 && config == state_after(state, event).config
            && state_after(state, event).configured && config.format == state.config.format
            && config.present_mode == state.config.present_mode && config.alpha_mode
            == state.config.alpha_mode,
        action_for(state, event) matches Action::Render(frame) ==> frame.request_redraw && (
        frame.pass is Some <==> state.configured),
        action_for(state, event) matches Action::Render(frame) ==> state.configured
            ==> state.config.width > 0 && state.config.height > 0,
{
}

/// A lost or outdated surface leads to reconfiguration with the window's
/// size when that size has area, and to nothing when it has none; every
/// other error is reported and leaves the state.
pub proof fn lemma_recovery(state: StateView, error: AcquireError, width: u32, height: u32)
    ensures
        (error == AcquireError::Lost || error == AcquireError::Outdated) ==> state_after_render(
            state,
            Err(error),
            width,
            height,
        ) == state.resized(width, height) && action_after_render(
            state,
            Err(error),
            width,
            height,
        ) == resize_action(state, width, height),
        (error != AcquireError::Lost && error != AcquireError::Outdated) ==> state_after_render(
            state,
            Err(error),
            width,
            height,
        ) == state && action_after_render(state, Err(error), width, height) == Action::Report(
            error,
        ),
{
}

} // verus!
