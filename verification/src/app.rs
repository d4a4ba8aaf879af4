use vstd::prelude::*;
use crate::command::Command;
use crate::input::WindowEvent;
use crate::state::{key_commands, State, StateView};
use crate::surface::SurfaceError;

verus! {

/// Title, extent and position that a window is created with.
#[derive(Clone, Copy, Debug, PartialEq, Eq)]
pub struct WindowAttributes {
    pub title: &'static str,
    pub width: u32,
    pub height: u32,
    pub x: i32,
    pub y: i32,
}

/// Width that both windows are created with, in physical pixels.
pub const WINDOW_WIDTH: u32 = 800;

/// Height that both windows are created with, in physical pixels.
pub const WINDOW_HEIGHT: u32 = 500;

/// The window that receives events: at the top left corner of the screen.
pub fn primary_window() -> (attributes: WindowAttributes)
    ensures
        attributes.title@ == "안녕1"@,
        attributes.width == WINDOW_WIDTH,
        attributes.height == WINDOW_HEIGHT,
        attributes.x == 0,
        attributes.y == 0,
{
    WindowAttributes { title: "안녕1", width: WINDOW_WIDTH, height: WINDOW_HEIGHT, x: 0, y: 0 }
}

/// The second window: to the right of the first.
pub fn secondary_window() -> (attributes: WindowAttributes)
    ensures
        attributes.title@ == "안녕2"@,
        attributes.width == WINDOW_WIDTH,
        attributes.height == WINDOW_HEIGHT,
        attributes.x == WINDOW_WIDTH,
        attributes.y == 0,
{
    WindowAttributes { title: "안녕2", width: WINDOW_WIDTH, height: WINDOW_HEIGHT, x: 800, y: 0 }
}

/// The state of a window after it reported `event`.
pub open spec fn state_after(state: StateView, event: WindowEvent) -> StateView {
    match event {
        WindowEvent::Resized { width, height } => state.resized(width, height),
        WindowEvent::CursorMoved { position } => StateView {
            mouse_position: Some(position),
            ..state
        },
        _ => state,
    }
}

/// What a window's `event` asks for, given the state the window is in.
pub open spec fn commands_for(state: StateView, event: WindowEvent) -> Seq<Command> {
    match event {
        WindowEvent::CloseRequested => seq![Command::ReportCloseRequest],
        WindowEvent::Resized { width, height } => state.resize_commands(width, height),
        WindowEvent::RedrawRequested => state.render_commands(),
        WindowEvent::KeyboardInput { key: Some(code), pressed } => key_commands(code, pressed),
        _ => Seq::empty(),
    }
}

/// The shell around the render states: it takes what the windowing system
/// reports and hands it to the state of the window concerned.
pub struct App {
    state: Option<State>,
    state2: Option<State>,
}

/// What an [`App`] holds.
pub struct AppView {
    /// The state of the window whose events are handled.
    pub state: Option<StateView>,
    /// The state of the second window, which receives no events.
    pub state2: Option<StateView>,
}

impl AppView {
    /// The shell after `event`. Without a state the event is dropped.
    pub open spec fn after_event(self, event: WindowEvent) -> AppView {
        match self.state {
            Some(state) => AppView { state: Some(state_after(state, event)), ..self },
            None => self,
        }
    }

    /// What `event` asks for. Without a state the event is dropped.
    pub open spec fn event_commands(self, event: WindowEvent) -> Seq<Command> {
        match self.state {
            Some(state) => commands_for(state, event),
            None => Seq::empty(),
        }
    }

    /// The shell after a frame failed with `error` in a window of the given
    /// extent.
    pub open spec fn after_failure(self, error: SurfaceError, width: u32, height: u32) -> AppView {
        match self.state {
            Some(state) => AppView { state: Some(state.recovered(error, width, height)), ..self },
            None => self,
        }
    }

    /// What a frame that failed with `error` asks for.
    pub open spec fn failure_commands(
        self,
        error: SurfaceError,
        width: u32,
        height: u32,
    ) -> Seq<Command> {
        match self.state {
            Some(state) => state.recovery_commands(error, width, height),
            None => Seq::empty(),
        }
    }
}

spec fn view_of(state: Option<State>) -> Option<StateView> {
    match state {
        Some(state) => Some(state@),
        None => None,
    }
}

impl View for App {
    type V = AppView;

    closed spec fn view(&self) -> AppView {
        AppView { state: view_of(self.state), state2: view_of(self.state2) }
    }
}

impl App {
    /// A shell without windows.
    pub fn new() -> (app: App)
        ensures
            app@.state is None,
            app@.state2 is None,
    {
        App { state: None, state2: None }
    }

    /// Takes over the states of the two windows created when the windowing
    /// system became ready.
    pub fn resumed(&mut self, first: State, second: State)
        ensures
            final(self)@.state == Some(first@),
            final(self)@.state2 == Some(second@),
    {
        self.state = Some(first);
        self.state2 = Some(second);
    }

    /// Takes over a state that was set up elsewhere as the one whose events
    /// are handled.
    pub fn user_event(&mut self, event: State)
        ensures
            final(self)@.state == Some(event@),
            final(self)@.state2 == old(self)@.state2,
    {
        self.state = Some(event);
    }

    /// Handles what the window reported.
    pub fn window_event(&mut self, event: WindowEvent) -> (commands: Vec<Command>)
        ensures
            final(self)@ == old(self)@.after_event(event),
            commands@ == old(self)@.event_commands(event),
    {
        let mut commands: Vec<Command> = Vec::new();
        match &mut self.state {
            None => {},
            Some(state) => {
                match event {
                    WindowEvent::CloseRequested => {
                        commands.push(Command::ReportCloseRequest);
                    },
                    WindowEvent::Resized { width, height } => {
                        commands = state.resize(width, height);
                    },
                    WindowEvent::RedrawRequested => {
                        state.update();
                        commands = state.render();
                    },
                    WindowEvent::KeyboardInput { key: Some(code), pressed } => {
                        commands = state.handle_key(code, pressed);
                    },
                    WindowEvent::CursorMoved { position } => {
                        state.handle_mouse_moved2(position);
                    },
                    _ => {},
                }
            },
        }
        assert(commands@ =~= old(self)@.event_commands(event));
        commands
    }

    /// Handles a frame that failed with `error` while the window had the
    /// given extent.
    pub fn render_failed(
        &mut self,
        error: SurfaceError,
        width: u32,
        height: u32,
    ) -> (commands: Vec<Command>)
        ensures
            final(self)@ == old(self)@.after_failure(error, width, height),
            commands@ == old(self)@.failure_commands(error, width, height),
    {
        match &mut self.state {
            None => Vec::new(),
            Some(state) => state.render_failed(error, width, height),
        }
    }

    /// The state of the window whose events are handled.
    pub fn state(&self) -> (state: Option<&State>)
        ensures
            match state {
                Some(state) => self@.state == Some(state@),
                None => self@.state is None,
            },
    {
        self.state.as_ref()
    }

    /// The state of the second window.
    pub fn state2(&self) -> (state: Option<&State>)
        ensures
            match state {
                Some(state) => self@.state2 == Some(state@),
                None => self@.state2 is None,
            },
    {
        self.state2.as_ref()
    }
}

} // verus!
