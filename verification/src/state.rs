use vstd::prelude::*;
use crate::color::Color;
use crate::command::{Command, Pipeline};
use crate::input::{CursorPosition, KeyCode};
use crate::surface::{SetupError, SurfaceCapabilities, SurfaceConfig, SurfaceError};

verus! {

/// Vertices of the built-in triangle.
pub const TRIANGLE_VERTICES: u32 = 3;

/// The render state of one window.
#[derive(Debug)]
pub struct State {
    config: SurfaceConfig,
    is_surface_configured: bool,
    clear_color: Color,
    logging: bool,
    mouse_position: Option<CursorPosition>,
}

/// What a [`State`] holds.
pub struct StateView {
    pub config: SurfaceConfig,
    pub configured: bool,
    pub clear_color: Color,
    pub logging: bool,
    pub mouse_position: Option<CursorPosition>,
}

/// What a key event asks for: leaving the event loop when Escape goes down,
/// and nothing otherwise.
pub open spec fn key_commands(code: KeyCode, is_pressed: bool) -> Seq<Command> {
    if code == KeyCode::Escape && is_pressed {
        seq![Command::Exit]
    } else {
        Seq::empty()
    }
}

impl StateView {
    /// A surface is only ever marked configured with a non-empty extent.
    pub open spec fn wf(self) -> bool {
        self.configured ==> self.config.width > 0 && self.config.height > 0
    }

    /// The state of a window before its first resize event: not yet
    /// configured, cleared to dark grey, cursor unknown.
    pub open spec fn initial(config: SurfaceConfig, logging: bool) -> StateView {
        StateView {
            config,
            configured: false,
            clear_color: Color::dark_grey(),
            logging,
            mouse_position: None,
        }
    }

    /// The state after the window took the given extent.
    pub open spec fn resized(self, width: u32, height: u32) -> StateView {
        if width > 0 && height > 0 {
            StateView {
                config: SurfaceConfig { width, height, ..self.config },
                configured: true,
                ..self
            }
        } else {
            self
        }
    }

    /// What resizing to the given extent asks of the surface.
    pub open spec fn resize_commands(self, width: u32, height: u32) -> Seq<Command> {
        if width > 0 && height > 0 {
            seq![Command::ConfigureSurface { config: self.resized(width, height).config }]
        } else {
            Seq::empty()
        }
    }

    /// The frame drawn for this state.
    pub open spec fn frame(self) -> Command {
        Command::DrawFrame {
            clear_color: self.clear_color,
            pipeline: Pipeline::Default,
            vertices: TRIANGLE_VERTICES,
            instances: 1,
        }
    }

    /// What rendering asks for: always another redraw, and a frame once the
    /// surface has been configured.
    pub open spec fn render_commands(self) -> Seq<Command> {
        if self.configured {
            seq![Command::RequestRedraw, self.frame()]
        } else {
            seq![Command::RequestRedraw]
        }
    }

    /// The state after a frame failed with `error` in a window of the given
    /// extent: a lost or outdated surface is resized to that extent.
    pub open spec fn recovered(self, error: SurfaceError, width: u32, height: u32) -> StateView {
        if error.recoverable() {
            self.resized(width, height)
        } else {
            self
        }
    }

    /// What a failed frame asks for: the commands of the resize when the
    /// surface was lost or outdated, a report of the error otherwise.
    pub open spec fn recovery_commands(
        self,
        error: SurfaceError,
        width: u32,
        height: u32,
    ) -> Seq<Command> {
        if error.recoverable() {
            self.resize_commands(width, height)
        } else {
            seq![Command::ReportRenderError { error }]
        }
    }
}

impl View for State {
    type V = StateView;

    closed spec fn view(&self) -> StateView {
        StateView {
            config: self.config,
            configured: self.is_surface_configured,
            clear_color: self.clear_color,
            logging: self.logging,
            mouse_position: self.mouse_position,
        }
    }
}

impl State {
    #[verifier::type_invariant]
    spec fn inv(self) -> bool {
        self@.wf()
    }

    /// Sets up the state for a surface of the given extent and capabilities.
    /// Fails exactly when the capabilities leave nothing to choose from.
    pub fn new(
        width: u32,
        height: u32,
        capabilities: &SurfaceCapabilities,
        logging: bool,
    ) -> (result: Result<State, SetupError>)
        ensures
            match result {
                Ok(state) => {
                    &&& capabilities.shortfall() is None
                    &&& state@ == StateView::initial(
                        capabilities.config_for(width, height),
                        logging,
                    )
                    &&& state@.wf()
                },
                Err(error) => capabilities.shortfall() == Some(error),
            },
    {
        match capabilities.configure(width, height) {
            Ok(config) => Ok(
                State {
                    config,
                    is_surface_configured: false,
                    clear_color: Color::initial(),
                    logging,
                    mouse_position: None,
                },
            ),
            Err(error) => Err(error),
        }
    }

    /// The configuration the surface has, or will be given first.
    pub fn config(&self) -> (config: SurfaceConfig)
        ensures
            config == self@.config,
    {
        self.config
    }

    /// Whether the surface has been configured since the state was set up.
    /// A configured surface has a non-empty extent.
    pub fn is_surface_configured(&self) -> (configured: bool)
        ensures
            configured == self@.configured,
            configured ==> self@.config.width > 0 && self@.config.height > 0,
    {
        proof {
            use_type_invariant(self);
        }
        self.is_surface_configured
    }

    /// The colour each frame is cleared to.
    pub fn clear_color(&self) -> (color: Color)
        ensures
            color == self@.clear_color,
    {
        self.clear_color
    }

    /// Whether the capabilities found during setup are to be listed.
    pub fn logging(&self) -> (logging: bool)
        ensures
            logging == self@.logging,
    {
        self.logging
    }

    /// Where the cursor was last seen, if it was.
    pub fn mouse_position(&self) -> (position: Option<CursorPosition>)
        ensures
            position == self@.mouse_position,
    {
        self.mouse_position
    }

    /// Takes the window's new extent. A non-empty extent is stored and the
    /// surface configured with it; an empty one changes nothing.
    pub fn resize(&mut self, width: u32, height: u32) -> (commands: Vec<Command>)
        ensures
            final(self)@ == old(self)@.resized(width, height),
            commands@ == old(self)@.resize_commands(width, height),
            width > 0 && height > 0 ==> {
                &&& final(self)@.config.width == width
                &&& final(self)@.config.height == height
                &&& final(self)@.configured
            },
            width == 0 || height == 0 ==> final(self)@ == old(self)@ && commands@.len() == 0,
            final(self)@.wf(),
    {
        proof {
            use_type_invariant(&*self);
        }
        let mut commands: Vec<Command> = Vec::new();
        if width > 0 && height > 0 {
            self.config.width = width;
            self.config.height = height;
            self.is_surface_configured = true;
            commands.push(Command::ConfigureSurface { config: self.config });
        }
        assert(commands@ =~= old(self)@.resize_commands(width, height));
        commands
    }

    /// Draws a frame: asks for the next redraw, and, once the surface has
    /// been configured, for the triangle on the clear colour. Before that
    /// the surface is left alone.
    pub fn render(&mut self) -> (commands: Vec<Command>)
        ensures
            final(self)@ == old(self)@,
            commands@ == old(self)@.render_commands(),
            !old(self)@.configured ==> commands@ == seq![Command::RequestRedraw],
    {
        let mut commands: Vec<Command> = Vec::new();
        commands.push(Command::RequestRedraw);
        if self.is_surface_configured {
            commands.push(
                Command::DrawFrame {
                    clear_color: self.clear_color,
                    pipeline: Pipeline::Default,
                    vertices: TRIANGLE_VERTICES,
                    instances: 1,
                },
            );
        }
        assert(commands@ =~= old(self)@.render_commands());
        commands
    }

    /// Answers a frame that failed with `error` while the window had the
    /// given extent.
    pub fn render_failed(
        &mut self,
        error: SurfaceError,
        width: u32,
        height: u32,
    ) -> (commands: Vec<Command>)
        ensures
            final(self)@ == old(self)@.recovered(error, width, height),
            commands@ == old(self)@.recovery_commands(error, width, height),
            final(self)@.wf(),
    {
        if error.is_recoverable() {
            self.resize(width, height)
        } else {
            let mut commands: Vec<Command> = Vec::new();
            commands.push(Command::ReportRenderError { error });
            assert(commands@ =~= old(self)@.recovery_commands(error, width, height));
            proof {
                use_type_invariant(&*self);
            }
            commands
        }
    }

    /// Takes a key going down or up.
    pub fn handle_key(&mut self, code: KeyCode, is_pressed: bool) -> (commands: Vec<Command>)
        ensures
            final(self)@ == old(self)@,
            commands@ == key_commands(code, is_pressed),
    {
        let mut commands: Vec<Command> = Vec::new();
        match (code, is_pressed) {
            (KeyCode::Escape, true) => {
                commands.push(Command::Exit);
            },
            _ => {},
        }
        assert(commands@ =~= key_commands(code, is_pressed));
        commands
    }

    /// Tints the clear colour by the cursor: `red` and `green` are the
    /// cursor's horizontal and vertical position as fractions of the
    /// window's extent.
    pub fn handle_mouse_moved(&mut self, red: u64, green: u64)
        ensures
            final(self)@ == (StateView {
                clear_color: old(self)@.clear_color.with_red_green(red, green),
                ..old(self)@
            }),
            final(self)@.clear_color.r == red,
            final(self)@.clear_color.g == green,
            final(self)@.clear_color.b == old(self)@.clear_color.b,
            final(self)@.clear_color.a == old(self)@.clear_color.a,
    {
        proof {
            use_type_invariant(&*self);
        }
        self.clear_color = self.clear_color.replace_red_green(red, green);
    }

    /// Records where the cursor is.
    pub fn handle_mouse_moved2(&mut self, position: CursorPosition)
        ensures
            final(self)@ == (StateView { mouse_position: Some(position), ..old(self)@ }),
            final(self)@.clear_color == old(self)@.clear_color,
    {
        proof {
            use_type_invariant(&*self);
        }
        self.mouse_position = Some(position);
    }

    /// Advances the scene by one frame. The scene is static.
    pub fn update(&mut self)
        ensures
            final(self)@ == old(self)@,
    {
    }
}

} // verus!
