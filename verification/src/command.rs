use vstd::prelude::*;
use crate::color::Color;
use crate::surface::{SurfaceConfig, SurfaceError};

verus! {

/// The compiled pipelines a state owns.
#[derive(Clone, Copy, Debug, PartialEq, Eq, Structural)]
pub enum Pipeline {
    /// Draws the built-in triangle.
    Default,
    /// Reserved for custom drawing.
    Custom,
}

/// Work that the owner of the window and the GPU objects performs on behalf
/// of a state.
#[derive(Clone, Copy, Debug, PartialEq)]
pub enum Command {
    /// Ask the window for another redraw event.
    RequestRedraw,
    /// Apply this configuration to the presentation surface.
    ConfigureSurface { config: SurfaceConfig },
    /// Acquire the next surface texture, clear it to `clear_color`, draw
    /// `vertices` vertices in `instances` instances with `pipeline`, submit
    /// and present.
    DrawFrame { clear_color: Color, pipeline: Pipeline, vertices: u32, instances: u32 },
    /// Leave the event loop.
    Exit,
    /// Log that the user asked for the window to be closed.
    ReportCloseRequest,
    /// Log that a frame could not be rendered.
    ReportRenderError { error: SurfaceError },
}

impl Command {
    /// Whether this command draws a frame.
    pub open spec fn is_draw(self) -> bool {
        self is DrawFrame
    }

    /// Whether this command configures the surface.
    pub open spec fn is_configure(self) -> bool {
        self is ConfigureSurface
    }
}

} // verus!
