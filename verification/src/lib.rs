//! The decisions of a small windowed renderer, separated from the windowing
//! and graphics services that carry them out.
//!
//! A [`State`] tracks one window's swap configuration, clear colour and cursor;
//! an [`App`] routes window events to it. Every operation returns the
//! [`Command`]s that the caller must perform on the window and the GPU, so the
//! whole behaviour is a function from state and event to state and commands.
use vstd::prelude::*;

pub mod app;
pub mod color;
pub mod command;
pub mod input;
pub mod laws;
pub mod state;
pub mod surface;

pub use app::{primary_window, secondary_window, App, AppView, WindowAttributes};
pub use color::Color;
pub use command::{Command, Pipeline};
pub use input::{CursorPosition, KeyCode, WindowEvent};
pub use state::{State, StateView};
pub use surface::{SetupError, SurfaceCapabilities, SurfaceConfig, SurfaceError};
