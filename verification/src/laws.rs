//! What holds of the shell and its states over whole runs, proved from the
//! transitions that the operations are specified by.
use vstd::prelude::*;
use crate::app::{commands_for, state_after, AppView};
use crate::command::Command;
use crate::input::{CursorPosition, KeyCode, WindowEvent};
use crate::state::{key_commands, StateView};
use crate::surface::SurfaceError;

verus! {

/// One thing that happens to the shell.
pub enum Input {
    /// The window reported an event.
    Window { event: WindowEvent },
    /// A frame failed while the window had the given extent.
    FrameFailed { error: SurfaceError, width: u32, height: u32 },
}

/// The shell after one input.
pub open spec fn step(app: AppView, input: Input) -> AppView {
    match input {
        Input::Window { event } => app.after_event(event),
        Input::FrameFailed { error, width, height } => app.after_failure(error, width, height),
    }
}

/// What one input asks for.
pub open spec fn step_commands(app: AppView, input: Input) -> Seq<Command> {
    match input {
        Input::Window { event } => app.event_commands(event),
        Input::FrameFailed { error, width, height } => app.failure_commands(error, width, height),
    }
}

/// Every command asked for while the inputs are handled in turn, in order.
pub open spec fn trace(app: AppView, inputs: Seq<Input>) -> Seq<Command>
    decreases inputs.len(),
{
    if inputs.len() == 0 {
        Seq::empty()
    } else {
        step_commands(app, inputs[0]) + trace(step(app, inputs[0]), inputs.skip(1))
    }
}

/// The shell after the inputs were handled in turn.
pub open spec fn run(app: AppView, inputs: Seq<Input>) -> AppView
    decreases inputs.len(),
{
    if inputs.len() == 0 {
        app
    } else {
        run(step(app, inputs[0]), inputs.skip(1))
    }
}

/// How often a command that satisfies `wanted` occurs among `commands`.
pub open spec fn count(commands: Seq<Command>, wanted: spec_fn(Command) -> bool) -> nat
    decreases commands.len(),
{
    if commands.len() == 0 {
        0
    } else {
        count(commands.drop_last(), wanted) + if wanted(commands.last()) {
            1nat
        } else {
            0nat
        }
    }
}

/// Resizing to a non-empty extent stores that extent, marks the surface
/// configured and asks for exactly one configuration of the surface, with the
/// stored configuration; nothing else about the state changes.
pub proof fn lemma_resize_stores_extent(state: StateView, width: u32, height: u32)
    requires
        width > 0,
        height > 0,
    ensures
        state.resized(width, height).config.width == width,
        state.resized(width, height).config.height == height,
        state.resized(width, height).configured,
        state.resized(width, height).config.format == state.config.format,
        state.resized(width, height).config.present_mode == state.config.present_mode,
        state.resized(width, height).config.alpha_mode == state.config.alpha_mode,
        state.resized(width, height).clear_color == state.clear_color,
        state.resized(width, height).mouse_position == state.mouse_position,
        state.resized(width, height).logging == state.logging,
        state.resize_commands(width, height) == seq![
            Command::ConfigureSurface { config: state.resized(width, height).config },
        ],
{
}

/// Resizing to an extent that is empty in either direction changes nothing
/// and asks for nothing.
pub proof fn lemma_resize_ignores_empty_extent(state: StateView, width: u32, height: u32)
    requires
        width == 0 || height == 0,
    ensures
        state.resized(width, height) == state,
        state.resize_commands(width, height) == Seq::<Command>::empty(),
{
}

/// Resizing keeps a state well formed, and resizing twice to the same extent
/// is resizing once.
pub proof fn lemma_resize_settles(state: StateView, width: u32, height: u32)
    requires
        state.wf(),
    ensures
        state.resized(width, height).wf(),
        state.resized(width, height).resized(width, height) == state.resized(width, height),
{
}

/// A cursor movement is recorded as it came and leaves the clear colour, the
/// configuration and the configured flag as they were; it asks for nothing.
pub proof fn lemma_cursor_recorded(state: StateView, position: CursorPosition)
    ensures
        state_after(state, WindowEvent::CursorMoved { position }).mouse_position == Some(position),
        state_after(state, WindowEvent::CursorMoved { position }).clear_color == state.clear_color,
        state_after(state, WindowEvent::CursorMoved { position }).config == state.config,
        state_after(state, WindowEvent::CursorMoved { position }).configured == state.configured,
        commands_for(state, WindowEvent::CursorMoved { position }) == Seq::<Command>::empty(),
{
}

/// Rendering before the surface was configured only asks for the next
/// redraw: no frame is drawn and the surface is not touched.
pub proof fn lemma_unconfigured_render_is_idle(state: StateView)
    requires
        !state.configured,
    ensures
        state.render_commands() == seq![Command::RequestRedraw],
        forall|i: int|
            0 <= i < state.render_commands().len() ==> !state.render_commands()[i].is_draw()
                && !state.render_commands()[i].is_configure(),
{
}

/// A frame that failed because the surface was lost or outdated is answered
/// as one resize event with the window's extent would be: the state is
/// resized once, and the surface configured at most once.
pub proof fn lemma_recovery_is_one_resize(
    app: AppView,
    error: SurfaceError,
    width: u32,
    height: u32,
)
    requires
        error == SurfaceError::Lost || error == SurfaceError::Outdated,
    ensures
        app.after_failure(error, width, height) == app.after_event(
            WindowEvent::Resized { width, height },
        ),
        app.failure_commands(error, width, height) == app.event_commands(
            WindowEvent::Resized { width, height },
        ),
        count(app.failure_commands(error, width, height), |c: Command| c.is_configure()) == (
        if app.state is Some && width > 0 && height > 0 {
            1nat
        } else {
            0nat
        }),
{
    let wanted = |c: Command| c.is_configure();
    let commands = app.failure_commands(error, width, height);
    if app.state is Some && width > 0 && height > 0 {
        assert(commands.len() == 1);
        assert(commands.drop_last() =~= Seq::<Command>::empty());
        assert(count(commands.drop_last(), wanted) == 0);
        assert(wanted(commands.last()));
    } else {
        assert(commands =~= Seq::<Command>::empty());
    }
}

/// Any other failure is only reported: the state stays as it was.
pub proof fn lemma_other_failure_is_reported(
    app: AppView,
    error: SurfaceError,
    width: u32,
    height: u32,
)
    requires
        error != SurfaceError::Lost,
        error != SurfaceError::Outdated,
    ensures
        app.after_failure(error, width, height) == app,
        app.state is Some ==> app.failure_commands(error, width, height) == seq![
            Command::ReportRenderError { error },
        ],
        app.state is None ==> app.failure_commands(error, width, height) == Seq::<Command>::empty(),
{
}

/// Escape going down asks to leave the event loop exactly once; every other
/// key, and Escape going up, never does.
pub proof fn lemma_escape_exits_once(code: KeyCode, is_pressed: bool)
    ensures
        count(key_commands(code, is_pressed), |c: Command| c is Exit) == (
        if code == KeyCode::Escape && is_pressed {
            1nat
        } else {
            0nat
        }),
{
    let wanted = |c: Command| c is Exit;
    let commands = key_commands(code, is_pressed);
    if code == KeyCode::Escape && is_pressed {
        assert(commands.len() == 1);
        assert(commands.drop_last() =~= Seq::<Command>::empty());
        assert(count(commands.drop_last(), wanted) == 0);
        assert(wanted(commands.last()));
    } else {
        assert(commands =~= Seq::<Command>::empty());
    }
}

/// Nothing that happens to the shell reaches the second window, and nothing
/// gives or takes away the state of the first.
pub proof fn lemma_second_window_is_never_reached(app: AppView, inputs: Seq<Input>)
    ensures
        run(app, inputs).state2 == app.state2,
        run(app, inputs).state is Some <==> app.state is Some,
    decreases inputs.len(),
{
    if inputs.len() > 0 {
        lemma_second_window_is_never_reached(step(app, inputs[0]), inputs.skip(1));
    }
}

/// Whatever happens, the first window keeps the format and the modes that
/// were negotiated for it, its clear colour and its logging flag; it stays
/// well formed, and once configured it stays configured.
pub proof fn lemma_negotiated_configuration_is_kept(app: AppView, inputs: Seq<Input>)
    requires
        app.state is Some,
        app.state->0.wf(),
    ensures
        run(app, inputs).state is Some,
        run(app, inputs).state->0.wf(),
        run(app, inputs).state->0.config.format == app.state->0.config.format,
        run(app, inputs).state->0.config.present_mode == app.state->0.config.present_mode,
        run(app, inputs).state->0.config.alpha_mode == app.state->0.config.alpha_mode,
        run(app, inputs).state->0.config.desired_maximum_frame_latency
            == app.state->0.config.desired_maximum_frame_latency,
        run(app, inputs).state->0.clear_color == app.state->0.clear_color,
        run(app, inputs).state->0.logging == app.state->0.logging,
        app.state->0.configured ==> run(app, inputs).state->0.configured,
    decreases inputs.len(),
{
    if inputs.len() > 0 {
        lemma_negotiated_configuration_is_kept(step(app, inputs[0]), inputs.skip(1));
    }
}

/// A shell without a state drops whatever happens to it.
pub proof fn lemma_without_state_nothing_happens(app: AppView, inputs: Seq<Input>)
    requires
        app.state is None,
    ensures
        trace(app, inputs) == Seq::<Command>::empty(),
    decreases inputs.len(),
{
    if inputs.len() > 0 {
        lemma_without_state_nothing_happens(step(app, inputs[0]), inputs.skip(1));
        assert(trace(app, inputs) =~= Seq::<Command>::empty());
    }
}

/// Whenever a frame is drawn, the surface was configured: by the state the
/// run began in, or by a command earlier in the run.
pub proof fn lemma_drawn_after_configured(app: AppView, inputs: Seq<Input>, at: int)
    requires
        0 <= at < trace(app, inputs).len(),
        trace(app, inputs)[at].is_draw(),
    ensures
        app.state is Some,
        app.state->0.configured || exists|earlier: int|
            0 <= earlier < at && #[trigger] trace(app, inputs)[earlier].is_configure(),
    decreases inputs.len(),
{
    let head = step_commands(app, inputs[0]);
    let next = step(app, inputs[0]);
    let rest = trace(next, inputs.skip(1));
    assert(trace(app, inputs) == head + rest);
    if app.state is None {
        lemma_without_state_nothing_happens(app, inputs);
    } else if at >= head.len() {
        lemma_drawn_after_configured(next, inputs.skip(1), at - head.len());
        if next.state->0.configured {
            if !app.state->0.configured {
                assert(head.len() > 0 && head[0].is_configure());
                assert(trace(app, inputs)[0].is_configure());
            }
        } else {
            let earlier = choose|earlier: int|
                0 <= earlier < at - head.len() && #[trigger] rest[earlier].is_configure();
            assert(trace(app, inputs)[head.len() + earlier].is_configure());
        }
    }
}

/// From a fresh state, no frame is drawn before the surface was configured.
pub proof fn lemma_no_frame_before_configuration(app: AppView, inputs: Seq<Input>, at: int)
    requires
        app.state is Some ==> !app.state->0.configured,
        0 <= at < trace(app, inputs).len(),
        trace(app, inputs)[at].is_draw(),
    ensures
        exists|earlier: int|
            0 <= earlier < at && #[trigger] trace(app, inputs)[earlier].is_configure(),
{
    lemma_drawn_after_configured(app, inputs, at);
}

} // verus!
