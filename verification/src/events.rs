//! Plain data types shared between the scheduling loop and the embedding
//! application: the events the loop reacts to, the directives it hands back
//! to the dispatcher, and the read-only values it exposes to callbacks.

use vstd::prelude::*;

verus! {

/// A window or dispatch event, reduced to exactly what the scheduling loop
/// reads. The embedding application translates its windowing backend's raw
/// events into this form before handing them to the loop.
#[derive(Clone, Copy, PartialEq, Eq, Structural, Debug)]
pub enum LoopEvent {
    /// The user asked to close the window.
    CloseRequested,
    /// The window became fully hidden (`true`) or visible again (`false`).
    Occluded(bool),
    /// The window is due for a new frame.
    RedrawRequested,
    /// The dispatcher drained its queue; a redraw should be requested so the
    /// next frame becomes due.
    MainEventsCleared,
    /// Any other event; the loop forwards it to the handler callback and
    /// otherwise ignores it.
    Other,
}

/// What the event dispatcher must do after the loop has processed one event.
#[derive(Clone, Copy, PartialEq, Eq, Structural, Debug)]
pub enum LoopDirective {
    /// Nothing to do; keep dispatching events.
    KeepRunning,
    /// Ask the window for a redraw so the next frame becomes due.
    RedrawNow,
    /// The window is hidden: block the calling thread for this many
    /// nanoseconds instead of rendering, to avoid busy-spinning.
    Sleep(u64),
    /// The loop is finished; terminate the dispatch loop.
    Exit,
}

/// The interpolation fraction handed to the renderer: how far, as the exact
/// rational `numerator / denominator`, the current wall time lies between the
/// last completed simulation step and the next one. Always in `[0, 1)`.
#[derive(Clone, Copy, PartialEq, Eq, Structural, Debug)]
pub struct BlendingFactor {
    /// Unconsumed simulation time at the moment of rendering, in nanoseconds.
    pub numerator: u64,
    /// One fixed time step, in nanoseconds.
    pub denominator: u64,
}

/// A read-only snapshot of the loop's observable state, passed to the update
/// and render callbacks.
#[derive(Clone, Copy, PartialEq, Eq, Structural, Debug)]
pub struct LoopStats {
    /// Target number of simulation steps per second.
    pub updates_per_second: u64,
    /// Upper bound on the wall time credited to a single frame, nanoseconds.
    pub max_frame_time: u64,
    /// Length of one simulation step, nanoseconds.
    pub fixed_time_step: u64,
    /// Total simulation steps run so far.
    pub number_of_updates: u64,
    /// Total frames rendered so far.
    pub number_of_renders: u64,
    /// Clamped elapsed wall time of the current frame, nanoseconds.
    pub last_frame_time: u64,
    /// Sum of all clamped elapsed times so far, nanoseconds.
    pub running_time: u64,
    /// Whether the window is currently reported as fully hidden.
    pub window_occluded: bool,
    /// Whether the loop will stop at the start of the next frame.
    pub exit_next_iteration: bool,
    /// Instantaneous frame rate in millihertz (thousandths of a frame per
    /// second), or `0` while no frame has been measured yet.
    pub frame_rate_millihertz: u64,
}

} // verus!
