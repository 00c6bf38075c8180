//! The mathematical model of the scheduling loop.
//!
//! [`LoopModel`] mirrors the loop's state in unbounded integers (nanoseconds
//! for every time quantity), and the spec functions here say exactly how one
//! displayed frame transforms that state. The executable loop in
//! [`crate::game_loop`] is proved to follow these functions step for step,
//! and the proof functions at the end of this module state the loop's laws
//! once and for all over the model.

use vstd::arithmetic::div_mod::lemma_fundamental_div_mod_converse;
use vstd::prelude::*;

use crate::events::{LoopDirective, LoopEvent, LoopStats};

verus! {

/// Nanoseconds in one second; all wall time is counted in nanoseconds.
pub const NANOS_PER_SEC: u64 = 1_000_000_000;

/// Scale factor turning a frame duration in nanoseconds into a frame rate in
/// millihertz: `MILLIHERTZ_SCALE / duration_nanos` is `1000 / duration_secs`.
pub const MILLIHERTZ_SCALE: u64 = 1_000_000_000_000;

/// `a + b`, capped at `u64::MAX`: the model of saturating addition on the
/// loop's diagnostic counters.
pub open spec fn cap_add(a: nat, b: nat) -> nat {
    if a + b <= u64::MAX {
        (a + b) as nat
    } else {
        u64::MAX as nat
    }
}

/// Wall time from `previous` to `now`, or zero if the clock value did not
/// move forward.
pub open spec fn elapsed_between(previous: nat, now: nat) -> nat {
    if now >= previous {
        (now - previous) as nat
    } else {
        0
    }
}

/// The elapsed time actually credited to a frame: never more than
/// `max_frame_time`, so a stall cannot queue an unbounded number of
/// catch-up steps.
pub open spec fn clamped(elapsed: nat, max_frame_time: nat) -> nat {
    if elapsed > max_frame_time {
        max_frame_time
    } else {
        elapsed
    }
}

/// The scheduling state of the loop, in unbounded integers. Every time field
/// is in nanoseconds; `previous_instant` and `current_instant` are offsets
/// from the moment the loop was constructed.
pub ghost struct LoopModel {
    /// Target number of simulation steps per second; fixed at construction.
    pub updates_per_second: nat,
    /// Upper bound on the wall time credited to a single frame.
    pub max_frame_time: nat,
    /// Length of one simulation step: `NANOS_PER_SEC / updates_per_second`.
    pub fixed_time_step: nat,
    /// Total simulation steps run so far.
    pub number_of_updates: nat,
    /// Total frames rendered so far.
    pub number_of_renders: nat,
    /// Clamped elapsed wall time of the last frame.
    pub last_frame_time: nat,
    /// Sum of all clamped elapsed times; never decreases.
    pub running_time: nat,
    /// Unconsumed simulation time carried to the next frame.
    pub accumulated_time: nat,
    /// Numerator of the interpolation fraction handed to the renderer; the
    /// denominator is always `fixed_time_step`.
    pub blending_numerator: nat,
    /// Clock offset sampled at the start of the previous frame.
    pub previous_instant: nat,
    /// Clock offset sampled at the start of the current frame.
    pub current_instant: nat,
    /// Wall time the last measured frame took, or zero while none has been
    /// measured.
    pub frame_duration: nat,
    /// Whether the window is reported as fully hidden.
    pub window_occluded: bool,
    /// Once set, the next frame performs no work and reports termination.
    pub exit_next_iteration: bool,
}

impl LoopModel {
    /// Well-formedness: the configuration is one the loop can be constructed
    /// with, the derived step length matches it, the accumulator invariant
    /// holds, and every field fits the machine word it is stored in.
    pub open spec fn inv(self) -> bool {
        &&& 1 <= self.updates_per_second <= NANOS_PER_SEC
        &&& self.fixed_time_step == NANOS_PER_SEC as nat / self.updates_per_second
        &&& 1 <= self.fixed_time_step <= NANOS_PER_SEC
        &&& self.max_frame_time <= u64::MAX - NANOS_PER_SEC
        &&& self.accumulated_time < self.fixed_time_step
        &&& self.blending_numerator < self.fixed_time_step
        &&& self.number_of_updates <= u64::MAX
        &&& self.number_of_renders <= u64::MAX
        &&& self.last_frame_time <= u64::MAX
        &&& self.running_time <= u64::MAX
        &&& self.previous_instant <= u64::MAX
        &&& self.current_instant <= u64::MAX
        &&& self.frame_duration <= u64::MAX
    }

    /// The state of a freshly constructed loop: counters and accumulators at
    /// zero, both clock offsets at the construction instant.
    pub open spec fn initial(updates_per_second: nat, max_frame_time: nat) -> LoopModel {
        LoopModel {
            updates_per_second,
            max_frame_time,
            fixed_time_step: NANOS_PER_SEC as nat / updates_per_second,
            number_of_updates: 0,
            number_of_renders: 0,
            last_frame_time: 0,
            running_time: 0,
            accumulated_time: 0,
            blending_numerator: 0,
            previous_instant: 0,
            current_instant: 0,
            frame_duration: 0,
            window_occluded: false,
            exit_next_iteration: false,
        }
    }

    /// The elapsed time credited to a frame that starts at clock offset
    /// `now`: the wall time since the previous frame, clamped.
    pub open spec fn frame_elapsed(self, now: nat) -> nat {
        clamped(elapsed_between(self.previous_instant, now), self.max_frame_time)
    }

    /// One displayed frame, starting at clock offset `now`: credit the
    /// clamped elapsed time, consume it in whole fixed steps, set the
    /// interpolation fraction from what is left, and count a render unless
    /// the window is hidden.
    pub open spec fn advanced(self, now: nat) -> LoopModel {
        let elapsed = self.frame_elapsed(now);
        let total = self.accumulated_time + elapsed;
        LoopModel {
            number_of_updates: cap_add(self.number_of_updates, total / self.fixed_time_step),
            number_of_renders: if self.window_occluded {
                self.number_of_renders
            } else {
                cap_add(self.number_of_renders, 1)
            },
            last_frame_time: elapsed,
            running_time: cap_add(self.running_time, elapsed),
            accumulated_time: total % self.fixed_time_step,
            blending_numerator: total % self.fixed_time_step,
            previous_instant: now,
            current_instant: now,
            ..self
        }
    }

    /// Refreshing the frame-rate statistic: a measured duration of zero
    /// leaves the previous value in place.
    pub open spec fn recorded(self, duration: nat) -> LoopModel {
        if duration == 0 {
            self
        } else {
            LoopModel { frame_duration: duration, ..self }
        }
    }

    /// The state after an exit request.
    pub open spec fn with_exit(self) -> LoopModel {
        LoopModel { exit_next_iteration: true, ..self }
    }

    /// The state after the handler callback ran: the handler sees every event
    /// first and may request exit, nothing else of the loop's state.
    pub open spec fn after_handler(self, handler_exit: bool) -> LoopModel {
        if handler_exit {
            self.with_exit()
        } else {
            self
        }
    }

    /// The loop's bookkeeping for one dispatched event, after the handler
    /// callback returned `handler_exit`. A due frame advances the loop at
    /// clock offset `now` and then records a measured duration of
    /// `duration` nanoseconds.
    pub open spec fn event_step(
        self,
        event: LoopEvent,
        handler_exit: bool,
        now: nat,
        duration: nat,
    ) -> LoopModel {
        let m = self.after_handler(handler_exit);
        match event {
            LoopEvent::CloseRequested => m.with_exit(),
            LoopEvent::Occluded(hidden) => LoopModel { window_occluded: hidden, ..m },
            LoopEvent::RedrawRequested => if m.exit_next_iteration {
                m
            } else {
                m.advanced(now).recorded(duration)
            },
            LoopEvent::MainEventsCleared => m,
            LoopEvent::Other => m,
        }
    }

    /// What the dispatcher must do after one event: request the next redraw
    /// once its queue is drained, stop once a due frame finds the exit flag
    /// set, and yield for one fixed step instead of rendering while the
    /// window is hidden.
    pub open spec fn event_directive(self, event: LoopEvent, handler_exit: bool) -> LoopDirective {
        let m = self.after_handler(handler_exit);
        match event {
            LoopEvent::RedrawRequested => if m.exit_next_iteration {
                LoopDirective::Exit
            } else if m.window_occluded {
                LoopDirective::Sleep(m.fixed_time_step as u64)
            } else {
                LoopDirective::KeepRunning
            },
            LoopEvent::MainEventsCleared => LoopDirective::RedrawNow,
            _ => LoopDirective::KeepRunning,
        }
    }

    /// The read-only snapshot of this state that callbacks receive.
    pub open spec fn stats_of(self) -> LoopStats {
        LoopStats {
            updates_per_second: self.updates_per_second as u64,
            max_frame_time: self.max_frame_time as u64,
            fixed_time_step: self.fixed_time_step as u64,
            number_of_updates: self.number_of_updates as u64,
            number_of_renders: self.number_of_renders as u64,
            last_frame_time: self.last_frame_time as u64,
            running_time: self.running_time as u64,
            window_occluded: self.window_occluded,
            exit_next_iteration: self.exit_next_iteration,
            frame_rate_millihertz: if self.frame_duration == 0 {
                0
            } else {
                (MILLIHERTZ_SCALE as nat / self.frame_duration) as u64
            },
        }
    }
}

/// After every frame the accumulator holds less than one fixed time step of
/// unconsumed simulation time, and the state stays well formed; since this
/// holds of every single frame, it holds after any sequence of frames.
pub proof fn lemma_advance_preserves_inv(m: LoopModel, now: nat)
    requires
        m.inv(),
        now <= u64::MAX,
    ensures
        m.advanced(now).inv(),
        m.advanced(now).accumulated_time < m.fixed_time_step,
{
    let total = m.accumulated_time + m.frame_elapsed(now);
    vstd::arithmetic::div_mod::lemma_mod_bound(total as int, m.fixed_time_step as int);
}

/// The interpolation fraction handed to the renderer is always in `[0, 1)`:
/// its numerator stays strictly below its denominator, one fixed time step.
pub proof fn lemma_blending_factor_in_range(m: LoopModel, now: nat)
    requires
        m.inv(),
    ensures
        m.advanced(now).blending_numerator < m.fixed_time_step,
{
    let total = m.accumulated_time + m.frame_elapsed(now);
    vstd::arithmetic::div_mod::lemma_mod_bound(total as int, m.fixed_time_step as int);
}

/// A frame whose elapsed wall time is exactly `k` fixed time steps (and short
/// enough not to be clamped) runs exactly `k` simulation steps and leaves the
/// accumulator as it found it; started from an empty accumulator, the
/// interpolation fraction afterwards is exactly zero.
pub proof fn lemma_whole_steps_consumed(m: LoopModel, k: nat, now: nat)
    requires
        m.inv(),
        now == m.previous_instant + k * m.fixed_time_step,
        k * m.fixed_time_step <= m.max_frame_time,
        m.number_of_updates + k <= u64::MAX,
    ensures
        m.advanced(now).number_of_updates == m.number_of_updates + k,
        m.advanced(now).accumulated_time == m.accumulated_time,
        m.advanced(now).blending_numerator == m.accumulated_time,
        m.accumulated_time == 0 ==> m.advanced(now).blending_numerator == 0,
{
    let step = m.fixed_time_step;
    let total = m.accumulated_time + m.frame_elapsed(now);
    assert(m.frame_elapsed(now) == k * step);
    lemma_fundamental_div_mod_converse(
        total as int,
        step as int,
        k as int,
        m.accumulated_time as int,
    );
}

/// The clamp bounds catch-up work: however far wall time jumped past
/// `max_frame_time`, the frame runs exactly as many simulation steps, and
/// leaves the same accumulator, as a frame of exactly `max_frame_time`.
pub proof fn lemma_clamp_bounds_catch_up(m: LoopModel, now: nat)
    requires
        m.inv(),
        now >= m.previous_instant + m.max_frame_time,
    ensures
        m.advanced(now).number_of_updates == m.advanced(
            m.previous_instant + m.max_frame_time,
        ).number_of_updates,
        m.advanced(now).accumulated_time == m.advanced(
            m.previous_instant + m.max_frame_time,
        ).accumulated_time,
        m.advanced(now).running_time == m.advanced(
            m.previous_instant + m.max_frame_time,
        ).running_time,
{
    assert(m.frame_elapsed(now) == m.max_frame_time);
    assert(m.frame_elapsed(m.previous_instant + m.max_frame_time) == m.max_frame_time);
}

/// While the window is hidden a frame renders nothing: the render counter
/// does not move, whatever wall time elapsed.
pub proof fn lemma_occluded_frame_never_renders(m: LoopModel, now: nat)
    requires
        m.inv(),
        m.window_occluded,
    ensures
        m.advanced(now).number_of_renders == m.number_of_renders,
{
}

/// The running-time diagnostic never decreases.
pub proof fn lemma_running_time_monotonic(m: LoopModel, now: nat)
    requires
        m.inv(),
    ensures
        m.advanced(now).running_time >= m.running_time,
{
}

} // verus!

