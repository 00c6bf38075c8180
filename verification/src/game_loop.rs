//! The executable scheduling loop.
//!
//! [`GameLoop`] owns the wall clock, the caller's state, and the bookkeeping
//! of the fixed-timestep schedule. Its behaviour is specified, frame by
//! frame, by the spec functions of [`crate::model`]; the only trusted pieces
//! are the two thin wrappers around `std::time::Instant` at the bottom of
//! this file, since wall time itself cannot be reasoned about.

use vstd::prelude::*;

use crate::events::{BlendingFactor, LoopDirective, LoopEvent, LoopStats};
use crate::model::{LoopModel, MILLIHERTZ_SCALE, NANOS_PER_SEC};

verus! {

/// The behaviour the embedding application plugs into the loop. The loop
/// owns scheduling; the implementor owns what each step and each frame mean.
/// No contracts are placed on these methods: the loop's own guarantees hold
/// whatever an implementation does.
pub trait GameCallbacks {
    /// Called exactly once, before the dispatch loop starts.
    fn init(&mut self);

    /// Advances the simulation by exactly one fixed time step. Called zero or
    /// more times per displayed frame, depending on elapsed wall time.
    fn update(&mut self, stats: &LoopStats);

    /// Draws one frame. Called at most once per displayed frame, and never
    /// while the window is hidden. `blending_factor` says how far the frame
    /// falls between the last and the pending simulation step.
    fn render(&mut self, blending_factor: BlendingFactor, stats: &LoopStats);

    /// Sees every dispatched event before the loop's own bookkeeping.
    /// Returning `true` requests exit, taking effect at the start of the
    /// next frame.
    fn handle_event(&mut self, event: &LoopEvent) -> bool;
}

/// The fixed-timestep scheduling loop: one instance drives one window for
/// the lifetime of the application.
pub struct GameLoop<G> {
    /// The embedding application's own state, handed to every callback; the
    /// loop never inspects it.
    pub game_state: G,
    updates_per_second: u64,
    max_frame_time: u64,
    fixed_time_step: u64,
    number_of_updates: u64,
    number_of_renders: u64,
    last_frame_time: u64,
    running_time: u64,
    accumulated_time: u64,
    blending_numerator: u64,
    previous_instant: u64,
    current_instant: u64,
    frame_duration: u64,
    window_occluded: bool,
    exit_next_iteration: bool,
    epoch: std::time::Instant,
}

impl<G> View for GameLoop<G> {
    type V = LoopModel;

    closed spec fn view(&self) -> LoopModel {
        LoopModel {
            updates_per_second: self.updates_per_second as nat,
            max_frame_time: self.max_frame_time as nat,
            fixed_time_step: self.fixed_time_step as nat,
            number_of_updates: self.number_of_updates as nat,
            number_of_renders: self.number_of_renders as nat,
            last_frame_time: self.last_frame_time as nat,
            running_time: self.running_time as nat,
            accumulated_time: self.accumulated_time as nat,
            blending_numerator: self.blending_numerator as nat,
            previous_instant: self.previous_instant as nat,
            current_instant: self.current_instant as nat,
            frame_duration: self.frame_duration as nat,
            window_occluded: self.window_occluded,
            exit_next_iteration: self.exit_next_iteration,
        }
    }
}

impl<G: GameCallbacks> GameLoop<G> {
    /// Well-formedness of the loop: its model satisfies the scheduling
    /// invariant. Established by the constructor and preserved by every
    /// method.
    pub open spec fn wf(&self) -> bool {
        self@.inv()
    }

    /// Constructs the loop around `game_state`, targeting `updates_per_second`
    /// simulation steps per second and crediting at most `max_frame_time`
    /// nanoseconds of wall time to any single frame. A tick rate of zero is a
    /// programming error and is rejected here, before it could divide by zero
    /// later; the caller checks the bounds and fails fast.
    pub fn new(game_state: G, updates_per_second: u64, max_frame_time: u64) -> (game_loop:
        GameLoop<G>)
        requires
            1 <= updates_per_second <= NANOS_PER_SEC,
            max_frame_time <= u64::MAX - NANOS_PER_SEC,
        ensures
            game_loop.wf(),
            game_loop@ == LoopModel::initial(updates_per_second as nat, max_frame_time as nat),
    {
        proof {
            vstd::arithmetic::div_mod::lemma_div_is_ordered_by_denominator(
                NANOS_PER_SEC as int,
                updates_per_second as int,
                NANOS_PER_SEC as int,
            );
            vstd::arithmetic::div_mod::lemma_div_by_self(NANOS_PER_SEC as int);
            vstd::arithmetic::div_mod::lemma_div_is_ordered_by_denominator(
                NANOS_PER_SEC as int,
                1,
                updates_per_second as int,
            );
            vstd::arithmetic::div_mod::lemma_div_basics(NANOS_PER_SEC as int);
        }
        GameLoop {
            game_state,
            updates_per_second,
            max_frame_time,
            fixed_time_step: NANOS_PER_SEC / updates_per_second,
            number_of_updates: 0,
            number_of_renders: 0,
            last_frame_time: 0,
            running_time: 0,
            accumulated_time: 0,
            blending_numerator: 0,
            previous_instant: 0,
            current_instant: 0,
            frame_duration: 0,
            window_occluded: false,
            exit_next_iteration: false,
            epoch: instant_now(),
        }
    }

    /// The read-only snapshot of the loop's observable state that callbacks
    /// receive.
    pub fn stats(&self) -> (stats: LoopStats)
        ensures
            stats == self@.stats_of(),
    {
        LoopStats {
            updates_per_second: self.updates_per_second,
            max_frame_time: self.max_frame_time,
            fixed_time_step: self.fixed_time_step,
            number_of_updates: self.number_of_updates,
            number_of_renders: self.number_of_renders,
            last_frame_time: self.last_frame_time,
            running_time: self.running_time,
            window_occluded: self.window_occluded,
            exit_next_iteration: self.exit_next_iteration,
            frame_rate_millihertz: if self.frame_duration == 0 {
                0
            } else {
                MILLIHERTZ_SCALE / self.frame_duration
            },
        }
    }

    /// One displayed frame at clock offset `now` (nanoseconds since the loop
    /// was constructed): the deterministic core of the loop, driven by the
    /// real clock in [`GameLoop::next_frame`] and by synthetic clock values
    /// in tests.
    ///
    /// If exit was requested the frame is a no-op that returns `false`.
    /// Otherwise the frame credits the clamped elapsed time, runs one update
    /// per whole fixed step it covers, computes the interpolation fraction,
    /// and renders unless the window is hidden, exactly as
    /// [`LoopModel::advanced`] says.
    pub fn advance_frame(&mut self, now: u64) -> (continue_running: bool)
        requires
            old(self).wf(),
        ensures
            final(self).wf(),
            continue_running == !old(self)@.exit_next_iteration,
            old(self)@.exit_next_iteration ==> *final(self) == *old(self),
            !old(self)@.exit_next_iteration ==> final(self)@ == old(self)@.advanced(now as nat),
    {
        if self.exit_next_iteration {
            return false;
        }
        let ghost m0 = self@;
        self.current_instant = now;
        let elapsed_raw: u64 = if now >= self.previous_instant {
            now - self.previous_instant
        } else {
            0
        };
        let elapsed: u64 = if elapsed_raw > self.max_frame_time {
            self.max_frame_time
        } else {
            elapsed_raw
        };
        assert(elapsed as nat == m0.frame_elapsed(now as nat));
        self.last_frame_time = elapsed;
        self.running_time = self.running_time.saturating_add(elapsed);
        self.accumulated_time = self.accumulated_time + elapsed;
        let ghost total: nat = self.accumulated_time as nat;
        let ghost step: nat = m0.fixed_time_step;
        let ghost mut steps_run: nat = 0;
        while self.accumulated_time >= self.fixed_time_step
            invariant
                m0.inv(),
                self.wf_frame_frozen(m0, now as nat, elapsed as nat),
                elapsed as nat == m0.frame_elapsed(now as nat),
                total == m0.accumulated_time + elapsed,
                step == m0.fixed_time_step,
                1 <= step,
                self.accumulated_time + steps_run * step == total,
                self.number_of_updates as nat == crate::model::cap_add(
                    m0.number_of_updates,
                    steps_run,
                ),
            decreases self.accumulated_time,
        {
            let stats = self.stats();
            self.game_state.update(&stats);
            self.accumulated_time = self.accumulated_time - self.fixed_time_step;
            self.number_of_updates = self.number_of_updates.saturating_add(1);
            proof {
                let prev_steps = steps_run;
                steps_run = steps_run + 1;
                assert(steps_run * step == prev_steps * step + step) by (nonlinear_arith)
                    requires
                        steps_run == prev_steps + 1,
                ;
            }
        }
        proof {
            vstd::arithmetic::div_mod::lemma_fundamental_div_mod_converse(
                total as int,
                step as int,
                steps_run as int,
                self.accumulated_time as int,
            );
        }
        self.blending_numerator = self.accumulated_time;
        if self.window_occluded {
            // Rendering is skipped; the dispatch driver yields for one fixed
            // time step instead (see `LoopDirective::Sleep`).
        } else {
            let stats = self.stats();
            let blending_factor = BlendingFactor {
                numerator: self.accumulated_time,
                denominator: self.fixed_time_step,
            };
            self.game_state.render(blending_factor, &stats);
            self.number_of_renders = self.number_of_renders.saturating_add(1);
        }
        self.previous_instant = now;
        assert(self@ == m0.advanced(now as nat));
        true
    }

    /// The fields the fixed-update loop inside a frame leaves untouched,
    /// frozen at their mid-frame values: everything except the accumulator,
    /// the update counter, and the caller's state.
    spec fn wf_frame_frozen(&self, m0: LoopModel, now: nat, elapsed: nat) -> bool {
        &&& self.updates_per_second as nat == m0.updates_per_second
        &&& self.max_frame_time as nat == m0.max_frame_time
        &&& self.fixed_time_step as nat == m0.fixed_time_step
        &&& self.number_of_renders as nat == m0.number_of_renders
        &&& self.last_frame_time as nat == elapsed
        &&& self.running_time as nat == crate::model::cap_add(m0.running_time, elapsed)
        &&& self.blending_numerator as nat == m0.blending_numerator
        &&& self.previous_instant as nat == m0.previous_instant
        &&& self.current_instant as nat == now
        &&& self.frame_duration as nat == m0.frame_duration
        &&& self.window_occluded == m0.window_occluded
        &&& self.exit_next_iteration == m0.exit_next_iteration
    }

    /// Refreshes the frame-rate statistic from the wall time one whole frame
    /// took; a measured duration of zero leaves it unchanged, guarding the
    /// division behind [`GameLoop::frame_rate_millihertz`].
    pub fn record_frame_duration(&mut self, duration: u64)
        requires
            old(self).wf(),
        ensures
            final(self).wf(),
            final(self)@ == old(self)@.recorded(duration as nat),
    {
        if duration != 0 {
            self.frame_duration = duration;
        }
    }

    /// One displayed frame on the real clock: samples wall time, advances the
    /// frame, and refreshes the frame-rate statistic from a second sample
    /// taken after the frame's work. Which clock values come back cannot be
    /// known, so the contract promises the frame's effect for *some* clock
    /// offset and duration; every property that holds for all clock values
    /// (the accumulator bound, the exit and occlusion behaviour) therefore
    /// still holds here.
    pub fn next_frame(&mut self) -> (continue_running: bool)
        requires
            old(self).wf(),
        ensures
            final(self).wf(),
            continue_running == !old(self)@.exit_next_iteration,
            old(self)@.exit_next_iteration ==> *final(self) == *old(self),
            !old(self)@.exit_next_iteration ==> exists|now: nat, duration: nat|
                final(self)@ == old(self)@.advanced(now).recorded(duration),
    {
        let now: u64 = nanos_since(&self.epoch);
        let continue_running = self.advance_frame(now);
        if !continue_running {
            return false;
        }
        let frame_end: u64 = nanos_since(&self.epoch);
        let duration: u64 = if frame_end >= self.current_instant {
            frame_end - self.current_instant
        } else {
            0
        };
        self.record_frame_duration(duration);
        assert(self@ == old(self)@.advanced(now as nat).recorded(duration as nat));
        true
    }

    /// One dispatched event: the handler callback sees it first, then the
    /// loop applies its own bookkeeping — close requests set the exit flag,
    /// occlusion reports set the visibility flag, and a due frame runs
    /// [`GameLoop::next_frame`]. The returned directive tells the dispatcher
    /// what to do next.
    pub fn process_event(&mut self, event: &LoopEvent) -> (directive: LoopDirective)
        requires
            old(self).wf(),
        ensures
            final(self).wf(),
            exists|handler_exit: bool, now: nat, duration: nat|
                final(self)@ == old(self)@.event_step(*event, handler_exit, now, duration)
                    && directive == old(self)@.event_directive(*event, handler_exit),
    {
        let handler_exit = self.game_state.handle_event(event);
        if handler_exit {
            self.exit_next_iteration = true;
        }
        let ghost m1 = self@;
        let directive = match event {
            LoopEvent::CloseRequested => {
                self.exit_next_iteration = true;
                LoopDirective::KeepRunning
            },
            LoopEvent::Occluded(hidden) => {
                self.window_occluded = *hidden;
                LoopDirective::KeepRunning
            },
            LoopEvent::RedrawRequested => {
                if !self.next_frame() {
                    LoopDirective::Exit
                } else if self.window_occluded {
                    LoopDirective::Sleep(self.fixed_time_step)
                } else {
                    LoopDirective::KeepRunning
                }
            },
            LoopEvent::MainEventsCleared => LoopDirective::RedrawNow,
            LoopEvent::Other => LoopDirective::KeepRunning,
        };
        proof {
            if *event is RedrawRequested && !m1.exit_next_iteration {
                let (now, duration): (nat, nat) = choose|now: nat, duration: nat|
                    self@ == m1.advanced(now).recorded(duration);
                assert(self@ == old(self)@.event_step(*event, handler_exit, now, duration));
                assert(directive == old(self)@.event_directive(*event, handler_exit));
            } else {
                assert(self@ == old(self)@.event_step(*event, handler_exit, 0, 0));
                assert(directive == old(self)@.event_directive(*event, handler_exit));
            }
        }
        directive
    }

    /// Requests exit: the next frame performs no update or render work and
    /// reports termination to the dispatcher.
    pub fn request_exit(&mut self)
        requires
            old(self).wf(),
        ensures
            final(self).wf(),
            final(self)@ == old(self)@.with_exit(),
    {
        self.exit_next_iteration = true;
    }

    /// The target number of simulation steps per second.
    pub fn updates_per_second(&self) -> (ups: u64)
        ensures
            ups as nat == self@.updates_per_second,
    {
        self.updates_per_second
    }

    /// The upper bound on wall time credited to one frame, in nanoseconds.
    pub fn max_frame_time(&self) -> (max: u64)
        ensures
            max as nat == self@.max_frame_time,
    {
        self.max_frame_time
    }

    /// The length of one simulation step, in nanoseconds.
    pub fn fixed_time_step(&self) -> (step: u64)
        ensures
            step as nat == self@.fixed_time_step,
    {
        self.fixed_time_step
    }

    /// Total simulation steps run so far.
    pub fn number_of_updates(&self) -> (updates: u64)
        ensures
            updates as nat == self@.number_of_updates,
    {
        self.number_of_updates
    }

    /// Total frames rendered so far.
    pub fn number_of_renders(&self) -> (renders: u64)
        ensures
            renders as nat == self@.number_of_renders,
    {
        self.number_of_renders
    }

    /// Clamped elapsed wall time of the last frame, in nanoseconds.
    pub fn last_frame_time(&self) -> (elapsed: u64)
        ensures
            elapsed as nat == self@.last_frame_time,
    {
        self.last_frame_time
    }

    /// Sum of all clamped elapsed times so far, in nanoseconds.
    pub fn running_time(&self) -> (time: u64)
        ensures
            time as nat == self@.running_time,
    {
        self.running_time
    }

    /// Unconsumed simulation time carried to the next frame, in nanoseconds.
    pub fn accumulated_time(&self) -> (accumulated: u64)
        ensures
            accumulated as nat == self@.accumulated_time,
    {
        self.accumulated_time
    }

    /// Whether the window is currently reported as fully hidden.
    pub fn window_occluded(&self) -> (occluded: bool)
        ensures
            occluded == self@.window_occluded,
    {
        self.window_occluded
    }

    /// Whether the next frame will stop the loop.
    pub fn exit_next_iteration(&self) -> (exit: bool)
        ensures
            exit == self@.exit_next_iteration,
    {
        self.exit_next_iteration
    }

    /// The interpolation fraction computed for the last displayed frame,
    /// as the exact rational `numerator / denominator`; always in `[0, 1)`.
    pub fn blending_factor(&self) -> (blending_factor: BlendingFactor)
        requires
            self.wf(),
        ensures
            blending_factor.numerator as nat == self@.blending_numerator,
            blending_factor.denominator as nat == self@.fixed_time_step,
            blending_factor.numerator < blending_factor.denominator,
    {
        BlendingFactor { numerator: self.blending_numerator, denominator: self.fixed_time_step }
    }

    /// The instantaneous frame rate in millihertz (thousandths of a frame
    /// per second): `1 / duration` of the last measured frame, or `0` while
    /// no frame has been measured yet.
    pub fn frame_rate_millihertz(&self) -> (rate: u64)
        ensures
            self@.frame_duration == 0 ==> rate == 0,
            self@.frame_duration != 0 ==> rate as nat == MILLIHERTZ_SCALE as nat
                / self@.frame_duration,
    {
        if self.frame_duration == 0 {
            0
        } else {
            MILLIHERTZ_SCALE / self.frame_duration
        }
    }
}

/// Declares `std::time::Instant` to the verifier as an opaque type, so the
/// loop can hold the instant it was constructed at; nothing is assumed of a
/// value of it.
#[verifier::external_type_specification]
#[verifier::external_body]
pub struct ExInstant(std::time::Instant);

/// Relies on `std::time::Instant::now`: an opaque sample of the monotonic
/// clock, taken once at construction as the loop's epoch.
#[verifier::external_body]
fn instant_now() -> std::time::Instant {
    std::time::Instant::now()
}

/// Relies on `std::time::Instant::elapsed`: the wall time since `earlier` was
/// sampled, converted to whole nanoseconds. Wall time depends on the machine,
/// so nothing is promised of the value; the loop is verified for every value
/// that could come back.
#[verifier::external_body]
fn nanos_since(earlier: &std::time::Instant) -> u64 {
    u64::try_from(earlier.elapsed().as_nanos()).unwrap_or(u64::MAX)
}

} // verus!
