use hexgen::events::{BlendingFactor, LoopDirective, LoopEvent, LoopStats};
use hexgen::game_loop::{GameCallbacks, GameLoop};

struct CountingGame {
    init_calls: u64,
    update_calls: u64,
    render_calls: u64,
    event_calls: u64,
    last_blending: Option<BlendingFactor>,
    last_stats: Option<LoopStats>,
    exit_on_event: bool,
}

impl CountingGame {
    fn new() -> CountingGame {
        CountingGame {
            init_calls: 0,
            update_calls: 0,
            render_calls: 0,
            event_calls: 0,
            last_blending: None,
            last_stats: None,
            exit_on_event: false,
        }
    }
}

impl GameCallbacks for CountingGame {
    fn init(&mut self) {
        self.init_calls += 1;
    }

    fn update(&mut self, stats: &LoopStats) {
        self.update_calls += 1;
        self.last_stats = Some(*stats);
    }

    fn render(&mut self, blending_factor: BlendingFactor, stats: &LoopStats) {
        self.render_calls += 1;
        self.last_blending = Some(blending_factor);
        self.last_stats = Some(*stats);
    }

    fn handle_event(&mut self, _event: &LoopEvent) -> bool {
        self.event_calls += 1;
        self.exit_on_event
    }
}

fn make_loop(updates_per_second: u64, max_frame_time: u64) -> GameLoop<CountingGame> {
    GameLoop::new(CountingGame::new(), updates_per_second, max_frame_time)
}

#[test]
fn new_loop_starts_idle() {
    let lp = make_loop(10, 1_000_000_000);
    assert_eq!(lp.updates_per_second(), 10);
    assert_eq!(lp.max_frame_time(), 1_000_000_000);
    assert_eq!(lp.fixed_time_step(), 100_000_000);
    assert_eq!(lp.number_of_updates(), 0);
    assert_eq!(lp.number_of_renders(), 0);
    assert_eq!(lp.accumulated_time(), 0);
    assert_eq!(lp.running_time(), 0);
    assert_eq!(lp.last_frame_time(), 0);
    assert_eq!(lp.frame_rate_millihertz(), 0);
    assert!(!lp.window_occluded());
    assert!(!lp.exit_next_iteration());
    let blending = lp.blending_factor();
    assert_eq!(blending.numerator, 0);
    assert_eq!(blending.denominator, 100_000_000);
}

#[test]
fn quarter_second_frame_runs_two_updates() {
    // updates_per_second = 10 gives a fixed step of 0.1 s; a frame of 0.25 s
    // (unclamped) runs two updates and leaves half a step accumulated.
    let mut lp = make_loop(10, 1_000_000_000);
    assert!(lp.advance_frame(250_000_000));
    assert_eq!(lp.number_of_updates(), 2);
    assert_eq!(lp.game_state.update_calls, 2);
    assert_eq!(lp.accumulated_time(), 50_000_000);
    assert_eq!(lp.last_frame_time(), 250_000_000);
    let blending = lp.blending_factor();
    assert_eq!(blending.numerator, 50_000_000);
    assert_eq!(blending.denominator, 100_000_000);
    let seen = lp.game_state.last_blending.expect("render was invoked");
    assert_eq!(seen, blending);
    assert_eq!(lp.number_of_renders(), 1);
    assert_eq!(lp.game_state.render_calls, 1);
}

#[test]
fn stalled_frame_is_clamped() {
    // A 5 s stall with max_frame_time = 0.2 s is credited as exactly 0.2 s:
    // two updates, an empty accumulator, a zero blending factor.
    let mut lp = make_loop(10, 200_000_000);
    assert!(lp.advance_frame(5_000_000_000));
    assert_eq!(lp.number_of_updates(), 2);
    assert_eq!(lp.game_state.update_calls, 2);
    assert_eq!(lp.accumulated_time(), 0);
    assert_eq!(lp.last_frame_time(), 200_000_000);
    assert_eq!(lp.running_time(), 200_000_000);
    let blending = lp.blending_factor();
    assert_eq!(blending.numerator, 0);
}

#[test]
fn exact_multiples_leave_no_remainder() {
    let mut lp = make_loop(10, 1_000_000_000);
    assert!(lp.advance_frame(300_000_000));
    assert_eq!(lp.number_of_updates(), 3);
    assert_eq!(lp.blending_factor().numerator, 0);
    assert!(lp.advance_frame(800_000_000));
    assert_eq!(lp.number_of_updates(), 8);
    assert_eq!(lp.blending_factor().numerator, 0);
    assert_eq!(lp.accumulated_time(), 0);
}

#[test]
fn zero_elapsed_frame_renders_without_update() {
    let mut lp = make_loop(10, 1_000_000_000);
    assert!(lp.advance_frame(0));
    assert_eq!(lp.number_of_updates(), 0);
    assert_eq!(lp.game_state.update_calls, 0);
    assert_eq!(lp.number_of_renders(), 1);
    assert_eq!(lp.blending_factor().numerator, 0);
}

#[test]
fn accumulator_stays_below_one_step_over_any_sequence() {
    // A mixed, pseudo-random sequence of elapsed times: after every frame the
    // accumulator holds less than one fixed step and the blending factor is
    // in [0, 1).
    let mut lp = make_loop(60, 500_000_000);
    let step = lp.fixed_time_step();
    let mut clock: u64 = 0;
    let mut state: u64 = 0x2545_f491_4f6c_dd1d;
    for _ in 0..1000 {
        state = state.wrapping_mul(6364136223846793005).wrapping_add(1442695040888963407);
        clock += state % 50_000_000;
        assert!(lp.advance_frame(clock));
        assert!(lp.accumulated_time() < step);
        let blending = lp.blending_factor();
        assert!(blending.numerator < blending.denominator);
        assert_eq!(blending.numerator, lp.accumulated_time());
        assert_eq!(blending.denominator, step);
    }
}

#[test]
fn update_totals_follow_wall_time_not_frame_count() {
    // Many small frames and one large frame covering the same wall time run
    // the same number of updates.
    let mut many = make_loop(100, 1_000_000_000);
    for i in 1..=50u64 {
        assert!(many.advance_frame(i * 20_000_000));
    }
    let mut one = make_loop(100, 1_000_000_000);
    assert!(one.advance_frame(1_000_000_000));
    assert_eq!(many.number_of_updates(), one.number_of_updates());
    assert_eq!(many.number_of_updates(), 100);
}

#[test]
fn exit_request_stops_the_next_frame() {
    let mut lp = make_loop(10, 1_000_000_000);
    assert!(lp.advance_frame(100_000_000));
    lp.request_exit();
    assert!(lp.exit_next_iteration());
    let updates = lp.number_of_updates();
    let renders = lp.number_of_renders();
    assert!(!lp.advance_frame(900_000_000));
    assert_eq!(lp.number_of_updates(), updates);
    assert_eq!(lp.number_of_renders(), renders);
    assert_eq!(lp.game_state.update_calls, 1);
    assert_eq!(lp.game_state.render_calls, 1);
}

#[test]
fn occluded_frame_updates_but_never_renders() {
    // Visibility gates rendering only: updates keep following wall time while
    // the render counter and the render callback stay untouched.
    let mut lp = make_loop(10, 1_000_000_000);
    assert_eq!(lp.process_event(&LoopEvent::Occluded(true)), LoopDirective::KeepRunning);
    assert!(lp.window_occluded());
    assert!(lp.advance_frame(100_000_000));
    assert_eq!(lp.number_of_updates(), 1);
    assert_eq!(lp.game_state.update_calls, 1);
    assert_eq!(lp.number_of_renders(), 0);
    assert_eq!(lp.game_state.render_calls, 0);
    assert!(lp.game_state.last_blending.is_none());
}

#[test]
fn occluded_redraw_yields_one_fixed_step() {
    // While the window is hidden a due frame asks the dispatcher to sleep for
    // one fixed time step instead of rendering.
    let mut lp = make_loop(10, 1_000_000_000);
    assert_eq!(lp.process_event(&LoopEvent::Occluded(true)), LoopDirective::KeepRunning);
    let directive = lp.process_event(&LoopEvent::RedrawRequested);
    assert_eq!(directive, LoopDirective::Sleep(100_000_000));
    assert_eq!(lp.number_of_renders(), 0);
    assert_eq!(lp.game_state.render_calls, 0);
    // Once visible again, the next due frame renders.
    assert_eq!(lp.process_event(&LoopEvent::Occluded(false)), LoopDirective::KeepRunning);
    assert_eq!(lp.process_event(&LoopEvent::RedrawRequested), LoopDirective::KeepRunning);
    assert_eq!(lp.number_of_renders(), 1);
    assert_eq!(lp.game_state.render_calls, 1);
}

#[test]
fn close_event_exits_on_the_next_due_frame() {
    let mut lp = make_loop(10, 1_000_000_000);
    assert_eq!(lp.process_event(&LoopEvent::CloseRequested), LoopDirective::KeepRunning);
    assert!(lp.exit_next_iteration());
    assert_eq!(lp.process_event(&LoopEvent::RedrawRequested), LoopDirective::Exit);
    assert_eq!(lp.number_of_updates(), 0);
    assert_eq!(lp.number_of_renders(), 0);
    assert_eq!(lp.game_state.event_calls, 2);
}

#[test]
fn handler_sees_every_event_and_may_request_exit() {
    let mut lp = make_loop(10, 1_000_000_000);
    assert_eq!(lp.process_event(&LoopEvent::Other), LoopDirective::KeepRunning);
    assert_eq!(lp.game_state.event_calls, 1);
    assert!(!lp.exit_next_iteration());
    lp.game_state.exit_on_event = true;
    assert_eq!(lp.process_event(&LoopEvent::Other), LoopDirective::KeepRunning);
    assert_eq!(lp.game_state.event_calls, 2);
    assert!(lp.exit_next_iteration());
}

#[test]
fn drained_queue_requests_a_redraw() {
    let mut lp = make_loop(10, 1_000_000_000);
    assert_eq!(lp.process_event(&LoopEvent::MainEventsCleared), LoopDirective::RedrawNow);
    assert_eq!(lp.number_of_updates(), 0);
    assert_eq!(lp.number_of_renders(), 0);
}

#[test]
fn running_time_sums_clamped_elapsed() {
    let mut lp = make_loop(10, 200_000_000);
    assert!(lp.advance_frame(150_000_000));
    assert_eq!(lp.running_time(), 150_000_000);
    // A 10 s stall is credited as only 0.2 s.
    assert!(lp.advance_frame(10_150_000_000));
    assert_eq!(lp.running_time(), 350_000_000);
}

#[test]
fn frame_rate_comes_from_the_measured_duration() {
    let mut lp = make_loop(10, 1_000_000_000);
    assert_eq!(lp.frame_rate_millihertz(), 0);
    // A 20 ms frame is 50 frames per second, i.e. 50 000 millihertz.
    lp.record_frame_duration(20_000_000);
    assert_eq!(lp.frame_rate_millihertz(), 50_000);
    // A measured duration of zero leaves the statistic unchanged.
    lp.record_frame_duration(0);
    assert_eq!(lp.frame_rate_millihertz(), 50_000);
    lp.record_frame_duration(16_666_667);
    assert_eq!(lp.frame_rate_millihertz(), 59_999);
}

#[test]
fn callbacks_receive_the_loop_stats() {
    let mut lp = make_loop(10, 700_000_000);
    assert!(lp.advance_frame(250_000_000));
    let stats = lp.game_state.last_stats.expect("a callback ran");
    assert_eq!(stats.updates_per_second, 10);
    assert_eq!(stats.max_frame_time, 700_000_000);
    assert_eq!(stats.fixed_time_step, 100_000_000);
    assert_eq!(stats.last_frame_time, 250_000_000);
    assert!(!stats.window_occluded);
    assert!(!stats.exit_next_iteration);
}

#[test]
fn next_frame_runs_on_the_real_clock() {
    let mut lp = make_loop(1, 1_000_000_000);
    assert!(lp.next_frame());
    assert_eq!(lp.number_of_renders(), 1);
    assert!(lp.accumulated_time() < lp.fixed_time_step());
    lp.request_exit();
    assert!(!lp.next_frame());
    assert_eq!(lp.number_of_renders(), 1);
}

#[test]
fn init_is_driven_by_the_embedder() {
    let mut lp = make_loop(10, 1_000_000_000);
    lp.game_state.init();
    assert_eq!(lp.game_state.init_calls, 1);
    assert_eq!(lp.number_of_updates(), 0);
}
