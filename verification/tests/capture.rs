use nimbus_scroll::capture::{
    CaptureLoop, Command, Message, Phase, Resources, Sample, StartupStep, TickAccumulator,
};
use nimbus_scroll::config::Config;
use nimbus_scroll::geometry::{Point, Rect};
use nimbus_scroll::raw_input::RawMouse;

const FREQ: u64 = 1000;

fn config(sens_x: i32, sens_y: i32, flick: i32) -> Config {
    Config { decay: 3, sens_y, sens_x, step_y: 120, step_x: 120, flick, think: 0 }
}

fn rect(left: i32, top: i32, right: i32, bottom: i32) -> Rect {
    Rect { left, top, right, bottom }
}

/// A sample at counter reading `now`, pointer at (300, 200), nothing confined.
fn at(now: u64) -> Sample {
    Sample { now, cursor: Point { x: 300, y: 200 }, clip: rect(0, 0, 1920, 1080) }
}

fn mouse(flags: u16, data: i16, x: i32, y: i32) -> Message {
    Message::Mouse(RawMouse {
        has_device: true,
        button_flags: flags,
        button_data: data,
        last_x: x,
        last_y: y,
    })
}

fn wheel(ticks: i16) -> Message {
    mouse(0x0400, ticks, 0, 0)
}

fn down() -> Message {
    mouse(0x0010, 0, 0, 0)
}

fn up() -> Message {
    mouse(0x0020, 0, 0, 0)
}

fn motion(x: i32, y: i32) -> Message {
    mouse(0, 0, x, y)
}

/// A loop that has been set up at counter reading 0 and waits for the filter.
fn waiting(c: Config) -> CaptureLoop {
    let mut cap = CaptureLoop::new(c, FREQ);
    for _ in 0..3 {
        assert_eq!(cap.startup_result(true, 0), Vec::<Command>::new());
    }
    assert_eq!(cap.startup_result(true, 0), vec![Command::NotifyStarted]);
    cap
}

/// A loop that is active, with time counted from 0.
fn active(c: Config) -> CaptureLoop {
    let mut cap = waiting(c);
    assert_eq!(cap.handle(Message::HookReady, at(0)), Vec::<Command>::new());
    assert_eq!(cap.phase, Phase::Active);
    cap
}

fn advance(ix: i64, iy: i64, elapsed: u64) -> Command {
    Command::Advance { impulse_x: ix, impulse_y: iy, elapsed, frequency: FREQ }
}

#[test]
fn new_loop_starts_with_nothing() {
    let cap = CaptureLoop::new(config(0, 18, 0), 10_000_000);
    assert_eq!(cap.phase, Phase::Starting);
    assert_eq!(
        cap.held,
        Resources { prepared: false, target: false, raw_input: false, filter_worker: false }
    );
    assert_eq!(cap.frequency, 10_000_000);
    assert_eq!(cap.past, 0);
    assert!(!cap.is_dragging);
    assert!(!cap.cancel_pending);
    assert_eq!(cap.rect, rect(0, 0, 0, 0));
    assert_eq!(cap.acc, TickAccumulator { dx: 0, dy: 0 });
    assert_eq!(cap.timer, 0);
    assert_eq!(cap.config, config(0, 18, 0));
}

#[test]
fn new_loop_brings_its_config_into_range() {
    let raw = Config { decay: -3, sens_y: -18, sens_x: 4, step_y: -1, step_x: 7, flick: 9, think: -9 };
    let cap = CaptureLoop::new(raw, FREQ);
    assert_eq!(
        cap.config,
        Config { decay: 0, sens_y: -18, sens_x: 4, step_y: 0, step_x: 7, flick: 1, think: 0 }
    );
}

#[test]
fn startup_takes_its_steps_in_order() {
    let mut cap = CaptureLoop::new(config(0, 18, 0), FREQ);
    assert_eq!(cap.startup_step(), Some(StartupStep::Prepare));
    assert_eq!(cap.startup_result(true, 5), Vec::<Command>::new());
    assert_eq!(cap.startup_step(), Some(StartupStep::CreateTarget));
    assert_eq!(cap.startup_result(true, 6), Vec::<Command>::new());
    assert_eq!(cap.startup_step(), Some(StartupStep::RegisterInput));
    assert_eq!(cap.startup_result(true, 7), Vec::<Command>::new());
    assert_eq!(cap.startup_step(), Some(StartupStep::SpawnFilter));
    assert_eq!(cap.phase, Phase::Starting);
    assert_eq!(cap.startup_result(true, 8), vec![Command::NotifyStarted]);
    assert_eq!(cap.startup_step(), None);
    assert_eq!(cap.phase, Phase::AwaitingHookReady);
    // Time is counted from the end of the set-up.
    assert_eq!(cap.past, 8);
    assert_eq!(
        cap.held,
        Resources { prepared: true, target: true, raw_input: true, filter_worker: true }
    );
}

#[test]
fn failure_of_the_first_step_has_nothing_to_give_back() {
    let mut cap = CaptureLoop::new(config(0, 18, 0), FREQ);
    assert_eq!(cap.startup_result(false, 0), Vec::<Command>::new());
    assert_eq!(cap.phase, Phase::Draining);
    assert_eq!(cap.startup_step(), None);
    assert_eq!(cap.finish(), Some(Command::NotifyStopped));
    assert_eq!(cap.phase, Phase::Stopped);
}

#[test]
fn failure_to_create_the_target_has_nothing_to_give_back() {
    let mut cap = CaptureLoop::new(config(0, 18, 0), FREQ);
    cap.startup_result(true, 0);
    assert_eq!(cap.startup_result(false, 0), Vec::<Command>::new());
    assert_eq!(cap.phase, Phase::Draining);
    assert_eq!(cap.finish(), Some(Command::NotifyStopped));
}

#[test]
fn failure_to_register_destroys_the_target() {
    let mut cap = CaptureLoop::new(config(0, 18, 0), FREQ);
    cap.startup_result(true, 0);
    cap.startup_result(true, 0);
    assert_eq!(cap.startup_result(false, 0), vec![Command::DestroyTarget]);
    assert_eq!(cap.phase, Phase::Draining);
    assert_eq!(
        cap.held,
        Resources { prepared: false, target: false, raw_input: false, filter_worker: false }
    );
    assert_eq!(cap.finish(), Some(Command::NotifyStopped));
}

#[test]
fn failure_to_spawn_the_filter_unregisters_and_destroys() {
    let mut cap = CaptureLoop::new(config(0, 18, 0), FREQ);
    cap.startup_result(true, 0);
    cap.startup_result(true, 0);
    cap.startup_result(true, 0);
    assert_eq!(
        cap.startup_result(false, 0),
        vec![Command::UnregisterInput, Command::DestroyTarget]
    );
    assert_eq!(cap.phase, Phase::Draining);
    assert_eq!(cap.finish(), Some(Command::NotifyStopped));
    assert_eq!(cap.phase, Phase::Stopped);
}

#[test]
fn failed_loop_does_no_further_work() {
    let mut cap = CaptureLoop::new(config(0, 18, 0), FREQ);
    cap.startup_result(true, 0);
    cap.startup_result(false, 0);
    let frozen = cap;
    assert_eq!(cap.startup_result(true, 0), Vec::<Command>::new());
    assert_eq!(cap.handle(Message::HookReady, at(50)), Vec::<Command>::new());
    assert_eq!(cap.handle(down(), at(50)), Vec::<Command>::new());
    assert_eq!(cap.handle(Message::Quit, at(50)), Vec::<Command>::new());
    assert_eq!(cap, frozen);
}

#[test]
fn startup_results_after_the_set_up_change_nothing() {
    let mut cap = active(config(0, 18, 0));
    let before = cap;
    assert_eq!(cap.startup_result(false, 99), Vec::<Command>::new());
    assert_eq!(cap.startup_result(true, 99), Vec::<Command>::new());
    assert_eq!(cap, before);
}

#[test]
fn device_events_are_passed_over_until_the_filter_is_ready() {
    let mut cap = waiting(config(2, 18, 0));
    let before = cap;
    for message in [wheel(120), down(), motion(5, 5), up(), Message::Other] {
        assert_eq!(cap.handle(message, at(500)), Vec::<Command>::new());
        assert_eq!(cap, before);
    }
    assert_eq!(cap.handle(Message::HookReady, at(500)), Vec::<Command>::new());
    assert_eq!(cap.phase, Phase::Active);
    // Becoming active is followed by no tick of its own.
    assert_eq!(cap.past, 0);
}

#[test]
fn wheel_notch_feeds_the_vertical_accumulator_and_starts_the_timer() {
    let mut cap = active(config(0, 18, 0));
    assert_eq!(cap.handle(wheel(120), at(1)), vec![Command::StartTimer { interval_ms: 10 }]);
    assert_eq!(cap.acc, TickAccumulator { dx: 0, dy: 18 });
    cap.timer_started(77);
    assert_eq!(cap.timer, 77);
    // With the timer running it is not started again.
    assert_eq!(cap.handle(wheel(-240), at(2)), Vec::<Command>::new());
    assert_eq!(cap.acc, TickAccumulator { dx: 0, dy: -18 });
}

#[test]
fn timer_that_could_not_be_started_is_started_again() {
    let mut cap = active(config(0, 18, 0));
    assert_eq!(cap.handle(wheel(120), at(1)), vec![Command::StartTimer { interval_ms: 10 }]);
    cap.timer_started(0);
    assert_eq!(cap.handle(wheel(120), at(2)), vec![Command::StartTimer { interval_ms: 10 }]);
}

#[test]
fn wheel_wins_over_the_trigger_button() {
    let mut cap = active(config(0, 18, 0));
    // Wheel and button-down flags in one event: the wheel is read.
    cap.handle(mouse(0x0400 | 0x0010, 120, 0, 0), at(1));
    assert!(!cap.is_dragging);
    assert_eq!(cap.acc.dy, 18);
}

#[test]
fn button_down_starts_a_gesture() {
    let mut cap = active(config(1, 1, 0));
    cap.handle(wheel(120), at(1));
    cap.timer_started(5);
    let sample = Sample { now: 2, cursor: Point { x: 640, y: 480 }, clip: rect(0, 0, 1920, 1080) };
    assert_eq!(cap.handle(down(), sample), vec![Command::Confine(rect(640, 480, 641, 481))]);
    assert!(cap.is_dragging);
    assert!(cap.cancel_pending);
    assert_eq!(cap.rect, rect(640, 480, 641, 481));
    // The accumulator starts empty.
    assert_eq!(cap.acc, TickAccumulator { dx: 0, dy: 0 });
}

#[test]
fn button_down_starts_the_timer_where_none_runs() {
    let mut cap = active(config(1, 1, 0));
    assert_eq!(
        cap.handle(down(), at(1)),
        vec![Command::Confine(rect(300, 200, 301, 201)), Command::StartTimer { interval_ms: 10 }]
    );
}

#[test]
fn button_down_at_the_largest_coordinate() {
    let mut cap = active(config(1, 1, 0));
    cap.timer_started(5);
    let sample = Sample {
        now: 1,
        cursor: Point { x: i32::MAX, y: -7 },
        clip: rect(0, 0, 0, 0),
    };
    assert_eq!(
        cap.handle(down(), sample),
        vec![Command::Confine(rect(i32::MAX, -7, i32::MAX, -6))]
    );
}

#[test]
fn motion_is_gathered_only_during_a_gesture() {
    let mut cap = active(config(1, 1, 0));
    cap.timer_started(5);
    assert_eq!(cap.handle(motion(4, -9), at(1)), Vec::<Command>::new());
    assert_eq!(cap.acc, TickAccumulator { dx: 0, dy: 0 });
    cap.handle(down(), at(2));
    assert_eq!(cap.handle(motion(4, -9), at(3)), Vec::<Command>::new());
    assert_eq!(cap.handle(motion(10, 50), at(4)), Vec::<Command>::new());
    assert_eq!(cap.acc, TickAccumulator { dx: 14, dy: 41 });
}

#[test]
fn motion_is_gathered_unscaled() {
    let mut cap = active(config(7, -3, 0));
    cap.timer_started(5);
    cap.handle(down(), at(1));
    cap.handle(motion(10, 50), at(2));
    assert_eq!(cap.acc, TickAccumulator { dx: 10, dy: 50 });
    // The sensitivity comes in when the tick drains the accumulator.
    let sample = Sample { now: 11, cursor: Point { x: 300, y: 200 }, clip: cap.rect };
    assert_eq!(cap.handle(Message::Other, sample), vec![advance(70, -150, 11)]);
}

#[test]
fn accumulator_stops_at_the_bounds() {
    let mut cap = active(config(1, 1, 0));
    cap.timer_started(5);
    cap.handle(down(), at(1));
    cap.handle(motion(i32::MAX, i32::MIN), at(2));
    cap.handle(motion(1, -1), at(3));
    assert_eq!(cap.acc, TickAccumulator { dx: i32::MAX, dy: i32::MIN });
}

#[test]
fn events_without_a_device_are_passed_over() {
    let mut cap = active(config(1, 1, 0));
    cap.timer_started(5);
    cap.handle(down(), at(1));
    cap.handle(motion(3, 3), at(2));
    let before = cap;
    let injected = Message::Mouse(RawMouse {
        has_device: false,
        button_flags: 0x0020,
        button_data: 0,
        last_x: 9,
        last_y: 9,
    });
    // No effect at all, not even the tick that is long due.
    assert_eq!(cap.handle(injected, at(500)), Vec::<Command>::new());
    assert_eq!(cap, before);
}

#[test]
fn other_buttons_change_nothing_but_let_the_tick_run() {
    let mut cap = active(config(1, 1, 0));
    cap.timer_started(5);
    // Left button down.
    assert_eq!(cap.handle(mouse(0x0001, 0, 3, 3), at(5)), Vec::<Command>::new());
    assert!(!cap.is_dragging);
    assert_eq!(cap.handle(mouse(0x0001, 0, 3, 3), at(11)), vec![advance(0, 0, 11)]);
}

#[test]
fn tick_is_due_strictly_after_ten_milliseconds() {
    let mut cap = active(config(1, 1, 0));
    assert_eq!(cap.handle(Message::Other, at(10)), Vec::<Command>::new());
    assert_eq!(cap.past, 0);
    assert_eq!(cap.handle(Message::Other, at(11)), vec![advance(0, 0, 11)]);
    assert_eq!(cap.past, 11);
    assert_eq!(cap.handle(Message::Other, at(21)), Vec::<Command>::new());
    assert_eq!(cap.handle(Message::Other, at(22)), vec![advance(0, 0, 11)]);
}

#[test]
fn tick_measures_the_time_that_really_passed() {
    let mut cap = active(config(1, 1, 0));
    assert_eq!(cap.handle(Message::Other, at(37)), vec![advance(0, 0, 37)]);
    assert_eq!(cap.handle(Message::HookReady, at(137)), vec![advance(0, 0, 100)]);
}

#[test]
fn counter_that_runs_backwards_makes_no_tick() {
    let mut cap = active(config(1, 1, 0));
    cap.handle(Message::Other, at(100));
    assert_eq!(cap.past, 100);
    assert_eq!(cap.handle(Message::Other, at(50)), Vec::<Command>::new());
    assert_eq!(cap.past, 100);
}

#[test]
fn tick_drains_the_accumulator_scaled_by_the_sensitivities() {
    let mut cap = active(config(2, 18, 0));
    cap.handle(wheel(120), at(1));
    assert_eq!(cap.acc.dy, 18);
    // The wheel input is scaled when gathered and again when drained.
    assert_eq!(cap.handle(Message::Other, at(11)), vec![advance(0, 324, 11)]);
    assert_eq!(cap.acc, TickAccumulator { dx: 0, dy: 0 });
    // Nothing is left for the next tick.
    assert_eq!(cap.handle(Message::Other, at(22)), vec![advance(0, 0, 11)]);
}

#[test]
fn event_and_tick_in_one_message() {
    let mut cap = active(config(1, 1, 0));
    cap.timer_started(5);
    cap.handle(down(), at(1));
    // The motion is gathered first, the tick that follows drains it.
    let sample = Sample { now: 20, cursor: Point { x: 300, y: 200 }, clip: rect(300, 200, 301, 201) };
    assert_eq!(cap.handle(motion(6, 7), sample), vec![advance(6, 7, 20)]);
    assert_eq!(cap.acc, TickAccumulator { dx: 0, dy: 0 });
}

#[test]
fn tick_confines_anew_when_the_confinement_was_changed() {
    let mut cap = active(config(1, 1, 0));
    cap.timer_started(5);
    cap.handle(down(), at(1));
    let held = rect(300, 200, 301, 201);
    let intact = Sample { now: 12, cursor: Point { x: 300, y: 200 }, clip: held };
    assert_eq!(cap.handle(Message::Other, intact), vec![advance(0, 0, 12)]);
    // Something else has lifted the confinement.
    let lifted = Sample { now: 24, cursor: Point { x: 305, y: 200 }, clip: rect(0, 0, 1920, 1080) };
    assert_eq!(
        cap.handle(Message::Other, lifted),
        vec![Command::Confine(held), advance(0, 0, 12)]
    );
    assert_eq!(cap.rect, held);
}

#[test]
fn tick_outside_a_gesture_leaves_the_pointer_alone() {
    let mut cap = active(config(1, 1, 0));
    assert_eq!(cap.handle(Message::Other, at(12)), vec![advance(0, 0, 12)]);
}

#[test]
fn button_down_with_a_due_tick_confines_once() {
    let mut cap = active(config(1, 1, 0));
    cap.timer_started(5);
    // The observed confinement is the one from before the event.
    assert_eq!(
        cap.handle(down(), at(30)),
        vec![Command::Confine(rect(300, 200, 301, 201)), advance(0, 0, 30)]
    );
}

#[test]
fn button_up_without_flick_brings_everything_to_rest() {
    let mut cap = active(config(1, 1, 0));
    cap.timer_started(5);
    cap.handle(down(), at(1));
    cap.handle(motion(0, 50), at(2));
    assert_eq!(
        cap.handle(up(), at(3)),
        vec![
            Command::Release,
            Command::ResetVelocity,
            Command::StopTimer { id: 5 },
            Command::CancelClick,
        ]
    );
    assert!(!cap.is_dragging);
    assert!(!cap.cancel_pending);
    assert_eq!(cap.acc, TickAccumulator { dx: 0, dy: 0 });
    // The timer is forgotten once the caller reports that it was stopped.
    assert_eq!(cap.timer, 5);
    cap.timer_stopped(false);
    assert_eq!(cap.timer, 5);
    cap.timer_stopped(true);
    assert_eq!(cap.timer, 0);
}

#[test]
fn button_up_with_flick_keeps_the_momentum() {
    let mut cap = active(config(1, 1, 1));
    cap.timer_started(5);
    cap.handle(down(), at(1));
    cap.handle(motion(0, 50), at(2));
    assert_eq!(cap.handle(up(), at(3)), vec![Command::Release, Command::CancelClick]);
    assert!(!cap.is_dragging);
    // What was gathered still reaches the engine.
    assert_eq!(cap.acc, TickAccumulator { dx: 0, dy: 50 });
    assert_eq!(cap.handle(Message::Other, at(12)), vec![advance(0, 50, 12)]);
}

#[test]
fn button_up_without_a_gesture_cancels_no_click() {
    let mut cap = active(config(1, 1, 1));
    assert_eq!(cap.handle(up(), at(3)), vec![Command::Release]);
    let mut cap = active(config(1, 1, 0));
    assert_eq!(cap.handle(up(), at(3)), vec![Command::Release, Command::ResetVelocity]);
}

#[test]
fn button_up_with_a_due_tick_releases_before_the_tick() {
    let mut cap = active(config(1, 1, 1));
    cap.timer_started(5);
    cap.handle(down(), at(1));
    cap.handle(motion(0, 8), at(2));
    assert_eq!(
        cap.handle(up(), at(40)),
        vec![Command::Release, Command::CancelClick, advance(0, 8, 40)]
    );
}

#[test]
fn no_motion_is_gathered_after_the_gesture() {
    let mut cap = active(config(1, 1, 1));
    cap.timer_started(5);
    cap.handle(down(), at(1));
    cap.handle(up(), at(2));
    cap.handle(motion(5, 5), at(3));
    assert_eq!(cap.acc, TickAccumulator { dx: 0, dy: 0 });
}

#[test]
fn quit_gives_everything_back() {
    let mut cap = active(config(1, 1, 0));
    assert_eq!(
        cap.handle(Message::Quit, at(5)),
        vec![Command::UnregisterInput, Command::StopFilter, Command::DestroyTarget]
    );
    assert_eq!(cap.phase, Phase::Draining);
    assert_eq!(
        cap.held,
        Resources { prepared: false, target: false, raw_input: false, filter_worker: false }
    );
    assert_eq!(cap.finish(), Some(Command::NotifyStopped));
    assert_eq!(cap.phase, Phase::Stopped);
}

#[test]
fn quit_before_the_filter_is_ready_gives_everything_back() {
    let mut cap = waiting(config(1, 1, 0));
    assert_eq!(
        cap.handle(Message::Quit, at(5)),
        vec![Command::UnregisterInput, Command::StopFilter, Command::DestroyTarget]
    );
    assert_eq!(cap.phase, Phase::Draining);
}

#[test]
fn quit_during_a_gesture_frees_the_pointer_first() {
    let mut cap = active(config(1, 1, 0));
    cap.timer_started(5);
    cap.handle(down(), at(1));
    cap.handle(motion(3, 4), at(2));
    assert_eq!(
        cap.handle(Message::Quit, at(5)),
        vec![
            Command::Release,
            Command::UnregisterInput,
            Command::StopFilter,
            Command::DestroyTarget,
        ]
    );
    assert!(!cap.is_dragging);
    assert!(!cap.cancel_pending);
    assert_eq!(cap.acc, TickAccumulator { dx: 0, dy: 0 });
}

#[test]
fn stop_is_reported_exactly_once() {
    let mut cap = active(config(1, 1, 0));
    // Not before the loop has ended.
    assert_eq!(cap.finish(), None);
    assert_eq!(cap.phase, Phase::Active);
    cap.handle(Message::Quit, at(5));
    assert_eq!(cap.finish(), Some(Command::NotifyStopped));
    assert_eq!(cap.finish(), None);
    assert_eq!(cap.phase, Phase::Stopped);
}

#[test]
fn stopped_loop_takes_no_messages() {
    let mut cap = active(config(1, 1, 0));
    cap.handle(Message::Quit, at(5));
    let draining = cap;
    for message in [Message::HookReady, down(), wheel(120), Message::Other, Message::Quit] {
        assert_eq!(cap.handle(message, at(500)), Vec::<Command>::new());
        assert_eq!(cap, draining);
    }
    cap.finish();
    let stopped = cap;
    for message in [Message::HookReady, down(), wheel(120), Message::Other, Message::Quit] {
        assert_eq!(cap.handle(message, at(900)), Vec::<Command>::new());
        assert_eq!(cap, stopped);
    }
}

#[test]
fn starting_loop_takes_no_messages() {
    let mut cap = CaptureLoop::new(config(1, 1, 0), FREQ);
    let before = cap;
    for message in [Message::HookReady, down(), wheel(120), Message::Other, Message::Quit] {
        assert_eq!(cap.handle(message, at(500)), Vec::<Command>::new());
        assert_eq!(cap, before);
    }
}

#[test]
fn drag_keeps_the_rectangle_recorded_at_button_down() {
    let mut cap = active(config(1, 1, 1));
    cap.timer_started(5);
    let start = Sample { now: 1, cursor: Point { x: 50, y: 60 }, clip: rect(0, 0, 1920, 1080) };
    assert_eq!(cap.handle(down(), start), vec![Command::Confine(rect(50, 60, 51, 61))]);
    let held = rect(50, 60, 51, 61);
    let mut now = 1;
    for i in 0..40 {
        now += 7;
        // The pointer is reported elsewhere and the confinement is lost every third time.
        let clip = if i % 3 == 0 { rect(0, 0, 1920, 1080) } else { held };
        let sample = Sample { now, cursor: Point { x: 900 + i, y: 10 }, clip };
        let message = match i % 4 {
            0 => motion(1, 2),
            1 => Message::Other,
            2 => wheel(120),
            _ => mouse(0x0001, 0, 0, 0),
        };
        for command in cap.handle(message, sample) {
            match command {
                Command::Confine(r) => assert_eq!(r, held),
                Command::Release => panic!("released during the gesture"),
                _ => {}
            }
        }
        assert!(cap.is_dragging);
        assert_eq!(cap.rect, held);
    }
    let end = Sample { now: now + 1, cursor: Point { x: 0, y: 0 }, clip: held };
    let commands = cap.handle(up(), end);
    assert!(commands.contains(&Command::Release));
    assert!(!commands.iter().any(|c| matches!(c, Command::Confine(_))));
}

#[test]
fn what_a_gesture_feeds_reaches_the_engine_exactly() {
    let mut cap = active(config(3, -2, 1));
    cap.timer_started(5);
    cap.handle(down(), at(1));
    let mut fed_x: i64 = 0;
    let mut fed_y: i64 = 0;
    let mut got_x: i64 = 0;
    let mut got_y: i64 = 0;
    let mut now = 1;
    for i in 0..100i32 {
        // Uneven timing: ticks fall after one, two or three events.
        now += 3 + (i as u64 % 5);
        let (dx, dy) = (i % 7 - 3, 11 - i % 23);
        fed_x += dx as i64;
        fed_y += dy as i64;
        for command in cap.handle(motion(dx, dy), at(now)) {
            if let Command::Advance { impulse_x, impulse_y, .. } = command {
                got_x += impulse_x;
                got_y += impulse_y;
            }
        }
    }
    // A last tick empties the accumulator.
    for command in cap.handle(Message::Other, at(now + 1000)) {
        if let Command::Advance { impulse_x, impulse_y, .. } = command {
            got_x += impulse_x;
            got_y += impulse_y;
        }
    }
    assert_eq!(cap.acc, TickAccumulator { dx: 0, dy: 0 });
    assert_eq!(got_x, 3 * fed_x);
    assert_eq!(got_y, -2 * fed_y);
}

#[test]
fn loop_at_rest_feeds_the_engine_nothing() {
    let mut cap = active(config(7, 18, 1));
    let mut now = 0;
    for i in 0..50u64 {
        now += 4 + i % 9;
        let message = if i % 2 == 0 { Message::Other } else { Message::HookReady };
        for command in cap.handle(message, at(now)) {
            match command {
                Command::Advance { impulse_x, impulse_y, .. } => {
                    assert_eq!((impulse_x, impulse_y), (0, 0));
                }
                other => panic!("unexpected command {:?}", other),
            }
        }
        assert_eq!(cap.acc, TickAccumulator { dx: 0, dy: 0 });
    }
}

#[test]
fn pointer_stays_free_after_the_gesture() {
    let mut cap = active(config(1, 1, 1));
    cap.timer_started(5);
    cap.handle(down(), at(1));
    cap.handle(motion(0, 30), at(2));
    assert!(cap.handle(up(), at(3)).contains(&Command::Release));
    let mut now = 3;
    for i in 0..60i32 {
        now += 6;
        let message = match i % 5 {
            0 => motion(3, 3),
            1 => wheel(120),
            2 => up(),
            3 => mouse(0x0001, 0, 0, 0),
            _ => Message::Other,
        };
        for command in cap.handle(message, at(now)) {
            assert!(!matches!(command, Command::Confine(_)));
        }
        assert!(!cap.is_dragging);
    }
}
