use nimbus_scroll::capture::{CaptureLoop, Command, Message, Phase, Sample, TickAccumulator};
use nimbus_scroll::config::Config;
use nimbus_scroll::geometry::{Point, Rect};
use nimbus_scroll::kinetics::{emission, wheel_increment, Axis, WheelInput};
use nimbus_scroll::raw_input::RawMouse;

/// A counter of one million counts per second.
const FREQ: u64 = 1_000_000;

/// Counts of a tick that is just due: a shade over ten milliseconds.
const TICK: u64 = 10_001;

/// The engine that a caller runs on the impulses of the loop: velocity in
/// floating point, decay at rate `mu`, rest below a squared length of 0.1.
struct Engine {
    vy: f32,
    mu: f32,
}

impl Engine {
    fn step(&mut self, impulse_y: i64, elapsed: u64, frequency: u64) -> f32 {
        self.vy += impulse_y as f32;
        let dt = elapsed as f32 / frequency as f32;
        let (f0, f1) = if self.mu == 0.0 {
            (1.0, dt)
        } else {
            let f0 = (-dt * self.mu).exp();
            (f0, (1.0 - f0) / self.mu)
        };
        let send = self.vy * f1;
        self.vy *= f0;
        if self.vy * self.vy < 0.1 {
            self.vy = 0.0;
        }
        send
    }
}

fn config(sens_y: i32, flick: i32) -> Config {
    Config { decay: 3, sens_y, sens_x: 0, step_y: 120, step_x: 120, flick, think: 0 }
}

fn mouse(flags: u16, data: i16, x: i32, y: i32) -> Message {
    Message::Mouse(RawMouse {
        has_device: true,
        button_flags: flags,
        button_data: data,
        last_x: x,
        last_y: y,
    })
}

fn sample(now: u64, clip: Rect) -> Sample {
    Sample { now, cursor: Point { x: 100, y: 100 }, clip }
}

fn active(c: Config) -> CaptureLoop {
    let mut cap = CaptureLoop::new(c, FREQ);
    for _ in 0..4 {
        cap.startup_result(true, 0);
    }
    cap.handle(Message::HookReady, sample(0, Rect { left: 0, top: 0, right: 0, bottom: 0 }));
    assert_eq!(cap.phase, Phase::Active);
    cap
}

/// The one tick of the engine among `commands`, if there is one.
fn tick_of(commands: &[Command]) -> Option<(i64, u64, u64)> {
    let mut found = None;
    for command in commands {
        if let Command::Advance { impulse_y, elapsed, frequency, .. } = command {
            assert!(found.is_none());
            found = Some((*impulse_y, *elapsed, *frequency));
        }
    }
    found
}

#[test]
fn one_wheel_notch_contributes_eighteen_and_emits_nothing_at_first() {
    // One notch at sensitivity 18 puts 18 into the accumulator.
    assert_eq!(wheel_increment(120, 18), 18);
    let free = Rect { left: 0, top: 0, right: 0, bottom: 0 };
    let mut cap = active(config(18, 0));
    cap.handle(mouse(0x0400, 120, 0, 0), sample(1, free));
    assert_eq!(cap.acc, TickAccumulator { dx: 0, dy: 18 });

    // A velocity of 18 at decay rate 3 over 0.01 s emits 18 * (1 - e^-0.03) / 3,
    // about 0.178, which is no whole unit: nothing is injected on that tick,
    // and the velocity carries over.
    let mut engine = Engine { vy: 0.0, mu: 3.0 };
    let send = engine.step(18, 10_000, FREQ);
    let expected = 18.0 * (1.0 - (-0.03f64).exp()) / 3.0;
    assert!((send as f64 - expected).abs() < 1e-4);
    assert!((send - 0.178).abs() < 1e-3);
    assert_eq!(send as i32, 0);
    assert_eq!(emission(0, send as i32), Vec::<WheelInput>::new());
    assert!(engine.vy > 17.0 && engine.vy < 18.0);
}

#[test]
fn wheel_input_is_scaled_when_gathered_and_again_when_drained() {
    let free = Rect { left: 0, top: 0, right: 0, bottom: 0 };
    let mut cap = active(config(18, 0));
    cap.handle(mouse(0x0400, 120, 0, 0), sample(1, free));
    let commands = cap.handle(Message::Other, sample(TICK, free));
    // The loop hands the engine 18 * 18.
    assert_eq!(tick_of(&commands), Some((324, TICK, FREQ)));
    let mut engine = Engine { vy: 0.0, mu: 3.0 };
    let send = engine.step(324, TICK, FREQ);
    // 324 * (1 - e^-0.03) / 3 is about 3.19: three units go out.
    assert_eq!(
        emission(0, send as i32),
        vec![WheelInput { axis: Axis::Vertical, amount: 3 }]
    );
}

#[test]
fn steps_fall_strictly_after_a_sustained_drag() {
    let held = Rect { left: 100, top: 100, right: 101, bottom: 101 };
    let mut cap = active(config(1, 1));
    cap.timer_started(1);
    let mut engine = Engine { vy: 0.0, mu: 3.0 };
    let mut now = 1;
    cap.handle(mouse(0x0010, 0, 0, 0), sample(now, held));
    assert!(cap.is_dragging);

    // Five ticks of the drag, 50 pixels down in each.
    let mut during = Vec::new();
    for _ in 0..5 {
        now += TICK;
        let commands = cap.handle(mouse(0, 0, 0, 50), sample(now, held));
        let (impulse, elapsed, frequency) = tick_of(&commands).unwrap();
        assert_eq!(impulse, 50);
        during.push(engine.step(impulse, elapsed, frequency));
    }
    // While the drag feeds the velocity, the steps grow.
    for pair in during.windows(2) {
        assert!(pair[1] > pair[0]);
    }

    // The button comes up; with momentum kept, the velocity lives on.
    let commands = cap.handle(mouse(0x0020, 0, 0, 0), sample(now + 1, held));
    assert!(commands.contains(&Command::Release));
    assert!(!commands.contains(&Command::ResetVelocity));
    assert!(tick_of(&commands).is_none());
    assert!(engine.vy > 0.0);

    // From here on nothing is fed, and each step is smaller than the one
    // before, until the velocity snaps to rest.
    let mut after = Vec::new();
    let mut units = Vec::new();
    let mut ticks = 0;
    while engine.vy != 0.0 {
        now += TICK;
        let commands = cap.handle(Message::Other, sample(now, held));
        // The gesture is over: the pointer is not confined again.
        assert_eq!(commands.len(), 1);
        let (impulse, elapsed, frequency) = tick_of(&commands).unwrap();
        assert_eq!(impulse, 0);
        let send = engine.step(impulse, elapsed, frequency);
        units.push(emission(0, send as i32).iter().map(|w| w.amount).sum::<i32>());
        after.push(send);
        ticks += 1;
        assert!(ticks < 10_000);
    }
    assert!(after.len() > 10);
    assert!(after[0] < during[4]);
    for pair in after.windows(2) {
        assert!(pair[1] < pair[0]);
        assert!(pair[1] > 0.0);
    }
    // In whole units the steps never grow, and they end at nothing.
    for pair in units.windows(2) {
        assert!(pair[1] <= pair[0]);
    }
    assert_eq!(units[0], 2);
    assert_eq!(*units.last().unwrap(), 0);

    // At rest the engine stays at rest and emits nothing.
    for _ in 0..3 {
        now += TICK;
        let commands = cap.handle(Message::Other, sample(now, held));
        let (impulse, elapsed, frequency) = tick_of(&commands).unwrap();
        assert_eq!(impulse, 0);
        let send = engine.step(impulse, elapsed, frequency);
        assert_eq!(send, 0.0);
        assert_eq!(engine.vy, 0.0);
        assert_eq!(emission(0, send as i32), Vec::<WheelInput>::new());
    }
}

#[test]
fn without_momentum_the_drag_ends_at_rest() {
    let held = Rect { left: 100, top: 100, right: 101, bottom: 101 };
    let mut cap = active(config(1, 0));
    cap.timer_started(1);
    let mut now = 1;
    cap.handle(mouse(0x0010, 0, 0, 0), sample(now, held));
    for _ in 0..5 {
        now += TICK;
        let commands = cap.handle(mouse(0, 0, 0, 50), sample(now, held));
        assert_eq!(tick_of(&commands).unwrap().0, 50);
    }
    cap.handle(mouse(0, 0, 0, 50), sample(now + 1, held));
    let commands = cap.handle(mouse(0x0020, 0, 0, 0), sample(now + 2, held));
    assert_eq!(
        commands,
        vec![
            Command::Release,
            Command::ResetVelocity,
            Command::StopTimer { id: 1 },
            Command::CancelClick,
        ]
    );
    // What was gathered since the last tick is dropped with the velocity.
    now += TICK;
    let commands = cap.handle(Message::Other, sample(now, held));
    assert_eq!(tick_of(&commands), Some((0, TICK, FREQ)));
}
