//! The capture loop as a state machine.
//!
//! The loop owns the accumulator and the state of the drag gesture. Its
//! caller owns everything that touches the operating system: it reports each
//! message together with what it observed, and carries out the commands that
//! come back, in their order.

use vstd::prelude::*;
use crate::config::Config;
use crate::geometry::{Point, Rect};
use crate::kinetics::{
    accumulate,
    accumulate_of,
    impulse,
    tick_due,
    tick_due_of,
    wheel_increment,
    wheel_increment_of,
    TICK_INTERVAL_MS,
};
use crate::raw_input::{classify, classify_of, MouseAction, RawMouse};

verus! {

/// Where a capture loop stands in its life.
#[derive(Clone, Copy, Debug, PartialEq, Eq, Structural)]
pub enum Phase {
    /// Resources are being set up, one step after the other.
    Starting,
    /// Everything is set up; device events are passed over until the
    /// suppression filter reports that it is active.
    AwaitingHookReady,
    /// Device events feed the accumulator and ticks drain it.
    Active,
    /// The loop has ended and its resources are being given back.
    Draining,
    /// Nothing is held any more and the stop has been reported.
    Stopped,
}

/// One step of the set-up, in the order in which the steps are taken.
#[derive(Clone, Copy, Debug, PartialEq, Eq, Structural)]
pub enum StartupStep {
    /// Prepare the thread for per-monitor coordinates.
    Prepare,
    /// Create the hidden message target.
    CreateTarget,
    /// Register the target for raw pointer input.
    RegisterInput,
    /// Start the worker that owns the suppression filter.
    SpawnFilter,
}

/// What a capture loop holds and has to give back.
#[derive(Clone, Copy, Debug, PartialEq, Eq, Structural)]
pub struct Resources {
    pub prepared: bool,
    pub target: bool,
    pub raw_input: bool,
    pub filter_worker: bool,
}

/// Raw deltas gathered since the last tick.
#[derive(Clone, Copy, Debug, PartialEq, Eq, Structural)]
pub struct TickAccumulator {
    pub dx: i32,
    pub dy: i32,
}

/// A message taken from the queue of the capture loop.
#[derive(Clone, Copy, Debug, PartialEq, Eq, Structural)]
pub enum Message {
    /// The suppression filter is installed.
    HookReady,
    /// A raw pointer event.
    Mouse(RawMouse),
    /// Anything else, the expiry of the tick timer included.
    Other,
    /// The signal to stop.
    Quit,
}

/// What the caller observed when it took a message from the queue.
#[derive(Clone, Copy, Debug, PartialEq, Eq, Structural)]
pub struct Sample {
    /// Reading of the monotonic counter.
    pub now: u64,
    /// Position of the pointer.
    pub cursor: Point,
    /// The rectangle that currently confines the pointer.
    pub clip: Rect,
}

/// An effect that the caller carries out for the loop.
#[derive(Clone, Copy, Debug, PartialEq, Eq, Structural)]
pub enum Command {
    /// Report to the coordinator that the loop runs.
    NotifyStarted,
    /// Start the tick timer and report its identifier.
    StartTimer { interval_ms: u32 },
    /// Stop the tick timer with this identifier and report the outcome.
    StopTimer { id: usize },
    /// Confine the pointer to the rectangle.
    Confine(Rect),
    /// Lift any confinement of the pointer.
    Release,
    /// Inject the press and release of a key without meaning, so that no
    /// receiver acts on the click that was kept from it.
    CancelClick,
    /// Set the velocity of the kinetics engine to zero.
    ResetVelocity,
    /// Run one tick of the kinetics engine with these velocity impulses,
    /// over `elapsed` counts of a counter with `frequency` counts a second,
    /// and inject the step that it emits.
    Advance { impulse_x: i64, impulse_y: i64, elapsed: u64, frequency: u64 },
    /// Take back the registration for raw pointer input.
    UnregisterInput,
    /// Signal the filter worker to stop, and wait for it.
    StopFilter,
    /// Destroy the hidden message target.
    DestroyTarget,
    /// Report to the coordinator that the loop has stopped.
    NotifyStopped,
}

/// The state of one capture loop.
#[derive(Clone, Copy, Debug, PartialEq, Eq, Structural)]
pub struct CaptureLoop {
    pub phase: Phase,
    pub held: Resources,
    /// The snapshot taken when the loop was made.
    pub config: Config,
    /// Counts per second of the monotonic counter.
    pub frequency: u64,
    /// Counter reading at the last tick.
    pub past: u64,
    /// Whether a drag gesture is under way.
    pub is_dragging: bool,
    /// Whether the click that started the gesture still has to be cancelled.
    pub cancel_pending: bool,
    /// The rectangle that confines the pointer during the gesture.
    pub rect: Rect,
    pub acc: TickAccumulator,
    /// Identifier of the running tick timer; zero where none runs.
    pub timer: usize,
}

/// `command` where `condition` holds, else nothing.
pub open spec fn given(condition: bool, command: Command) -> Seq<Command> {
    if condition {
        seq![command]
    } else {
        Seq::empty()
    }
}

/// Counts from `past` to `now`; zero where the counter did not move on.
pub open spec fn elapsed_of(past: u64, now: u64) -> u64 {
    if now >= past {
        (now - past) as u64
    } else {
        0
    }
}

impl Resources {
    /// Nothing held.
    pub open spec fn none() -> Resources {
        Resources { prepared: false, target: false, raw_input: false, filter_worker: false }
    }

    /// The steps were taken in their order: a later one only after every
    /// earlier one.
    pub open spec fn wf(self) -> bool {
        &&& self.filter_worker ==> self.raw_input
        &&& self.raw_input ==> self.target
        &&& self.target ==> self.prepared
    }

    /// Whether the set-up is complete.
    pub open spec fn complete(self) -> bool {
        self.prepared && self.target && self.raw_input && self.filter_worker
    }

    /// The first step that has not been taken, if any is left.
    pub open spec fn next_step(self) -> Option<StartupStep> {
        if !self.prepared {
            Some(StartupStep::Prepare)
        } else if !self.target {
            Some(StartupStep::CreateTarget)
        } else if !self.raw_input {
            Some(StartupStep::RegisterInput)
        } else if !self.filter_worker {
            Some(StartupStep::SpawnFilter)
        } else {
            None
        }
    }

    /// The resources with `step` taken.
    pub open spec fn with(self, step: StartupStep) -> Resources {
        match step {
            StartupStep::Prepare => Resources { prepared: true, ..self },
            StartupStep::CreateTarget => Resources { target: true, ..self },
            StartupStep::RegisterInput => Resources { raw_input: true, ..self },
            StartupStep::SpawnFilter => Resources { filter_worker: true, ..self },
        }
    }

    /// What gives the resources back: the registration for raw input, the
    /// filter worker, then the message target, each only where it is held.
    pub open spec fn teardown(self) -> Seq<Command> {
        given(self.raw_input, Command::UnregisterInput) + given(
            self.filter_worker,
            Command::StopFilter,
        ) + given(self.target, Command::DestroyTarget)
    }
}

impl TickAccumulator {
    /// The empty accumulator.
    pub open spec fn zero() -> TickAccumulator {
        TickAccumulator { dx: 0, dy: 0 }
    }

    /// The accumulator after a motion of `(dx, dy)` device pixels.
    pub open spec fn moved(self, dx: i32, dy: i32) -> TickAccumulator {
        TickAccumulator {
            dx: accumulate_of(self.dx as int, dx as int) as i32,
            dy: accumulate_of(self.dy as int, dy as int) as i32,
        }
    }

    /// The accumulator after a wheel notification of `ticks` wheel units at
    /// the given vertical sensitivity.
    pub open spec fn wheeled(self, ticks: i16, sensitivity: i32) -> TickAccumulator {
        TickAccumulator {
            dx: self.dx,
            dy: accumulate_of(
                self.dy as int,
                wheel_increment_of(ticks as int, sensitivity as int),
            ) as i32,
        }
    }
}

impl CaptureLoop {
    /// The invariant of a capture loop.
    pub open spec fn wf(self) -> bool {
        &&& self.config.wf()
        &&& self.held.wf()
        &&& (self.phase == Phase::AwaitingHookReady || self.phase == Phase::Active)
            ==> self.held.complete()
        &&& (self.phase == Phase::Draining || self.phase == Phase::Stopped) ==> self.held
            == Resources::none()
        &&& self.is_dragging ==> self.phase == Phase::Active
        &&& self.is_dragging ==> self.rect == Rect::unit_at(self.rect.corner())
        &&& self.cancel_pending == self.is_dragging
    }

    /// The loop as it is made: starting, holding nothing, at rest.
    pub open spec fn initial(config: Config, frequency: u64) -> CaptureLoop {
        CaptureLoop {
            phase: Phase::Starting,
            held: Resources::none(),
            config,
            frequency,
            past: 0,
            is_dragging: false,
            cancel_pending: false,
            rect: Rect { left: 0, top: 0, right: 0, bottom: 0 },
            acc: TickAccumulator::zero(),
            timer: 0,
        }
    }

    /// The step of the set-up that is to be taken next.
    pub open spec fn startup_step_of(self) -> Option<StartupStep> {
        if self.phase == Phase::Starting {
            self.held.next_step()
        } else {
            None
        }
    }

    /// The loop once it ends, from whatever it was doing: the pointer is
    /// set free where a gesture confined it, and then everything held is
    /// given back.
    pub open spec fn drained(self) -> (CaptureLoop, Seq<Command>) {
        (
            CaptureLoop {
                phase: Phase::Draining,
                held: Resources::none(),
                is_dragging: false,
                cancel_pending: false,
                acc: TickAccumulator::zero(),
                ..self
            },
            given(self.is_dragging, Command::Release) + self.held.teardown(),
        )
    }

    /// The loop after the outcome `ok` of the pending step of the set-up,
    /// learnt at counter reading `now`. A failure ends the loop at once. The
    /// last success makes it wait for the filter, and counts time from `now`.
    pub open spec fn after_startup(self, ok: bool, now: u64) -> (CaptureLoop, Seq<Command>) {
        match self.startup_step_of() {
            None => (self, Seq::empty()),
            Some(step) => {
                if !ok {
                    self.drained()
                } else if step == StartupStep::SpawnFilter {
                    (
                        CaptureLoop {
                            phase: Phase::AwaitingHookReady,
                            held: self.held.with(step),
                            past: now,
                            ..self
                        },
                        seq![Command::NotifyStarted],
                    )
                } else {
                    (CaptureLoop { held: self.held.with(step), ..self }, Seq::empty())
                }
            },
        }
    }

    /// The active loop after a device event with meaning `action`, before
    /// the tick that may follow it.
    pub open spec fn after_action(self, action: MouseAction, cursor: Point) -> (
        CaptureLoop,
        Seq<Command>,
    ) {
        match action {
            MouseAction::Ignored | MouseAction::Unrelated => (self, Seq::empty()),
            MouseAction::Wheel(ticks) => (
                CaptureLoop { acc: self.acc.wheeled(ticks, self.config.sens_y), ..self },
                given(self.timer == 0, Command::StartTimer { interval_ms: TICK_INTERVAL_MS }),
            ),
            MouseAction::ButtonDown => (
                CaptureLoop {
                    is_dragging: true,
                    cancel_pending: true,
                    rect: Rect::unit_at(cursor),
                    acc: TickAccumulator::zero(),
                    ..self
                },
                seq![Command::Confine(Rect::unit_at(cursor))] + given(
                    self.timer == 0,
                    Command::StartTimer { interval_ms: TICK_INTERVAL_MS },
                ),
            ),
            MouseAction::ButtonUp => (
                CaptureLoop {
                    is_dragging: false,
                    cancel_pending: false,
                    acc: if self.config.flick == 0 {
                        TickAccumulator::zero()
                    } else {
                        self.acc
                    },
                    ..self
                },
                seq![Command::Release] + given(self.config.flick == 0, Command::ResetVelocity)
                    + given(
                    self.config.flick == 0 && self.timer != 0,
                    Command::StopTimer { id: self.timer },
                ) + given(self.cancel_pending, Command::CancelClick),
            ),
            MouseAction::Motion(dx, dy) => (
                if self.is_dragging {
                    CaptureLoop { acc: self.acc.moved(dx, dy), ..self }
                } else {
                    self
                },
                Seq::empty(),
            ),
        }
    }

    /// Whether a tick is due at counter reading `now`.
    pub open spec fn due(self, now: u64) -> bool {
        tick_due_of(elapsed_of(self.past, now) as int, self.frequency as int)
    }

    /// The command that hands the drained accumulator to the kinetics
    /// engine at counter reading `now`.
    pub open spec fn advance(self, now: u64) -> Command {
        Command::Advance {
            impulse_x: (self.config.sens_x * self.acc.dx) as i64,
            impulse_y: (self.config.sens_y * self.acc.dy) as i64,
            elapsed: elapsed_of(self.past, now),
            frequency: self.frequency,
        }
    }

    /// The active loop after the check for a tick at counter reading `now`,
    /// where `clip` is the rectangle that confines the pointer by then. A
    /// tick that is due confines the pointer anew where a gesture is under
    /// way and something else has changed the confinement, drains the
    /// accumulator into the engine, and counts time from `now`.
    pub open spec fn after_tick(self, now: u64, clip: Rect) -> (CaptureLoop, Seq<Command>) {
        if self.due(now) {
            (
                CaptureLoop { acc: TickAccumulator::zero(), past: now, ..self },
                given(self.is_dragging && clip != self.rect, Command::Confine(self.rect)) + seq![
                    self.advance(now),
                ],
            )
        } else {
            (self, Seq::empty())
        }
    }

    /// The confinement as the tick after a device event finds it: what the
    /// caller observed, unless the event itself has just set it.
    pub open spec fn clip_after(action: MouseAction, sample: Sample) -> Rect {
        if action == MouseAction::ButtonDown {
            Rect::unit_at(sample.cursor)
        } else {
            sample.clip
        }
    }

    /// The active loop after a raw pointer event. An event that names no
    /// device changes nothing and is followed by no tick.
    pub open spec fn after_mouse(self, raw: RawMouse, sample: Sample) -> (
        CaptureLoop,
        Seq<Command>,
    ) {
        let action = classify_of(raw);
        if action == MouseAction::Ignored {
            (self, Seq::empty())
        } else {
            let (acted, first) = self.after_action(action, sample.cursor);
            let (ticked, second) = acted.after_tick(
                sample.now,
                CaptureLoop::clip_after(action, sample),
            );
            (ticked, first + second)
        }
    }

    /// The loop after `message`, taken from the queue when the caller
    /// observed `sample`, with the commands that the message calls for.
    pub open spec fn next(self, message: Message, sample: Sample) -> (CaptureLoop, Seq<Command>) {
        match self.phase {
            Phase::Starting | Phase::Draining | Phase::Stopped => (self, Seq::empty()),
            Phase::AwaitingHookReady => match message {
                Message::Quit => self.drained(),
                Message::HookReady => (CaptureLoop { phase: Phase::Active, ..self }, Seq::empty()),
                _ => (self, Seq::empty()),
            },
            Phase::Active => match message {
                Message::Quit => self.drained(),
                Message::Mouse(raw) => self.after_mouse(raw, sample),
                _ => self.after_tick(sample.now, sample.clip),
            },
        }
    }

    /// The loop after its resources have been given back.
    pub open spec fn finished(self) -> (CaptureLoop, Option<Command>) {
        if self.phase == Phase::Draining {
            (CaptureLoop { phase: Phase::Stopped, ..self }, Some(Command::NotifyStopped))
        } else {
            (self, None)
        }
    }
}

/// Appends `command` to `commands` where `condition` holds.
fn put(commands: &mut Vec<Command>, condition: bool, command: Command)
    ensures
        final(commands)@ == old(commands)@ + given(condition, command),
{
    if condition {
        commands.push(command);
    }
    assert(commands@ =~= old(commands)@ + given(condition, command));
}

impl Resources {
    /// Appends to `commands` what gives the resources back.
    fn release_into(&self, commands: &mut Vec<Command>)
        ensures
            final(commands)@ == old(commands)@ + self.teardown(),
    {
        put(commands, self.raw_input, Command::UnregisterInput);
        put(commands, self.filter_worker, Command::StopFilter);
        put(commands, self.target, Command::DestroyTarget);
        assert(commands@ =~= old(commands)@ + self.teardown());
    }
}

impl CaptureLoop {
    /// Makes a loop for the snapshot `config`, brought into its valid range,
    /// and a counter of `frequency` counts per second.
    pub fn new(config: Config, frequency: u64) -> (made: CaptureLoop)
        ensures
            made == CaptureLoop::initial(Config::loaded(config), frequency),
            made.wf(),
    {
        CaptureLoop {
            phase: Phase::Starting,
            held: Resources {
                prepared: false,
                target: false,
                raw_input: false,
                filter_worker: false,
            },
            config: Config::load(config),
            frequency,
            past: 0,
            is_dragging: false,
            cancel_pending: false,
            rect: Rect::zero(),
            acc: TickAccumulator { dx: 0, dy: 0 },
            timer: 0,
        }
    }

    /// The step of the set-up that the caller has to take next; `None` once
    /// the loop is past its set-up.
    pub fn startup_step(&self) -> (step: Option<StartupStep>)
        ensures
            step == self.startup_step_of(),
            step is Some <==> self.phase == Phase::Starting && !self.held.complete(),
    {
        if self.phase != Phase::Starting {
            None
        } else if !self.held.prepared {
            Some(StartupStep::Prepare)
        } else if !self.held.target {
            Some(StartupStep::CreateTarget)
        } else if !self.held.raw_input {
            Some(StartupStep::RegisterInput)
        } else if !self.held.filter_worker {
            Some(StartupStep::SpawnFilter)
        } else {
            None
        }
    }

    /// Ends the loop: frees the pointer, gives back what is held.
    fn drain(&mut self) -> (commands: Vec<Command>)
        ensures
            (*final(self), commands@) == old(self).drained(),
    {
        let mut commands: Vec<Command> = Vec::new();
        put(&mut commands, self.is_dragging, Command::Release);
        self.held.release_into(&mut commands);
        assert(commands@ =~= old(self).drained().1);
        self.phase = Phase::Draining;
        self.held = Resources {
            prepared: false,
            target: false,
            raw_input: false,
            filter_worker: false,
        };
        self.is_dragging = false;
        self.cancel_pending = false;
        self.acc = TickAccumulator { dx: 0, dy: 0 };
        commands
    }

    /// Records the outcome of the step that `startup_step` named, learnt at
    /// counter reading `now`.
    ///
    /// A failure ends the loop at once: what the earlier steps set up is
    /// given back, and nothing else is done. The success of the last step
    /// makes the loop report that it runs and wait for the filter.
    pub fn startup_result(&mut self, ok: bool, now: u64) -> (commands: Vec<Command>)
        ensures
            (*final(self), commands@) == old(self).after_startup(ok, now),
            old(self).wf() ==> final(self).wf(),
            old(self).startup_step_of() is Some && !ok ==> final(self).phase == Phase::Draining,
    {
        match self.startup_step() {
            None => Vec::new(),
            Some(step) => {
                if !ok {
                    self.drain()
                } else {
                    match step {
                        StartupStep::Prepare => {
                            self.held.prepared = true;
                        },
                        StartupStep::CreateTarget => {
                            self.held.target = true;
                        },
                        StartupStep::RegisterInput => {
                            self.held.raw_input = true;
                        },
                        StartupStep::SpawnFilter => {
                            self.held.filter_worker = true;
                        },
                    }
                    let mut commands: Vec<Command> = Vec::new();
                    if step == StartupStep::SpawnFilter {
                        self.phase = Phase::AwaitingHookReady;
                        self.past = now;
                        commands.push(Command::NotifyStarted);
                        assert(commands@ =~= seq![Command::NotifyStarted]);
                    }
                    commands
                }
            },
        }
    }

    /// Applies a device event with meaning `action`.
    fn act(&mut self, action: MouseAction, cursor: Point) -> (commands: Vec<Command>)
        ensures
            (*final(self), commands@) == old(self).after_action(action, cursor),
    {
        let mut commands: Vec<Command> = Vec::new();
        match action {
            MouseAction::Ignored => {},
            MouseAction::Unrelated => {},
            MouseAction::Wheel(ticks) => {
                let increment: i32 = wheel_increment(ticks, self.config.sens_y);
                self.acc.dy = accumulate(self.acc.dy, increment);
                put(
                    &mut commands,
                    self.timer == 0,
                    Command::StartTimer { interval_ms: TICK_INTERVAL_MS },
                );
            },
            MouseAction::ButtonDown => {
                let rect: Rect = Rect::at(cursor);
                self.is_dragging = true;
                self.cancel_pending = true;
                self.rect = rect;
                self.acc = TickAccumulator { dx: 0, dy: 0 };
                commands.push(Command::Confine(rect));
                put(
                    &mut commands,
                    self.timer == 0,
                    Command::StartTimer { interval_ms: TICK_INTERVAL_MS },
                );
            },
            MouseAction::ButtonUp => {
                let at_rest: bool = self.config.flick == 0;
                commands.push(Command::Release);
                put(&mut commands, at_rest, Command::ResetVelocity);
                put(&mut commands, at_rest && self.timer != 0, Command::StopTimer { id: self.timer });
                put(&mut commands, self.cancel_pending, Command::CancelClick);
                self.is_dragging = false;
                self.cancel_pending = false;
                if at_rest {
                    self.acc = TickAccumulator { dx: 0, dy: 0 };
                }
            },
            MouseAction::Motion(dx, dy) => {
                if self.is_dragging {
                    self.acc.dx = accumulate(self.acc.dx, dx);
                    self.acc.dy = accumulate(self.acc.dy, dy);
                }
            },
        }
        assert(commands@ =~= old(self).after_action(action, cursor).1);
        commands
    }

    /// Checks for a tick and, where one is due, drains the accumulator.
    fn tick(&mut self, now: u64, clip: Rect) -> (commands: Vec<Command>)
        ensures
            (*final(self), commands@) == old(self).after_tick(now, clip),
    {
        let mut commands: Vec<Command> = Vec::new();
        let elapsed: u64 = if now >= self.past { now - self.past } else { 0 };
        if tick_due(elapsed, self.frequency) {
            put(
                &mut commands,
                self.is_dragging && !clip.same(&self.rect),
                Command::Confine(self.rect),
            );
            commands.push(
                Command::Advance {
                    impulse_x: impulse(self.config.sens_x, self.acc.dx),
                    impulse_y: impulse(self.config.sens_y, self.acc.dy),
                    elapsed,
                    frequency: self.frequency,
                },
            );
            self.acc = TickAccumulator { dx: 0, dy: 0 };
            self.past = now;
        }
        assert(commands@ =~= old(self).after_tick(now, clip).1);
        commands
    }

    /// Takes one message from the queue into account.
    ///
    /// `sample` holds what the caller observed when it took the message. The
    /// commands that come back are to be carried out in their order.
    ///
    /// Before the filter is active, and outside the running phases, device
    /// events change nothing. The signal to stop ends the loop from either
    /// running phase, and frees the pointer where a gesture confined it.
    pub fn handle(&mut self, message: Message, sample: Sample) -> (commands: Vec<Command>)
        ensures
            (*final(self), commands@) == old(self).next(message, sample),
            old(self).wf() ==> final(self).wf(),
            old(self).phase != Phase::Active && !(message is Quit) && !(message is HookReady)
                ==> *final(self) == *old(self) && commands@.len() == 0,
            message is Quit && (old(self).phase == Phase::Active || old(self).phase
                == Phase::AwaitingHookReady) ==> final(self).phase == Phase::Draining,
    {
        match self.phase {
            Phase::Starting => Vec::new(),
            Phase::Draining => Vec::new(),
            Phase::Stopped => Vec::new(),
            Phase::AwaitingHookReady => match message {
                Message::Quit => self.drain(),
                Message::HookReady => {
                    self.phase = Phase::Active;
                    Vec::new()
                },
                _ => Vec::new(),
            },
            Phase::Active => match message {
                Message::Quit => self.drain(),
                Message::Mouse(raw) => {
                    let action: MouseAction = classify(&raw);
                    if action == MouseAction::Ignored {
                        Vec::new()
                    } else {
                        let mut commands: Vec<Command> = self.act(action, sample.cursor);
                        let clip: Rect = if action == MouseAction::ButtonDown {
                            Rect::at(sample.cursor)
                        } else {
                            sample.clip
                        };
                        let mut second: Vec<Command> = self.tick(sample.now, clip);
                        commands.append(&mut second);
                        assert(commands@ =~= old(self).after_mouse(raw, sample).1);
                        commands
                    }
                },
                _ => self.tick(sample.now, sample.clip),
            },
        }
    }

    /// Records that the commands of the draining loop have been carried
    /// out. The answer is the report of the stop, which is due exactly once.
    pub fn finish(&mut self) -> (report: Option<Command>)
        ensures
            (*final(self), report) == old(self).finished(),
            old(self).wf() ==> final(self).wf(),
            report is Some <==> old(self).phase == Phase::Draining,
            report is Some ==> final(self).phase == Phase::Stopped,
    {
        if self.phase == Phase::Draining {
            self.phase = Phase::Stopped;
            Some(Command::NotifyStopped)
        } else {
            None
        }
    }

    /// Records the identifier that starting the tick timer gave; zero
    /// stands for a timer that could not be started.
    pub fn timer_started(&mut self, id: usize)
        ensures
            *final(self) == (CaptureLoop { timer: id, ..*old(self) }),
            old(self).wf() ==> final(self).wf(),
    {
        self.timer = id;
    }

    /// Records the outcome of stopping the tick timer: a timer that was
    /// stopped is forgotten, one that was not is kept.
    pub fn timer_stopped(&mut self, ok: bool)
        ensures
            *final(self) == (CaptureLoop {
                timer: if ok {
                    0
                } else {
                    old(self).timer
                },
                ..*old(self)
            }),
            old(self).wf() ==> final(self).wf(),
    {
        if ok {
            self.timer = 0;
        }
    }
}

} // verus!
