//! What holds of a capture loop over a whole run of messages: the
//! confinement of the pointer during a drag gesture, and the bookkeeping of
//! the accumulator.

use vstd::prelude::*;
use crate::capture::{
    given,
    CaptureLoop,
    Command,
    Message,
    Phase,
    Resources,
    Sample,
    TickAccumulator,
};
use crate::geometry::Rect;
use crate::kinetics::wheel_increment_of;
use crate::raw_input::{classify_of, MouseAction, RawMouse};

verus! {

/// A message together with what the caller observed when it took it.
#[derive(Clone, Copy, Debug, PartialEq, Eq, Structural)]
pub struct Input {
    pub message: Message,
    pub sample: Sample,
}

/// Whether `input` leaves a gesture that is under way as it is: it is not
/// the signal to stop, and not the trigger button going down or coming up.
pub open spec fn keeps_gesture(input: Input) -> bool {
    match input.message {
        Message::Quit => false,
        Message::Mouse(raw) => classify_of(raw) != MouseAction::ButtonDown && classify_of(raw)
            != MouseAction::ButtonUp,
        _ => true,
    }
}

/// What `input` adds to the horizontal accumulator during a gesture.
pub open spec fn fed_x(input: Input) -> int {
    match input.message {
        Message::Mouse(raw) => match classify_of(raw) {
            MouseAction::Motion(dx, _) => dx as int,
            _ => 0,
        },
        _ => 0,
    }
}

/// What `input` adds to the vertical accumulator during a gesture, at the
/// vertical sensitivity `sens_y`.
pub open spec fn fed_y(sens_y: i32, input: Input) -> int {
    match input.message {
        Message::Mouse(raw) => match classify_of(raw) {
            MouseAction::Motion(_, dy) => dy as int,
            MouseAction::Wheel(ticks) => wheel_increment_of(ticks as int, sens_y as int),
            _ => 0,
        },
        _ => 0,
    }
}

/// The size of `v`.
pub open spec fn magnitude(v: int) -> int {
    if v < 0 {
        -v
    } else {
        v
    }
}

/// Everything that `inputs` add to the horizontal accumulator.
pub open spec fn total_x(inputs: Seq<Input>) -> int
    decreases inputs.len(),
{
    if inputs.len() == 0 {
        0
    } else {
        total_x(inputs.drop_last()) + fed_x(inputs.last())
    }
}

/// Everything that `inputs` add to the vertical accumulator.
pub open spec fn total_y(sens_y: i32, inputs: Seq<Input>) -> int
    decreases inputs.len(),
{
    if inputs.len() == 0 {
        0
    } else {
        total_y(sens_y, inputs.drop_last()) + fed_y(sens_y, inputs.last())
    }
}

/// The sizes of what `inputs` add to the horizontal accumulator, summed.
pub open spec fn reach_x(inputs: Seq<Input>) -> int
    decreases inputs.len(),
{
    if inputs.len() == 0 {
        0
    } else {
        reach_x(inputs.drop_last()) + magnitude(fed_x(inputs.last()))
    }
}

/// The sizes of what `inputs` add to the vertical accumulator, summed.
pub open spec fn reach_y(sens_y: i32, inputs: Seq<Input>) -> int
    decreases inputs.len(),
{
    if inputs.len() == 0 {
        0
    } else {
        reach_y(sens_y, inputs.drop_last()) + magnitude(fed_y(sens_y, inputs.last()))
    }
}

/// The horizontal impulse that `command` hands to the kinetics engine.
pub open spec fn impulse_x_of(command: Command) -> int {
    match command {
        Command::Advance { impulse_x, .. } => impulse_x as int,
        _ => 0,
    }
}

/// The vertical impulse that `command` hands to the kinetics engine.
pub open spec fn impulse_y_of(command: Command) -> int {
    match command {
        Command::Advance { impulse_y, .. } => impulse_y as int,
        _ => 0,
    }
}

/// The horizontal impulses that `commands` hand to the engine, summed.
pub open spec fn emitted_x(commands: Seq<Command>) -> int
    decreases commands.len(),
{
    if commands.len() == 0 {
        0
    } else {
        emitted_x(commands.drop_last()) + impulse_x_of(commands.last())
    }
}

/// The vertical impulses that `commands` hand to the engine, summed.
pub open spec fn emitted_y(commands: Seq<Command>) -> int
    decreases commands.len(),
{
    if commands.len() == 0 {
        0
    } else {
        emitted_y(commands.drop_last()) + impulse_y_of(commands.last())
    }
}

/// The confinement of the pointer once `commands` have been carried out,
/// where it was `before`: `None` stands for a pointer that is free.
pub open spec fn confinement(before: Option<Rect>, commands: Seq<Command>) -> Option<Rect>
    decreases commands.len(),
{
    if commands.len() == 0 {
        before
    } else {
        match commands.last() {
            Command::Confine(rect) => Some(rect),
            Command::Release => None,
            _ => confinement(before, commands.drop_last()),
        }
    }
}

impl CaptureLoop {
    /// The loop after each of `inputs` in turn, with all the commands that
    /// they called for.
    pub open spec fn run(self, inputs: Seq<Input>) -> (CaptureLoop, Seq<Command>)
        decreases inputs.len(),
    {
        if inputs.len() == 0 {
            (self, Seq::empty())
        } else {
            let (before, earlier) = self.run(inputs.drop_last());
            let (after, latest) = before.next(inputs.last().message, inputs.last().sample);
            (after, earlier + latest)
        }
    }
}

/// The trigger button going down starts a gesture: the pointer is confined
/// to the rectangle at its position, which is one unit wide and high
/// wherever the position leaves room for it, and the accumulator starts
/// empty.
pub proof fn button_down_confines(state: CaptureLoop, raw: RawMouse, sample: Sample)
    requires
        state.wf(),
        state.phase == Phase::Active,
        classify_of(raw) == MouseAction::ButtonDown,
    ensures
        ({
            let (after, commands) = state.next(Message::Mouse(raw), sample);
            let rect = Rect::unit_at(sample.cursor);
            &&& after.wf()
            &&& after.is_dragging
            &&& after.cancel_pending
            &&& after.rect == rect
            &&& after.acc.dx == 0 && after.acc.dy == 0
            &&& forall|before: Option<Rect>| confinement(before, commands) == Some(rect)
            &&& sample.cursor.x < i32::MAX && sample.cursor.y < i32::MAX ==> rect.is_unit()
        }),
{
    let (after, commands) = state.next(Message::Mouse(raw), sample);
    let rect = Rect::unit_at(sample.cursor);
    let (acted, first) = state.after_action(MouseAction::ButtonDown, sample.cursor);
    let (ticked, second) = acted.after_tick(sample.now, rect);
    assert(commands == first + second);
    assert forall|before: Option<Rect>| confinement(before, commands) == Some(rect) by {
        confinement_of_started_gesture(before, state, sample);
    }
}

/// The commands of the message that starts a gesture leave the pointer
/// confined to the rectangle at its position.
proof fn confinement_of_started_gesture(before: Option<Rect>, state: CaptureLoop, sample: Sample)
    ensures
        ({
            let rect = Rect::unit_at(sample.cursor);
            let (acted, first) = state.after_action(MouseAction::ButtonDown, sample.cursor);
            let (ticked, second) = acted.after_tick(sample.now, rect);
            confinement(before, first + second) == Some(rect)
        }),
{
    let rect = Rect::unit_at(sample.cursor);
    let (acted, first) = state.after_action(MouseAction::ButtonDown, sample.cursor);
    let (ticked, second) = acted.after_tick(sample.now, rect);
    assert(first[0] == Command::Confine(rect));
    assert forall|i: int| 0 <= i < second.len() implies !(#[trigger] second[i] is Confine)
        && second[i] != Command::Release by {}
    assert forall|i: int| 0 <= i < first.len() implies #[trigger] first[i] != Command::Release
        && (first[i] is Confine ==> first[i] == Command::Confine(rect)) by {}
    let all = first + second;
    assert forall|i: int| 0 <= i < all.len() implies #[trigger] all[i] != Command::Release && (
    all[i] is Confine ==> all[i] == Command::Confine(rect)) by {
        if i < first.len() {
            assert(all[i] == first[i]);
        } else {
            assert(all[i] == second[i - first.len()]);
        }
    }
    assert(all[0] == Command::Confine(rect));
    confinement_is_last_word(before, all, rect, 0);
}

/// Where `commands` never free the pointer and confine it to `rect` alone,
/// and do confine it at position `at`, the pointer ends up confined to
/// `rect`.
proof fn confinement_is_last_word(
    before: Option<Rect>,
    commands: Seq<Command>,
    rect: Rect,
    at: int,
)
    requires
        0 <= at < commands.len(),
        commands[at] == Command::Confine(rect),
        forall|i: int|
            0 <= i < commands.len() ==> #[trigger] commands[i] != Command::Release && (
            commands[i] is Confine ==> commands[i] == Command::Confine(rect)),
    ensures
        confinement(before, commands) == Some(rect),
    decreases commands.len(),
{
    let last = commands.last();
    assert(last == commands[commands.len() - 1]);
    if last is Confine {
    } else {
        assert(at < commands.len() - 1);
        let rest = commands.drop_last();
        assert forall|i: int| 0 <= i < rest.len() implies #[trigger] rest[i] != Command::Release
            && (rest[i] is Confine ==> rest[i] == Command::Confine(rect)) by {
            assert(rest[i] == commands[i]);
        }
        assert(rest[at] == commands[at]);
        confinement_is_last_word(before, rest, rect, at);
    }
}

/// Where `commands` never free the pointer and confine it to `rect` alone,
/// a pointer that was confined to `rect` stays so.
proof fn confinement_is_kept(commands: Seq<Command>, rect: Rect)
    requires
        forall|i: int|
            0 <= i < commands.len() ==> #[trigger] commands[i] != Command::Release && (
            commands[i] is Confine ==> commands[i] == Command::Confine(rect)),
    ensures
        confinement(Some(rect), commands) == Some(rect),
    decreases commands.len(),
{
    if commands.len() > 0 {
        let last = commands.last();
        assert(last == commands[commands.len() - 1]);
        let rest = commands.drop_last();
        assert forall|i: int| 0 <= i < rest.len() implies #[trigger] rest[i] != Command::Release
            && (rest[i] is Confine ==> rest[i] == Command::Confine(rect)) by {
            assert(rest[i] == commands[i]);
        }
        confinement_is_kept(rest, rect);
    }
}

/// One message within a gesture: the gesture goes on with its rectangle,
/// and no command frees the pointer or confines it elsewhere.
proof fn gesture_step(state: CaptureLoop, input: Input)
    requires
        state.wf(),
        state.is_dragging,
        keeps_gesture(input),
    ensures
        ({
            let (after, commands) = state.next(input.message, input.sample);
            &&& after.wf()
            &&& after.is_dragging
            &&& after.rect == state.rect
            &&& after.config == state.config
            &&& forall|i: int|
                0 <= i < commands.len() ==> #[trigger] commands[i] != Command::Release && (
                commands[i] is Confine ==> commands[i] == Command::Confine(state.rect))
        }),
{
    let (after, commands) = state.next(input.message, input.sample);
    match input.message {
        Message::Mouse(raw) => {
            let action = classify_of(raw);
            if action != MouseAction::Ignored {
                let (acted, first) = state.after_action(action, input.sample.cursor);
                let (ticked, second) = acted.after_tick(
                    input.sample.now,
                    CaptureLoop::clip_after(action, input.sample),
                );
                assert(commands == first + second);
                assert forall|i: int| 0 <= i < commands.len() implies #[trigger] commands[i]
                    != Command::Release && (commands[i] is Confine ==> commands[i]
                    == Command::Confine(state.rect)) by {
                    if i < first.len() {
                        assert(commands[i] == first[i]);
                    } else {
                        assert(commands[i] == second[i - first.len()]);
                    }
                }
            }
        },
        _ => {},
    }
}

/// Between the trigger button going down and coming up, the pointer stays
/// confined to the rectangle of the gesture.
///
/// Over any run of messages that neither end the loop nor touch the
/// trigger button, a loop with a gesture under way keeps the gesture and
/// its rectangle, issues no command that frees the pointer or confines it
/// anywhere else, and so leaves a pointer that was confined to the
/// rectangle confined to it.
pub proof fn gesture_keeps_confinement(state: CaptureLoop, inputs: Seq<Input>)
    requires
        state.wf(),
        state.is_dragging,
        forall|i: int| 0 <= i < inputs.len() ==> keeps_gesture(#[trigger] inputs[i]),
    ensures
        ({
            let (after, commands) = state.run(inputs);
            &&& after.wf()
            &&& after.is_dragging
            &&& after.rect == state.rect
            &&& after.config == state.config
            &&& forall|i: int|
                0 <= i < commands.len() ==> #[trigger] commands[i] != Command::Release && (
                commands[i] is Confine ==> commands[i] == Command::Confine(state.rect))
            &&& confinement(Some(state.rect), commands) == Some(state.rect)
        }),
    decreases inputs.len(),
{
    let (after, commands) = state.run(inputs);
    if inputs.len() > 0 {
        let earlier_inputs = inputs.drop_last();
        assert forall|i: int| 0 <= i < earlier_inputs.len() implies keeps_gesture(
            #[trigger] earlier_inputs[i],
        ) by {
            assert(earlier_inputs[i] == inputs[i]);
        }
        gesture_keeps_confinement(state, earlier_inputs);
        let (before, earlier) = state.run(earlier_inputs);
        assert(keeps_gesture(inputs[inputs.len() - 1]));
        gesture_step(before, inputs.last());
        let (next, latest) = before.next(inputs.last().message, inputs.last().sample);
        assert(commands == earlier + latest);
        assert forall|i: int| 0 <= i < commands.len() implies #[trigger] commands[i]
            != Command::Release && (commands[i] is Confine ==> commands[i] == Command::Confine(
            state.rect,
        )) by {
            if i < earlier.len() {
                assert(commands[i] == earlier[i]);
            } else {
                assert(commands[i] == latest[i - earlier.len()]);
            }
        }
    }
    confinement_is_kept(commands, state.rect);
}

/// A tick within a gesture puts the confinement back where something else
/// has changed it.
pub proof fn tick_renews_confinement(state: CaptureLoop, sample: Sample)
    requires
        state.wf(),
        state.is_dragging,
        state.due(sample.now),
        sample.clip != state.rect,
    ensures
        ({
            let (after, commands) = state.next(Message::Other, sample);
            &&& commands.len() == 2
            &&& commands[0] == Command::Confine(state.rect)
            &&& commands[1] == state.advance(sample.now)
        }),
{
}

/// The trigger button coming up ends the gesture and frees the pointer in
/// the same breath: the commands of the event free it and none confines it
/// again, and the click that started a gesture is cancelled.
pub proof fn button_up_releases(state: CaptureLoop, raw: RawMouse, sample: Sample)
    requires
        state.wf(),
        state.phase == Phase::Active,
        classify_of(raw) == MouseAction::ButtonUp,
    ensures
        ({
            let (after, commands) = state.next(Message::Mouse(raw), sample);
            &&& after.wf()
            &&& !after.is_dragging
            &&& !after.cancel_pending
            &&& commands.contains(Command::Release)
            &&& commands.contains(Command::CancelClick) <==> state.is_dragging
            &&& forall|before: Option<Rect>| confinement(before, commands) == None::<Rect>
        }),
{
    let (after, commands) = state.next(Message::Mouse(raw), sample);
    let (acted, first) = state.after_action(MouseAction::ButtonUp, sample.cursor);
    let (ticked, second) = acted.after_tick(sample.now, sample.clip);
    assert(commands == first + second);
    let at = 0;
    assert(first[at] == Command::Release);
    assert(commands[at] == Command::Release);
    assert forall|i: int| 0 <= i < commands.len() implies !(#[trigger] commands[i] is Confine) by {
        if i < first.len() {
            assert(commands[i] == first[i]);
        } else {
            assert(commands[i] == second[i - first.len()]);
        }
    }
    assert forall|before: Option<Rect>| confinement(before, commands) == None::<Rect> by {
        release_is_last_word(before, commands, at);
    }
    if state.is_dragging {
        let k = first.len() - 1;
        assert(first[k] == Command::CancelClick);
        assert(commands[k] == Command::CancelClick);
    } else {
        assert forall|i: int| 0 <= i < commands.len() implies #[trigger] commands[i]
            != Command::CancelClick by {
            if i < first.len() {
                assert(commands[i] == first[i]);
            } else {
                assert(commands[i] == second[i - first.len()]);
            }
        }
    }
}

/// Where `commands` free the pointer at position `at` and never confine
/// it, the pointer ends up free.
proof fn release_is_last_word(before: Option<Rect>, commands: Seq<Command>, at: int)
    requires
        0 <= at < commands.len(),
        commands[at] == Command::Release,
        forall|i: int| 0 <= i < commands.len() ==> !(#[trigger] commands[i] is Confine),
    ensures
        confinement(before, commands) == None::<Rect>,
    decreases commands.len(),
{
    let last = commands.last();
    assert(last == commands[commands.len() - 1]);
    if last == Command::Release {
    } else {
        assert(at < commands.len() - 1);
        let rest = commands.drop_last();
        assert forall|i: int| 0 <= i < rest.len() implies !(#[trigger] rest[i] is Confine) by {
            assert(rest[i] == commands[i]);
        }
        assert(rest[at] == commands[at]);
        release_is_last_word(before, rest, at);
    }
}

/// The signal to stop frees the pointer where a gesture confined it, gives
/// back everything that the loop holds, each thing once, and leaves the
/// loop draining with nothing held.
pub proof fn quit_unwinds(state: CaptureLoop, sample: Sample)
    requires
        state.wf(),
        state.phase == Phase::Active || state.phase == Phase::AwaitingHookReady,
    ensures
        ({
            let (after, commands) = state.next(Message::Quit, sample);
            &&& after.wf()
            &&& after.phase == Phase::Draining
            &&& after.held == Resources::none()
            &&& !after.is_dragging
            &&& commands == given(state.is_dragging, Command::Release) + seq![
                Command::UnregisterInput,
                Command::StopFilter,
                Command::DestroyTarget,
            ]
            &&& state.is_dragging ==> confinement(Some(state.rect), commands) == None::<Rect>
        }),
{
    let (after, commands) = state.next(Message::Quit, sample);
    let expected = given(state.is_dragging, Command::Release) + seq![
        Command::UnregisterInput,
        Command::StopFilter,
        Command::DestroyTarget,
    ];
    assert(commands =~= expected);
    if state.is_dragging {
        assert(commands[0] == Command::Release);
        release_is_last_word(Some(state.rect), commands, 0);
    }
}

/// A failure during the set-up gives back exactly what the earlier steps
/// had set up, and nothing that was never there.
pub proof fn failed_startup_unwinds(state: CaptureLoop, now: u64)
    requires
        state.wf(),
        state.startup_step_of() is Some,
    ensures
        ({
            let (after, commands) = state.after_startup(false, now);
            &&& after.wf()
            &&& after.phase == Phase::Draining
            &&& after.held == Resources::none()
            &&& commands.contains(Command::UnregisterInput) <==> state.held.raw_input
            &&& commands.contains(Command::StopFilter) <==> state.held.filter_worker
            &&& commands.contains(Command::DestroyTarget) <==> state.held.target
            &&& commands.len() == (if state.held.raw_input {
                1int
            } else {
                0int
            }) + (if state.held.filter_worker {
                1int
            } else {
                0int
            }) + (if state.held.target {
                1int
            } else {
                0int
            })
        }),
{
    let (after, commands) = state.after_startup(false, now);
    let a = given(state.held.raw_input, Command::UnregisterInput);
    let b = given(state.held.filter_worker, Command::StopFilter);
    let c = given(state.held.target, Command::DestroyTarget);
    assert(commands =~= a + b + c);
    if state.held.raw_input {
        assert(commands[0] == Command::UnregisterInput);
    }
    if state.held.filter_worker {
        assert(commands[a.len() as int] == Command::StopFilter);
    }
    if state.held.target {
        assert(commands[(a.len() + b.len()) as int] == Command::DestroyTarget);
    }
}

/// The impulses of two runs of commands add up.
proof fn emitted_adds_up(first: Seq<Command>, second: Seq<Command>)
    ensures
        emitted_x(first + second) == emitted_x(first) + emitted_x(second),
        emitted_y(first + second) == emitted_y(first) + emitted_y(second),
    decreases second.len(),
{
    if second.len() == 0 {
        assert(first + second =~= first);
    } else {
        let all = first + second;
        assert(all.drop_last() =~= first + second.drop_last());
        assert(all.last() == second.last());
        emitted_adds_up(first, second.drop_last());
    }
}

/// Commands that are no tick of the engine hand it nothing.
proof fn emitted_nothing(commands: Seq<Command>)
    requires
        forall|i: int| 0 <= i < commands.len() ==> !(#[trigger] commands[i] is Advance),
    ensures
        emitted_x(commands) == 0,
        emitted_y(commands) == 0,
    decreases commands.len(),
{
    if commands.len() > 0 {
        let rest = commands.drop_last();
        assert(commands.last() == commands[commands.len() - 1]);
        assert forall|i: int| 0 <= i < rest.len() implies !(#[trigger] rest[i] is Advance) by {
            assert(rest[i] == commands[i]);
        }
        emitted_nothing(rest);
    }
}

/// The product of two `i32` values lies within `i64`.
proof fn product_fits(a: i32, b: i32)
    ensures
        i64::MIN <= a * b <= i64::MAX,
{
    assert(-0x4000_0000_0000_0000 <= a * b <= 0x4000_0000_0000_0000) by (nonlinear_arith)
        requires
            -0x8000_0000 <= a <= 0x7fff_ffff,
            -0x8000_0000 <= b <= 0x7fff_ffff,
    ;
}

/// The check for a tick hands the engine the whole accumulator, scaled,
/// or leaves the accumulator as it is.
proof fn tick_conserves(state: CaptureLoop, now: u64, clip: Rect)
    ensures
        ({
            let (after, commands) = state.after_tick(now, clip);
            &&& emitted_x(commands) + state.config.sens_x * after.acc.dx == state.config.sens_x
                * state.acc.dx
            &&& emitted_y(commands) + state.config.sens_y * after.acc.dy == state.config.sens_y
                * state.acc.dy
            &&& magnitude(after.acc.dx as int) <= magnitude(state.acc.dx as int)
            &&& magnitude(after.acc.dy as int) <= magnitude(state.acc.dy as int)
        }),
{
    let (after, commands) = state.after_tick(now, clip);
    if state.due(now) {
        let renew = given(
            state.is_dragging && clip != state.rect,
            Command::Confine(state.rect),
        );
        let drain = seq![state.advance(now)];
        assert(commands == renew + drain);
        emitted_adds_up(renew, drain);
        emitted_nothing(renew);
        assert(drain.drop_last() =~= Seq::<Command>::empty());
        assert(drain.last() == state.advance(now));
        assert(emitted_x(drain.drop_last()) == 0);
        assert(emitted_y(drain.drop_last()) == 0);
        product_fits(state.config.sens_x, state.acc.dx);
        product_fits(state.config.sens_y, state.acc.dy);
        assert(state.config.sens_x * after.acc.dx == 0) by (nonlinear_arith)
            requires
                after.acc.dx == 0,
        ;
        assert(state.config.sens_y * after.acc.dy == 0) by (nonlinear_arith)
            requires
                after.acc.dy == 0,
        ;
    } else {
        assert(emitted_x(commands) == 0);
        assert(emitted_y(commands) == 0);
    }
}

/// One message within a gesture, for the accumulator: what the message
/// feeds either stays in the accumulator or goes to the engine, scaled.
proof fn gesture_step_conserves(state: CaptureLoop, input: Input)
    requires
        state.wf(),
        state.is_dragging,
        keeps_gesture(input),
        magnitude(state.acc.dx as int) + magnitude(fed_x(input)) <= i32::MAX,
        magnitude(state.acc.dy as int) + magnitude(fed_y(state.config.sens_y, input))
            <= i32::MAX,
    ensures
        ({
            let (after, commands) = state.next(input.message, input.sample);
            &&& emitted_x(commands) + state.config.sens_x * after.acc.dx == state.config.sens_x
                * (state.acc.dx + fed_x(input))
            &&& emitted_y(commands) + state.config.sens_y * after.acc.dy == state.config.sens_y
                * (state.acc.dy + fed_y(state.config.sens_y, input))
            &&& magnitude(after.acc.dx as int) <= magnitude(state.acc.dx as int) + magnitude(
                fed_x(input),
            )
            &&& magnitude(after.acc.dy as int) <= magnitude(state.acc.dy as int) + magnitude(
                fed_y(state.config.sens_y, input),
            )
        }),
{
    let (after, commands) = state.next(input.message, input.sample);
    match input.message {
        Message::Mouse(raw) => {
            let action = classify_of(raw);
            if action != MouseAction::Ignored {
                let (acted, first) = state.after_action(action, input.sample.cursor);
                let clip = CaptureLoop::clip_after(action, input.sample);
                let (ticked, second) = acted.after_tick(input.sample.now, clip);
                assert(commands == first + second);
                assert(acted.acc.dx == state.acc.dx + fed_x(input));
                assert(acted.acc.dy == state.acc.dy + fed_y(state.config.sens_y, input));
                emitted_adds_up(first, second);
                emitted_nothing(first);
                tick_conserves(acted, input.sample.now, clip);
            } else {
                assert(emitted_x(commands) == 0);
                assert(emitted_y(commands) == 0);
            }
        },
        _ => {
            tick_conserves(state, input.sample.now, input.sample.clip);
        },
    }
}

/// Nothing that a gesture feeds is lost or counted twice.
///
/// Over any run of messages within a gesture, whenever the ticks fall: the
/// impulses handed to the kinetics engine, together with what is still in
/// the accumulator, scaled, are the scaled sum of what the accumulator held
/// at first and of everything that the messages fed. Once a tick has
/// emptied the accumulator, the engine has received the whole scaled input.
///
/// The accumulator holds its sums within `i32`; the statement is for runs
/// that stay within that range.
pub proof fn gesture_conserves_input(state: CaptureLoop, inputs: Seq<Input>)
    requires
        state.wf(),
        state.is_dragging,
        forall|i: int| 0 <= i < inputs.len() ==> keeps_gesture(#[trigger] inputs[i]),
        magnitude(state.acc.dx as int) + reach_x(inputs) <= i32::MAX,
        magnitude(state.acc.dy as int) + reach_y(state.config.sens_y, inputs) <= i32::MAX,
    ensures
        ({
            let (after, commands) = state.run(inputs);
            &&& emitted_x(commands) + state.config.sens_x * after.acc.dx == state.config.sens_x
                * (state.acc.dx + total_x(inputs))
            &&& emitted_y(commands) + state.config.sens_y * after.acc.dy == state.config.sens_y
                * (state.acc.dy + total_y(state.config.sens_y, inputs))
            &&& magnitude(after.acc.dx as int) <= magnitude(state.acc.dx as int) + reach_x(inputs)
            &&& magnitude(after.acc.dy as int) <= magnitude(state.acc.dy as int) + reach_y(
                state.config.sens_y,
                inputs,
            )
        }),
    decreases inputs.len(),
{
    let (after, commands) = state.run(inputs);
    let sx = state.config.sens_x as int;
    let sy = state.config.sens_y as int;
    if inputs.len() > 0 {
        let earlier_inputs = inputs.drop_last();
        let last = inputs.last();
        assert(last == inputs[inputs.len() - 1]);
        assert forall|i: int| 0 <= i < earlier_inputs.len() implies keeps_gesture(
            #[trigger] earlier_inputs[i],
        ) by {
            assert(earlier_inputs[i] == inputs[i]);
        }
        gesture_keeps_confinement(state, earlier_inputs);
        gesture_conserves_input(state, earlier_inputs);
        let (before, earlier) = state.run(earlier_inputs);
        gesture_step_conserves(before, last);
        let (next, latest) = before.next(last.message, last.sample);
        assert(commands == earlier + latest);
        emitted_adds_up(earlier, latest);
        let a0 = state.acc.dx as int;
        let a1 = before.acc.dx as int;
        let a2 = after.acc.dx as int;
        let t1 = total_x(earlier_inputs);
        let f = fed_x(last);
        let e1 = emitted_x(earlier);
        let e2 = emitted_x(latest);
        assert(e1 + e2 + sx * a2 == sx * (a0 + (t1 + f))) by (nonlinear_arith)
            requires
                e1 + sx * a1 == sx * (a0 + t1),
                e2 + sx * a2 == sx * (a1 + f),
        ;
        let b0 = state.acc.dy as int;
        let b1 = before.acc.dy as int;
        let b2 = after.acc.dy as int;
        let u1 = total_y(state.config.sens_y, earlier_inputs);
        let g = fed_y(state.config.sens_y, last);
        let h1 = emitted_y(earlier);
        let h2 = emitted_y(latest);
        assert(h1 + h2 + sy * b2 == sy * (b0 + (u1 + g))) by (nonlinear_arith)
            requires
                h1 + sy * b1 == sy * (b0 + u1),
                h2 + sy * b2 == sy * (b1 + g),
        ;
    } else {
        assert(sx * (state.acc.dx + 0) == sx * state.acc.dx);
        assert(sy * (state.acc.dy + 0) == sy * state.acc.dy);
    }
}

/// Whether `input` brings nothing from the pointer device and does not end
/// the loop.
pub open spec fn is_idle(input: Input) -> bool {
    input.message == Message::Other || input.message == Message::HookReady
}

/// A loop with an empty accumulator feeds the engine nothing.
///
/// Over any run of messages that bring nothing from the device, however
/// many ticks fall in it, the accumulator stays empty and every tick hands
/// the engine an impulse of zero on both axes: an engine at rest is given
/// nothing to move on.
pub proof fn rest_feeds_nothing(state: CaptureLoop, inputs: Seq<Input>)
    requires
        state.acc == TickAccumulator::zero(),
        forall|i: int| 0 <= i < inputs.len() ==> is_idle(#[trigger] inputs[i]),
    ensures
        ({
            let (after, commands) = state.run(inputs);
            &&& after.acc == TickAccumulator::zero()
            &&& forall|i: int|
                0 <= i < commands.len() ==> impulse_x_of(#[trigger] commands[i]) == 0
                    && impulse_y_of(commands[i]) == 0
            &&& emitted_x(commands) == 0
            &&& emitted_y(commands) == 0
        }),
    decreases inputs.len(),
{
    let (after, commands) = state.run(inputs);
    if inputs.len() > 0 {
        let earlier_inputs = inputs.drop_last();
        let last = inputs.last();
        assert(last == inputs[inputs.len() - 1]);
        assert forall|i: int| 0 <= i < earlier_inputs.len() implies is_idle(
            #[trigger] earlier_inputs[i],
        ) by {
            assert(earlier_inputs[i] == inputs[i]);
        }
        rest_feeds_nothing(state, earlier_inputs);
        let (before, earlier) = state.run(earlier_inputs);
        let (next, latest) = before.next(last.message, last.sample);
        assert(commands == earlier + latest);
        assert(before.config.sens_x * 0 == 0 && before.config.sens_y * 0 == 0);
        assert forall|i: int| 0 <= i < latest.len() implies impulse_x_of(#[trigger] latest[i])
            == 0 && impulse_y_of(latest[i]) == 0 by {}
        assert forall|i: int| 0 <= i < commands.len() implies impulse_x_of(
            #[trigger] commands[i],
        ) == 0 && impulse_y_of(commands[i]) == 0 by {
            if i < earlier.len() {
                assert(commands[i] == earlier[i]);
            } else {
                assert(commands[i] == latest[i - earlier.len()]);
            }
        }
        emitted_adds_up(earlier, latest);
        tick_conserves(before, last.sample.now, last.sample.clip);
    }
}

/// Whether `input` starts no gesture: it is not the trigger button going
/// down.
pub open spec fn starts_no_gesture(input: Input) -> bool {
    match input.message {
        Message::Mouse(raw) => classify_of(raw) != MouseAction::ButtonDown,
        _ => true,
    }
}

/// One message outside a gesture that starts none: no command confines
/// the pointer, and no gesture is under way afterwards.
proof fn free_step(state: CaptureLoop, input: Input)
    requires
        !state.is_dragging,
        starts_no_gesture(input),
    ensures
        ({
            let (after, commands) = state.next(input.message, input.sample);
            &&& !after.is_dragging
            &&& forall|i: int| 0 <= i < commands.len() ==> !(#[trigger] commands[i] is Confine)
        }),
{
    let (after, commands) = state.next(input.message, input.sample);
    match input.message {
        Message::Mouse(raw) => {
            let action = classify_of(raw);
            if state.phase == Phase::Active && action != MouseAction::Ignored {
                let (acted, first) = state.after_action(action, input.sample.cursor);
                let (ticked, second) = acted.after_tick(
                    input.sample.now,
                    CaptureLoop::clip_after(action, input.sample),
                );
                assert(commands == first + second);
                assert forall|i: int| 0 <= i < commands.len() implies !(
                #[trigger] commands[i] is Confine) by {
                    if i < first.len() {
                        assert(commands[i] == first[i]);
                    } else {
                        assert(commands[i] == second[i - first.len()]);
                    }
                }
            }
        },
        _ => {},
    }
}

/// Outside a gesture the pointer is left alone.
///
/// Over any run of messages in which the trigger button does not go down,
/// a loop without a gesture under way starts none and issues no command
/// that confines the pointer: once the button has come up, the pointer
/// stays free until the next gesture.
pub proof fn free_pointer_stays_free(state: CaptureLoop, inputs: Seq<Input>)
    requires
        !state.is_dragging,
        forall|i: int| 0 <= i < inputs.len() ==> starts_no_gesture(#[trigger] inputs[i]),
    ensures
        ({
            let (after, commands) = state.run(inputs);
            &&& !after.is_dragging
            &&& forall|i: int| 0 <= i < commands.len() ==> !(#[trigger] commands[i] is Confine)
            &&& confinement(None, commands) == None::<Rect>
        }),
    decreases inputs.len(),
{
    let (after, commands) = state.run(inputs);
    if inputs.len() > 0 {
        let earlier_inputs = inputs.drop_last();
        let last = inputs.last();
        assert(last == inputs[inputs.len() - 1]);
        assert forall|i: int| 0 <= i < earlier_inputs.len() implies starts_no_gesture(
            #[trigger] earlier_inputs[i],
        ) by {
            assert(earlier_inputs[i] == inputs[i]);
        }
        free_pointer_stays_free(state, earlier_inputs);
        let (before, earlier) = state.run(earlier_inputs);
        free_step(before, last);
        let (next, latest) = before.next(last.message, last.sample);
        assert(commands == earlier + latest);
        assert forall|i: int| 0 <= i < commands.len() implies !(
        #[trigger] commands[i] is Confine) by {
            if i < earlier.len() {
                assert(commands[i] == earlier[i]);
            } else {
                assert(commands[i] == latest[i - earlier.len()]);
            }
        }
    }
    no_confinement_arises(commands);
}

/// Commands that never confine the pointer leave a free pointer free.
proof fn no_confinement_arises(commands: Seq<Command>)
    requires
        forall|i: int| 0 <= i < commands.len() ==> !(#[trigger] commands[i] is Confine),
    ensures
        confinement(None, commands) == None::<Rect>,
    decreases commands.len(),
{
    if commands.len() > 0 {
        assert(commands.last() == commands[commands.len() - 1]);
        let rest = commands.drop_last();
        assert forall|i: int| 0 <= i < rest.len() implies !(#[trigger] rest[i] is Confine) by {
            assert(rest[i] == commands[i]);
        }
        no_confinement_arises(rest);
    }
}

} // verus!
