//! The integer side of the kinetics engine.
//!
//! The engine itself integrates a velocity with an exponential decay and is
//! evaluated in floating point by the caller. Everything around it is exact
//! integer arithmetic and lives here: how a wheel notification is scaled into
//! the accumulator, how a drained accumulator becomes a velocity impulse, when
//! a tick is due, and which scroll events a truncated step turns into.

use vstd::prelude::*;

verus! {

/// Wheel units that make up one notch of a wheel.
pub const WHEEL_NOTCH: i32 = 120;

/// Nominal length of a tick in milliseconds.
pub const TICK_INTERVAL_MS: u32 = 10;

/// Flag of a synthetic vertical wheel event.
pub const EVENT_WHEEL: u32 = 0x0800;

/// Flag of a synthetic horizontal wheel event.
pub const EVENT_HWHEEL: u32 = 0x1000;

/// `v` limited to the range of `i32`.
pub open spec fn clamp_i32(v: int) -> int {
    if v < i32::MIN {
        i32::MIN as int
    } else if v > i32::MAX {
        i32::MAX as int
    } else {
        v
    }
}

/// The quotient of `n` by a positive `d`, rounded toward zero.
pub open spec fn toward_zero(n: int, d: int) -> int
    recommends
        d > 0,
{
    if n >= 0 {
        n / d
    } else {
        -((-n) / d)
    }
}

/// What one wheel notification adds to the vertical accumulator: the tick
/// count scaled by `sensitivity / 120`, rounded toward zero and limited to
/// the range of `i32`.
pub open spec fn wheel_increment_of(ticks: int, sensitivity: int) -> int {
    clamp_i32(toward_zero(ticks * sensitivity, WHEEL_NOTCH as int))
}

/// The sum of two accumulator values, limited to the range of `i32`.
pub open spec fn accumulate_of(total: int, delta: int) -> int {
    clamp_i32(total + delta)
}

/// Whether a tick is due after `elapsed` counts of a counter that runs at
/// `frequency` counts per second: strictly more than the nominal interval
/// has passed.
pub open spec fn tick_due_of(elapsed: int, frequency: int) -> bool {
    elapsed * 1000 > frequency * (TICK_INTERVAL_MS as int)
}

/// Scales a wheel notification of `ticks` wheel units by `sensitivity / 120`.
///
/// One notch (120 units) at sensitivity 18 gives 18. The quotient is rounded
/// toward zero, and a result beyond the range of `i32` is held at the nearest
/// bound.
pub fn wheel_increment(ticks: i16, sensitivity: i32) -> (increment: i32)
    ensures
        increment == wheel_increment_of(ticks as int, sensitivity as int),
{
    let t: i64 = ticks as i64;
    let s: i64 = sensitivity as i64;
    let t_mag: u64 = if t < 0 { (-t) as u64 } else { t as u64 };
    let s_mag: u64 = if s < 0 { (-s) as u64 } else { s as u64 };
    assert(t_mag * s_mag <= 0x8000 * 0x8000_0000) by (nonlinear_arith)
        requires
            t_mag <= 0x8000,
            s_mag <= 0x8000_0000,
    ;
    let magnitude: u64 = t_mag * s_mag;
    let quotient: u64 = magnitude / 120;
    let negative: bool = (t < 0) != (s < 0);
    proof {
        let product: int = ticks as int * sensitivity as int;
        assert(negative ==> product == -(magnitude as int)) by (nonlinear_arith)
            requires
                negative == ((t < 0) != (s < 0)),
                t == ticks as int,
                s == sensitivity as int,
                t_mag as int == if t < 0 { -t } else { t as int },
                s_mag as int == if s < 0 { -s } else { s as int },
                magnitude as int == t_mag as int * s_mag as int,
                product == ticks as int * sensitivity as int,
        ;
        assert(!negative ==> product == magnitude as int) by (nonlinear_arith)
            requires
                negative == ((t < 0) != (s < 0)),
                t == ticks as int,
                s == sensitivity as int,
                t_mag as int == if t < 0 { -t } else { t as int },
                s_mag as int == if s < 0 { -s } else { s as int },
                magnitude as int == t_mag as int * s_mag as int,
                product == ticks as int * sensitivity as int,
        ;
    }
    if negative {
        if quotient > 0x8000_0000 {
            i32::MIN
        } else {
            (-(quotient as i64)) as i32
        }
    } else {
        if quotient > 0x7fff_ffff {
            i32::MAX
        } else {
            quotient as i32
        }
    }
}

/// Adds `delta` to an accumulator that holds `total`, holding the sum at the
/// nearest bound of `i32` where it would leave the range.
pub fn accumulate(total: i32, delta: i32) -> (sum: i32)
    ensures
        sum == accumulate_of(total as int, delta as int),
        i32::MIN <= total + delta <= i32::MAX ==> sum == total + delta,
{
    let wide: i64 = total as i64 + delta as i64;
    if wide < i32::MIN as i64 {
        i32::MIN
    } else if wide > i32::MAX as i64 {
        i32::MAX
    } else {
        wide as i32
    }
}

/// The velocity impulse of one axis for a tick: the drained accumulator
/// scaled by the sensitivity of its axis, exactly.
pub fn impulse(sensitivity: i32, delta: i32) -> (scaled: i64)
    ensures
        scaled == sensitivity * delta,
        delta == 0 ==> scaled == 0,
{
    let s: i64 = sensitivity as i64;
    let d: i64 = delta as i64;
    assert(-0x4000_0000_0000_0000 <= s * d <= 0x4000_0000_0000_0000) by (nonlinear_arith)
        requires
            -0x8000_0000 <= s <= 0x7fff_ffff,
            -0x8000_0000 <= d <= 0x7fff_ffff,
    ;
    assert(delta == 0 ==> s * d == 0) by (nonlinear_arith)
        requires
            d == delta,
    ;
    s * d
}

/// Decides whether a tick is due, without overflow for any counter values.
pub fn tick_due(elapsed: u64, frequency: u64) -> (due: bool)
    ensures
        due == tick_due_of(elapsed as int, frequency as int),
{
    let interval: u128 = TICK_INTERVAL_MS as u128;
    assert(interval == 10);
    let lhs: u128 = elapsed as u128 * 1000;
    let rhs: u128 = frequency as u128 * interval;
    lhs > rhs
}

/// Axis of a synthetic scroll event.
#[derive(Clone, Copy, Debug, PartialEq, Eq, Structural)]
pub enum Axis {
    Vertical,
    Horizontal,
}

/// One synthetic scroll-wheel event, in wheel units (120 to the notch).
#[derive(Clone, Copy, Debug, PartialEq, Eq, Structural)]
pub struct WheelInput {
    pub axis: Axis,
    pub amount: i32,
}

impl WheelInput {
    /// The event flag under which the input is injected.
    pub open spec fn flags_of(self) -> u32 {
        match self.axis {
            Axis::Vertical => EVENT_WHEEL,
            Axis::Horizontal => EVENT_HWHEEL,
        }
    }

    /// The event flag under which the input is injected.
    pub fn flags(&self) -> (flags: u32)
        ensures
            flags == self.flags_of(),
    {
        match self.axis {
            Axis::Vertical => EVENT_WHEEL,
            Axis::Horizontal => EVENT_HWHEEL,
        }
    }
}

/// The batch of scroll events for a step that was truncated to whole wheel
/// units: the vertical axis first, then the horizontal one, each only where
/// its amount is not zero.
pub open spec fn emission_of(step_x: i32, step_y: i32) -> Seq<WheelInput> {
    let vertical = if step_y != 0 {
        seq![WheelInput { axis: Axis::Vertical, amount: step_y }]
    } else {
        Seq::<WheelInput>::empty()
    };
    let horizontal = if step_x != 0 {
        seq![WheelInput { axis: Axis::Horizontal, amount: step_x }]
    } else {
        Seq::<WheelInput>::empty()
    };
    vertical + horizontal
}

/// Plans the scroll events of one tick. A step of `(0, 0)` gives an empty
/// batch: nothing is injected on such a tick.
pub fn emission(step_x: i32, step_y: i32) -> (batch: Vec<WheelInput>)
    ensures
        batch@ == emission_of(step_x, step_y),
        (step_x == 0 && step_y == 0) <==> batch@.len() == 0,
{
    let mut batch: Vec<WheelInput> = Vec::new();
    if step_y != 0 {
        batch.push(WheelInput { axis: Axis::Vertical, amount: step_y });
    }
    if step_x != 0 {
        batch.push(WheelInput { axis: Axis::Horizontal, amount: step_x });
    }
    batch
}

} // verus!
