//! Decoding of raw pointer-device events.

use vstd::prelude::*;

verus! {

/// Button flag of a wheel notification.
pub const RAW_WHEEL: u16 = 0x0400;

/// Button flag of the trigger button going down.
pub const RAW_TRIGGER_DOWN: u16 = 0x0010;

/// Button flag of the trigger button coming up.
pub const RAW_TRIGGER_UP: u16 = 0x0020;

/// The fields of a raw pointer event that the pipeline reads.
#[derive(Clone, Copy, Debug, PartialEq, Eq, Structural)]
pub struct RawMouse {
    /// Whether the event names the device it came from. Input that software
    /// injected names none.
    pub has_device: bool,
    pub button_flags: u16,
    /// The signed tick count of a wheel notification.
    pub button_data: i16,
    pub last_x: i32,
    pub last_y: i32,
}

/// What a raw pointer event means to the pipeline.
#[derive(Clone, Copy, Debug, PartialEq, Eq, Structural)]
pub enum MouseAction {
    /// Not from a device: the event is passed over entirely.
    Ignored,
    /// The wheel turned by the given number of wheel units.
    Wheel(i16),
    /// The trigger button went down.
    ButtonDown,
    /// The trigger button came up.
    ButtonUp,
    /// The pointer moved by the given device pixels, with no button change.
    Motion(i32, i32),
    /// Some other button changed.
    Unrelated,
}

/// The meaning of `raw`. A wheel flag wins over the trigger button, the
/// button going down wins over it coming up, and only an event without any
/// button flag counts as motion.
pub open spec fn classify_of(raw: RawMouse) -> MouseAction {
    if !raw.has_device {
        MouseAction::Ignored
    } else if raw.button_flags & RAW_WHEEL != 0 {
        MouseAction::Wheel(raw.button_data)
    } else if raw.button_flags & RAW_TRIGGER_DOWN == RAW_TRIGGER_DOWN {
        MouseAction::ButtonDown
    } else if raw.button_flags & RAW_TRIGGER_UP == RAW_TRIGGER_UP {
        MouseAction::ButtonUp
    } else if raw.button_flags == 0 {
        MouseAction::Motion(raw.last_x, raw.last_y)
    } else {
        MouseAction::Unrelated
    }
}

/// Decodes a raw pointer event.
pub fn classify(raw: &RawMouse) -> (action: MouseAction)
    ensures
        action == classify_of(*raw),
{
    if !raw.has_device {
        MouseAction::Ignored
    } else if raw.button_flags & RAW_WHEEL != 0 {
        MouseAction::Wheel(raw.button_data)
    } else if raw.button_flags & RAW_TRIGGER_DOWN == RAW_TRIGGER_DOWN {
        MouseAction::ButtonDown
    } else if raw.button_flags & RAW_TRIGGER_UP == RAW_TRIGGER_UP {
        MouseAction::ButtonUp
    } else if raw.button_flags == 0 {
        MouseAction::Motion(raw.last_x, raw.last_y)
    } else {
        MouseAction::Unrelated
    }
}

/// The decoding on plain flag words: a device event with exactly the wheel
/// flag is a wheel turn, with exactly one trigger flag the matching button
/// change, and with no flag a motion.
pub proof fn classify_plain_flags(raw: RawMouse)
    requires
        raw.has_device,
    ensures
        raw.button_flags == RAW_WHEEL ==> classify_of(raw) == MouseAction::Wheel(raw.button_data),
        raw.button_flags == RAW_TRIGGER_DOWN ==> classify_of(raw) == MouseAction::ButtonDown,
        raw.button_flags == RAW_TRIGGER_UP ==> classify_of(raw) == MouseAction::ButtonUp,
        raw.button_flags == 0 ==> classify_of(raw) == MouseAction::Motion(
            raw.last_x,
            raw.last_y,
        ),
{
    assert(0x0400u16 & 0x0400u16 != 0) by (bit_vector);
    assert(0x0010u16 & 0x0400u16 == 0) by (bit_vector);
    assert(0x0010u16 & 0x0010u16 == 0x0010u16) by (bit_vector);
    assert(0x0020u16 & 0x0400u16 == 0) by (bit_vector);
    assert(0x0020u16 & 0x0010u16 != 0x0010u16) by (bit_vector);
    assert(0x0020u16 & 0x0020u16 == 0x0020u16) by (bit_vector);
    assert(0u16 & 0x0400u16 == 0) by (bit_vector);
    assert(0u16 & 0x0010u16 != 0x0010u16) by (bit_vector);
    assert(0u16 & 0x0020u16 != 0x0020u16) by (bit_vector);
}

} // verus!
