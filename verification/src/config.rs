//! The configuration snapshot that a capture loop is started with.

use vstd::prelude::*;

verus! {

/// Settings of the scrolling pipeline.
///
/// A capture loop reads its snapshot once, when it starts, and never again.
#[derive(Clone, Copy, Debug, PartialEq, Eq, Structural)]
pub struct Config {
    /// Decay rate of the velocity, per second; never negative.
    pub decay: i32,
    /// Vertical sensitivity; signed, zero switches the axis off.
    pub sens_y: i32,
    /// Horizontal sensitivity; signed, zero switches the axis off.
    pub sens_x: i32,
    /// Vertical step, reserved for a discrete-step mode; never negative.
    pub step_y: i32,
    /// Horizontal step, reserved for a discrete-step mode; never negative.
    pub step_x: i32,
    /// 1 where the scroll keeps its momentum once the button is lifted, else 0.
    pub flick: i32,
    /// A second flag, 0 or 1, that is stored and otherwise inert.
    pub think: i32,
}

/// `v`, or zero where `v` is negative.
pub open spec fn non_negative(v: i32) -> i32 {
    if v < 0 {
        0
    } else {
        v
    }
}

/// `v` limited to the two flag values 0 and 1.
pub open spec fn flag(v: i32) -> i32 {
    if v < 0 {
        0
    } else if v > 1 {
        1
    } else {
        v
    }
}

impl Config {
    /// The invariant of a loaded configuration: decay rate and steps are not
    /// negative, and both flags are 0 or 1.
    pub open spec fn wf(self) -> bool {
        &&& self.decay >= 0
        &&& self.step_y >= 0
        &&& self.step_x >= 0
        &&& 0 <= self.flick <= 1
        &&& 0 <= self.think <= 1
    }

    /// The configuration in use before anything was stored.
    pub open spec fn initial() -> Config {
        Config { decay: 3, sens_y: 18, sens_x: 0, step_y: 120, step_x: 120, flick: 0, think: 0 }
    }

    /// The configuration that stored values give: decay rate and steps are
    /// raised to zero where negative, flags are limited to 0 and 1, and the
    /// sensitivities are taken as they are.
    pub open spec fn loaded(stored: Config) -> Config {
        Config {
            decay: non_negative(stored.decay),
            sens_y: stored.sens_y,
            sens_x: stored.sens_x,
            step_y: non_negative(stored.step_y),
            step_x: non_negative(stored.step_x),
            flick: flag(stored.flick),
            think: flag(stored.think),
        }
    }

    /// Brings stored values into the valid range. Values that are valid
    /// already are kept.
    pub fn load(stored: Config) -> (config: Config)
        ensures
            config == Config::loaded(stored),
            config.wf(),
            stored.wf() ==> config == stored,
    {
        Config {
            decay: raise_to_zero(stored.decay),
            sens_y: stored.sens_y,
            sens_x: stored.sens_x,
            step_y: raise_to_zero(stored.step_y),
            step_x: raise_to_zero(stored.step_x),
            flick: limit_to_flag(stored.flick),
            think: limit_to_flag(stored.think),
        }
    }

    /// Whether momentum outlives the drag gesture.
    pub fn flick_enabled(&self) -> (enabled: bool)
        ensures
            enabled == (self.flick != 0),
    {
        self.flick != 0
    }
}

impl Default for Config {
    fn default() -> (config: Config)
        ensures
            config == Config::initial(),
            config.wf(),
    {
        Config { decay: 3, sens_y: 18, sens_x: 0, step_y: 120, step_x: 120, flick: 0, think: 0 }
    }
}

fn raise_to_zero(v: i32) -> (r: i32)
    ensures
        r == non_negative(v),
{
    if v < 0 {
        0
    } else {
        v
    }
}

fn limit_to_flag(v: i32) -> (r: i32)
    ensures
        r == flag(v),
{
    if v < 0 {
        0
    } else if v > 1 {
        1
    } else {
        v
    }
}

/// One of the stored settings.
#[derive(Clone, Copy, Debug, PartialEq, Eq, Structural)]
pub enum Setting {
    Decay,
    SensY,
    SensX,
    StepY,
    StepX,
    Flick,
    Think,
}

impl Setting {
    /// The settings in the order in which they are stored and shown.
    pub open spec fn all_of() -> Seq<Setting> {
        seq![
            Setting::Decay,
            Setting::SensY,
            Setting::SensX,
            Setting::StepY,
            Setting::StepX,
            Setting::Flick,
            Setting::Think,
        ]
    }

    /// The key under which the setting is stored.
    pub open spec fn key_of(self) -> Seq<char> {
        match self {
            Setting::Decay => "decay"@,
            Setting::SensY => "sensY"@,
            Setting::SensX => "sensX"@,
            Setting::StepY => "stepY"@,
            Setting::StepX => "stepX"@,
            Setting::Flick => "flick"@,
            Setting::Think => "think"@,
        }
    }

    /// The identifier of the control that shows the setting.
    pub open spec fn control_of(self) -> i32 {
        match self {
            Setting::Decay => 0x4001,
            Setting::SensY => 0x4002,
            Setting::SensX => 0x4003,
            Setting::StepY => 0x4004,
            Setting::StepX => 0x4005,
            Setting::Flick => 0x4006,
            Setting::Think => 0x4007,
        }
    }

    /// Whether the setting is one of the two flags.
    pub open spec fn is_flag_of(self) -> bool {
        self == Setting::Flick || self == Setting::Think
    }

    /// Whether the setting is shown with a sign: the two sensitivities.
    pub open spec fn is_signed_of(self) -> bool {
        self == Setting::SensY || self == Setting::SensX
    }

    /// The settings in the order in which they are stored and shown.
    pub fn all() -> (settings: Vec<Setting>)
        ensures
            settings@ == Setting::all_of(),
    {
        let mut settings: Vec<Setting> = Vec::new();
        settings.push(Setting::Decay);
        settings.push(Setting::SensY);
        settings.push(Setting::SensX);
        settings.push(Setting::StepY);
        settings.push(Setting::StepX);
        settings.push(Setting::Flick);
        settings.push(Setting::Think);
        assert(settings@ =~= Setting::all_of());
        settings
    }

    /// The key under which the setting is stored.
    pub fn key(&self) -> (key: &'static str)
        ensures
            key@ == self.key_of(),
    {
        match self {
            Setting::Decay => "decay",
            Setting::SensY => "sensY",
            Setting::SensX => "sensX",
            Setting::StepY => "stepY",
            Setting::StepX => "stepX",
            Setting::Flick => "flick",
            Setting::Think => "think",
        }
    }

    /// The identifier of the control that shows the setting.
    pub fn control(&self) -> (id: i32)
        ensures
            id == self.control_of(),
    {
        match self {
            Setting::Decay => 0x4001,
            Setting::SensY => 0x4002,
            Setting::SensX => 0x4003,
            Setting::StepY => 0x4004,
            Setting::StepX => 0x4005,
            Setting::Flick => 0x4006,
            Setting::Think => 0x4007,
        }
    }

    /// Whether the setting is one of the two flags.
    pub fn is_flag(&self) -> (flag: bool)
        ensures
            flag == self.is_flag_of(),
    {
        match self {
            Setting::Flick => true,
            Setting::Think => true,
            _ => false,
        }
    }

    /// Whether the setting is shown with a sign.
    pub fn is_signed(&self) -> (signed: bool)
        ensures
            signed == self.is_signed_of(),
    {
        match self {
            Setting::SensY => true,
            Setting::SensX => true,
            _ => false,
        }
    }
}

impl Config {
    /// The value of `setting`.
    pub open spec fn value_of(self, setting: Setting) -> i32 {
        match setting {
            Setting::Decay => self.decay,
            Setting::SensY => self.sens_y,
            Setting::SensX => self.sens_x,
            Setting::StepY => self.step_y,
            Setting::StepX => self.step_x,
            Setting::Flick => self.flick,
            Setting::Think => self.think,
        }
    }

    /// The configuration with `setting` at `value` and all else unchanged.
    pub open spec fn with(self, setting: Setting, value: i32) -> Config {
        match setting {
            Setting::Decay => Config { decay: value, ..self },
            Setting::SensY => Config { sens_y: value, ..self },
            Setting::SensX => Config { sens_x: value, ..self },
            Setting::StepY => Config { step_y: value, ..self },
            Setting::StepX => Config { step_x: value, ..self },
            Setting::Flick => Config { flick: value, ..self },
            Setting::Think => Config { think: value, ..self },
        }
    }

    /// Reads one setting.
    pub fn get(&self, setting: Setting) -> (value: i32)
        ensures
            value == self.value_of(setting),
    {
        match setting {
            Setting::Decay => self.decay,
            Setting::SensY => self.sens_y,
            Setting::SensX => self.sens_x,
            Setting::StepY => self.step_y,
            Setting::StepX => self.step_x,
            Setting::Flick => self.flick,
            Setting::Think => self.think,
        }
    }

    /// Writes one setting as it is given; `load` brings the whole into the
    /// valid range afterwards.
    pub fn set(&mut self, setting: Setting, value: i32)
        ensures
            *final(self) == old(self).with(setting, value),
            final(self).value_of(setting) == value,
            forall|other: Setting|
                other != setting ==> final(self).value_of(other) == old(self).value_of(other),
    {
        match setting {
            Setting::Decay => {
                self.decay = value;
            },
            Setting::SensY => {
                self.sens_y = value;
            },
            Setting::SensX => {
                self.sens_x = value;
            },
            Setting::StepY => {
                self.step_y = value;
            },
            Setting::StepX => {
                self.step_x = value;
            },
            Setting::Flick => {
                self.flick = value;
            },
            Setting::Think => {
                self.think = value;
            },
        }
    }
}

/// The text under which a check box is stored: "1" where it is checked,
/// else "0".
pub fn flag_text(checked: bool) -> (text: &'static str)
    ensures
        text@ == (if checked {
            "1"@
        } else {
            "0"@
        }),
{
    if checked {
        "1"
    } else {
        "0"
    }
}

} // verus!
