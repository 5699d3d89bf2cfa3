//! Logic levels and the modes an input pin can be configured in.

use vstd::prelude::*;

verus! {

/// Pin logic levels.
#[derive(Debug, PartialEq, Eq, Structural, Copy, Clone)]
pub enum Level {
    /// Low logic-level.
    Low,
    /// High logic-level.
    High,
}

impl Level {
    /// The level a masked register value stands for: `Low` when no bit is set.
    pub open spec fn of_bits(value: u8) -> Level {
        if value == 0 {
            Level::Low
        } else {
            Level::High
        }
    }

    /// The level `value` stands for: `Low` when no bit is set, else `High`.
    pub fn from_bits(value: u8) -> (r: Level)
        ensures
            r == Level::of_bits(value),
    {
        if value == 0 {
            Level::Low
        } else {
            Level::High
        }
    }

    /// The level's logical value: `true` for `High`.
    pub fn is_high(self) -> (r: bool)
        ensures
            r == (self == Level::High),
    {
        match self {
            Level::Low => false,
            Level::High => true,
        }
    }

    /// The opposite level.
    pub open spec fn opposite(self) -> Level {
        match self {
            Level::Low => Level::High,
            Level::High => Level::Low,
        }
    }
}

impl From<bool> for Level {
    fn from(e: bool) -> (r: Level) {
        if e {
            Level::High
        } else {
            Level::Low
        }
    }
}

impl vstd::std_specs::convert::FromSpecImpl<bool> for Level {
    open spec fn obeys_from_spec() -> bool {
        true
    }

    open spec fn from_spec(e: bool) -> Level {
        if e {
            Level::High
        } else {
            Level::Low
        }
    }
}

impl From<Level> for bool {
    fn from(level: Level) -> (r: bool) {
        level.is_high()
    }
}

impl vstd::std_specs::convert::FromSpecImpl<Level> for bool {
    open spec fn obeys_from_spec() -> bool {
        true
    }

    open spec fn from_spec(level: Level) -> bool {
        level == Level::High
    }
}

impl From<u8> for Level {
    fn from(value: u8) -> (r: Level) {
        Level::from_bits(value)
    }
}

impl vstd::std_specs::convert::FromSpecImpl<u8> for Level {
    open spec fn obeys_from_spec() -> bool {
        true
    }

    open spec fn from_spec(value: u8) -> Level {
        Level::of_bits(value)
    }
}

impl core::ops::Not for Level {
    type Output = Level;

    fn not(self) -> (r: Level) {
        match self {
            Level::Low => Level::High,
            Level::High => Level::Low,
        }
    }
}

impl vstd::std_specs::ops::NotSpecImpl for Level {
    open spec fn obeys_not_spec() -> bool {
        true
    }

    open spec fn not_req(self) -> bool {
        true
    }

    open spec fn not_spec(self) -> Level {
        self.opposite()
    }
}

/// Input pin modes.
#[derive(Debug, PartialEq, Eq, Structural, Copy, Clone)]
pub enum InputPinMode {
    /// The input pin is high-impedance (e.g. driven from a logic gate).
    HighImpedance,
    /// The input pin has an internal pull-up resistor connected (e.g. driven by
    /// switch contacts).
    PullUp,
}

/// Interrupt input trigger modes that an input pin supports.
#[derive(Debug, PartialEq, Eq, Structural, Copy, Clone)]
pub enum InterruptMode {
    /// Interrupts are disabled.
    Disabled,
    /// Interrupts are raised while the input is [`Level::High`], so typically on
    /// the low to high transition. If interrupts are re-enabled while the input
    /// remains high, a new interrupt is raised without another transition.
    ActiveHigh,
    /// Interrupts are raised while the input is [`Level::Low`], so typically on
    /// the high to low transition. If interrupts are re-enabled while the input
    /// remains low, a new interrupt is raised without another transition.
    ActiveLow,
    /// Interrupts are raised on both transitions. If interrupts are re-enabled
    /// while the input remains in the level that raised the interrupt, no new
    /// interrupt is raised until a transition to the opposite level.
    BothEdges,
}

impl Level {
    /// The level's name.
    pub open spec fn spec_name(self) -> Seq<char> {
        match self {
            Level::Low => "Low"@,
            Level::High => "High"@,
        }
    }

    /// The level's name.
    pub fn as_str(self) -> (r: &'static str)
        ensures
            r@ == self.spec_name(),
    {
        match self {
            Level::Low => "Low",
            Level::High => "High",
        }
    }
}

impl InputPinMode {
    /// The mode's name.
    pub open spec fn spec_name(self) -> Seq<char> {
        match self {
            InputPinMode::HighImpedance => "High Impedance"@,
            InputPinMode::PullUp => "Pull Up"@,
        }
    }

    /// The mode's name.
    pub fn as_str(self) -> (r: &'static str)
        ensures
            r@ == self.spec_name(),
    {
        match self {
            InputPinMode::HighImpedance => "High Impedance",
            InputPinMode::PullUp => "Pull Up",
        }
    }
}

impl InterruptMode {
    /// The mode's symbol: `Off`, or an arrow for the level or edges that raise an interrupt.
    pub open spec fn spec_name(self) -> Seq<char> {
        match self {
            InterruptMode::Disabled => "Off"@,
            InterruptMode::ActiveHigh => "↑"@,
            InterruptMode::ActiveLow => "↓"@,
            InterruptMode::BothEdges => "⇅"@,
        }
    }

    /// The mode's symbol: `Off`, or an arrow for the level or edges that raise an interrupt.
    pub fn as_str(self) -> (r: &'static str)
        ensures
            r@ == self.spec_name(),
    {
        match self {
            InterruptMode::Disabled => "Off",
            InterruptMode::ActiveHigh => "↑",
            InterruptMode::ActiveLow => "↓",
            InterruptMode::BothEdges => "⇅",
        }
    }
}

} // verus!
