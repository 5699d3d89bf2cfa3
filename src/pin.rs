//! GPIO pin handles: an unconfigured [`Pin`], and the [`InputPin`] and
//! [`OutputPin`] it can be turned into.
//!
//! A handle names one line of the chip (a port and a bit, 0-7) and the chip's
//! hardware address. Configuring a line, reading or driving it, and setting its
//! interrupt mode each yield the [`Transaction`] that does it on the chip.

use vstd::prelude::*;

use crate::level::{InputPinMode, InterruptMode, Level};
use crate::registers::{HardwareAddress, Port};
use crate::transaction::{bit_mask, Step, Transaction, TransactionState};

verus! {

/// The steps that make line `pin` of `port` an input: the direction bit set
/// (input), then the pull-up bit set for `PullUp` and cleared for
/// `HighImpedance`.
pub open spec fn input_steps(port: Port, pin: u8, mode: InputPinMode) -> Seq<Step> {
    let b = bit_mask(pin);
    seq![
        Step::Modify { register: port.spec_direction_register(), set: b, clear: 0 },
        match mode {
            InputPinMode::HighImpedance => Step::Modify {
                register: port.spec_pull_up_register(),
                set: 0,
                clear: b,
            },
            InputPinMode::PullUp => Step::Modify {
                register: port.spec_pull_up_register(),
                set: b,
                clear: 0,
            },
        },
    ]
}

/// The steps that make line `pin` of `port` an output: the direction bit
/// cleared (output), then the pull-up bit cleared.
pub open spec fn output_steps(port: Port, pin: u8) -> Seq<Step> {
    let b = bit_mask(pin);
    seq![
        Step::Modify { register: port.spec_direction_register(), set: 0, clear: b },
        Step::Modify { register: port.spec_pull_up_register(), set: 0, clear: b },
    ]
}

/// The step that drives line `pin` of `port` to `level`, through the port's
/// GPIO register.
pub open spec fn drive_step(port: Port, pin: u8, level: Level) -> Step {
    let b = bit_mask(pin);
    match level {
        Level::Low => Step::Modify { register: port.spec_gpio_register(), set: 0, clear: b },
        Level::High => Step::Modify { register: port.spec_gpio_register(), set: b, clear: 0 },
    }
}

/// The steps that put line `pin` of `port` in interrupt mode `mode`. The
/// interrupt control and default value bits are written before the interrupt
/// enable bit, so that no interrupt fires on the old criteria.
///
/// | mode         | INTCON    | DEFVAL    | GPINTEN (last) |
/// |--------------|-----------|-----------|----------------|
/// | `Disabled`   | unchanged | unchanged | clear          |
/// | `ActiveHigh` | set       | clear     | set            |
/// | `ActiveLow`  | set       | set       | set            |
/// | `BothEdges`  | clear     | unchanged | set            |
pub open spec fn interrupt_steps(port: Port, pin: u8, mode: InterruptMode) -> Seq<Step> {
    let b = bit_mask(pin);
    let intcon = port.spec_interrupt_control_register();
    let defval = port.spec_default_value_register();
    let gpinten = port.spec_interrupt_enable_register();
    match mode {
        InterruptMode::Disabled => seq![Step::Modify { register: gpinten, set: 0, clear: b }],
        InterruptMode::ActiveHigh => seq![
            Step::Modify { register: intcon, set: b, clear: 0 },
            Step::Modify { register: defval, set: 0, clear: b },
            Step::Modify { register: gpinten, set: b, clear: 0 },
        ],
        InterruptMode::ActiveLow => seq![
            Step::Modify { register: intcon, set: b, clear: 0 },
            Step::Modify { register: defval, set: b, clear: 0 },
            Step::Modify { register: gpinten, set: b, clear: 0 },
        ],
        InterruptMode::BothEdges => seq![
            Step::Modify { register: intcon, set: 0, clear: b },
            Step::Modify { register: gpinten, set: b, clear: 0 },
        ],
    }
}

/// An unconfigured GPIO pin.
///
/// A `Pin` is obtained from [`crate::Mcp23s17::get`], which records the line as
/// taken until the pin is handed back to [`crate::Mcp23s17::release`].
#[derive(Debug)]
pub struct Pin {
    address: HardwareAddress,
    port: Port,
    pin: u8,
}

impl View for Pin {
    type V = (Port, u8);

    /// The line: its port and bit.
    closed spec fn view(&self) -> (Port, u8) {
        (self.port, self.pin)
    }
}

impl Pin {
    #[verifier::type_invariant]
    spec fn bit_in_range(self) -> bool {
        self.pin <= 7
    }

    /// The hardware address of the chip the pin belongs to.
    pub closed spec fn address(self) -> u8 {
        self.address@
    }

    pub(crate) fn new(address: HardwareAddress, port: Port, pin: u8) -> (r: Pin)
        requires
            pin <= 7,
        ensures
            r@ == (port, pin),
            r.address() == address@,
    {
        Pin { address, port, pin }
    }

    /// Gets the pin's bit number (0-7).
    pub fn get_pin_number(&self) -> (r: u8)
        ensures
            r == self@.1,
            r <= 7,
    {
        proof {
            use_type_invariant(self);
        }
        self.pin
    }

    /// Gets the pin's port.
    pub fn get_port(&self) -> (r: Port)
        ensures
            r == self@.0,
    {
        self.port
    }

    fn mask(&self) -> (r: u8)
        ensures
            r == bit_mask(self@.1),
            self@.1 <= 7,
    {
        proof {
            use_type_invariant(self);
        }
        1u8 << self.pin
    }

    /// Turns the pin into a high-impedance [`InputPin`] (no internal pull-up),
    /// with interrupts disabled. The transaction configures the line.
    pub fn into_input_pin(self) -> (r: (InputPin, Transaction))
        ensures
            r.0@ == self@,
            r.0.address() == self.address(),
            !r.0.interrupts_on(),
            r.1@ == TransactionState::start(
                self.address(),
                input_steps(self@.0, self@.1, InputPinMode::HighImpedance),
                0xff,
            ),
    {
        self.into_input(InputPinMode::HighImpedance)
    }

    /// Turns the pin into an [`InputPin`] with the internal pull-up resistor
    /// connected, with interrupts disabled. The transaction configures the line.
    pub fn into_pullup_input_pin(self) -> (r: (InputPin, Transaction))
        ensures
            r.0@ == self@,
            r.0.address() == self.address(),
            !r.0.interrupts_on(),
            r.1@ == TransactionState::start(
                self.address(),
                input_steps(self@.0, self@.1, InputPinMode::PullUp),
                0xff,
            ),
    {
        self.into_input(InputPinMode::PullUp)
    }

    fn into_input(self, mode: InputPinMode) -> (r: (InputPin, Transaction))
        ensures
            r.0@ == self@,
            r.0.address() == self.address(),
            !r.0.interrupts_on(),
            r.1@ == TransactionState::start(
                self.address(),
                input_steps(self@.0, self@.1, mode),
                0xff,
            ),
    {
        let b = self.mask();
        let pull_up = match mode {
            InputPinMode::HighImpedance => Step::Modify {
                register: self.port.pull_up_register(),
                set: 0,
                clear: b,
            },
            InputPinMode::PullUp => Step::Modify {
                register: self.port.pull_up_register(),
                set: b,
                clear: 0,
            },
        };
        let direction = Step::Modify { register: self.port.direction_register(), set: b, clear: 0 };
        let steps = vec![direction, pull_up];
        assert(steps@ =~= input_steps(self@.0, self@.1, mode));
        let transaction = Transaction::new(self.address, steps, 0xff);
        (InputPin { pin: self, interrupts_enabled: false }, transaction)
    }

    /// Turns the pin into an [`OutputPin`]. The transaction configures the
    /// line, leaving its level as it was.
    pub fn into_output_pin(self) -> (r: (OutputPin, Transaction))
        ensures
            r.0@ == self@,
            r.0.address() == self.address(),
            r.1@ == TransactionState::start(
                self.address(),
                output_steps(self@.0, self@.1),
                0xff,
            ),
    {
        let b = self.mask();
        let direction = Step::Modify { register: self.port.direction_register(), set: 0, clear: b };
        let pull_up = Step::Modify { register: self.port.pull_up_register(), set: 0, clear: b };
        let steps = vec![direction, pull_up];
        assert(steps@ =~= output_steps(self@.0, self@.1));
        let transaction = Transaction::new(self.address, steps, 0xff);
        (OutputPin { pin: self }, transaction)
    }

    /// Turns the pin into an [`OutputPin`] driven high. The transaction
    /// configures the line, then sets it high.
    pub fn into_output_pin_high(self) -> (r: (OutputPin, Transaction))
        ensures
            r.0@ == self@,
            r.0.address() == self.address(),
            r.1@ == TransactionState::start(
                self.address(),
                output_steps(self@.0, self@.1).push(drive_step(self@.0, self@.1, Level::High)),
                0xff,
            ),
    {
        self.into_output_driven(Level::High)
    }

    /// Turns the pin into an [`OutputPin`] driven low. The transaction
    /// configures the line, then sets it low.
    pub fn into_output_pin_low(self) -> (r: (OutputPin, Transaction))
        ensures
            r.0@ == self@,
            r.0.address() == self.address(),
            r.1@ == TransactionState::start(
                self.address(),
                output_steps(self@.0, self@.1).push(drive_step(self@.0, self@.1, Level::Low)),
                0xff,
            ),
    {
        self.into_output_driven(Level::Low)
    }

    fn into_output_driven(self, level: Level) -> (r: (OutputPin, Transaction))
        ensures
            r.0@ == self@,
            r.0.address() == self.address(),
            r.1@ == TransactionState::start(
                self.address(),
                output_steps(self@.0, self@.1).push(drive_step(self@.0, self@.1, level)),
                0xff,
            ),
    {
        let b = self.mask();
        let direction = Step::Modify { register: self.port.direction_register(), set: 0, clear: b };
        let pull_up = Step::Modify { register: self.port.pull_up_register(), set: 0, clear: b };
        let drive = self.drive(level);
        let steps = vec![direction, pull_up, drive];
        assert(steps@ =~= output_steps(self@.0, self@.1).push(drive_step(self@.0, self@.1, level)));
        let transaction = Transaction::new(self.address, steps, 0xff);
        (OutputPin { pin: self }, transaction)
    }

    fn drive(&self, level: Level) -> (r: Step)
        ensures
            r == drive_step(self@.0, self@.1, level),
    {
        let b = self.mask();
        match level {
            Level::Low => Step::Modify { register: self.port.gpio_register(), set: 0, clear: b },
            Level::High => Step::Modify { register: self.port.gpio_register(), set: b, clear: 0 },
        }
    }

    /// Reads the pin's logic level: the transaction reads the port's GPIO
    /// register, and its [`Transaction::level`] is the pin's bit.
    pub fn read(&self) -> (r: Transaction)
        ensures
            r@ == TransactionState::start(
                self.address(),
                seq![Step::Read(self@.0.spec_gpio_register())],
                bit_mask(self@.1),
            ),
    {
        let steps = vec![Step::Read(self.port.gpio_register())];
        assert(steps@ =~= seq![Step::Read(self@.0.spec_gpio_register())]);
        Transaction::new(self.address, steps, self.mask())
    }
}

/// A pin configured as an input.
///
/// It is either high-impedance (e.g. driven by an external logic gate) or has
/// the internal pull-up connected (e.g. for switch contacts): see
/// [`Pin::into_input_pin`] and [`Pin::into_pullup_input_pin`].
#[derive(Debug)]
pub struct InputPin {
    pin: Pin,
    interrupts_enabled: bool,
}

impl View for InputPin {
    type V = (Port, u8);

    closed spec fn view(&self) -> (Port, u8) {
        self.pin@
    }
}

impl InputPin {
    /// The hardware address of the chip the pin belongs to.
    pub closed spec fn address(self) -> u8 {
        self.pin.address()
    }

    /// Whether an interrupt mode other than `Disabled` was last set.
    pub closed spec fn interrupts_on(self) -> bool {
        self.interrupts_enabled
    }

    /// Whether an interrupt mode other than `Disabled` was last set.
    pub fn interrupts_enabled(&self) -> (r: bool)
        ensures
            r == self.interrupts_on(),
    {
        self.interrupts_enabled
    }

    /// Sets the interrupt mode of the pin: which level or edges raise an
    /// interrupt. The transaction writes the interrupt control and default
    /// value bits first and the interrupt enable bit last, as
    /// [`interrupt_steps`] gives them.
    pub fn set_interrupt_mode(&mut self, mode: InterruptMode) -> (r: Transaction)
        ensures
            final(self)@ == old(self)@,
            final(self).address() == old(self).address(),
            final(self).interrupts_on() == (mode != InterruptMode::Disabled),
            r@ == TransactionState::start(
                old(self).address(),
                interrupt_steps(old(self)@.0, old(self)@.1, mode),
                0xff,
            ),
    {
        let b = self.pin.mask();
        let port = self.pin.port;
        let intcon = port.interrupt_control_register();
        let defval = port.default_value_register();
        let gpinten = port.interrupt_enable_register();
        let steps = match mode {
            InterruptMode::Disabled => vec![Step::Modify { register: gpinten, set: 0, clear: b }],
            InterruptMode::ActiveHigh => vec![
                Step::Modify { register: intcon, set: b, clear: 0 },
                Step::Modify { register: defval, set: 0, clear: b },
                Step::Modify { register: gpinten, set: b, clear: 0 },
            ],
            InterruptMode::ActiveLow => vec![
                Step::Modify { register: intcon, set: b, clear: 0 },
                Step::Modify { register: defval, set: b, clear: 0 },
                Step::Modify { register: gpinten, set: b, clear: 0 },
            ],
            InterruptMode::BothEdges => vec![
                Step::Modify { register: intcon, set: 0, clear: b },
                Step::Modify { register: gpinten, set: b, clear: 0 },
            ],
        };
        assert(steps@ =~= interrupt_steps(port, self@.1, mode));
        self.interrupts_enabled = match mode {
            InterruptMode::Disabled => false,
            _ => true,
        };
        Transaction::new(self.pin.address, steps, 0xff)
    }

    /// Reads the pin's logic level, as [`Pin::read`] does.
    pub fn read(&self) -> (r: Transaction)
        ensures
            r@ == TransactionState::start(
                self.address(),
                seq![Step::Read(self@.0.spec_gpio_register())],
                bit_mask(self@.1),
            ),
    {
        self.pin.read()
    }

    /// Gets the pin's bit number (0-7).
    pub fn get_pin_number(&self) -> (r: u8)
        ensures
            r == self@.1,
            r <= 7,
    {
        self.pin.get_pin_number()
    }

    /// Gives up the input configuration, to hand the pin back to
    /// [`crate::Mcp23s17::release`]. If interrupts are enabled, the transaction
    /// disables them and should be run before the pin is released.
    pub fn into_pin(self) -> (r: (Pin, Option<Transaction>))
        ensures
            r.0@ == self@,
            r.0.address() == self.address(),
            self.interrupts_on() <==> r.1 is Some,
            r.1 matches Some(t) ==> t@ == TransactionState::start(
                self.address(),
                interrupt_steps(self@.0, self@.1, InterruptMode::Disabled),
                0xff,
            ),
    {
        let mut input = self;
        if input.interrupts_enabled {
            let transaction = input.set_interrupt_mode(InterruptMode::Disabled);
            (input.pin, Some(transaction))
        } else {
            (input.pin, None)
        }
    }
}

/// A pin configured as an output.
#[derive(Debug)]
pub struct OutputPin {
    pin: Pin,
}

impl View for OutputPin {
    type V = (Port, u8);

    closed spec fn view(&self) -> (Port, u8) {
        self.pin@
    }
}

impl OutputPin {
    /// The hardware address of the chip the pin belongs to.
    pub closed spec fn address(self) -> u8 {
        self.pin.address()
    }

    /// Drives the pin to `level`: the transaction sets or clears the pin's bit
    /// of the port's GPIO register.
    pub fn write(&self, level: Level) -> (r: Transaction)
        ensures
            r@ == TransactionState::start(
                self.address(),
                seq![drive_step(self@.0, self@.1, level)],
                0xff,
            ),
    {
        let steps = vec![self.pin.drive(level)];
        assert(steps@ =~= seq![drive_step(self@.0, self@.1, level)]);
        Transaction::new(self.pin.address, steps, 0xff)
    }

    /// Drives the pin high.
    pub fn set_high(&self) -> (r: Transaction)
        ensures
            r@ == TransactionState::start(
                self.address(),
                seq![drive_step(self@.0, self@.1, Level::High)],
                0xff,
            ),
    {
        self.write(Level::High)
    }

    /// Drives the pin low.
    pub fn set_low(&self) -> (r: Transaction)
        ensures
            r@ == TransactionState::start(
                self.address(),
                seq![drive_step(self@.0, self@.1, Level::Low)],
                0xff,
            ),
    {
        self.write(Level::Low)
    }

    /// Reads the pin's logic level, as [`Pin::read`] does: reading an output
    /// is valid.
    pub fn read(&self) -> (r: Transaction)
        ensures
            r@ == TransactionState::start(
                self.address(),
                seq![Step::Read(self@.0.spec_gpio_register())],
                bit_mask(self@.1),
            ),
    {
        self.pin.read()
    }

    /// Gets the pin's bit number (0-7).
    pub fn get_pin_number(&self) -> (r: u8)
        ensures
            r == self@.1,
            r <= 7,
    {
        self.pin.get_pin_number()
    }

    /// Gives up the output configuration, to hand the pin back to
    /// [`crate::Mcp23s17::release`].
    pub fn into_pin(self) -> (r: Pin)
        ensures
            r@ == self@,
            r.address() == self.address(),
    {
        self.pin
    }
}

} // verus!
