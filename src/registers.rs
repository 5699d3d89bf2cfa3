//! The chip's register map, hardware addresses and bus command encoding.

use vstd::prelude::*;

use crate::error::{Mcp23s17Error, Result};

verus! {

/// The hardware address of the device: the three bits set by pins `A2`, `A1`, `A0`.
#[derive(Clone, Copy, Debug, PartialEq, Eq, PartialOrd, Ord)]
pub struct HardwareAddress(u8);

impl View for HardwareAddress {
    type V = u8;

    closed spec fn view(&self) -> u8 {
        self.0
    }
}

impl HardwareAddress {
    /// Hardware address space is three bits wide so 0-7 are valid.
    pub const MAX_HARDWARE_ADDRESS: u8 = 7;

    #[verifier::type_invariant]
    spec fn in_range(self) -> bool {
        self.0 <= 7
    }

    /// Create a `HardwareAddress`, refusing values above 7.
    pub fn new(address: u8) -> (r: Result<HardwareAddress>)
        ensures
            address <= 7 <==> r is Ok,
            r matches Ok(a) ==> a@ == address,
            address <= 7 ==> r == Ok::<HardwareAddress, Mcp23s17Error>(
                HardwareAddress::from_value(address),
            ),
            address > 7 ==> r == Err::<HardwareAddress, Mcp23s17Error>(
                Mcp23s17Error::HardwareAddressBoundsError(address),
            ),
    {
        if address <= Self::MAX_HARDWARE_ADDRESS {
            Ok(HardwareAddress(address))
        } else {
            Err(Mcp23s17Error::HardwareAddressBoundsError(address))
        }
    }

    /// The address holding `value`, which is taken as given.
    pub closed spec fn from_value(value: u8) -> HardwareAddress {
        HardwareAddress(value)
    }

    /// The address as a number, 0 to 7.
    pub fn value(self) -> (r: u8)
        ensures
            r == self@,
            r <= 7,
    {
        proof {
            use_type_invariant(&self);
        }
        self.0
    }
}

impl From<HardwareAddress> for u8 {
    fn from(address: HardwareAddress) -> (r: u8)
        ensures
            r == address@,
    {
        address.value()
    }
}

impl vstd::std_specs::convert::FromSpecImpl<HardwareAddress> for u8 {
    open spec fn obeys_from_spec() -> bool {
        true
    }

    open spec fn from_spec(address: HardwareAddress) -> u8 {
        address@
    }
}

impl TryFrom<u8> for HardwareAddress {
    type Error = Mcp23s17Error;

    fn try_from(value: u8) -> (r: Result<HardwareAddress>) {
        HardwareAddress::new(value)
    }
}

impl vstd::std_specs::convert::TryFromSpecImpl<u8> for HardwareAddress {
    open spec fn obeys_try_from_spec() -> bool {
        true
    }

    open spec fn try_from_spec(value: u8) -> Result<HardwareAddress> {
        if value <= 7 {
            Ok(HardwareAddress::from_value(value))
        } else {
            Err(Mcp23s17Error::HardwareAddressBoundsError(value))
        }
    }
}

/// The direction of an operation on the SPI bus.
#[derive(Clone, Copy, Debug, PartialEq, Eq, Structural)]
pub enum SpiCommand {
    /// Write to a register.
    Write,
    /// Read from a register.
    Read,
}

impl SpiCommand {
    /// The read/write bit of the control byte: 1 to read, 0 to write.
    pub open spec fn bit(self) -> u8 {
        match self {
            SpiCommand::Write => 0,
            SpiCommand::Read => 1,
        }
    }
}

/// The control byte that opens every transaction: the fixed bits `0100`, the
/// three hardware address bits, then the read/write bit.
pub open spec fn spec_control_byte(address: u8, command: SpiCommand) -> u8 {
    (0x40u8 | (address << 1u8) | command.bit()) as u8
}

/// The lowest bit of a control byte is its read/write bit.
pub proof fn lemma_control_byte_command(address: u8)
    ensures
        spec_control_byte(address, SpiCommand::Read) & 1 == 1,
        spec_control_byte(address, SpiCommand::Write) & 1 == 0,
{
    assert((0x40u8 | (address << 1u8) | 1u8) as u8 & 1 == 1) by (bit_vector);
    assert((0x40u8 | (address << 1u8) | 0u8) as u8 & 1 == 0) by (bit_vector);
}

/// Computes the control byte for `command` addressed to the chip at `address`.
pub fn control_byte(address: HardwareAddress, command: SpiCommand) -> (r: u8)
    ensures
        r == spec_control_byte(address@, command),
        r == 0x40 + 2 * address@ + command.bit(),
{
    let a = address.value();
    let rw: u8 = match command {
        SpiCommand::Write => 0,
        SpiCommand::Read => 1,
    };
    assert((0x40u8 | (a << 1u8) | rw) as int == 0x40 + 2 * a + rw) by (bit_vector)
        requires
            a <= 7,
            rw <= 1,
    ;
    0x40u8 | (a << 1u8) | rw
}

/// The register address within the device.
///
/// This follows the "interleaved" register layout, so the [`IOCON::BANK`] bit of
/// the `IOCON` register must be 0 ([`IOCON::BANK_OFF`]).
#[allow(clippy::upper_case_acronyms)]
#[derive(Clone, Copy, Debug, PartialEq, Eq, Structural, PartialOrd, Ord)]
pub enum RegisterAddress {
    /// I/O direction A
    IODIRA,
    /// I/O direction B
    IODIRB,
    /// I/O polarity A
    IPOLA,
    /// I/O polarity B
    IPOLB,
    /// interrupt enable A
    GPINTENA,
    /// interrupt enable B
    GPINTENB,
    /// register default value A (interrupts)
    DEFVALA,
    /// register default value B (interrupts)
    DEFVALB,
    /// interrupt control A
    INTCONA,
    /// interrupt control B
    INTCONB,
    /// I/O config (also at 0xB)
    IOCON,
    /// I/O config (duplicate)
    IOCON2,
    /// port A pull-ups
    GPPUA,
    /// port B pull-ups
    GPPUB,
    /// interrupt flag A (where the interrupt came from)
    INTFA,
    /// interrupt flag B
    INTFB,
    /// interrupt capture A (value at interrupt is saved here)
    INTCAPA,
    /// interrupt capture B
    INTCAPB,
    /// port A
    GPIOA,
    /// port B
    GPIOB,
    /// output latch A
    OLATA,
    /// output latch B
    OLATB,
}

impl RegisterAddress {
    /// Total number of registers defined within the MCP23S17.
    pub const LENGTH: usize = 0x16;

    /// The register's offset in the chip's address space.
    pub open spec fn offset(self) -> u8 {
        match self {
            RegisterAddress::IODIRA => 0,
            RegisterAddress::IODIRB => 1,
            RegisterAddress::IPOLA => 2,
            RegisterAddress::IPOLB => 3,
            RegisterAddress::GPINTENA => 4,
            RegisterAddress::GPINTENB => 5,
            RegisterAddress::DEFVALA => 6,
            RegisterAddress::DEFVALB => 7,
            RegisterAddress::INTCONA => 8,
            RegisterAddress::INTCONB => 9,
            RegisterAddress::IOCON => 10,
            RegisterAddress::IOCON2 => 11,
            RegisterAddress::GPPUA => 12,
            RegisterAddress::GPPUB => 13,
            RegisterAddress::INTFA => 14,
            RegisterAddress::INTFB => 15,
            RegisterAddress::INTCAPA => 16,
            RegisterAddress::INTCAPB => 17,
            RegisterAddress::GPIOA => 18,
            RegisterAddress::GPIOB => 19,
            RegisterAddress::OLATA => 20,
            RegisterAddress::OLATB => 21,
        }
    }

    /// The register at `offset`, for offsets below 22.
    pub open spec fn at(offset: int) -> RegisterAddress {
        if offset == 0 {
            RegisterAddress::IODIRA
        } else if offset == 1 {
            RegisterAddress::IODIRB
        } else if offset == 2 {
            RegisterAddress::IPOLA
        } else if offset == 3 {
            RegisterAddress::IPOLB
        } else if offset == 4 {
            RegisterAddress::GPINTENA
        } else if offset == 5 {
            RegisterAddress::GPINTENB
        } else if offset == 6 {
            RegisterAddress::DEFVALA
        } else if offset == 7 {
            RegisterAddress::DEFVALB
        } else if offset == 8 {
            RegisterAddress::INTCONA
        } else if offset == 9 {
            RegisterAddress::INTCONB
        } else if offset == 10 {
            RegisterAddress::IOCON
        } else if offset == 11 {
            RegisterAddress::IOCON2
        } else if offset == 12 {
            RegisterAddress::GPPUA
        } else if offset == 13 {
            RegisterAddress::GPPUB
        } else if offset == 14 {
            RegisterAddress::INTFA
        } else if offset == 15 {
            RegisterAddress::INTFB
        } else if offset == 16 {
            RegisterAddress::INTCAPA
        } else if offset == 17 {
            RegisterAddress::INTCAPB
        } else if offset == 18 {
            RegisterAddress::GPIOA
        } else if offset == 19 {
            RegisterAddress::GPIOB
        } else if offset == 20 {
            RegisterAddress::OLATA
        } else {
            RegisterAddress::OLATB
        }
    }

    /// The register's offset, below 22.
    pub fn offset_of(self) -> (r: u8)
        ensures
            r == self.offset(),
            r < 22,
    {
        match self {
            RegisterAddress::IODIRA => 0,
            RegisterAddress::IODIRB => 1,
            RegisterAddress::IPOLA => 2,
            RegisterAddress::IPOLB => 3,
            RegisterAddress::GPINTENA => 4,
            RegisterAddress::GPINTENB => 5,
            RegisterAddress::DEFVALA => 6,
            RegisterAddress::DEFVALB => 7,
            RegisterAddress::INTCONA => 8,
            RegisterAddress::INTCONB => 9,
            RegisterAddress::IOCON => 10,
            RegisterAddress::IOCON2 => 11,
            RegisterAddress::GPPUA => 12,
            RegisterAddress::GPPUB => 13,
            RegisterAddress::INTFA => 14,
            RegisterAddress::INTFB => 15,
            RegisterAddress::INTCAPA => 16,
            RegisterAddress::INTCAPB => 17,
            RegisterAddress::GPIOA => 18,
            RegisterAddress::GPIOB => 19,
            RegisterAddress::OLATA => 20,
            RegisterAddress::OLATB => 21,
        }
    }

    /// Each register is the one found at its own offset.
    pub proof fn lemma_at_offset(self)
        ensures
            self.offset() < 22,
            RegisterAddress::at(self.offset() as int) == self,
    {
    }
}

impl From<RegisterAddress> for u8 {
    fn from(address: RegisterAddress) -> (r: u8) {
        address.offset_of()
    }
}

impl vstd::std_specs::convert::FromSpecImpl<RegisterAddress> for u8 {
    open spec fn obeys_from_spec() -> bool {
        true
    }

    open spec fn from_spec(address: RegisterAddress) -> u8 {
        address.offset()
    }
}

impl TryFrom<usize> for RegisterAddress {
    type Error = Mcp23s17Error;

    fn try_from(value: usize) -> (r: Result<RegisterAddress>) {
        match value {
            0 => Ok(RegisterAddress::IODIRA),
            1 => Ok(RegisterAddress::IODIRB),
            2 => Ok(RegisterAddress::IPOLA),
            3 => Ok(RegisterAddress::IPOLB),
            4 => Ok(RegisterAddress::GPINTENA),
            5 => Ok(RegisterAddress::GPINTENB),
            6 => Ok(RegisterAddress::DEFVALA),
            7 => Ok(RegisterAddress::DEFVALB),
            8 => Ok(RegisterAddress::INTCONA),
            9 => Ok(RegisterAddress::INTCONB),
            10 => Ok(RegisterAddress::IOCON),
            11 => Ok(RegisterAddress::IOCON2),
            12 => Ok(RegisterAddress::GPPUA),
            13 => Ok(RegisterAddress::GPPUB),
            14 => Ok(RegisterAddress::INTFA),
            15 => Ok(RegisterAddress::INTFB),
            16 => Ok(RegisterAddress::INTCAPA),
            17 => Ok(RegisterAddress::INTCAPB),
            18 => Ok(RegisterAddress::GPIOA),
            19 => Ok(RegisterAddress::GPIOB),
            20 => Ok(RegisterAddress::OLATA),
            21 => Ok(RegisterAddress::OLATB),
            _ => Err(Mcp23s17Error::RegisterAddressBoundsError),
        }
    }
}

impl vstd::std_specs::convert::TryFromSpecImpl<usize> for RegisterAddress {
    open spec fn obeys_try_from_spec() -> bool {
        true
    }

    open spec fn try_from_spec(value: usize) -> Result<RegisterAddress> {
        if value < 22 {
            Ok(RegisterAddress::at(value as int))
        } else {
            Err(Mcp23s17Error::RegisterAddressBoundsError)
        }
    }
}

/// The MCP23S17 has two GPIO ports, GPIOA and GPIOB.
#[derive(Clone, Copy, Debug, PartialEq, Eq, Structural)]
pub enum Port {
    /// GPIO A
    GpioA,
    /// GPIO B
    GpioB,
}

impl Port {
    /// The port's I/O direction register.
    pub open spec fn spec_direction_register(self) -> RegisterAddress {
        match self {
            Port::GpioA => RegisterAddress::IODIRA,
            Port::GpioB => RegisterAddress::IODIRB,
        }
    }

    /// The port's I/O direction register.
    pub fn direction_register(self) -> (r: RegisterAddress)
        ensures
            r == self.spec_direction_register(),
    {
        match self {
            Port::GpioA => RegisterAddress::IODIRA,
            Port::GpioB => RegisterAddress::IODIRB,
        }
    }

    /// The port's pull-up register.
    pub open spec fn spec_pull_up_register(self) -> RegisterAddress {
        match self {
            Port::GpioA => RegisterAddress::GPPUA,
            Port::GpioB => RegisterAddress::GPPUB,
        }
    }

    /// The port's pull-up register.
    pub fn pull_up_register(self) -> (r: RegisterAddress)
        ensures
            r == self.spec_pull_up_register(),
    {
        match self {
            Port::GpioA => RegisterAddress::GPPUA,
            Port::GpioB => RegisterAddress::GPPUB,
        }
    }

    /// The port's interrupt enable register.
    pub open spec fn spec_interrupt_enable_register(self) -> RegisterAddress {
        match self {
            Port::GpioA => RegisterAddress::GPINTENA,
            Port::GpioB => RegisterAddress::GPINTENB,
        }
    }

    /// The port's interrupt enable register.
    pub fn interrupt_enable_register(self) -> (r: RegisterAddress)
        ensures
            r == self.spec_interrupt_enable_register(),
    {
        match self {
            Port::GpioA => RegisterAddress::GPINTENA,
            Port::GpioB => RegisterAddress::GPINTENB,
        }
    }

    /// The port's interrupt control register.
    pub open spec fn spec_interrupt_control_register(self) -> RegisterAddress {
        match self {
            Port::GpioA => RegisterAddress::INTCONA,
            Port::GpioB => RegisterAddress::INTCONB,
        }
    }

    /// The port's interrupt control register.
    pub fn interrupt_control_register(self) -> (r: RegisterAddress)
        ensures
            r == self.spec_interrupt_control_register(),
    {
        match self {
            Port::GpioA => RegisterAddress::INTCONA,
            Port::GpioB => RegisterAddress::INTCONB,
        }
    }

    /// The port's interrupt default value register.
    pub open spec fn spec_default_value_register(self) -> RegisterAddress {
        match self {
            Port::GpioA => RegisterAddress::DEFVALA,
            Port::GpioB => RegisterAddress::DEFVALB,
        }
    }

    /// The port's interrupt default value register.
    pub fn default_value_register(self) -> (r: RegisterAddress)
        ensures
            r == self.spec_default_value_register(),
    {
        match self {
            Port::GpioA => RegisterAddress::DEFVALA,
            Port::GpioB => RegisterAddress::DEFVALB,
        }
    }

    /// The port's GPIO level register.
    pub open spec fn spec_gpio_register(self) -> RegisterAddress {
        match self {
            Port::GpioA => RegisterAddress::GPIOA,
            Port::GpioB => RegisterAddress::GPIOB,
        }
    }

    /// The port's GPIO level register.
    pub fn gpio_register(self) -> (r: RegisterAddress)
        ensures
            r == self.spec_gpio_register(),
    {
        match self {
            Port::GpioA => RegisterAddress::GPIOA,
            Port::GpioB => RegisterAddress::GPIOB,
        }
    }

}

/// Which Chip Select line of the SPI bus the chip is wired to.
///
/// This mirrors the bus's own [`rppal::spi::SlaveSelect`] one for one.
#[derive(Debug, Clone, Copy, PartialEq, Eq, Structural, PartialOrd, Ord)]
#[allow(missing_docs)]
pub enum ChipSelect {
    Cs0,
    Cs1,
    Cs2,
    Cs3,
    Cs4,
    Cs5,
    Cs6,
    Cs7,
    Cs8,
    Cs9,
    Cs10,
    Cs11,
    Cs12,
    Cs13,
    Cs14,
    Cs15,
}

/// The bus's `rppal::spi::SlaveSelect`, a plain enum of sixteen unit variants,
/// declared with its variants visible so that the conversions below can match
/// on them.
#[verifier::external_type_specification]
pub struct ExSlaveSelect(rppal::spi::SlaveSelect);

impl From<rppal::spi::SlaveSelect> for ChipSelect {
    fn from(ss: rppal::spi::SlaveSelect) -> (r: ChipSelect) {
        match ss {
            rppal::spi::SlaveSelect::Ss0 => ChipSelect::Cs0,
            rppal::spi::SlaveSelect::Ss1 => ChipSelect::Cs1,
            rppal::spi::SlaveSelect::Ss2 => ChipSelect::Cs2,
            rppal::spi::SlaveSelect::Ss3 => ChipSelect::Cs3,
            rppal::spi::SlaveSelect::Ss4 => ChipSelect::Cs4,
            rppal::spi::SlaveSelect::Ss5 => ChipSelect::Cs5,
            rppal::spi::SlaveSelect::Ss6 => ChipSelect::Cs6,
            rppal::spi::SlaveSelect::Ss7 => ChipSelect::Cs7,
            rppal::spi::SlaveSelect::Ss8 => ChipSelect::Cs8,
            rppal::spi::SlaveSelect::Ss9 => ChipSelect::Cs9,
            rppal::spi::SlaveSelect::Ss10 => ChipSelect::Cs10,
            rppal::spi::SlaveSelect::Ss11 => ChipSelect::Cs11,
            rppal::spi::SlaveSelect::Ss12 => ChipSelect::Cs12,
            rppal::spi::SlaveSelect::Ss13 => ChipSelect::Cs13,
            rppal::spi::SlaveSelect::Ss14 => ChipSelect::Cs14,
            rppal::spi::SlaveSelect::Ss15 => ChipSelect::Cs15,
        }
    }
}

impl vstd::std_specs::convert::FromSpecImpl<rppal::spi::SlaveSelect> for ChipSelect {
    open spec fn obeys_from_spec() -> bool {
        true
    }

    open spec fn from_spec(ss: rppal::spi::SlaveSelect) -> ChipSelect {
        match ss {
            rppal::spi::SlaveSelect::Ss0 => ChipSelect::Cs0,
            rppal::spi::SlaveSelect::Ss1 => ChipSelect::Cs1,
            rppal::spi::SlaveSelect::Ss2 => ChipSelect::Cs2,
            rppal::spi::SlaveSelect::Ss3 => ChipSelect::Cs3,
            rppal::spi::SlaveSelect::Ss4 => ChipSelect::Cs4,
            rppal::spi::SlaveSelect::Ss5 => ChipSelect::Cs5,
            rppal::spi::SlaveSelect::Ss6 => ChipSelect::Cs6,
            rppal::spi::SlaveSelect::Ss7 => ChipSelect::Cs7,
            rppal::spi::SlaveSelect::Ss8 => ChipSelect::Cs8,
            rppal::spi::SlaveSelect::Ss9 => ChipSelect::Cs9,
            rppal::spi::SlaveSelect::Ss10 => ChipSelect::Cs10,
            rppal::spi::SlaveSelect::Ss11 => ChipSelect::Cs11,
            rppal::spi::SlaveSelect::Ss12 => ChipSelect::Cs12,
            rppal::spi::SlaveSelect::Ss13 => ChipSelect::Cs13,
            rppal::spi::SlaveSelect::Ss14 => ChipSelect::Cs14,
            rppal::spi::SlaveSelect::Ss15 => ChipSelect::Cs15,
        }
    }
}

impl From<ChipSelect> for rppal::spi::SlaveSelect {
    fn from(cs: ChipSelect) -> (r: rppal::spi::SlaveSelect) {
        match cs {
            ChipSelect::Cs0 => rppal::spi::SlaveSelect::Ss0,
            ChipSelect::Cs1 => rppal::spi::SlaveSelect::Ss1,
            ChipSelect::Cs2 => rppal::spi::SlaveSelect::Ss2,
            ChipSelect::Cs3 => rppal::spi::SlaveSelect::Ss3,
            ChipSelect::Cs4 => rppal::spi::SlaveSelect::Ss4,
            ChipSelect::Cs5 => rppal::spi::SlaveSelect::Ss5,
            ChipSelect::Cs6 => rppal::spi::SlaveSelect::Ss6,
            ChipSelect::Cs7 => rppal::spi::SlaveSelect::Ss7,
            ChipSelect::Cs8 => rppal::spi::SlaveSelect::Ss8,
            ChipSelect::Cs9 => rppal::spi::SlaveSelect::Ss9,
            ChipSelect::Cs10 => rppal::spi::SlaveSelect::Ss10,
            ChipSelect::Cs11 => rppal::spi::SlaveSelect::Ss11,
            ChipSelect::Cs12 => rppal::spi::SlaveSelect::Ss12,
            ChipSelect::Cs13 => rppal::spi::SlaveSelect::Ss13,
            ChipSelect::Cs14 => rppal::spi::SlaveSelect::Ss14,
            ChipSelect::Cs15 => rppal::spi::SlaveSelect::Ss15,
        }
    }
}

impl vstd::std_specs::convert::FromSpecImpl<ChipSelect> for rppal::spi::SlaveSelect {
    open spec fn obeys_from_spec() -> bool {
        true
    }

    open spec fn from_spec(cs: ChipSelect) -> rppal::spi::SlaveSelect {
        match cs {
            ChipSelect::Cs0 => rppal::spi::SlaveSelect::Ss0,
            ChipSelect::Cs1 => rppal::spi::SlaveSelect::Ss1,
            ChipSelect::Cs2 => rppal::spi::SlaveSelect::Ss2,
            ChipSelect::Cs3 => rppal::spi::SlaveSelect::Ss3,
            ChipSelect::Cs4 => rppal::spi::SlaveSelect::Ss4,
            ChipSelect::Cs5 => rppal::spi::SlaveSelect::Ss5,
            ChipSelect::Cs6 => rppal::spi::SlaveSelect::Ss6,
            ChipSelect::Cs7 => rppal::spi::SlaveSelect::Ss7,
            ChipSelect::Cs8 => rppal::spi::SlaveSelect::Ss8,
            ChipSelect::Cs9 => rppal::spi::SlaveSelect::Ss9,
            ChipSelect::Cs10 => rppal::spi::SlaveSelect::Ss10,
            ChipSelect::Cs11 => rppal::spi::SlaveSelect::Ss11,
            ChipSelect::Cs12 => rppal::spi::SlaveSelect::Ss12,
            ChipSelect::Cs13 => rppal::spi::SlaveSelect::Ss13,
            ChipSelect::Cs14 => rppal::spi::SlaveSelect::Ss14,
            ChipSelect::Cs15 => rppal::spi::SlaveSelect::Ss15,
        }
    }
}

/// The I/O Expander Configuration Register (`IOCON`) as a bit mask.
///
/// The named constants are the register's bits, and the settings each bit
/// selects; a value is built by OR-ing them and read back through the
/// predicates.
#[allow(clippy::upper_case_acronyms)]
#[derive(Clone, Copy, Debug, PartialEq, Eq, Structural, PartialOrd, Ord, Hash)]
pub struct IOCON(u8);

impl View for IOCON {
    type V = u8;

    closed spec fn view(&self) -> u8 {
        self.0
    }
}

impl IOCON {
    /// Registers of each port are separated into different banks (1, not
    /// supported by this driver), or share one bank with interleaved addresses
    /// (0).
    pub const BANK: u8 = 0b1000_0000;

    /// The `INT` pins are internally connected (1), or `INTA` is associated
    /// with `PORTA` and `INTB` with `PORTB` (0).
    pub const MIRROR: u8 = 0b0100_0000;

    /// Sequential operation disabled, address pointer does not increment (1), or enabled (0).
    pub const SEQOP: u8 = 0b0010_0000;

    /// Slew rate control disabled (1), or enabled (0).
    pub const DISSLW: u8 = 0b0001_0000;

    /// The hardware address pins are enabled (1), or disabled (0).
    pub const HAEN: u8 = 0b0000_1000;

    /// The `INT` pin is an open-drain output (1, overriding `INTPOL`), or an active driver (0).
    pub const ODR: u8 = 0b0000_0100;

    /// The `INT` output is active-high (1), or active-low (0).
    pub const INTPOL: u8 = 0b0000_0010;

    /// Unimplemented: reads as 0.
    pub const _NA: u8 = 0b0000_0001;

    /// The registers of each port are separated into different banks (not
    /// supported by this driver).
    pub const BANK_ON: u8 = IOCON::BANK;

    /// The registers are in the same bank (addresses are interleaved sequentially).
    pub const BANK_OFF: u8 = 0;

    /// The `INT` pins are internally connected.
    pub const MIRROR_ON: u8 = IOCON::MIRROR;

    /// The `INT` pins are not connected: `INTA` goes with `PORTA` and `INTB` with `PORTB`.
    pub const MIRROR_OFF: u8 = 0;

    /// Sequential operation enabled, address pointer increments.
    pub const SEQOP_ON: u8 = 0;

    /// Sequential operation disabled, address pointer does not increment.
    pub const SEQOP_OFF: u8 = IOCON::SEQOP;

    /// Slew rate control enabled.
    pub const DISSLW_SLEW_RATE_CONTROLLED: u8 = 0;

    /// Slew rate control disabled.
    pub const DISSLW_SLEW_RATE_MAX: u8 = IOCON::DISSLW;

    /// Enables the hardware address pins.
    pub const HAEN_ON: u8 = IOCON::HAEN;

    /// Disables the hardware address pins.
    pub const HAEN_OFF: u8 = 0;

    /// Open-drain output (overrides the `INTPOL` bit).
    pub const ODR_ON: u8 = IOCON::ODR;

    /// Active driver output (`INTPOL` bit sets the polarity).
    pub const ODR_OFF: u8 = 0;

    /// Active-high.
    pub const INTPOL_HIGH: u8 = IOCON::INTPOL;

    /// Active-low.
    pub const INTPOL_LOW: u8 = 0;

    /// The register value `bits`, as flags.
    pub closed spec fn from_value(bits: u8) -> IOCON {
        IOCON(bits)
    }

    /// The flags hold exactly the bits they were made from.
    pub proof fn lemma_from_value(bits: u8)
        ensures
            IOCON::from_value(bits)@ == bits,
    {
    }

    /// The register's value.
    pub fn bits(&self) -> (r: u8)
        ensures
            r == self@,
    {
        self.0
    }

    /// The flags of the register value `bits`. Every bit of the register is
    /// defined, so this is never `None`.
    pub fn from_bits(bits: u8) -> (r: Option<IOCON>)
        ensures
            r == Some(IOCON::from_value(bits)),
    {
        Some(IOCON(bits))
    }

    /// The flags of the register value `bits`.
    pub fn from_bits_truncate(bits: u8) -> (r: IOCON)
        ensures
            r == IOCON::from_value(bits),
    {
        IOCON(bits)
    }

    /// Whether every bit of `mask` is set.
    pub fn contains(&self, mask: u8) -> (r: bool)
        ensures
            r == (self@ & mask == mask),
    {
        self.0 & mask == mask
    }

    /// Whether the `BANK` bit is set.
    pub fn bank(&self) -> (r: bool)
        ensures
            r == (self@ & IOCON::BANK != 0),
    {
        self.0 & IOCON::BANK != 0
    }

    /// Whether the `MIRROR` bit is set.
    pub fn mirror(&self) -> (r: bool)
        ensures
            r == (self@ & IOCON::MIRROR != 0),
    {
        self.0 & IOCON::MIRROR != 0
    }

    /// Whether the `SEQOP` bit is set.
    pub fn seqop(&self) -> (r: bool)
        ensures
            r == (self@ & IOCON::SEQOP != 0),
    {
        self.0 & IOCON::SEQOP != 0
    }

    /// Whether the `DISSLW` bit is set.
    pub fn disslw(&self) -> (r: bool)
        ensures
            r == (self@ & IOCON::DISSLW != 0),
    {
        self.0 & IOCON::DISSLW != 0
    }

    /// Whether the `HAEN` bit is set.
    pub fn haen(&self) -> (r: bool)
        ensures
            r == (self@ & IOCON::HAEN != 0),
    {
        self.0 & IOCON::HAEN != 0
    }

    /// Whether the `ODR` bit is set.
    pub fn odr(&self) -> (r: bool)
        ensures
            r == (self@ & IOCON::ODR != 0),
    {
        self.0 & IOCON::ODR != 0
    }

    /// Whether the `INTPOL` bit is set.
    pub fn intpol(&self) -> (r: bool)
        ensures
            r == (self@ & IOCON::INTPOL != 0),
    {
        self.0 & IOCON::INTPOL != 0
    }

}

impl RegisterAddress {
    /// The register's name, as the data sheet gives it.
    pub open spec fn spec_name(self) -> Seq<char> {
        match self {
            RegisterAddress::IODIRA => "IODIRA"@,
            RegisterAddress::IODIRB => "IODIRB"@,
            RegisterAddress::IPOLA => "IPOLA"@,
            RegisterAddress::IPOLB => "IPOLB"@,
            RegisterAddress::GPINTENA => "GPINTENA"@,
            RegisterAddress::GPINTENB => "GPINTENB"@,
            RegisterAddress::DEFVALA => "DEFVALA"@,
            RegisterAddress::DEFVALB => "DEFVALB"@,
            RegisterAddress::INTCONA => "INTCONA"@,
            RegisterAddress::INTCONB => "INTCONB"@,
            RegisterAddress::IOCON => "IOCON"@,
            RegisterAddress::IOCON2 => "IOCON (2)"@,
            RegisterAddress::GPPUA => "GPPUA"@,
            RegisterAddress::GPPUB => "GPPUB"@,
            RegisterAddress::INTFA => "INTFA"@,
            RegisterAddress::INTFB => "INTFB"@,
            RegisterAddress::INTCAPA => "INTCAPA"@,
            RegisterAddress::INTCAPB => "INTCAPB"@,
            RegisterAddress::GPIOA => "GPIOA"@,
            RegisterAddress::GPIOB => "GPIOB"@,
            RegisterAddress::OLATA => "OLATA"@,
            RegisterAddress::OLATB => "OLATB"@,
        }
    }

    /// The register's name, as the data sheet gives it.
    pub fn as_str(self) -> (r: &'static str)
        ensures
            r@ == self.spec_name(),
    {
        match self {
            RegisterAddress::IODIRA => "IODIRA",
            RegisterAddress::IODIRB => "IODIRB",
            RegisterAddress::IPOLA => "IPOLA",
            RegisterAddress::IPOLB => "IPOLB",
            RegisterAddress::GPINTENA => "GPINTENA",
            RegisterAddress::GPINTENB => "GPINTENB",
            RegisterAddress::DEFVALA => "DEFVALA",
            RegisterAddress::DEFVALB => "DEFVALB",
            RegisterAddress::INTCONA => "INTCONA",
            RegisterAddress::INTCONB => "INTCONB",
            RegisterAddress::IOCON => "IOCON",
            RegisterAddress::IOCON2 => "IOCON (2)",
            RegisterAddress::GPPUA => "GPPUA",
            RegisterAddress::GPPUB => "GPPUB",
            RegisterAddress::INTFA => "INTFA",
            RegisterAddress::INTFB => "INTFB",
            RegisterAddress::INTCAPA => "INTCAPA",
            RegisterAddress::INTCAPB => "INTCAPB",
            RegisterAddress::GPIOA => "GPIOA",
            RegisterAddress::GPIOB => "GPIOB",
            RegisterAddress::OLATA => "OLATA",
            RegisterAddress::OLATB => "OLATB",
        }
    }
}

impl Port {
    /// The port's name.
    pub open spec fn spec_name(self) -> Seq<char> {
        match self {
            Port::GpioA => "GPIO A"@,
            Port::GpioB => "GPIO B"@,
        }
    }

    /// The port's name.
    pub fn as_str(self) -> (r: &'static str)
        ensures
            r@ == self.spec_name(),
    {
        match self {
            Port::GpioA => "GPIO A",
            Port::GpioB => "GPIO B",
        }
    }
}

impl SpiCommand {
    /// The command's name.
    pub open spec fn spec_name(self) -> Seq<char> {
        match self {
            SpiCommand::Read => "Read"@,
            SpiCommand::Write => "Write"@,
        }
    }

    /// The command's name.
    pub fn as_str(self) -> (r: &'static str)
        ensures
            r@ == self.spec_name(),
    {
        match self {
            SpiCommand::Read => "Read",
            SpiCommand::Write => "Write",
        }
    }
}

} // verus!
