//! The device: one MCP23S17 on the bus, and the table of its lines in use.

use vstd::prelude::*;

use crate::error::{Mcp23s17Error, Result};
use crate::pin::Pin;
use crate::registers::{
    control_byte, spec_control_byte, HardwareAddress, Port, RegisterAddress, SpiCommand,
};
use crate::transaction::{
    bit_mask, clear_bits_steps, read_steps, set_bits_steps, write_steps, Step, Transaction,
    TransactionState,
};

verus! {

/// The state of a device: its hardware address and the lines taken.
pub struct DeviceState {
    /// The hardware address of the chip.
    pub address: u8,
    /// The lines that a live pin handle holds, as (port, bit).
    pub taken: Set<(Port, u8)>,
}

impl DeviceState {
    /// A request for line `pin` of `port` succeeds: the bit is 0-7 and no live
    /// handle holds the line.
    pub open spec fn can_take(self, port: Port, pin: u8) -> bool {
        pin <= 7 && !self.taken.contains((port, pin))
    }
}

/// An instance of the MCP23S17 I/O expander chip.
///
/// This is the entry point of the driver: it frames the register accesses to
/// the chip at its hardware address, and hands out each GPIO line as a [`Pin`]
/// to one holder at a time.
#[derive(Debug)]
pub struct Mcp23s17 {
    address: HardwareAddress,
    gpioa_pins_taken: [bool; 8],
    gpiob_pins_taken: [bool; 8],
}

impl View for Mcp23s17 {
    type V = DeviceState;

    closed spec fn view(&self) -> DeviceState {
        DeviceState {
            address: self.address@,
            taken: Set::new(
                |line: (Port, u8)|
                    line.1 < 8 && match line.0 {
                        Port::GpioA => self.gpioa_pins_taken@[line.1 as int],
                        Port::GpioB => self.gpiob_pins_taken@[line.1 as int],
                    },
            ),
        }
    }
}

impl Mcp23s17 {
    /// A device at `address` with every line free.
    pub fn new(address: HardwareAddress) -> (r: Mcp23s17)
        ensures
            r@.address == address@,
            r@.taken == Set::<(Port, u8)>::empty(),
    {
        let r = Mcp23s17 { address, gpioa_pins_taken: [false; 8], gpiob_pins_taken: [false; 8] };
        assert(r@.taken =~= Set::<(Port, u8)>::empty());
        r
    }

    /// Get the hardware address of the MCP23S17.
    pub fn get_hardware_address(&self) -> (r: HardwareAddress)
        ensures
            r@ == self@.address,
    {
        self.address
    }

    /// The control byte that opens a transaction of this device.
    pub fn spi_control_byte(&self, command: SpiCommand) -> (r: u8)
        ensures
            r == spec_control_byte(self@.address, command),
            r == 0x40 + 2 * self@.address + command.bit(),
    {
        control_byte(self.address, command)
    }

    /// Read a byte from the register `register`: the byte is the transaction's
    /// [`Transaction::value`].
    pub fn read(&self, register: RegisterAddress) -> (r: Transaction)
        ensures
            r@ == TransactionState::start(self@.address, read_steps(register), 0xff),
    {
        let steps = vec![Step::Read(register)];
        assert(steps@ =~= seq![Step::Read(register)]);
        Transaction::new(self.address, steps, 0xff)
    }

    /// Write the byte `data` to the register `register`.
    pub fn write(&self, register: RegisterAddress, data: u8) -> (r: Transaction)
        ensures
            r@ == TransactionState::start(self@.address, write_steps(register, data), 0xff),
    {
        let steps = vec![Step::Write(register, data)];
        assert(steps@ =~= seq![Step::Write(register, data)]);
        Transaction::new(self.address, steps, 0xff)
    }

    /// Set the bits of `data` in the register: read it, OR it with `data`,
    /// write it back. Nothing keeps another bus user from writing the register
    /// between the read and the write.
    pub fn set_bits(&self, register: RegisterAddress, data: u8) -> (r: Transaction)
        ensures
            r@ == TransactionState::start(self@.address, set_bits_steps(register, data), 0xff),
    {
        let steps = vec![Step::Modify { register, set: data, clear: 0 }];
        assert(steps@ =~= seq![Step::Modify { register, set: data, clear: 0 }]);
        Transaction::new(self.address, steps, 0xff)
    }

    /// Clear the bits of `data` in the register: read it, AND it with `!data`,
    /// write it back. Nothing keeps another bus user from writing the register
    /// between the read and the write.
    pub fn clear_bits(&self, register: RegisterAddress, data: u8) -> (r: Transaction)
        ensures
            r@ == TransactionState::start(self@.address, clear_bits_steps(register, data), 0xff),
    {
        let steps = vec![Step::Modify { register, set: 0, clear: data }];
        assert(steps@ =~= seq![Step::Modify { register, set: 0, clear: data }]);
        Transaction::new(self.address, steps, 0xff)
    }

    /// Set bit `bit` (0-7) of the register, as [`Mcp23s17::set_bits`] does
    /// with that bit's mask.
    pub fn set_bit(&self, register: RegisterAddress, bit: u8) -> (r: Result<Transaction>)
        ensures
            bit <= 7 <==> r is Ok,
            r matches Ok(t) ==> t@ == TransactionState::start(
                self@.address,
                set_bits_steps(register, bit_mask(bit)),
                0xff,
            ),
            r matches Err(e) ==> e == Mcp23s17Error::RegisterBitBoundsError(bit),
    {
        if bit > 7 {
            return Err(Mcp23s17Error::RegisterBitBoundsError(bit));
        }
        Ok(self.set_bits(register, 1u8 << bit))
    }

    /// Clear bit `bit` (0-7) of the register, as [`Mcp23s17::clear_bits`] does
    /// with that bit's mask.
    pub fn clear_bit(&self, register: RegisterAddress, bit: u8) -> (r: Result<Transaction>)
        ensures
            bit <= 7 <==> r is Ok,
            r matches Ok(t) ==> t@ == TransactionState::start(
                self@.address,
                clear_bits_steps(register, bit_mask(bit)),
                0xff,
            ),
            r matches Err(e) ==> e == Mcp23s17Error::RegisterBitBoundsError(bit),
    {
        if bit > 7 {
            return Err(Mcp23s17Error::RegisterBitBoundsError(bit));
        }
        Ok(self.clear_bits(register, 1u8 << bit))
    }

    /// Get bit `bit` (0-7) of the register: the transaction reads it, and its
    /// [`Transaction::level`] is that bit.
    pub fn get_bit(&self, register: RegisterAddress, bit: u8) -> (r: Result<Transaction>)
        ensures
            bit <= 7 <==> r is Ok,
            r matches Ok(t) ==> t@ == TransactionState::start(
                self@.address,
                read_steps(register),
                bit_mask(bit),
            ),
            r matches Err(e) ==> e == Mcp23s17Error::RegisterBitBoundsError(bit),
    {
        if bit > 7 {
            return Err(Mcp23s17Error::RegisterBitBoundsError(bit));
        }
        let steps = vec![Step::Read(register)];
        assert(steps@ =~= seq![Step::Read(register)]);
        Ok(Transaction::new(self.address, steps, 1u8 << bit))
    }

    /// Whether a live handle holds line `pin` of `port`.
    pub fn is_taken(&self, port: Port, pin: u8) -> (r: bool)
        ensures
            r == self@.taken.contains((port, pin)),
    {
        if pin > 7 {
            return false;
        }
        match port {
            Port::GpioA => self.gpioa_pins_taken[pin as usize],
            Port::GpioB => self.gpiob_pins_taken[pin as usize],
        }
    }

    /// Returns a [`Pin`] for line `pin` (0-7) of `port`, and records the line as
    /// taken. If the line is already taken, or `pin` is greater than 7, this is
    /// `PinNotAvailable`. Once the pin is handed back to
    /// [`Mcp23s17::release`], the line can be taken again.
    pub fn get(&mut self, port: Port, pin: u8) -> (r: Result<Pin>)
        ensures
            old(self)@.can_take(port, pin) <==> r is Ok,
            r matches Ok(p) ==> p@ == (port, pin) && p.address() == old(self)@.address
                && final(self)@.taken == old(self)@.taken.insert((port, pin)),
            r matches Err(e) ==> e == Mcp23s17Error::PinNotAvailable(pin),
            r is Err ==> final(self)@ == old(self)@,
            final(self)@.address == old(self)@.address,
    {
        if pin > 7 || self.is_taken(port, pin) {
            return Err(Mcp23s17Error::PinNotAvailable(pin));
        }
        match port {
            Port::GpioA => self.gpioa_pins_taken[pin as usize] = true,
            Port::GpioB => self.gpiob_pins_taken[pin as usize] = true,
        }
        assert(self@.taken =~= old(self)@.taken.insert((port, pin)));
        Ok(Pin::new(self.address, port, pin))
    }

    /// Hands a pin back: its line is free to be taken again.
    pub fn release(&mut self, pin: Pin)
        ensures
            final(self)@.taken == old(self)@.taken.remove(pin@),
            final(self)@.address == old(self)@.address,
    {
        let port = pin.get_port();
        let bit = pin.get_pin_number();
        match port {
            Port::GpioA => self.gpioa_pins_taken[bit as usize] = false,
            Port::GpioB => self.gpiob_pins_taken[bit as usize] = false,
        }
        assert(self@.taken =~= old(self)@.taken.remove(pin@));
    }
}

} // verus!
