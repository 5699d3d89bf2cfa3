//! Driver for the MCP23S17 16-line SPI GPIO expander.
//!
//! The library holds the logic of the driver: register addressing, the control
//! byte and framing of every SPI transaction, the pin ownership table and the
//! ordering of the interrupt configuration writes. It performs no I/O itself:
//! every register access is described by a [`Transaction`] that hands out the
//! 3-byte frames to exchange with the chip and takes back what the bus returned.
//! [`MockSpi`] models the chip's registers, so transactions can be run without
//! hardware.

mod device;
mod error;
mod lemmas;
mod level;
mod mock_spi;
mod pin;
mod registers;
mod transaction;

/// The SPI bus and mode types of `rppal`, under names that say what they are for.
pub use rppal::spi::{Bus as SpiBus, Mode as SpiMode};

pub use device::{DeviceState, Mcp23s17};
pub use error::{Mcp23s17Error, Result};
pub use lemmas::{
    lemma_input_configuration, lemma_interrupt_configuration, lemma_output_configuration,
    lemma_read, lemma_set_clear_bit_then_get, lemma_set_clear_bits_then_read,
    lemma_take_out_of_range, lemma_take_twice,
};
pub use level::{InputPinMode, InterruptMode, Level};
pub use mock_spi::{
    bumped, chip_after, chip_reply, counted_reads, counted_writes, frame_reads, power_on_registers,
    MockSpi, MockState,
};
pub use pin::{
    drive_step, input_steps, interrupt_steps, output_steps, InputPin, OutputPin, Pin,
};
pub use registers::{
    control_byte, lemma_control_byte_command, spec_control_byte, ChipSelect, HardwareAddress,
    Port, RegisterAddress, SpiCommand, IOCON,
};
pub use transaction::{
    apply_step, apply_steps, bit_mask, clear_bits_steps, last_read, modified, read_steps,
    set_bits_steps, write_steps, Step, Transaction, TransactionState,
};
