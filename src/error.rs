//! The errors that driving the chip can raise.

use vstd::prelude::*;

verus! {

/// `rppal::spi::Error`, the SPI peripheral's error: carried through unchanged,
/// nothing is assumed of it.
#[verifier::external_type_specification]
#[verifier::external_body]
pub struct ExSpiError(rppal::spi::Error);

/// Errors that operation of the MCP23S17 can raise.
#[derive(Debug)]
pub enum Mcp23s17Error {
    /// The SPI bus failed to perform a transfer.
    SpiError {
        /// Underlying error source.
        source: rppal::spi::Error,
    },
    /// A hardware address beyond 0-7 was given.
    HardwareAddressBoundsError(u8),
    /// A register address beyond the 22 that the chip defines was given.
    RegisterAddressBoundsError,
    /// The bus reported a number of bytes transferred other than 3.
    UnexpectedReadLength(usize),
    /// Either a pin beyond 0-7 was requested, or the pin is already taken.
    PinNotAvailable(u8),
    /// A single-bit register operation named a bit beyond 0-7.
    RegisterBitBoundsError(u8),
}

/// Results whose error is an [`Mcp23s17Error`].
pub type Result<T> = core::result::Result<T, Mcp23s17Error>;

impl From<rppal::spi::Error> for Mcp23s17Error {
    fn from(source: rppal::spi::Error) -> (r: Mcp23s17Error)
        ensures
            r == (Mcp23s17Error::SpiError { source }),
    {
        Mcp23s17Error::SpiError { source }
    }
}

impl vstd::std_specs::convert::FromSpecImpl<rppal::spi::Error> for Mcp23s17Error {
    open spec fn obeys_from_spec() -> bool {
        true
    }

    open spec fn from_spec(source: rppal::spi::Error) -> Mcp23s17Error {
        Mcp23s17Error::SpiError { source }
    }
}

} // verus!
