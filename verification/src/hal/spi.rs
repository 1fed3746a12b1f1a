//! Bus capability interfaces.

use crate::error::Error;
use crate::protocol::wire;
use vstd::prelude::*;

verus! {

/// A full-duplex byte bus.
///
/// Two ghost views describe the bus: `sent`, every byte shifted out so far,
/// and `pending`, the byte stream the attached device answers with. Each
/// transferred byte appends to `sent`, returns the head of `pending` (zero
/// once the stream is exhausted), and consumes that head. An implementation
/// that keeps the default views cannot discharge the transfer contracts, so
/// nothing is proved about its traffic.
pub trait SpiTransfer: Sized {
    /// Every byte shifted out on the bus so far.
    open spec fn sent(&self) -> Seq<u8> {
        Seq::empty()
    }

    /// The byte stream the attached device answers with.
    open spec fn pending(&self) -> Seq<u8> {
        Seq::empty()
    }

    /// Transfers one byte and returns the byte received in exchange.
    fn transfer_byte(&mut self, byte: u8) -> (r: Result<u8, Error>)
        ensures
            r matches Ok(rx) ==> {
                &&& final (self).sent() == old(self).sent().push(byte)
                &&& rx == wire::resp_byte(old(self).pending(), 0)
                &&& final (self).pending() == wire::consume(old(self).pending(), 1)
            },
            r matches Err(e) ==> e.is_hardware(),
    ;

    /// Transfers a buffer of bytes and returns the bytes received in
    /// exchange, one per byte sent.
    fn transfer(&mut self, buffer: &[u8]) -> (r: Result<Vec<u8>, Error>)
        ensures
            r matches Ok(rx) ==> {
                &&& final (self).sent() == old(self).sent() + buffer@
                &&& rx@ == wire::resp_bytes(old(self).pending(), buffer@.len() as int)
                &&& final (self).pending() == wire::consume(
                    old(self).pending(),
                    buffer@.len() as int,
                )
            },
            r matches Err(e) ==> e.is_hardware(),
    ;

    /// Requests a bus clock speed in Hz; what a binding does with the request
    /// is its own affair.
    fn set_speed(&mut self, speed_hz: u32) -> (r: Result<(), Error>)
        ensures
            r matches Err(e) ==> e.is_hardware(),
    {
        Ok(())
    }
}

/// Configuration of a bus beyond plain transfer.
///
/// The ghost view `clock` is the configured clock frequency.
pub trait SpiInterface: SpiTransfer {
    /// The configured clock frequency in Hz.
    open spec fn clock(&self) -> u32 {
        0
    }

    /// Sets the bus clock frequency in Hz.
    fn set_clock_hz(&mut self, hz: u32) -> (r: Result<(), Error>)
        ensures
            r is Ok ==> final (self).clock() == hz,
    ;

    /// Returns the configured bus clock frequency in Hz.
    fn clock_hz(&self) -> (r: u32)
        ensures
            r == self.clock(),
    ;

    /// Sets the bus mode (clock polarity and phase).
    fn set_mode(&mut self, mode: SpiMode) -> (r: Result<(), Error>);

    /// Sets the bit order of each transferred byte.
    fn set_bit_order(&mut self, order: BitOrder) -> (r: Result<(), Error>);
}

/// Bus mode: clock polarity and phase.
#[derive(Debug, Clone, Copy, PartialEq, Eq, Structural)]
pub enum SpiMode {
    /// CPOL=0, CPHA=0.
    Mode0,
    /// CPOL=0, CPHA=1.
    Mode1,
    /// CPOL=1, CPHA=0.
    Mode2,
    /// CPOL=1, CPHA=1.
    Mode3,
}

impl SpiMode {
    /// The mode's number.
    pub open spec fn spec_number(self) -> u8 {
        match self {
            SpiMode::Mode0 => 0,
            SpiMode::Mode1 => 1,
            SpiMode::Mode2 => 2,
            SpiMode::Mode3 => 3,
        }
    }

    /// Returns the mode number, 0 through 3.
    pub fn mode_number(&self) -> (r: u8)
        ensures
            r == self.spec_number(),
    {
        match self {
            SpiMode::Mode0 => 0,
            SpiMode::Mode1 => 1,
            SpiMode::Mode2 => 2,
            SpiMode::Mode3 => 3,
        }
    }
}

/// Bit order of a transferred byte.
#[derive(Debug, Clone, Copy, PartialEq, Eq, Structural)]
pub enum BitOrder {
    /// Most significant bit first.
    MsbFirst,
    /// Least significant bit first.
    LsbFirst,
}

} // verus!
