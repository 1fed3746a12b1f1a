//! Fluent configuration of a controller session.

use crate::device::IT8951;
use crate::error::Error;
use crate::hal::gpio::InputPin;
use crate::hal::gpio::OutputPin;
use crate::hal::gpio::PinState;
use crate::hal::mock::MockInputPin;
use crate::hal::mock::MockOutputPin;
use crate::hal::mock::MockSpi;
use crate::hal::spi::SpiTransfer;
use vstd::prelude::*;

verus! {

/// Builder for a controller session.
#[derive(Debug, Clone, Copy, PartialEq, Eq, Structural)]
pub struct IT8951Builder {
    /// The target VCOM value, in hundredths of a volt, negated.
    pub vcom: u16,
}

impl IT8951Builder {
    /// Creates a builder with the default VCOM value.
    pub fn new() -> (r: IT8951Builder)
        ensures
            r.vcom == 1500,
    {
        IT8951Builder { vcom: 1500 }
    }

    /// Sets the target VCOM value.
    pub fn vcom(self, vcom: u16) -> (r: IT8951Builder)
        ensures
            r.vcom == vcom,
    {
        IT8951Builder { vcom }
    }

    /// Checks the configuration: the VCOM value must not exceed 5000.
    pub fn validate(&self) -> (r: Result<(), Error>)
        ensures
            r is Ok <==> self.vcom <= 5000,
            r matches Err(e) ==> e == Error::InvalidVcom(self.vcom),
    {
        if self.vcom > 5000 {
            return Err(Error::InvalidVcom(self.vcom));
        }
        Ok(())
    }

    /// Builds a session over mock hardware: an empty bus, a ready line that
    /// is always high, and chip-select and reset lines starting high.
    ///
    /// Fails with an invalid-VCOM error when the configured value exceeds
    /// 5000.
    pub fn build_mock(self) -> (r: Result<
        IT8951<MockSpi, MockInputPin, MockOutputPin, MockOutputPin>,
        Error,
    >)
        ensures
            r matches Ok(d) ==> {
                &&& self.vcom <= 5000
                &&& d.vcom == self.vcom
                &&& d.device_info is None
                &&& d.transport.spi.sent() == Seq::<u8>::empty()
                &&& d.transport.spi.pending() == Seq::<u8>::empty()
                &&& d.transport.hrdy.pin_state() == PinState::High
                &&& d.transport.cs.pin_state() == PinState::High
                &&& d.reset.pin_state() == PinState::High
            },
            r matches Err(e) ==> e == Error::InvalidVcom(self.vcom) && self.vcom > 5000,
    {
        self.validate()?;

        let spi = MockSpi::new();
        let hrdy = MockInputPin::new(PinState::High);
        let cs = MockOutputPin::new(PinState::High);
        let reset = MockOutputPin::new(PinState::High);

        Ok(IT8951::new(spi, hrdy, cs, reset, self.vcom))
    }
}

impl Default for IT8951Builder {
    /// Same as [`IT8951Builder::new`].
    fn default() -> (r: IT8951Builder)
        ensures
            r.vcom == 1500,
    {
        IT8951Builder::new()
    }
}

} // verus!
