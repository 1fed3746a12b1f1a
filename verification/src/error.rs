//! Error values for every fallible operation of the driver.

use crate::types::Area;
use vstd::prelude::*;

verus! {

/// Everything that can go wrong while driving the controller.
///
/// Bus and pin failures are carried verbatim from the hardware binding;
/// `Timeout` carries the millisecond budget that was exhausted; the remaining
/// variants report protocol violations, rejected caller input, or an operation
/// attempted before initialization.
#[derive(Debug)]
pub enum Error {
    /// Bus transfer failure, with the binding's description.
    Spi(String),
    /// GPIO access failure, with the binding's description.
    Gpio(String),
    /// The ready line did not go high within the given number of milliseconds.
    Timeout(u64),
    /// A parameter was rejected before any hardware access.
    InvalidParameter(&'static str),
    /// The device is not ready for the requested operation.
    NotReady,
    /// The rectangle does not fit the panel.
    InvalidArea(Area),
    /// A VCOM value above the permitted maximum.
    InvalidVcom(u16),
    /// Supplied and required image data sizes, in that order.
    InvalidDimensions(u16, u16),
    /// Operating-system I/O failure, with its description.
    Io(String),
    /// The device reported or caused an inconsistent state.
    Device(String),
    /// Initialization has not completed successfully.
    Init(String),
    /// The device answered outside its wire protocol.
    Protocol(String),
    /// A memory transfer on the device failed.
    Memory(String),
    /// A display operation failed.
    Display(String),
}

impl Error {
    /// True of the errors that report a failed hardware access: they are
    /// propagated verbatim from the bus or pin binding.
    pub open spec fn is_hardware(self) -> bool {
        ||| self matches Error::Spi(_)
        ||| self matches Error::Gpio(_)
        ||| self matches Error::Io(_)
    }

    /// Everything a bus exchange can fail with: a hardware access failure, or
    /// the ready line not observed high within `budget_ms` milliseconds.
    pub open spec fn is_bus_wait(self, budget_ms: u64) -> bool {
        self.is_hardware() || self == Error::Timeout(budget_ms)
    }
}

} // verus!
