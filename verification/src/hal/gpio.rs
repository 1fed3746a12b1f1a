//! GPIO capability interfaces.

use crate::error::Error;
use vstd::prelude::*;

verus! {

/// The level of a pin.
#[derive(Debug, Clone, Copy, PartialEq, Eq, Structural)]
pub enum PinState {
    /// Low level.
    Low,
    /// High level.
    High,
}

impl From<bool> for PinState {
    /// `true` maps to high, `false` to low.
    fn from(value: bool) -> (r: PinState) {
        if value {
            PinState::High
        } else {
            PinState::Low
        }
    }
}

impl vstd::std_specs::convert::FromSpecImpl<bool> for PinState {
    open spec fn obeys_from_spec() -> bool {
        true
    }

    open spec fn from_spec(value: bool) -> PinState {
        if value {
            PinState::High
        } else {
            PinState::Low
        }
    }
}

impl From<PinState> for bool {
    /// High maps to `true`, low to `false`.
    fn from(state: PinState) -> (r: bool) {
        match state {
            PinState::High => true,
            PinState::Low => false,
        }
    }
}

impl vstd::std_specs::convert::FromSpecImpl<PinState> for bool {
    open spec fn obeys_from_spec() -> bool {
        true
    }

    open spec fn from_spec(state: PinState) -> bool {
        state == PinState::High
    }
}

/// A readable input pin.
///
/// The view `pin_state` is the level the pin reports; a read either fails or
/// returns exactly that level.
pub trait InputPin: Sized {
    /// The level the pin currently reports.
    open spec fn pin_state(&self) -> PinState {
        PinState::Low
    }

    /// Reads whether the pin is high.
    fn is_high(&self) -> (r: Result<bool, Error>)
        ensures
            r matches Ok(b) ==> b == (self.pin_state() == PinState::High),
            r matches Err(e) ==> e.is_hardware(),
    ;

    /// Reads whether the pin is low.
    fn is_low(&self) -> (r: Result<bool, Error>)
        ensures
            r matches Ok(b) ==> b == (self.pin_state() == PinState::Low),
            r matches Err(e) ==> e.is_hardware(),
    {
        match self.is_high() {
            Ok(high) => Ok(!high),
            Err(e) => Err(e),
        }
    }

    /// Reads the pin level.
    fn read(&self) -> (r: Result<PinState, Error>)
        ensures
            r matches Ok(s) ==> s == self.pin_state(),
            r matches Err(e) ==> e.is_hardware(),
    {
        match self.is_high() {
            Ok(high) => Ok(
                if high {
                    PinState::High
                } else {
                    PinState::Low
                },
            ),
            Err(e) => Err(e),
        }
    }
}

/// A writable output pin.
///
/// The view `pin_state` is the level last driven; a successful write drives
/// exactly the requested level. After a failed write the level is unknown.
pub trait OutputPin: Sized {
    /// The level the pin is driven to.
    open spec fn pin_state(&self) -> PinState {
        PinState::Low
    }

    /// Drives the pin high.
    fn set_high(&mut self) -> (r: Result<(), Error>)
        ensures
            r is Ok ==> final (self).pin_state() == PinState::High,
            r matches Err(e) ==> e.is_hardware(),
    ;

    /// Drives the pin low.
    fn set_low(&mut self) -> (r: Result<(), Error>)
        ensures
            r is Ok ==> final (self).pin_state() == PinState::Low,
            r matches Err(e) ==> e.is_hardware(),
    ;

    /// Drives the pin to the given level.
    fn set_state(&mut self, state: PinState) -> (r: Result<(), Error>)
        ensures
            r is Ok ==> final (self).pin_state() == state,
            r matches Err(e) ==> e.is_hardware(),
    {
        match state {
            PinState::High => self.set_high(),
            PinState::Low => self.set_low(),
        }
    }

    /// Inverts the pin level.
    fn toggle(&mut self) -> (r: Result<(), Error>)
        ensures
            r is Ok ==> final (self).pin_state() != old(self).pin_state(),
            r matches Err(e) ==> e.is_hardware(),
    ;
}

} // verus!
