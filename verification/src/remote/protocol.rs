//! Values exchanged with the boat's server.
#![allow(non_camel_case_types)]

use vstd::prelude::*;

verus! {

/// How a pin of the boat is configured.
#[derive(Clone, Copy, Debug, PartialEq, Eq, Structural)]
pub enum GPIOMode {
    UNKNOWN,
    INPUT,
    OUTPUT,
    ANALOG,
    PWM,
}

/// A digital level.
#[derive(Clone, Copy, Debug, PartialEq, Eq, Structural)]
pub enum GPIOValueLevel {
    LOW,
    HIGH,
}

/// The value of a pin: none known yet, or a digital level.
#[derive(Clone, Copy, Debug, PartialEq, Eq, Structural)]
pub enum GPIOValue {
    NONE,
    LEVEL(GPIOValueLevel),
}

/// One pin of the boat, as the server reports and accepts it.
#[derive(Clone, Copy, Debug, PartialEq, Eq, Structural)]
pub struct RemoteGPIO {
    pub pin: u8,
    pub mode: GPIOMode,
    pub value: GPIOValue,
}

/// A pin in the given mode whose value is not known yet.
pub open spec fn fresh_gpio(pin: u8, mode: GPIOMode) -> RemoteGPIO {
    RemoteGPIO { pin, mode, value: GPIOValue::NONE }
}

impl RemoteGPIO {
    pub fn new(pin: u8, mode: GPIOMode) -> (g: RemoteGPIO)
        ensures
            g == fresh_gpio(pin, mode),
            g.pin == pin,
            g.mode == mode,
            g.value == GPIOValue::NONE,
    {
        RemoteGPIO { pin, mode, value: GPIOValue::NONE }
    }
}

/// The envelope of every reply of the server: `ok` says whether the request
/// succeeded, `error` why it did not, `data` what it returned.
pub struct RemoteResponse<T> {
    pub ok: Option<bool>,
    pub error: Option<String>,
    pub data: Option<T>,
}

} // verus!
