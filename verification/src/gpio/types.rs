//! The `wasi:gpio/types` values and the mapping of device errors to them.

use vstd::prelude::*;

verus! {

/// A `wasi:gpio` error code.
#[derive(Clone, Debug, PartialEq, Eq)]
pub enum ErrorCode {
    Other(String),
}

impl View for ErrorCode {
    type V = Seq<char>;

    /// The message the error carries.
    open spec fn view(&self) -> Seq<char> {
        match self {
            ErrorCode::Other(s) => s@,
        }
    }
}

/// The level of a `wasi:gpio` pin.
#[derive(Clone, Copy, Debug, PartialEq, Eq, Structural)]
pub enum PinState {
    Low,
    High,
}

/// The level of a pin as embedded-hal names it.
#[derive(Clone, Copy, Debug, PartialEq, Eq, Structural)]
pub enum HalPinState {
    Low,
    High,
}

impl PinState {
    /// The embedded-hal level of the same name.
    pub fn to_hal(&self) -> (r: HalPinState)
        ensures
            (r is High) <==> (*self is High),
    {
        match self {
            PinState::Low => HalPinState::Low,
            PinState::High => HalPinState::High,
        }
    }
}

/// An error reported by a digital or PWM pin, by its debug rendering.
#[derive(Clone, Debug, PartialEq, Eq)]
pub struct HalGpioError {
    pub detail: String,
}

/// The message of a digital pin error outside debug mode.
pub open spec fn hardware_gpio_error() -> Seq<char> {
    "Hardware GPIO error"@
}

/// The message of a PWM pin error outside debug mode.
pub open spec fn hardware_pwm_error() -> Seq<char> {
    "Hardware PWM error"@
}

/// Maps a digital pin error: the pin's own description in debug mode, a
/// fixed message otherwise.
pub fn map_digital_hal_error(err: HalGpioError, debug: bool) -> (r: ErrorCode)
    ensures
        r@ == (if debug { err.detail@ } else { hardware_gpio_error() }),
{
    if debug {
        ErrorCode::Other(err.detail)
    } else {
        ErrorCode::Other("Hardware GPIO error".to_owned())
    }
}

/// Maps a PWM pin error: the pin's own description in debug mode, a fixed
/// message otherwise.
pub fn map_pwm_hal_error(err: HalGpioError, debug: bool) -> (r: ErrorCode)
    ensures
        r@ == (if debug { err.detail@ } else { hardware_pwm_error() }),
{
    if debug {
        ErrorCode::Other(err.detail)
    } else {
        ErrorCode::Other("Hardware PWM error".to_owned())
    }
}

/// What a guest gets from a digital pin operation once the pin has answered.
pub fn finish_digital<T>(outcome: Result<T, HalGpioError>, debug: bool) -> (r: Result<T, ErrorCode>)
    ensures
        outcome matches Ok(v) ==> r == Ok::<T, ErrorCode>(v),
        outcome matches Err(e) ==> r matches Err(c)
            && c@ == (if debug { e.detail@ } else { hardware_gpio_error() }),
{
    match outcome {
        Ok(v) => Ok(v),
        Err(e) => Err(map_digital_hal_error(e, debug)),
    }
}

/// What a guest gets from a PWM pin operation once the pin has answered.
pub fn finish_pwm(outcome: Result<(), HalGpioError>, debug: bool) -> (r: Result<(), ErrorCode>)
    ensures
        outcome is Ok <==> r is Ok,
        outcome matches Err(e) ==> r matches Err(c)
            && c@ == (if debug { e.detail@ } else { hardware_pwm_error() }),
{
    match outcome {
        Ok(()) => Ok(()),
        Err(e) => Err(map_pwm_hal_error(e, debug)),
    }
}

} // verus!
