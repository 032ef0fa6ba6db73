//! `wasi:gpio/pwm`: PWM pins a guest has opened.

use vstd::prelude::*;

verus! {

/// A PWM pin a guest has opened, with the name it was registered under.
pub struct PwmPin<D> {
    pub name: String,
    pub erased_pin: D,
}

} // verus!
