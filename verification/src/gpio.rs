//! The `wasi:gpio` host: pools of output, stateful output, input and PWM pins.
//!
//! A pin registered under a name can be opened by a guest once; opening
//! takes it out of its pool and closing puts it back.

pub mod digital;
pub mod pwm;
pub mod types;
pub mod wait;

use vstd::prelude::*;
use crate::registry::{first_named, has_named, put_back, take_named, take_spec};
use crate::gpio::types::ErrorCode;

verus! {

/// The message returned when no pin of the requested name is free.
pub open spec fn hardware_unavailable() -> Seq<char> {
    "Hardware unavailable"@
}

/// The GPIO pins a host offers its guests.
pub struct WasiGpioCtx<O, S, I, P> {
    pub output_pin: Vec<(String, O)>,
    pub stateful_output_pin: Vec<(String, S)>,
    pub input_pin: Vec<(String, I)>,
    pub pwm_pin: Vec<(String, P)>,
    pub debug: bool,
}

impl<O, S, I, P> WasiGpioCtx<O, S, I, P> {
    /// A context with no pins, outside debug mode.
    pub fn new() -> (r: Self)
        ensures
            r.output_pin@.len() == 0,
            r.stateful_output_pin@.len() == 0,
            r.input_pin@.len() == 0,
            r.pwm_pin@.len() == 0,
            !r.debug,
    {
        WasiGpioCtx {
            output_pin: Vec::new(),
            stateful_output_pin: Vec::new(),
            input_pin: Vec::new(),
            pwm_pin: Vec::new(),
            debug: false,
        }
    }

    /// Sets whether pin errors are reported with the pin's own description.
    pub fn set_debug_mode(&mut self, debug: bool)
        ensures
            final(self).debug == debug,
            final(self).output_pin@ == old(self).output_pin@,
            final(self).stateful_output_pin@ == old(self).stateful_output_pin@,
            final(self).input_pin@ == old(self).input_pin@,
            final(self).pwm_pin@ == old(self).pwm_pin@,
    {
        self.debug = debug;
    }

    /// Registers an output pin under `name`, after those already registered.
    pub fn add_output_pin(&mut self, name: String, pin: O)
        ensures
            final(self).output_pin@ == old(self).output_pin@.push((name, pin)),
            final(self).stateful_output_pin@ == old(self).stateful_output_pin@,
            final(self).input_pin@ == old(self).input_pin@,
            final(self).pwm_pin@ == old(self).pwm_pin@,
            final(self).debug == old(self).debug,
    {
        self.output_pin.push((name, pin));
    }

    /// Opens the first free output pin registered under `name`, taking it
    /// out of its pool; fails with "Hardware unavailable" when there is none.
    pub fn open_output(&mut self, name: String) -> (r: Result<digital::OutputPin<O>, ErrorCode>)
        ensures
            r is Err <==> !has_named(old(self).output_pin@, name@),
            r matches Err(e) ==> e@ == hardware_unavailable()
                && final(self).output_pin@ == old(self).output_pin@,
            r matches Ok(p) ==> {
                let k = first_named(old(self).output_pin@, name@);
                &&& (p.name, p.erased_pin) == old(self).output_pin@[k]
                &&& p.name@ == name@
                &&& final(self).output_pin@ == take_spec(old(self).output_pin@, name@)
            },
            final(self).stateful_output_pin@ == old(self).stateful_output_pin@,
            final(self).input_pin@ == old(self).input_pin@,
            final(self).pwm_pin@ == old(self).pwm_pin@,
            final(self).debug == old(self).debug,
    {
        match take_named(&mut self.output_pin, &name) {
            Some((name, erased_pin)) => Ok(digital::OutputPin { name, erased_pin }),
            None => Err(ErrorCode::Other("Hardware unavailable".to_owned())),
        }
    }

    /// Closes an output pin, putting it back at the end of its pool.
    pub fn close_output(&mut self, pin: digital::OutputPin<O>)
        ensures
            final(self).output_pin@ == old(self).output_pin@.push((pin.name, pin.erased_pin)),
            final(self).stateful_output_pin@ == old(self).stateful_output_pin@,
            final(self).input_pin@ == old(self).input_pin@,
            final(self).pwm_pin@ == old(self).pwm_pin@,
            final(self).debug == old(self).debug,
    {
        put_back(&mut self.output_pin, pin.name, pin.erased_pin);
    }

    /// Registers a stateful output pin under `name`, after those already registered.
    pub fn add_stateful_output_pin(&mut self, name: String, pin: S)
        ensures
            final(self).stateful_output_pin@ == old(self).stateful_output_pin@.push((name, pin)),
            final(self).output_pin@ == old(self).output_pin@,
            final(self).input_pin@ == old(self).input_pin@,
            final(self).pwm_pin@ == old(self).pwm_pin@,
            final(self).debug == old(self).debug,
    {
        self.stateful_output_pin.push((name, pin));
    }

    /// Opens the first free stateful output pin registered under `name`, taking it
    /// out of its pool; fails with "Hardware unavailable" when there is none.
    pub fn open_stateful_output(&mut self, name: String) -> (r: Result<digital::StatefulOutputPin<S>, ErrorCode>)
        ensures
            r is Err <==> !has_named(old(self).stateful_output_pin@, name@),
            r matches Err(e) ==> e@ == hardware_unavailable()
                && final(self).stateful_output_pin@ == old(self).stateful_output_pin@,
            r matches Ok(p) ==> {
                let k = first_named(old(self).stateful_output_pin@, name@);
                &&& (p.name, p.erased_pin) == old(self).stateful_output_pin@[k]
                &&& p.name@ == name@
                &&& final(self).stateful_output_pin@ == take_spec(old(self).stateful_output_pin@, name@)
            },
            final(self).output_pin@ == old(self).output_pin@,
            final(self).input_pin@ == old(self).input_pin@,
            final(self).pwm_pin@ == old(self).pwm_pin@,
            final(self).debug == old(self).debug,
    {
        match take_named(&mut self.stateful_output_pin, &name) {
            Some((name, erased_pin)) => Ok(digital::StatefulOutputPin { name, erased_pin }),
            None => Err(ErrorCode::Other("Hardware unavailable".to_owned())),
        }
    }

    /// Closes a stateful output pin, putting it back at the end of its pool.
    pub fn close_stateful_output(&mut self, pin: digital::StatefulOutputPin<S>)
        ensures
            final(self).stateful_output_pin@ == old(self).stateful_output_pin@.push((pin.name, pin.erased_pin)),
            final(self).output_pin@ == old(self).output_pin@,
            final(self).input_pin@ == old(self).input_pin@,
            final(self).pwm_pin@ == old(self).pwm_pin@,
            final(self).debug == old(self).debug,
    {
        put_back(&mut self.stateful_output_pin, pin.name, pin.erased_pin);
    }

    /// Registers an input pin under `name`, after those already registered.
    pub fn add_input_pin(&mut self, name: String, pin: I)
        ensures
            final(self).input_pin@ == old(self).input_pin@.push((name, pin)),
            final(self).output_pin@ == old(self).output_pin@,
            final(self).stateful_output_pin@ == old(self).stateful_output_pin@,
            final(self).pwm_pin@ == old(self).pwm_pin@,
            final(self).debug == old(self).debug,
    {
        self.input_pin.push((name, pin));
    }

    /// Opens the first free input pin registered under `name`, taking it
    /// out of its pool; fails with "Hardware unavailable" when there is none.
    pub fn open_input(&mut self, name: String) -> (r: Result<digital::InputPin<I>, ErrorCode>)
        ensures
            r is Err <==> !has_named(old(self).input_pin@, name@),
            r matches Err(e) ==> e@ == hardware_unavailable()
                && final(self).input_pin@ == old(self).input_pin@,
            r matches Ok(p) ==> {
                let k = first_named(old(self).input_pin@, name@);
                &&& (p.name, p.erased_pin) == old(self).input_pin@[k]
                &&& p.name@ == name@
                &&& final(self).input_pin@ == take_spec(old(self).input_pin@, name@)
            },
            final(self).output_pin@ == old(self).output_pin@,
            final(self).stateful_output_pin@ == old(self).stateful_output_pin@,
            final(self).pwm_pin@ == old(self).pwm_pin@,
            final(self).debug == old(self).debug,
    {
        match take_named(&mut self.input_pin, &name) {
            Some((name, erased_pin)) => Ok(digital::InputPin { name, erased_pin }),
            None => Err(ErrorCode::Other("Hardware unavailable".to_owned())),
        }
    }

    /// Closes an input pin, putting it back at the end of its pool.
    pub fn close_input(&mut self, pin: digital::InputPin<I>)
        ensures
            final(self).input_pin@ == old(self).input_pin@.push((pin.name, pin.erased_pin)),
            final(self).output_pin@ == old(self).output_pin@,
            final(self).stateful_output_pin@ == old(self).stateful_output_pin@,
            final(self).pwm_pin@ == old(self).pwm_pin@,
            final(self).debug == old(self).debug,
    {
        put_back(&mut self.input_pin, pin.name, pin.erased_pin);
    }

    /// Registers a PWM pin under `name`, after those already registered.
    pub fn add_pwm_pin(&mut self, name: String, pin: P)
        ensures
            final(self).pwm_pin@ == old(self).pwm_pin@.push((name, pin)),
            final(self).output_pin@ == old(self).output_pin@,
            final(self).stateful_output_pin@ == old(self).stateful_output_pin@,
            final(self).input_pin@ == old(self).input_pin@,
            final(self).debug == old(self).debug,
    {
        self.pwm_pin.push((name, pin));
    }

    /// Opens the first free PWM pin registered under `name`, taking it
    /// out of its pool; fails with "Hardware unavailable" when there is none.
    pub fn open_pwm(&mut self, name: String) -> (r: Result<pwm::PwmPin<P>, ErrorCode>)
        ensures
            r is Err <==> !has_named(old(self).pwm_pin@, name@),
            r matches Err(e) ==> e@ == hardware_unavailable()
                && final(self).pwm_pin@ == old(self).pwm_pin@,
            r matches Ok(p) ==> {
                let k = first_named(old(self).pwm_pin@, name@);
                &&& (p.name, p.erased_pin) == old(self).pwm_pin@[k]
                &&& p.name@ == name@
                &&& final(self).pwm_pin@ == take_spec(old(self).pwm_pin@, name@)
            },
            final(self).output_pin@ == old(self).output_pin@,
            final(self).stateful_output_pin@ == old(self).stateful_output_pin@,
            final(self).input_pin@ == old(self).input_pin@,
            final(self).debug == old(self).debug,
    {
        match take_named(&mut self.pwm_pin, &name) {
            Some((name, erased_pin)) => Ok(pwm::PwmPin { name, erased_pin }),
            None => Err(ErrorCode::Other("Hardware unavailable".to_owned())),
        }
    }

    /// Closes a PWM pin, putting it back at the end of its pool.
    pub fn close_pwm(&mut self, pin: pwm::PwmPin<P>)
        ensures
            final(self).pwm_pin@ == old(self).pwm_pin@.push((pin.name, pin.erased_pin)),
            final(self).output_pin@ == old(self).output_pin@,
            final(self).stateful_output_pin@ == old(self).stateful_output_pin@,
            final(self).input_pin@ == old(self).input_pin@,
            final(self).debug == old(self).debug,
    {
        put_back(&mut self.pwm_pin, pin.name, pin.erased_pin);
    }
}

} // verus!
