//! The `wasi:can` host: pools of blocking and nonblocking CAN devices.
//!
//! A device registered under a name can be opened by a guest once; opening
//! takes it out of its pool and closing puts it back.

pub mod blocking;
pub mod guest;
pub mod nonblocking;
pub mod types;

use vstd::prelude::*;
use crate::registry::{first_named, has_named, put_back, take_named, take_spec};
use crate::can::types::{ErrorCode, ErrorCodeView};

verus! {

/// The message returned when no device of the requested name is free.
pub open spec fn hardware_unavailable() -> Seq<char> {
    "Hardware unavailable"@
}

/// The CAN devices a host offers its guests.
pub struct WasiCanCtx<B, N> {
    pub blocking_can: Vec<(String, B)>,
    pub nonblocking_can: Vec<(String, N)>,
    pub debug: bool,
}

impl<B, N> WasiCanCtx<B, N> {
    /// A context with no devices, outside debug mode.
    pub fn new() -> (r: Self)
        ensures
            r.blocking_can@ == Seq::<(String, B)>::empty(),
            r.nonblocking_can@ == Seq::<(String, N)>::empty(),
            !r.debug,
    {
        WasiCanCtx { blocking_can: Vec::new(), nonblocking_can: Vec::new(), debug: false }
    }

    /// Sets whether device errors are reported with the device's own description.
    pub fn set_debug_mode(&mut self, debug: bool)
        ensures
            final(self).debug == debug,
            final(self).blocking_can@ == old(self).blocking_can@,
            final(self).nonblocking_can@ == old(self).nonblocking_can@,
    {
        self.debug = debug;
    }

    /// Registers a blocking device under `name`, after those already registered.
    pub fn add_blocking_can(&mut self, name: String, can: B)
        ensures
            final(self).blocking_can@ == old(self).blocking_can@.push((name, can)),
            final(self).nonblocking_can@ == old(self).nonblocking_can@,
            final(self).debug == old(self).debug,
    {
        self.blocking_can.push((name, can));
    }

    /// Registers a nonblocking device under `name`, after those already registered.
    pub fn add_nonblocking_can(&mut self, name: String, can: N)
        ensures
            final(self).nonblocking_can@ == old(self).nonblocking_can@.push((name, can)),
            final(self).blocking_can@ == old(self).blocking_can@,
            final(self).debug == old(self).debug,
    {
        self.nonblocking_can.push((name, can));
    }

    /// Opens the first free blocking device registered under `name`, taking
    /// it out of the pool; fails with "Hardware unavailable" when there is none.
    pub fn open_blocking(&mut self, name: String) -> (r: Result<blocking::Can<B>, ErrorCode>)
        ensures
            r is Err <==> !has_named(old(self).blocking_can@, name@),
            r matches Err(e) ==> e@ == ErrorCodeView::Other(hardware_unavailable())
                && final(self).blocking_can@ == old(self).blocking_can@,
            r matches Ok(c) ==> {
                let k = first_named(old(self).blocking_can@, name@);
                &&& (c.name, c.erased_can) == old(self).blocking_can@[k]
                &&& c.name@ == name@
                &&& final(self).blocking_can@ == take_spec(old(self).blocking_can@, name@)
            },
            final(self).nonblocking_can@ == old(self).nonblocking_can@,
            final(self).debug == old(self).debug,
    {
        match take_named(&mut self.blocking_can, &name) {
            Some((name, erased_can)) => Ok(blocking::Can { name, erased_can }),
            None => Err(ErrorCode::Other("Hardware unavailable".to_owned())),
        }
    }

    /// Closes a blocking device, putting it back at the end of its pool.
    pub fn close_blocking(&mut self, can: blocking::Can<B>)
        ensures
            final(self).blocking_can@ == old(self).blocking_can@.push((can.name, can.erased_can)),
            final(self).nonblocking_can@ == old(self).nonblocking_can@,
            final(self).debug == old(self).debug,
    {
        put_back(&mut self.blocking_can, can.name, can.erased_can);
    }

    /// Opens the first free nonblocking device registered under `name`,
    /// taking it out of the pool; fails with "Hardware unavailable" when
    /// there is none.
    pub fn open_nonblocking(&mut self, name: String) -> (r: Result<nonblocking::Can<N>, ErrorCode>)
        ensures
            r is Err <==> !has_named(old(self).nonblocking_can@, name@),
            r matches Err(e) ==> e@ == ErrorCodeView::Other(hardware_unavailable())
                && final(self).nonblocking_can@ == old(self).nonblocking_can@,
            r matches Ok(c) ==> {
                let k = first_named(old(self).nonblocking_can@, name@);
                &&& (c.name, c.erased_can) == old(self).nonblocking_can@[k]
                &&& c.name@ == name@
                &&& final(self).nonblocking_can@ == take_spec(old(self).nonblocking_can@, name@)
            },
            final(self).blocking_can@ == old(self).blocking_can@,
            final(self).debug == old(self).debug,
    {
        match take_named(&mut self.nonblocking_can, &name) {
            Some((name, erased_can)) => Ok(nonblocking::Can { name, erased_can }),
            None => Err(ErrorCode::Other("Hardware unavailable".to_owned())),
        }
    }

    /// Closes a nonblocking device, putting it back at the end of its pool.
    pub fn close_nonblocking(&mut self, can: nonblocking::Can<N>)
        ensures
            final(self).nonblocking_can@ == old(self).nonblocking_can@.push((can.name, can.erased_can)),
            final(self).blocking_can@ == old(self).blocking_can@,
            final(self).debug == old(self).debug,
    {
        put_back(&mut self.nonblocking_can, can.name, can.erased_can);
    }
}

} // verus!
