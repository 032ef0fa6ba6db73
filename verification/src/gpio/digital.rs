//! `wasi:gpio/digital`: digital pins a guest has opened.

use vstd::prelude::*;

verus! {

/// An output pin a guest has opened, with the name it was registered under.
pub struct OutputPin<D> {
    pub name: String,
    pub erased_pin: D,
}

/// An output pin that can report the level it drives, as opened by a guest.
pub struct StatefulOutputPin<D> {
    pub name: String,
    pub erased_pin: D,
}

/// An input pin a guest has opened, with the name it was registered under.
pub struct InputPin<D> {
    pub name: String,
    pub erased_pin: D,
}

} // verus!
