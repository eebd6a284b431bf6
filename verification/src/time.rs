//! Frequency values.

use vstd::prelude::*;

verus! {

/// A frequency in hertz.
#[derive(Clone, Copy, PartialEq, Eq, Structural, Debug)]
pub struct Hertz {
    pub hz: u32,
}

impl Hertz {
    /// Builds a frequency from a raw hertz count.
    pub fn from_raw(hz: u32) -> (r: Hertz)
        ensures
            r.hz == hz,
    {
        Hertz { hz }
    }

    /// The raw hertz count.
    pub fn to_hz(&self) -> (r: u32)
        ensures
            r == self.hz,
    {
        self.hz
    }
}

} // verus!
