//! Clock-tree snapshot and the clock-control register model.

use vstd::prelude::*;
use crate::time::Hertz;

verus! {

/// The clock-enable bit for the FMC block inside the peripheral-clock-enable
/// register of the bus that carries the memory controller.
pub const FMC_CLOCK_ENABLE_BIT: u32 = 0x1;

/// An immutable snapshot of the resolved clock tree. Only the bus clock that
/// feeds the FMC timing logic is recorded here; the adapter never re-queries
/// live clock state after the snapshot is taken.
#[derive(Clone, Copy, PartialEq, Eq, Structural, Debug)]
pub struct Clocks {
    pub hclk: Hertz,
}

impl Clocks {
    /// Captures a snapshot reporting the given bus clock frequency.
    pub fn new(hclk: Hertz) -> (r: Clocks)
        ensures
            r.hclk == hclk,
    {
        Clocks { hclk }
    }

    /// The bus clock frequency recorded in the snapshot.
    pub fn hclk(&self) -> (r: Hertz)
        ensures
            r == self.hclk,
    {
        self.hclk
    }
}

/// An exclusive handle to the clock-control block, modelled by the one
/// register the adapter writes: the peripheral-clock-enable register of the
/// bus that carries the FMC.
#[derive(Clone, Copy, PartialEq, Eq, Structural, Debug)]
pub struct ClockControl {
    pub ahb3enr: u32,
}

impl ClockControl {
    /// Takes the clock-control handle with the given current register value.
    pub fn new(ahb3enr: u32) -> (r: ClockControl)
        ensures
            r.ahb3enr == ahb3enr,
    {
        ClockControl { ahb3enr }
    }

    /// The current value of the peripheral-clock-enable register.
    pub fn read_ahb3enr(&self) -> (r: u32)
        ensures
            r == self.ahb3enr,
    {
        self.ahb3enr
    }
}

/// The register value after the FMC clock-enable write: exactly the one enable
/// bit is set, every other bit is carried over.
pub open spec fn spec_enable_clock(r: u32) -> u32 {
    r | FMC_CLOCK_ENABLE_BIT
}

/// The clock-enable write is idempotent and minimal: repeating it changes
/// nothing further, it leaves the enable bit set, and it never touches any
/// unrelated bit of the register.
pub proof fn lemma_enable_clock_idempotent(r: u32)
    by (bit_vector)
    ensures
        spec_enable_clock(spec_enable_clock(r)) == spec_enable_clock(r),
        spec_enable_clock(r) & FMC_CLOCK_ENABLE_BIT == FMC_CLOCK_ENABLE_BIT,
        spec_enable_clock(r) & !FMC_CLOCK_ENABLE_BIT == r & !FMC_CLOCK_ENABLE_BIT,
{
}

} // verus!
