//! The peripheral adapter handed to the external SDRAM driver.
//!
//! The adapter owns the FMC register-block handle, the clock-control handle
//! and an immutable clock-tree snapshot. It supplies the three facts the
//! external driver needs from the host platform: the clock-enable write, the
//! secondary-controller enable (a documented no-op on this family, which has a
//! single unified controller), and the source-clock frequency.

use vstd::prelude::*;
use crate::pins::{PinSet, TargetBank};
use crate::rcc::{spec_enable_clock, ClockControl, Clocks, FMC_CLOCK_ENABLE_BIT};

verus! {

/// An exclusive handle to the FMC register block. Holding it stands for
/// ownership of the block; the adapter moves it in at construction and never
/// shares it.
pub struct FmcBlock {
}

impl FmcBlock {
    /// Claims the FMC register block.
    pub fn new() -> (r: FmcBlock) {
        FmcBlock {}
    }
}

/// The adapter: raw peripheral handles plus the clock snapshot taken at
/// construction.
pub struct Fmc {
    pub reg: FmcBlock,
    pub rcc: ClockControl,
    pub clocks: Clocks,
}

/// What the external SDRAM driver receives from a construction entry point:
/// the adapter and the target bank it shall bring up.
pub struct SdramSetup {
    pub fmc: Fmc,
    pub bank: TargetBank,
}

impl Fmc {
    /// Builds the adapter from the raw handles and the clock snapshot.
    pub fn new(reg: FmcBlock, rcc: ClockControl, clocks: Clocks) -> (r: Fmc)
        ensures
            r.rcc == rcc,
            r.clocks == clocks,
    {
        Fmc { reg, rcc, clocks }
    }

    /// Checked construction path: only a pin set the capability registry has
    /// accepted can reach it, and the target bank is the one the pin set was
    /// assembled for. The SDRAM bring-up itself belongs to the external
    /// driver, which receives the returned setup.
    pub fn sdram(reg: FmcBlock, pins: PinSet, clocks: Clocks, rcc: ClockControl) -> (r:
        SdramSetup)
        requires
            pins.wf(),
        ensures
            r.fmc.rcc == rcc,
            r.fmc.clocks == clocks,
            r.bank == pins.cfg.bank,
    {
        let bank = pins.bank();
        let fmc = Self::new(reg, rcc, clocks);
        SdramSetup { fmc, bank }
    }

    /// Unchecked construction path: takes a raw bank selector and performs no
    /// pin certification. Pin assignment is then the caller's responsibility.
    pub fn sdram_unchecked(reg: FmcBlock, bank: TargetBank, clocks: Clocks, rcc: ClockControl)
        -> (r: SdramSetup)
        ensures
            r.fmc.rcc == rcc,
            r.fmc.clocks == clocks,
            r.bank == bank,
    {
        let fmc = Self::new(reg, rcc, clocks);
        SdramSetup { fmc, bank }
    }

    /// Gates on the clock that feeds the FMC block: sets exactly the one
    /// enable bit in the clock-control register and carries every other bit
    /// over, so the write is idempotent and minimal.
    pub fn enable(&mut self)
        ensures
            final(self).rcc.ahb3enr == spec_enable_clock(old(self).rcc.ahb3enr),
            final(self).clocks == old(self).clocks,
    {
        self.rcc.ahb3enr = self.rcc.ahb3enr | FMC_CLOCK_ENABLE_BIT;
    }

    /// Enables a secondary memory controller where a device family has one.
    /// This family has a single unified controller, already covered by
    /// [`Fmc::enable`], so the call observably changes nothing; it exists to
    /// keep the adapter contract uniform across families.
    pub fn memory_controller_enable(&mut self)
        ensures
            *final(self) == *old(self),
    {
    }

    /// The frequency, in hertz, of the bus clock driving the FMC timing
    /// logic: exactly the value recorded in the snapshot at construction,
    /// never a re-query of live clock state.
    pub fn source_clock_hz(&self) -> (r: u32)
        ensures
            r == self.clocks.hclk.hz,
    {
        self.clocks.hclk().to_hz()
    }
}

} // verus!
