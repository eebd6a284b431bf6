//! Host-platform binding for a Flexible Memory Controller (FMC).
//!
//! The crate supplies two things to an external SDRAM driver:
//!
//! * a capability registry declaring which physical pins, in which
//!   alternate-function configuration, may carry each FMC signal role, and a
//!   checked way to assemble a pin set for a chosen bank / address-width
//!   configuration;
//! * a peripheral adapter exposing the clock-enable write, the (no-op)
//!   secondary-controller enable, and the source-clock frequency taken from an
//!   immutable clock-tree snapshot.

pub mod fmc;
pub mod pins;
pub mod rcc;
pub mod time;
