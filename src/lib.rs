//! Wire protocol for the BK Precision 168xB family of programmable DC
//! supplies.
//!
//! Supported models:
//!
//! - BK1685B (60V/5A)
//! - BK1687B (36V/10A)
//! - BK1688B (18V/20A)
//!
//! Voltages and currents are carried as [`Milli`] values, thousandths of a
//! volt or an ampere, so that every encoding and decoding step is exact.

pub mod psu;

pub use crate::psu::{
    Info, Milli, OperatingPoint, OutputMode, OutputState, PresetIndex, SupplyVariant,
};

pub mod codec;
pub mod command;
pub mod error;
pub mod response;
