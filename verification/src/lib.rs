//! Peripheral control plane for an edge device.
//!
//! Each module owns one peripheral: it translates between the peripheral's
//! native OS-level text protocol and a typed in-process contract, and reports
//! failures through a closed, typed error set. File and stack I/O is performed
//! by the surrounding application; machine figures come through the declared
//! bindings in `sys`; every decision made here is verified.

use vstd::prelude::*;

pub mod bluetooth;
pub mod cpu;
pub mod device_info;
pub mod display;
pub mod led;
pub mod metrics;
pub mod motion;
pub mod network;
pub mod power_supply;
pub mod sys;
pub mod text;

verus! {

/// How an attempt to write a pseudo-file ended: the file could not be
/// created, the write itself failed, or the payload was written whole. The
/// two failure points are distinguishable and map to distinct error codes.
#[derive(Debug, Clone, Copy, PartialEq, Eq)]
pub enum WriteOutcome {
    CouldNotCreate,
    CouldNotWrite,
    Written,
}

/// One pending pseudo-file write: the full payload for one path, to be
/// issued as a single write so that no partial byte sequence ever lands.
#[derive(Debug)]
pub struct FileWrite {
    pub path: String,
    pub payload: String,
}

/// Highest brightness value the backlight file accepts.
pub const MAX_BRIGHTNESS: u8 = 244;

/// A brightness value is valid when it does not exceed the backlight ceiling.
pub open spec fn valid_brightness(v: u8) -> bool {
    v <= MAX_BRIGHTNESS
}

} // verus!
