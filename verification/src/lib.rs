//! Verified core of a digital dashboard: the TunerStudio protocol layer,
//! the integer parts of the sensor pipelines and the firmware's decisions.

use vstd::prelude::*;

pub mod commands;
pub mod och_block;
pub mod types;
pub mod dash;
pub mod interrupts;
pub mod rpm;
pub mod vss;
pub mod filtering;
pub mod odometer;
pub mod receiver;

pub use commands::{Command, SIGNATURE, VERSION};
pub use och_block::OchBlock;
pub use types::{ProtocolError, ProtocolResult, SerialPort};

verus! {

/// Time from `then` to `now` on a wrapping 32-bit clock.
pub open spec fn elapsed_u32(now: u32, then: u32) -> int {
    if now >= then {
        now - then
    } else {
        now - then + 0x1_0000_0000
    }
}

/// Digital input pin, implemented per platform.
pub trait DigitalInput {
    /// Pin state (true = HIGH).
    fn read(&self) -> bool;
}

/// Clamp a signed value into the `u8` range.
pub fn clamp_u8(v: i32) -> (r: u8)
    ensures
        r == (if v < 0 { 0 } else if v > 255 { 255 } else { v }),
{
    if v < 0 {
        0
    } else if v > 255 {
        255
    } else {
        v as u8
    }
}

} // verus!
