//! Client-side model of a kernel-exposed generic input-event interface.
//!
//! A device advertises a set of event categories (keys, axes, switches,
//! LEDs, ...) and, per category, a bounded set of sub-codes.  The library
//! keeps a local mirror of the device's stateful sub-codes, buffers incoming
//! event records behind a delivery cursor, and compensates for the kernel's
//! buffer-overflow marker by discarding the untrustworthy tail of the buffer
//! and synthesizing delta events that re-align the mirror with ground truth.
//!
//! All device I/O (opening the node, capability queries, reads and writes)
//! lives outside this crate; the library works on the plain values those
//! operations produce.

use vstd::prelude::*;

pub mod bits;
pub mod data;
pub mod device;
pub mod raw;
pub mod state;
pub mod uinput;

pub use crate::device::Device;
pub use crate::device::Probe;
pub use crate::state::DeviceState;

verus! {

/// The failures the library and its callers distinguish.
#[derive(Clone, Copy, Debug, PartialEq, Eq, Structural)]
pub enum Error {
    /// The device path cannot be represented as the platform expects.
    PathInvalid,
    /// The device node could not be opened.
    OpenFailed,
    /// A required capability query failed during open.
    ProbeFailed,
    /// The kernel reported capability bits outside the known table.
    UnexpectedCapabilityBits,
    /// A read failed for a reason other than "no data available right now".
    ReadFailed,
    /// An injection write was rejected.
    WriteFailed,
}

/// The human-readable name of a bus type identifier.
pub open spec fn spec_bus_name(x: u16) -> Seq<char> {
    match x {
        0x1 => "PCI"@,
        0x2 => "ISA Plug 'n Play"@,
        0x3 => "USB"@,
        0x4 => "HIL"@,
        0x5 => "Bluetooth"@,
        0x6 => "Virtual"@,
        0x10 => "ISA"@,
        0x11 => "i8042"@,
        0x12 => "XTKBD"@,
        0x13 => "RS232"@,
        0x14 => "Gameport"@,
        0x15 => "Parallel Port"@,
        0x16 => "Amiga"@,
        0x17 => "ADB"@,
        0x18 => "I2C"@,
        0x19 => "Host"@,
        0x1A => "GSC"@,
        0x1B => "Atari"@,
        0x1C => "SPI"@,
        _ => "Unknown"@,
    }
}

/// Names the bus type of a device identity record.
pub fn bus_name(x: u16) -> (r: &'static str)
    ensures
        r@ == spec_bus_name(x),
{
    match x {
        0x1 => "PCI",
        0x2 => "ISA Plug 'n Play",
        0x3 => "USB",
        0x4 => "HIL",
        0x5 => "Bluetooth",
        0x6 => "Virtual",
        0x10 => "ISA",
        0x11 => "i8042",
        0x12 => "XTKBD",
        0x13 => "RS232",
        0x14 => "Gameport",
        0x15 => "Parallel Port",
        0x16 => "Amiga",
        0x17 => "ADB",
        0x18 => "I2C",
        0x19 => "Host",
        0x1A => "GSC",
        0x1B => "Atari",
        0x1C => "SPI",
        _ => "Unknown",
    }
}

} // verus!
