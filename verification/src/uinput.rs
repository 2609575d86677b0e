//! The injection path: the data a synthetic (virtual) device consumes.
//!
//! Creating the device node, declaring its capabilities to the kernel and
//! writing the encoded records are I/O and live with the caller; this module
//! supplies the handles and builds the records an injection write sends.

use vstd::prelude::*;

use crate::data::Types;
use crate::raw::{input_event, TimeVal};

verus! {

/// A synthetic device under construction: its capabilities may still be
/// declared.  The caller owns and drives the descriptor; once the device is
/// created the builder is consumed, so no further declarations are accepted.
pub struct Builder {
    pub fd: i32,
}

impl Builder {
    /// Wraps the descriptor of a freshly opened synthetic-device node.
    pub fn with_fd(fd: i32) -> (r: Builder)
        ensures
            r.fd == fd,
    {
        Builder { fd: fd }
    }

    /// The descriptor this builder drives.
    pub fn fd(&self) -> (r: i32)
        ensures
            r == self.fd,
    {
        self.fd
    }

    /// Finalizes construction: after this, only event records may be written.
    pub fn into_device(self) -> (r: Device)
        ensures
            r.fd == self.fd,
    {
        Device { fd: self.fd }
    }
}

/// A created synthetic device, ready to consume event records.
pub struct Device {
    pub fd: i32,
}

impl Device {
    /// The descriptor this device writes to.
    pub fn fd(&self) -> (r: i32)
        ensures
            r == self.fd,
    {
        self.fd
    }
}

/// The record one injection write sends: the category's event code, the
/// sub-code and the value, with a zero timestamp (the kernel stamps it).
pub fn build_event(_type: Types, code: u16, value: i32) -> (r: input_event)
    requires
        _type.bits != 0,
    ensures
        r._type == vstd::std_specs::bits::u32_trailing_zeros(_type.bits),
        r.code == code,
        r.value == value,
        r.time.tv_sec == 0 && r.time.tv_usec == 0,
{
    input_event {
        time: TimeVal { tv_sec: 0, tv_usec: 0 },
        _type: _type.number(),
        code: code,
        value: value,
    }
}

} // verus!
