//! The state mirror: the library's local copy of every stateful sub-code the
//! device supports.
//!
//! A mirror entry is meaningful only where the corresponding capability bit is
//! set; unsupported entries stay clear (or all-zero, for axis calibration) and
//! are never reported as changed.  The mirror is overwritten only by an
//! explicit full sync or by overflow compensation, never as ordinary events
//! are delivered.

use vstd::prelude::*;

use fixedbitset::FixedBitSet;

use crate::bits::{fbs_bits, fbs_clone};
use crate::raw::{input_absinfo, TimeVal};

verus! {

/// Current value of every supported stateful sub-code, stamped with the time
/// of the last confirmed synchronization.
#[derive(Debug)]
pub struct DeviceState {
    /// The mirror corresponds to device state at this timestamp.
    pub timestamp: TimeVal,
    /// Set = key pressed.
    pub key_vals: FixedBitSet,
    /// Calibration record and live value per absolute axis.
    pub abs_vals: Vec<input_absinfo>,
    /// Set = switch enabled (closed).
    pub switch_vals: FixedBitSet,
    /// Set = LED lit.
    pub led_vals: FixedBitSet,
}

/// The mathematical reading of a state mirror.
#[verifier::ext_equal]
pub struct StateView {
    pub timestamp: TimeVal,
    pub keys: Seq<bool>,
    pub abs: Seq<input_absinfo>,
    pub switches: Seq<bool>,
    pub leds: Seq<bool>,
}

impl View for DeviceState {
    type V = StateView;

    open spec fn view(&self) -> StateView {
        StateView {
            timestamp: self.timestamp,
            keys: fbs_bits(self.key_vals),
            abs: self.abs_vals@,
            switches: fbs_bits(self.switch_vals),
            leds: fbs_bits(self.led_vals),
        }
    }
}

impl Clone for DeviceState {
    /// An independent copy with the same contents.
    fn clone(&self) -> (r: Self)
        ensures
            r@ == self@,
    {
        let mut abs: Vec<input_absinfo> = Vec::new();
        let mut i: usize = 0;
        while i < self.abs_vals.len()
            invariant
                i <= self.abs_vals@.len(),
                abs@.len() == i,
                forall|j: int| 0 <= j < i ==> abs@[j] == self.abs_vals@[j],
            decreases self.abs_vals@.len() - i,
        {
            let info = self.abs_vals[i];
            abs.push(info);
            i = i + 1;
        }
        let r = DeviceState {
            timestamp: self.timestamp,
            key_vals: fbs_clone(&self.key_vals),
            abs_vals: abs,
            switch_vals: fbs_clone(&self.switch_vals),
            led_vals: fbs_clone(&self.led_vals),
        };
        proof {
            assert(r.abs_vals@ =~= self.abs_vals@);
            assert(r@ =~= self@);
        }
        r
    }
}

} // verus!
