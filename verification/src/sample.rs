//! One observation of the CPU utilisation.

use crate::binary32::{in_percent_range, is_percentage};
use vstd::prelude::*;

verus! {

/// One observation: its position in the series, counted from 1, and the
/// utilisation in percent as the bit pattern of a single-precision number.
///
/// The position stands for the time of the observation, in units of the
/// sampling interval.
#[derive(Clone, Copy, Debug, PartialEq, Eq, Structural)]
pub struct Sample {
    pub index: u32,
    pub value_bits: u32,
}

impl Sample {
    /// The sample belongs to a series of `count` samples and holds a
    /// utilisation between 0 and 100 percent.
    pub open spec fn is_valid(self, count: nat) -> bool {
        &&& 1 <= self.index <= count
        &&& is_percentage(self.value_bits)
    }

    /// Says whether the sample belongs to a series of `count` samples and
    /// holds a utilisation between 0 and 100 percent.
    pub fn check(&self, count: u32) -> (valid: bool)
        ensures
            valid == self.is_valid(count as nat),
    {
        1 <= self.index && self.index <= count && in_percent_range(self.value_bits)
    }
}

} // verus!
