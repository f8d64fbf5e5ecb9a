//! The live measurement the game is scored against: one byte, replaced by
//! its producer and read on demand. Sharing it between tasks is up to the
//! holder (a lock or an atomic cell around it).

use vstd::prelude::*;

verus! {

/// Why a value was refused.
#[derive(Debug, Clone, Copy, PartialEq, Eq, Structural)]
pub enum MetricError {
    /// Outside 0 to 255.
    InvalidValue,
}

/// The current live value.
#[derive(Debug)]
pub struct LiveMetric {
    value: u8,
}

impl View for LiveMetric {
    type V = u8;

    closed spec fn view(&self) -> u8 {
        self.value
    }
}

impl LiveMetric {
    /// Starts at zero.
    pub fn new() -> (r: LiveMetric)
        ensures
            r@ == 0,
    {
        LiveMetric { value: 0 }
    }

    /// The current value.
    pub fn get(&self) -> (r: u8)
        ensures
            r == self@,
    {
        self.value
    }

    /// Replaces the value. Values outside 0 to 255 are refused, not
    /// clamped, and leave the value as it was.
    pub fn set(&mut self, v: i64) -> (r: Result<(), MetricError>)
        ensures
            r is Ok <==> 0 <= v <= 255,
            r is Ok ==> final(self)@ == v as u8,
            r is Err ==> r == Err::<(), MetricError>(MetricError::InvalidValue)
                && final(self)@ == old(self)@,
    {
        if v < 0 || v > 255 {
            return Err(MetricError::InvalidValue);
        }
        self.value = v as u8;
        Ok(())
    }
}

} // verus!
