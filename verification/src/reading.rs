use vstd::prelude::*;

verus! {

/// A measured value, carried as the bit pattern of an IEEE 754 double. The
/// library moves readings from one record to another and never computes with
/// them.
#[derive(Clone, Copy, Debug, PartialEq, Eq, Structural)]
pub struct Reading {
    pub bits: u64,
}

impl Reading {
    pub fn from_bits(bits: u64) -> (reading: Reading)
        ensures
            reading.bits == bits,
    {
        Reading { bits }
    }

    pub fn to_bits(self) -> (bits: u64)
        ensures
            bits == self.bits,
    {
        self.bits
    }

    /// The reading whose bits are all zero: positive zero.
    pub fn zero() -> (reading: Reading)
        ensures
            reading.bits == 0,
    {
        Reading { bits: 0 }
    }
}

} // verus!
