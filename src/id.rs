//! The packed identifier.
use vstd::prelude::*;

verus! {

/// A packed 64-bit identifier. From the most significant bit down: 41 bits of
/// elapsed milliseconds, 10 bits of machine id, 12 bits of sequence.
#[derive(Clone, Copy, Debug, PartialEq, Eq, Structural, Hash)]
pub struct TiltflakeId(pub u64);

impl TiltflakeId {
    /// The identifier as a plain integer.
    pub fn as_u64(&self) -> (r: u64)
        ensures
            r == self.0,
    {
        self.0
    }
}

} // verus!
