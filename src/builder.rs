//! Step-by-step construction of a generator.
use vstd::prelude::*;

use crate::epoch::EpochType;
use crate::flake::Tiltflake;

verus! {

/// Collects a machine id and an epoch, then makes a generator from them.
/// Starts at machine id 1 and the Unix epoch.
#[derive(Debug, Clone, Copy)]
pub struct TiltflakeBuilder {
    machine_id: u16,
    epoch: EpochType,
}

impl TiltflakeBuilder {
    /// The machine id the generator will be made with (before masking).
    pub closed spec fn spec_machine_id(self) -> u16 {
        self.machine_id
    }

    /// The epoch the generator will be made with.
    pub closed spec fn spec_epoch(self) -> EpochType {
        self.epoch
    }

    /// Sets the machine id.
    pub fn with_machine_id(self, machine_id: u16) -> (r: Self)
        ensures
            r.spec_machine_id() == machine_id,
            r.spec_epoch() == self.spec_epoch(),
    {
        TiltflakeBuilder { machine_id, epoch: self.epoch }
    }

    /// Sets the epoch.
    pub fn with_epoch(self, epoch: EpochType) -> (r: Self)
        ensures
            r.spec_machine_id() == self.spec_machine_id(),
            r.spec_epoch() == epoch,
    {
        TiltflakeBuilder { machine_id: self.machine_id, epoch }
    }

    /// Makes the generator.
    pub fn build(self) -> (r: Tiltflake)
        ensures
            r == Tiltflake::spec_new(self.spec_machine_id(), self.spec_epoch()),
    {
        Tiltflake::new(self.machine_id, &self.epoch)
    }
}

impl Default for TiltflakeBuilder {
    fn default() -> (r: Self)
        ensures
            r.spec_machine_id() == 1,
            r.spec_epoch() == EpochType::Unix,
    {
        TiltflakeBuilder { machine_id: 1, epoch: EpochType::Unix }
    }
}

impl Tiltflake {
    /// A builder at machine id 1 and the Unix epoch.
    pub fn builder() -> (r: TiltflakeBuilder)
        ensures
            r.spec_machine_id() == 1,
            r.spec_epoch() == EpochType::Unix,
    {
        TiltflakeBuilder::default()
    }
}

} // verus!
