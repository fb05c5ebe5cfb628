//! The reference points that identifiers measure time from.
use vstd::prelude::*;

use crate::time::Timestamp;

verus! {

/// 2015-01-01T00:00:00Z in milliseconds since 1970-01-01T00:00:00Z.
pub const DISCORD_EPOCH_MILLIS: i64 = 1_420_070_400_000;

/// The epoch a generator counts milliseconds from.
#[derive(Clone, Copy, Debug, PartialEq, Eq, Structural)]
pub enum EpochType {
    /// 1970-01-01T00:00:00Z.
    Unix,
    /// 2015-01-01T00:00:00Z.
    Discord,
    /// An instant of the caller's choosing.
    Custom(Timestamp),
}

impl EpochType {
    /// The instant this epoch stands for.
    pub open spec fn base(self) -> Timestamp {
        match self {
            EpochType::Unix => Timestamp { millis: 0, sub_millis_nanos: 0 },
            EpochType::Discord => Timestamp { millis: 1_420_070_400_000, sub_millis_nanos: 0 },
            EpochType::Custom(t) => t,
        }
    }

    /// The instant this epoch stands for, in whole milliseconds since the Unix
    /// epoch.
    pub open spec fn base_millis(self) -> int {
        self.base().millis as int
    }

    /// The instant this epoch stands for; a custom instant comes back as it
    /// is.
    pub fn base_datetime(&self) -> (r: Timestamp)
        ensures
            r == self.base(),
    {
        match self {
            EpochType::Unix => Timestamp { millis: 0, sub_millis_nanos: 0 },
            EpochType::Discord => Timestamp { millis: DISCORD_EPOCH_MILLIS, sub_millis_nanos: 0 },
            EpochType::Custom(t) => *t,
        }
    }
}

} // verus!
