//! The generator: packing an instant, a machine id and a sequence number into
//! one identifier, and taking an identifier apart again.
use vstd::prelude::*;

use crate::epoch::EpochType;
use crate::error::TiltflakeError;
use crate::id::TiltflakeId;
use crate::time::{
    duration_millis, duration_since_unix_epoch, parse_rfc3339_millis, rfc3339_millis,
    unix_duration_of, whole_millis_of, Timestamp,
};

verus! {

/// The largest number of elapsed milliseconds that 41 bits can hold.
pub const MAX_DELTA: u64 = 0x1FF_FFFF_FFFF;

/// The largest machine id (10 bits).
pub const MACHINE_ID_MASK: u16 = 0x3FF;

/// The largest sequence number (12 bits).
pub const SEQUENCE_MASK: u16 = 0xFFF;

/// The value of an identifier whose fields are `delta` (elapsed milliseconds),
/// `machine_id` and `sequence`.
pub open spec fn pack(delta: int, machine_id: int, sequence: int) -> int {
    delta * 0x40_0000 + machine_id * 0x1000 + sequence
}

/// The elapsed-milliseconds field of a packed value (its top 42 bits; only 41
/// of them are ever set by encoding).
pub open spec fn delta_of(raw: u64) -> int {
    raw as int / 0x40_0000
}

/// The machine-id field of a packed value.
pub open spec fn machine_id_of(raw: u64) -> int {
    (raw as int / 0x1000) % 0x400
}

/// The sequence field of a packed value.
pub open spec fn sequence_of(raw: u64) -> int {
    raw as int % 0x1000
}

/// What decoding `raw` against an epoch at `epoch_millis` gives: the instant
/// in milliseconds since the Unix epoch, the machine id and the sequence.
pub open spec fn decode_spec(epoch_millis: int, raw: u64) -> (int, int, int) {
    (epoch_millis + delta_of(raw), machine_id_of(raw), sequence_of(raw))
}

/// Whether decoding `raw` against an epoch at `epoch_millis` gives an instant
/// that an `i64` count of milliseconds can hold.
pub open spec fn decodable(epoch_millis: int, raw: u64) -> bool {
    epoch_millis + delta_of(raw) <= i64::MAX
}

/// Turns a decoded triple into the values that decoding returns; the instant
/// keeps the epoch's nanoseconds past the millisecond, `sub_millis_nanos`.
pub open spec fn decoded_values(d: (int, int, int), sub_millis_nanos: u32) -> (Timestamp, u16, u16) {
    (Timestamp { millis: d.0 as i64, sub_millis_nanos }, d.1 as u16, d.2 as u16)
}

/// A generator of identifiers for one machine, measuring time from one epoch.
#[derive(Debug, Clone, Copy, PartialEq, Eq, Structural)]
pub struct Tiltflake {
    /// The machine id; 10 bits in a generator made by `new`.
    pub machine_id: u16,
    /// The instant that elapsed milliseconds are counted from.
    pub custom_epoch: Timestamp,
}

impl Tiltflake {
    /// The generator that `new(machine_id, epoch)` makes.
    pub open spec fn spec_new(machine_id: u16, epoch: EpochType) -> Tiltflake {
        Tiltflake {
            machine_id: (machine_id % 0x400) as u16,
            custom_epoch: epoch.base(),
        }
    }

    /// The machine id fits in its 10-bit field.
    pub open spec fn wf(self) -> bool {
        self.machine_id < 0x400
    }

    /// The result of encoding the instant `at` (milliseconds since the Unix
    /// epoch) with `sequence`. The machine id and the sequence keep their low
    /// 10 and 12 bits.
    pub open spec fn encode_spec(self, at: int, sequence: u16) -> Result<TiltflakeId, TiltflakeError> {
        let delta = at - self.custom_epoch.millis;
        if delta < 0 {
            Err(TiltflakeError::TimestampBeforeEpoch)
        } else if delta > MAX_DELTA {
            Err(TiltflakeError::TimestampTooLarge)
        } else {
            Ok(TiltflakeId(pack(delta, self.machine_id as int % 0x400, sequence as int % 0x1000) as u64))
        }
    }

    /// Makes a generator. The machine id keeps its low 10 bits; the epoch is
    /// resolved once, here.
    pub fn new(machine_id: u16, epoch: &EpochType) -> (r: Self)
        ensures
            r == Self::spec_new(machine_id, *epoch),
            r.wf(),
    {
        let datetime = epoch.base_datetime();
        let masked = machine_id & MACHINE_ID_MASK;
        assert(machine_id & 0x3FF == machine_id % 0x400) by (bit_vector);
        Tiltflake { machine_id: masked, custom_epoch: datetime }
    }

    /// Encodes the instant `at`, in milliseconds since the Unix epoch.
    fn generate_at(&self, at: i128, sequence: u16) -> (r: Result<TiltflakeId, TiltflakeError>)
        requires
            i64::MIN <= at <= u64::MAX,
        ensures
            r == self.encode_spec(at as int, sequence),
    {
        let delta = at - self.custom_epoch.millis as i128;
        if delta < 0 {
            return Err(TiltflakeError::TimestampBeforeEpoch);
        }
        if delta > MAX_DELTA as i128 {
            return Err(TiltflakeError::TimestampTooLarge);
        }
        let timestamp = delta as u64;
        let machine_id = (self.machine_id & MACHINE_ID_MASK) as u64;
        let seq = (sequence & SEQUENCE_MASK) as u64;
        let m16 = self.machine_id;
        assert(m16 & 0x3FF == m16 % 0x400) by (bit_vector);
        assert(sequence & 0xFFF == sequence % 0x1000) by (bit_vector);
        assert((timestamp << 22u64) | (machine_id << 12u64) | seq == timestamp * 0x40_0000
            + machine_id * 0x1000 + seq) by (bit_vector)
            requires
                timestamp <= 0x1FF_FFFF_FFFF,
                machine_id < 0x400,
                seq < 0x1000,
        ;
        Ok(TiltflakeId((timestamp << 22u64) | (machine_id << 12u64) | seq))
    }

    /// Encodes the instant `millis` milliseconds after the Unix epoch.
    pub fn generate_from_unix_millis(&self, millis: u64, sequence: u16) -> (r: Result<
        TiltflakeId,
        TiltflakeError,
    >)
        ensures
            r == self.encode_spec(millis as int, sequence),
    {
        self.generate_at(millis as i128, sequence)
    }

    /// Encodes a system clock reading. A reading before the Unix epoch is
    /// `TimestampBeforeEpoch`; otherwise the result is that of encoding the
    /// whole milliseconds since the Unix epoch.
    pub fn generate_from_system_time(&self, time: std::time::SystemTime, sequence: u16) -> (r:
        Result<TiltflakeId, TiltflakeError>)
        ensures
            match unix_duration_of(time) {
                None => r == Err::<TiltflakeId, TiltflakeError>(
                    TiltflakeError::TimestampBeforeEpoch,
                ),
                Some(d) => r == self.encode_spec(whole_millis_of(d) as int, sequence),
            },
    {
        let since = duration_since_unix_epoch(&time);
        match since {
            None => Err(TiltflakeError::TimestampBeforeEpoch),
            Some(d) => self.generate_from_elapsed_millis(duration_millis(&d), sequence),
        }
    }

    /// Encodes the instant `millis` milliseconds after the Unix epoch, for a
    /// count as wide as a clock reading gives.
    pub fn generate_from_elapsed_millis(&self, millis: u128, sequence: u16) -> (r: Result<
        TiltflakeId,
        TiltflakeError,
    >)
        ensures
            r == self.encode_spec(millis as int, sequence),
    {
        if millis > u64::MAX as u128 {
            Err(TiltflakeError::TimestampTooLarge)
        } else {
            self.generate_at(millis as i128, sequence)
        }
    }

    /// Encodes an instant.
    pub fn generate_from_datetime(&self, datetime: Timestamp, sequence: u16) -> (r: Result<
        TiltflakeId,
        TiltflakeError,
    >)
        ensures
            r == self.encode_spec(datetime.millis as int, sequence),
    {
        self.generate_at(datetime.millis as i128, sequence)
    }

    /// Encodes the instant written in RFC 3339 text. Text that chrono rejects
    /// is `Rfc3339ParseError`, carrying chrono's own error.
    pub fn generate_from_rfc3339(&self, rfc3339: &str, sequence: u16) -> (r: Result<
        TiltflakeId,
        TiltflakeError,
    >)
        ensures
            r == self.encode_parsed_spec(rfc3339_millis(rfc3339@), sequence),
    {
        self.generate_from_parsed(parse_rfc3339_millis(rfc3339), sequence)
    }

    /// The result of encoding what a parser made of a timestamp: its error
    /// becomes `Rfc3339ParseError`, an instant in whole milliseconds since the
    /// Unix epoch is encoded.
    pub open spec fn encode_parsed_spec(
        self,
        parsed: Result<i64, chrono::ParseError>,
        sequence: u16,
    ) -> Result<TiltflakeId, TiltflakeError> {
        match parsed {
            Ok(millis) => self.encode_spec(millis as int, sequence),
            Err(e) => Err(TiltflakeError::Rfc3339ParseError(e)),
        }
    }

    /// Encodes what chrono made of RFC 3339 text: its error, carried as
    /// `Rfc3339ParseError`, or an instant in whole milliseconds since the Unix
    /// epoch.
    pub fn generate_from_parsed(
        &self,
        parsed: Result<i64, chrono::ParseError>,
        sequence: u16,
    ) -> (r: Result<TiltflakeId, TiltflakeError>)
        ensures
            r == self.encode_parsed_spec(parsed, sequence),
    {
        match parsed {
            Ok(millis) => self.generate_at(millis as i128, sequence),
            Err(e) => Err(TiltflakeError::Rfc3339ParseError(e)),
        }
    }

    /// Takes an identifier apart against this generator's epoch: the instant,
    /// the machine id and the sequence.
    pub fn parse(&self, id: TiltflakeId) -> (r: (Timestamp, u16, u16))
        requires
            decodable(self.custom_epoch.millis as int, id.0),
        ensures
            r == decoded_values(
                decode_spec(self.custom_epoch.millis as int, id.0),
                self.custom_epoch.sub_millis_nanos,
            ),
    {
        decode_raw(self.custom_epoch, id.0)
    }

    /// Takes an identifier apart against `epoch`: the instant, the machine id
    /// and the sequence.
    pub fn parse_id(id: u64, epoch: EpochType) -> (r: (Timestamp, u16, u16))
        requires
            decodable(epoch.base_millis(), id),
        ensures
            r == decoded_values(decode_spec(epoch.base_millis(), id), epoch.base().sub_millis_nanos),
    {
        decode_raw(epoch.base_datetime(), id)
    }
}

/// Splits `raw` into its three fields and adds the elapsed milliseconds to
/// `base`.
fn decode_raw(base: Timestamp, raw: u64) -> (r: (Timestamp, u16, u16))
    requires
        decodable(base.millis as int, raw),
    ensures
        r == decoded_values(decode_spec(base.millis as int, raw), base.sub_millis_nanos),
{
    let timestamp = raw >> 22u64;
    let machine_id = (raw >> 12u64) & 0x3FF;
    let sequence = raw & 0xFFF;
    assert(raw >> 22u64 == raw / 0x40_0000) by (bit_vector);
    assert((raw >> 12u64) & 0x3FF == (raw / 0x1000) % 0x400) by (bit_vector);
    assert(raw & 0xFFF == raw % 0x1000) by (bit_vector);
    let millis = base.millis + timestamp as i64;
    (Timestamp { millis, sub_millis_nanos: base.sub_millis_nanos }, machine_id as u16, sequence as u16)
}

} // verus!
