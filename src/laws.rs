//! Properties that hold between encoding and decoding.
use vstd::arithmetic::div_mod::lemma_fundamental_div_mod_converse;
use vstd::prelude::*;

use crate::epoch::EpochType;
use crate::error::TiltflakeError;
use crate::flake::{decodable, decode_spec, delta_of, machine_id_of, pack, sequence_of, Tiltflake, MAX_DELTA};
use crate::id::TiltflakeId;
use crate::time::Timestamp;

verus! {

/// Packing fields that fit their widths gives a value below 2^63 from which
/// each field reads back unchanged.
pub proof fn lemma_fields_of_pack(delta: int, machine_id: int, sequence: int)
    requires
        0 <= delta <= MAX_DELTA,
        0 <= machine_id < 0x400,
        0 <= sequence < 0x1000,
    ensures
        0 <= pack(delta, machine_id, sequence) < 0x8000_0000_0000_0000,
        delta_of(pack(delta, machine_id, sequence) as u64) == delta,
        machine_id_of(pack(delta, machine_id, sequence) as u64) == machine_id,
        sequence_of(pack(delta, machine_id, sequence) as u64) == sequence,
{
    let x = pack(delta, machine_id, sequence);
    assert(0 <= x < 0x8000_0000_0000_0000) by (nonlinear_arith)
        requires
            x == delta * 0x40_0000 + machine_id * 0x1000 + sequence,
            0 <= delta <= MAX_DELTA,
            0 <= machine_id < 0x400,
            0 <= sequence < 0x1000,
    ;
    assert(x == (delta * 0x400 + machine_id) * 0x1000 + sequence) by (nonlinear_arith)
        requires
            x == delta * 0x40_0000 + machine_id * 0x1000 + sequence,
    ;
    lemma_fundamental_div_mod_converse(x, 0x1000, delta * 0x400 + machine_id, sequence);
    lemma_fundamental_div_mod_converse(delta * 0x400 + machine_id, 0x400, delta, machine_id);
    assert(x == delta * 0x40_0000 + (machine_id * 0x1000 + sequence));
    lemma_fundamental_div_mod_converse(x, 0x40_0000, delta, machine_id * 0x1000 + sequence);
}

/// Round trip: for a generator whose machine id fits in 10 bits, a sequence
/// below 4096 and an instant `delta` milliseconds after the epoch with
/// `delta` below 2^41, encoding succeeds and decoding the identifier against
/// the same epoch gives back that instant, the machine id and the sequence.
pub proof fn lemma_round_trip(g: Tiltflake, delta: int, sequence: u16)
    requires
        g.wf(),
        0 <= delta <= MAX_DELTA,
        sequence < 0x1000,
        g.custom_epoch.millis + delta <= i64::MAX,
    ensures
        ({
            let r = g.encode_spec(g.custom_epoch.millis + delta, sequence);
            &&& r is Ok
            &&& decodable(g.custom_epoch.millis as int, r->Ok_0.0)
            &&& decode_spec(g.custom_epoch.millis as int, r->Ok_0.0) == (
                g.custom_epoch.millis + delta,
                g.machine_id as int,
                sequence as int,
            )
        }),
{
    lemma_fields_of_pack(delta, g.machine_id as int, sequence as int);
}

/// Only the low 10 bits of a machine id count: two ids that agree there give
/// the same generator, so 0xFFFF gives the generator that 0x3FF gives.
pub proof fn lemma_machine_id_masking(machine_id: u16, epoch: EpochType)
    ensures
        Tiltflake::spec_new(machine_id, epoch) == Tiltflake::spec_new(
            (machine_id % 0x400) as u16,
            epoch,
        ),
        Tiltflake::spec_new(0xFFFF, epoch) == Tiltflake::spec_new(0x3FF, epoch),
{
}

/// At the top of the 41-bit range: 2^41 - 1 milliseconds after the epoch
/// encodes, 2^41 is `TimestampTooLarge`.
pub proof fn lemma_delta_boundary(g: Tiltflake, sequence: u16)
    ensures
        g.encode_spec(g.custom_epoch.millis + MAX_DELTA, sequence) is Ok,
        delta_of(g.encode_spec(g.custom_epoch.millis + MAX_DELTA, sequence)->Ok_0.0) == MAX_DELTA,
        g.encode_spec(g.custom_epoch.millis + MAX_DELTA + 1, sequence) == Err::<
            TiltflakeId,
            TiltflakeError,
        >(TiltflakeError::TimestampTooLarge),
{
    lemma_fields_of_pack(MAX_DELTA as int, g.machine_id as int % 0x400, sequence as int % 0x1000);
}

/// At the bottom of the range: the epoch itself encodes with zero elapsed
/// milliseconds, one millisecond earlier is `TimestampBeforeEpoch`.
pub proof fn lemma_epoch_boundary(g: Tiltflake, sequence: u16)
    ensures
        g.encode_spec(g.custom_epoch.millis as int, sequence) is Ok,
        delta_of(g.encode_spec(g.custom_epoch.millis as int, sequence)->Ok_0.0) == 0,
        g.encode_spec(g.custom_epoch.millis - 1, sequence) == Err::<TiltflakeId, TiltflakeError>(
            TiltflakeError::TimestampBeforeEpoch,
        ),
{
    lemma_fields_of_pack(0, g.machine_id as int % 0x400, sequence as int % 0x1000);
}

/// Within one millisecond, distinct sequence numbers below 4096 give distinct
/// identifiers.
pub proof fn lemma_sequence_uniqueness(g: Tiltflake, at: int, s1: u16, s2: u16)
    requires
        g.encode_spec(at, s1) is Ok,
        s1 < 0x1000,
        s2 < 0x1000,
        s1 != s2,
    ensures
        g.encode_spec(at, s2) is Ok,
        g.encode_spec(at, s1) != g.encode_spec(at, s2),
{
    let delta = at - g.custom_epoch.millis;
    lemma_fields_of_pack(delta, g.machine_id as int % 0x400, s1 as int);
    lemma_fields_of_pack(delta, g.machine_id as int % 0x400, s2 as int);
}

/// A sequence number and the same number plus 4096 give the same identifier
/// (in particular 4096 collides with 0).
pub proof fn lemma_sequence_wraps(g: Tiltflake, at: int, sequence: u16)
    requires
        sequence + 0x1000 <= u16::MAX,
    ensures
        g.encode_spec(at, (sequence + 0x1000) as u16) == g.encode_spec(at, sequence),
{
}

/// Decoding against the wrong epoch: an identifier made by a generator with a
/// custom epoch `e`, decoded against any epoch `other`, gives an instant that
/// differs from the right one by exactly `e - other`, and the machine id and
/// sequence it was made with.
pub proof fn lemma_cross_epoch_decode(
    machine_id: u16,
    e: Timestamp,
    other: EpochType,
    at: int,
    sequence: u16,
)
    requires
        Tiltflake::spec_new(machine_id, EpochType::Custom(e)).encode_spec(at, sequence) is Ok,
    ensures
        ({
            let id = Tiltflake::spec_new(machine_id, EpochType::Custom(e)).encode_spec(
                at,
                sequence,
            )->Ok_0;
            &&& decode_spec(e.millis as int, id.0).0 == at
            &&& decode_spec(other.base_millis(), id.0).0 == at - (e.millis - other.base_millis())
            &&& decode_spec(other.base_millis(), id.0).1 == machine_id as int % 0x400
            &&& decode_spec(other.base_millis(), id.0).2 == sequence as int % 0x1000
        }),
{
    let g = Tiltflake::spec_new(machine_id, EpochType::Custom(e));
    lemma_fields_of_pack(at - e.millis, g.machine_id as int, sequence as int % 0x1000);
    assert(g.machine_id as int % 0x400 == g.machine_id as int);
}

} // verus!
