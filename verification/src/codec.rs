//! The bit layout of an identifier and the conversion between an identifier
//! and its four fields.
//!
//! From the most significant bit down, an identifier holds one bit that is
//! always zero, 41 bits of timestamp, 5 bits of datacenter id, 5 bits of
//! worker id and 12 bits of sequence.

use crate::error::GeneratorError;
use vstd::arithmetic::div_mod::{
    lemma_div_denominator, lemma_fundamental_div_mod, lemma_fundamental_div_mod_converse,
};
use vstd::prelude::*;

verus! {

/// Width of the timestamp field in bits.
pub const TIMESTAMP_BITS: u32 = 41;

/// Width of the datacenter field in bits.
pub const DATACENTER_BITS: u32 = 5;

/// Width of the worker field in bits.
pub const WORKER_BITS: u32 = 5;

/// Width of the sequence field in bits.
pub const SEQUENCE_BITS: u32 = 12;

/// Largest timestamp that fits its field: 2^41 - 1 milliseconds.
pub const MAX_TIMESTAMP: u64 = 0x1FF_FFFF_FFFF;

/// Largest datacenter id that fits its field.
pub const MAX_DATACENTER_ID: u8 = 31;

/// Largest worker id that fits its field.
pub const MAX_WORKER_ID: u8 = 31;

/// Largest sequence number that fits its field.
pub const MAX_SEQUENCE: u16 = 4095;

/// Whether each field lies within the range its width allows.
pub open spec fn fields_valid(timestamp: int, datacenter_id: int, worker_id: int, sequence: int) -> bool {
    &&& 0 <= timestamp <= MAX_TIMESTAMP
    &&& 0 <= datacenter_id <= MAX_DATACENTER_ID
    &&& 0 <= worker_id <= MAX_WORKER_ID
    &&& 0 <= sequence <= MAX_SEQUENCE
}

/// The identifier that holds the four fields, each at its position.
pub open spec fn pack(timestamp: int, datacenter_id: int, worker_id: int, sequence: int) -> int {
    timestamp * 0x40_0000 + datacenter_id * 0x2_0000 + worker_id * 0x1000 + sequence
}

/// The timestamp field of an identifier.
pub open spec fn timestamp_of(id: int) -> int {
    (id / 0x40_0000) % 0x200_0000_0000
}

/// The datacenter field of an identifier.
pub open spec fn datacenter_of(id: int) -> int {
    (id / 0x2_0000) % 32
}

/// The worker field of an identifier.
pub open spec fn worker_of(id: int) -> int {
    (id / 0x1000) % 32
}

/// The sequence field of an identifier.
pub open spec fn sequence_of(id: int) -> int {
    id % 0x1000
}

/// The four fields of an identifier, in the order in which `pack` takes them.
pub open spec fn unpack(id: int) -> (int, int, int, int) {
    (timestamp_of(id), datacenter_of(id), worker_of(id), sequence_of(id))
}

/// Unpacking a packed identifier gives back the fields it was packed from,
/// and the packed identifier leaves the top bit of a 64-bit word clear.
pub proof fn lemma_unpack_pack(timestamp: int, datacenter_id: int, worker_id: int, sequence: int)
    requires
        fields_valid(timestamp, datacenter_id, worker_id, sequence),
    ensures
        unpack(pack(timestamp, datacenter_id, worker_id, sequence)) == (
            timestamp,
            datacenter_id,
            worker_id,
            sequence,
        ),
        0 <= pack(timestamp, datacenter_id, worker_id, sequence) <= i64::MAX,
{
    let id = pack(timestamp, datacenter_id, worker_id, sequence);
    let upper = timestamp * 32 + datacenter_id;
    lemma_fundamental_div_mod_converse(
        id,
        0x40_0000,
        timestamp,
        datacenter_id * 0x2_0000 + worker_id * 0x1000 + sequence,
    );
    lemma_fundamental_div_mod_converse(timestamp, 0x200_0000_0000, 0, timestamp);
    lemma_fundamental_div_mod_converse(id, 0x2_0000, upper, worker_id * 0x1000 + sequence);
    lemma_fundamental_div_mod_converse(upper, 32, timestamp, datacenter_id);
    lemma_fundamental_div_mod_converse(id, 0x1000, upper * 32 + worker_id, sequence);
    lemma_fundamental_div_mod_converse(upper * 32 + worker_id, 32, upper, worker_id);
}

/// Packing the fields of an identifier whose top bit is clear gives back the
/// identifier.
pub proof fn lemma_pack_unpack(id: int)
    requires
        0 <= id <= i64::MAX,
    ensures
        fields_valid(timestamp_of(id), datacenter_of(id), worker_of(id), sequence_of(id)),
        pack(timestamp_of(id), datacenter_of(id), worker_of(id), sequence_of(id)) == id,
{
    let upper = id / 0x2_0000;
    let middle = id / 0x1000;
    let top = id / 0x40_0000;
    lemma_fundamental_div_mod(id, 0x1000);
    lemma_fundamental_div_mod(middle, 32);
    lemma_fundamental_div_mod(upper, 32);
    lemma_div_denominator(id, 0x1000, 32);
    lemma_div_denominator(id, 0x2_0000, 32);
    assert(middle / 32 == upper);
    assert(upper / 32 == top);
    lemma_fundamental_div_mod_converse(top, 0x200_0000_0000, 0, top);
}

/// Packs four fields that fit their widths into an identifier by shifting
/// each to its position and combining them with bitwise or.
pub fn pack_fields(timestamp_delta: u64, datacenter_id: u8, worker_id: u8, sequence: u16) -> (id: u64)
    requires
        fields_valid(timestamp_delta as int, datacenter_id as int, worker_id as int, sequence as int),
    ensures
        id == pack(timestamp_delta as int, datacenter_id as int, worker_id as int, sequence as int),
        id <= i64::MAX,
{
    let d: u64 = datacenter_id as u64;
    let w: u64 = worker_id as u64;
    let s: u64 = sequence as u64;
    proof {
        assert((timestamp_delta << 22) | (d << 17) | (w << 12) | s == timestamp_delta * 0x40_0000
            + d * 0x2_0000 + w * 0x1000 + s) by (bit_vector)
            requires
                timestamp_delta <= 0x1FF_FFFF_FFFF,
                d <= 31,
                w <= 31,
                s <= 4095,
        ;
        lemma_unpack_pack(timestamp_delta as int, d as int, w as int, s as int);
    }
    (timestamp_delta << 22) | (d << 17) | (w << 12) | s
}

/// Packs the four fields into an identifier. Fields that do not fit their
/// widths are rejected with `OutOfRange`, never truncated.
pub fn encode(timestamp_delta: u64, datacenter_id: u8, worker_id: u8, sequence: u16) -> (r: Result<
    u64,
    GeneratorError,
>)
    ensures
        fields_valid(timestamp_delta as int, datacenter_id as int, worker_id as int, sequence as int)
            ==> r == Ok::<u64, GeneratorError>(
            pack(timestamp_delta as int, datacenter_id as int, worker_id as int, sequence as int) as u64,
        ),
        !fields_valid(timestamp_delta as int, datacenter_id as int, worker_id as int, sequence as int)
            ==> r == Err::<u64, GeneratorError>(GeneratorError::OutOfRange),
        r matches Ok(id) ==> id <= i64::MAX && unpack(id as int) == (
            timestamp_delta as int,
            datacenter_id as int,
            worker_id as int,
            sequence as int,
        ),
{
    if timestamp_delta > MAX_TIMESTAMP || datacenter_id > MAX_DATACENTER_ID || worker_id
        > MAX_WORKER_ID || sequence > MAX_SEQUENCE {
        return Err(GeneratorError::OutOfRange);
    }
    proof {
        lemma_unpack_pack(
            timestamp_delta as int,
            datacenter_id as int,
            worker_id as int,
            sequence as int,
        );
    }
    Ok(pack_fields(timestamp_delta, datacenter_id, worker_id, sequence))
}

/// Recovers the four fields of an identifier by shifting and masking: the
/// timestamp, the datacenter id, the worker id and the sequence.
pub fn decode(id: u64) -> (r: (u64, u8, u8, u16))
    ensures
        (r.0 as int, r.1 as int, r.2 as int, r.3 as int) == unpack(id as int),
        r.0 <= MAX_TIMESTAMP,
        r.1 <= MAX_DATACENTER_ID,
        r.2 <= MAX_WORKER_ID,
        r.3 <= MAX_SEQUENCE,
{
    let timestamp: u64 = (id >> 22) & MAX_TIMESTAMP;
    let datacenter: u64 = (id >> 17) & 31;
    let worker: u64 = (id >> 12) & 31;
    let sequence: u64 = id & 4095;
    proof {
        assert((id >> 22) & 0x1FF_FFFF_FFFF == (id / 0x40_0000) % 0x200_0000_0000) by (bit_vector);
        assert((id >> 17) & 31 == (id / 0x2_0000) % 32) by (bit_vector);
        assert((id >> 12) & 31 == (id / 0x1000) % 32) by (bit_vector);
        assert(id & 4095 == id % 0x1000) by (bit_vector);
    }
    (timestamp, datacenter as u8, worker as u8, sequence as u16)
}

} // verus!
