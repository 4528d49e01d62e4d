use galactus_core::codec::{
    decode, encode, pack_fields, MAX_DATACENTER_ID, MAX_SEQUENCE, MAX_TIMESTAMP, MAX_WORKER_ID,
};
use galactus_core::error::GeneratorError;

#[test]
fn encode_places_each_field() {
    assert_eq!(encode(0, 0, 0, 0), Ok(0));
    assert_eq!(encode(0, 0, 0, 1), Ok(1));
    assert_eq!(encode(0, 0, 1, 0), Ok(1 << 12));
    assert_eq!(encode(0, 1, 0, 0), Ok(1 << 17));
    assert_eq!(encode(1, 0, 0, 0), Ok(1 << 22));
    assert_eq!(encode(1, 1, 2, 0), Ok(4_194_304 + 131_072 + 8_192));
    assert_eq!(encode(1, 1, 2, 3), Ok(4_333_571));
}

#[test]
fn encode_largest_fields_leaves_top_bit_clear() {
    let id: u64 = encode(MAX_TIMESTAMP, MAX_DATACENTER_ID, MAX_WORKER_ID, MAX_SEQUENCE).unwrap();
    assert_eq!(id, 0x7FFF_FFFF_FFFF_FFFF);
    assert_eq!(id, i64::MAX as u64);
    assert_eq!(decode(id), (MAX_TIMESTAMP, 31, 31, 4095));
}

#[test]
fn encode_rejects_oversized_fields() {
    assert_eq!(encode(MAX_TIMESTAMP + 1, 0, 0, 0), Err(GeneratorError::OutOfRange));
    assert_eq!(encode(0, 32, 0, 0), Err(GeneratorError::OutOfRange));
    assert_eq!(encode(0, 0, 32, 0), Err(GeneratorError::OutOfRange));
    assert_eq!(encode(0, 0, 0, 4096), Err(GeneratorError::OutOfRange));
    assert_eq!(encode(u64::MAX, 255, 255, u16::MAX), Err(GeneratorError::OutOfRange));
}

#[test]
fn decode_reads_each_field() {
    assert_eq!(decode(0), (0, 0, 0, 0));
    assert_eq!(decode(4_333_571), (1, 1, 2, 3));
    assert_eq!(decode(1 << 22), (1, 0, 0, 0));
    assert_eq!(decode((1 << 22) - 1), (0, 31, 31, 4095));
}

#[test]
fn decode_ignores_the_top_bit() {
    assert_eq!(decode(1 << 63), (0, 0, 0, 0));
    assert_eq!(decode(u64::MAX), (MAX_TIMESTAMP, 31, 31, 4095));
}

#[test]
fn round_trip_over_a_grid_of_fields() {
    let timestamps: Vec<u64> = vec![0, 1, 2, 1_000, 215_000_000_000, MAX_TIMESTAMP - 1, MAX_TIMESTAMP];
    let ids: Vec<u8> = vec![0, 1, 2, 15, 16, 30, 31];
    let sequences: Vec<u16> = vec![0, 1, 2, 2047, 2048, 4094, 4095];
    for t in timestamps.iter() {
        for d in ids.iter() {
            for w in ids.iter() {
                for s in sequences.iter() {
                    let id: u64 = encode(*t, *d, *w, *s).unwrap();
                    assert_eq!(decode(id), (*t, *d, *w, *s));
                    assert_eq!(pack_fields(*t, *d, *w, *s), id);
                }
            }
        }
    }
}

#[test]
fn round_trip_from_identifiers() {
    let samples: Vec<u64> = vec![0, 1, 4095, 4096, 4_333_571, 0x1234_5678_9ABC_DEF0, i64::MAX as u64];
    for id in samples.iter() {
        let (t, d, w, s) = decode(*id);
        assert_eq!(encode(t, d, w, s), Ok(*id));
    }
}

#[test]
fn encoded_order_follows_timestamp_then_sequence() {
    let a: u64 = encode(5, 31, 31, 4095).unwrap();
    let b: u64 = encode(6, 0, 0, 0).unwrap();
    let c: u64 = encode(6, 0, 0, 1).unwrap();
    assert!(a < b);
    assert!(b < c);
}
