//! The clock source: wall-clock time in whole milliseconds.

use vstd::prelude::*;

verus! {

/// Reads `std::time::SystemTime::now` through chrono's `DateTime::<Utc>::from`
/// and `DateTime::timestamp_millis`, as signed milliseconds since the UNIX
/// epoch. Nothing is claimed of the value: it is whatever the system clock
/// shows, and a clock set before the UNIX epoch gives a negative count.
#[verifier::external_body]
pub(crate) fn utc_now_millis() -> i64 {
    chrono::DateTime::<chrono::Utc>::from(std::time::SystemTime::now()).timestamp_millis()
}

/// Calls `std::hint::spin_loop`, which tells the processor that the caller
/// is waiting in a loop. It changes nothing that the library can see.
#[verifier::external_body]
pub(crate) fn relax() {
    std::hint::spin_loop()
}

/// A signed millisecond count as an unsigned one: instants before the
/// reference are read as the reference itself.
pub fn millis_from_signed(raw: i64) -> (r: u64)
    ensures
        raw < 0 ==> r == 0,
        raw >= 0 ==> r == raw,
{
    if raw < 0 {
        0
    } else {
        raw as u64
    }
}

/// Milliseconds since the UNIX epoch on the wall clock: its signed reading, with earlier instants read as zero.
pub fn now_millis() -> (r: u64)
    ensures
        exists|raw: i64| r == #[trigger] unsigned_reading(raw),
        r <= i64::MAX,
{
    let raw: i64 = utc_now_millis();
    let r: u64 = millis_from_signed(raw);
    assert(r == unsigned_reading(raw));
    r
}

/// A signed millisecond count read as an unsigned one: an instant before the
/// reference is read as the reference itself.
pub open spec fn unsigned_reading(raw: i64) -> u64 {
    if raw < 0 {
        0
    } else {
        raw as u64
    }
}

} // verus!
