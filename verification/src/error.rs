//! The failures that the codec and the generator report.

use vstd::prelude::*;

verus! {

/// Why a conversion or a generator operation failed.
#[derive(PartialEq, Eq, Structural, Clone, Copy, Debug)]
pub enum GeneratorError {
    /// A datacenter or worker id does not fit its field, or the epoch does
    /// not lie within the timestamp range before the current time.
    InvalidConfiguration,
    /// The clock showed `observed`, which does not lie after `last`, the
    /// timestamp of the most recent identifier: it fell back by more than
    /// the tolerance, or it did not move on while the caller waited.
    ClockRegression { observed: u64, last: u64 },
    /// A field handed to the codec does not fit its width.
    OutOfRange,
}

} // verus!
