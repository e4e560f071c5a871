use vstd::prelude::*;

verus! {

/// A geographic coordinate, stored as integer microdegrees: decimal degrees
/// scaled by 1,000,000, the fixed encoding in which raw points arrive from
/// the store. Keeping the raw scale makes the representation exact; callers
/// that need decimal degrees divide by 1,000,000 at the boundary.
#[derive(Clone, Copy, PartialEq, Eq, Structural, Debug)]
pub struct Location {
    pub longitude_micro: i64,
    pub latitude_micro: i64,
}

impl Location {
    /// The documented coordinate invariant: longitude within [-180°, 180°]
    /// and latitude within [-90°, 90°], in microdegrees. The filter and the
    /// pipeline never require it — out-of-range values flow through exactly
    /// as supplied — but callers are expected to stay within it.
    pub open spec fn in_range(self) -> bool {
        &&& -180_000_000 <= self.longitude_micro <= 180_000_000
        &&& -90_000_000 <= self.latitude_micro <= 90_000_000
    }
}

} // verus!
