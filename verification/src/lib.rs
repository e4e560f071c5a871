//! Density filtering of timestamped geographic snapshots.
//!
//! A snapshot is a timestamped set of points (coordinates in integer
//! microdegrees, the encoding of the backing store). Each point is kept
//! exactly when enough members of its own snapshot — the point itself
//! included — lie within a fixed radius of it. A batch of snapshots is
//! reduced, in timestamp order, to those whose filtered point list is
//! non-empty.
//!
//! Geodesic distances themselves are floating-point work and are computed
//! by the caller; the library consumes them as floored whole-meter values,
//! which preserves every strict comparison against a whole-meter radius.

pub mod filter;
pub mod geo;
pub mod pipeline;
pub mod snapshot;
