use vstd::prelude::*;

use crate::filter::{may_show, passes, FilterConfig};
use crate::geo::Location;

verus! {

/// One surviving point, promoted to output form: in the serialized output
/// it becomes a point-geometry feature carrying this coordinate.
#[derive(Clone, Copy, PartialEq, Eq, Structural, Debug)]
pub struct Feature {
    pub location: Location,
}

/// The sequence-of-sequences image of a distance matrix held as vectors.
pub open spec fn rows_view(dists: Seq<Vec<u64>>) -> Seq<Seq<u64>> {
    dists.map_values(|r: Vec<u64>| r@)
}

/// A distance matrix fits a point list of length `n` when it is square of
/// the same dimension: `dists[i][j]` is the floored whole-meter distance
/// from point `j` to point `i`.
pub open spec fn matrix_fits(dists: Seq<Seq<u64>>, n: int) -> bool {
    &&& dists.len() == n
    &&& forall|i: int| 0 <= i < n ==> (#[trigger] dists[i]).len() == n
}

/// The features the filter keeps among the first `n` points, in scan order.
pub open spec fn filtered_prefix(
    points: Seq<Location>,
    dists: Seq<Seq<u64>>,
    cfg: FilterConfig,
    n: int,
) -> Seq<Feature>
    decreases n,
{
    if n <= 0 {
        Seq::empty()
    } else {
        let rest = filtered_prefix(points, dists, cfg, n - 1);
        if passes(dists[n - 1], cfg) {
            rest.push(Feature { location: points[n - 1] })
        } else {
            rest
        }
    }
}

/// All features the filter keeps out of one snapshot, in point-scan order.
pub open spec fn filtered_features(
    points: Seq<Location>,
    dists: Seq<Seq<u64>>,
    cfg: FilterConfig,
) -> Seq<Feature> {
    filtered_prefix(points, dists, cfg, points.len() as int)
}

/// Law: a snapshot with no points yields no features.
pub proof fn lemma_empty_snapshot(dists: Seq<Seq<u64>>, cfg: FilterConfig)
    ensures
        filtered_features(Seq::empty(), dists, cfg) == Seq::<Feature>::empty(),
{
}

/// Processes one snapshot: evaluates the density filter for every point
/// against the whole point set and emits the survivors, in scan order.
/// `points` are the snapshot's coordinates in scan order and `dists` the
/// matching square matrix of floored whole-meter pairwise distances.
pub fn process_snapshot(
    points: &Vec<Location>,
    dists: &Vec<Vec<u64>>,
    cfg: &FilterConfig,
) -> (features: Vec<Feature>)
    requires
        cfg.wf(),
        matrix_fits(rows_view(dists@), points@.len() as int),
    ensures
        features@ == filtered_features(points@, rows_view(dists@), *cfg),
{
    let mut features: Vec<Feature> = Vec::new();
    let mut i: usize = 0;
    while i < points.len()
        invariant
            cfg.wf(),
            matrix_fits(rows_view(dists@), points@.len() as int),
            i <= points@.len(),
            features@ == filtered_prefix(points@, rows_view(dists@), *cfg, i as int),
        decreases points@.len() - i,
    {
        if may_show(&dists[i], cfg) {
            features.push(Feature { location: points[i] });
        }
        i = i + 1;
    }
    features
}

} // verus!
