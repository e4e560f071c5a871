use vstd::prelude::*;

verus! {

/// Configuration of the density filter. A point is kept exactly when at
/// least `neighbors` members of its snapshot — the point itself included —
/// lie strictly within `radius_m` meters of it.
#[derive(Clone, Copy, PartialEq, Eq, Structural, Debug)]
pub struct FilterConfig {
    /// Radius in whole meters. Distances are supplied floored to whole
    /// meters, and for a real distance `d >= 0` and an integer radius `r`,
    /// `floor(d) < r` holds exactly when `d < r`, so nothing is lost by
    /// comparing floored values.
    pub radius_m: u64,
    /// How many near members (self included) a point needs in order to be
    /// kept. A threshold of zero is excluded: the scan below could never
    /// report success for it, so it is ruled out rather than given a
    /// surprising meaning.
    pub neighbors: u64,
}

impl FilterConfig {
    pub open spec fn wf(self) -> bool {
        self.neighbors >= 1
    }
}

impl Default for FilterConfig {
    /// The documented defaults: a 100 meter radius and 3 neighbors.
    fn default() -> (r: Self)
        ensures
            r == (FilterConfig { radius_m: 100, neighbors: 3 }),
    {
        FilterConfig { radius_m: 100, neighbors: 3 }
    }
}

/// How many entries of `row` lie strictly within `radius`. `row` holds the
/// floored whole-meter distances from each member of a snapshot to one
/// target point, in scan order.
pub open spec fn near_count(row: Seq<u64>, radius: u64) -> int
    decreases row.len(),
{
    if row.len() == 0 {
        0int
    } else {
        near_count(row.drop_last(), radius) + if row.last() < radius {
            1int
        } else {
            0int
        }
    }
}

/// Whether the density filter keeps a point whose distance row is `row`.
pub open spec fn passes(row: Seq<u64>, cfg: FilterConfig) -> bool {
    near_count(row, cfg.radius_m) >= cfg.neighbors
}

/// Counting a prefix never counts more than the whole row.
proof fn lemma_near_count_take_le(row: Seq<u64>, radius: u64, k: int)
    requires
        0 <= k <= row.len(),
    ensures
        near_count(row.take(k), radius) <= near_count(row, radius),
    decreases row.len() - k,
{
    if k == row.len() {
        assert(row.take(k) =~= row);
    } else {
        assert(row.take(k + 1).drop_last() =~= row.take(k));
        assert(near_count(row.take(k + 1), radius) >= near_count(row.take(k), radius));
        lemma_near_count_take_le(row, radius, k + 1);
    }
}

/// Decides whether one point of a snapshot belongs to a locally dense
/// cluster. `row[j]` is the floored whole-meter distance from the
/// snapshot's `j`-th member to the target point, in scan order. The scan
/// stops as soon as `cfg.neighbors` near members have been seen; the early
/// exit does not change the verdict, which is exactly "at least
/// `cfg.neighbors` entries of the row are within the radius".
pub fn may_show(row: &Vec<u64>, cfg: &FilterConfig) -> (r: bool)
    requires
        cfg.wf(),
    ensures
        r == passes(row@, *cfg),
{
    let mut found: u64 = 0;
    let mut k: usize = 0;
    while k < row.len()
        invariant
            cfg.wf(),
            k <= row@.len(),
            found as int == near_count(row@.take(k as int), cfg.radius_m),
            found < cfg.neighbors,
        decreases row@.len() - k,
    {
        proof {
            assert(row@.take(k as int + 1).drop_last() =~= row@.take(k as int));
            assert(row@.take(k as int + 1).last() == row@[k as int]);
        }
        if row[k] < cfg.radius_m {
            found = found + 1;
        }
        if found == cfg.neighbors {
            proof {
                lemma_near_count_take_le(row@, cfg.radius_m, k as int + 1);
            }
            return true;
        }
        k = k + 1;
    }
    proof {
        assert(row@.take(k as int) =~= row@);
    }
    false
}

/// Removing one entry removes exactly its own contribution to the count.
pub proof fn lemma_near_count_remove(row: Seq<u64>, radius: u64, i: int)
    requires
        0 <= i < row.len(),
    ensures
        near_count(row, radius) == near_count(row.remove(i), radius) + if row[i] < radius {
            1int
        } else {
            0int
        },
    decreases row.len(),
{
    if i == row.len() - 1 {
        assert(row.remove(i) =~= row.drop_last());
    } else {
        assert(row.remove(i).drop_last() =~= row.drop_last().remove(i));
        assert(row.remove(i).last() == row.last());
        lemma_near_count_remove(row.drop_last(), radius, i);
    }
}

/// Law (self-counting): the target point is a member of its own snapshot
/// and its own row entry is zero, so it always counts toward the threshold.
/// The filter therefore keeps the point exactly when at least
/// `cfg.neighbors - 1` of the *other* members are within the radius.
pub proof fn lemma_self_neighbor_counts(row: Seq<u64>, cfg: FilterConfig, i: int)
    requires
        cfg.wf(),
        cfg.radius_m >= 1,
        0 <= i < row.len(),
        row[i] == 0,
    ensures
        passes(row, cfg) <==> near_count(row.remove(i), cfg.radius_m) >= cfg.neighbors - 1,
{
    lemma_near_count_remove(row, cfg.radius_m, i);
}

/// Law (order independence): the count — and so the filter's verdict —
/// depends only on the collection of distances in the row, not on the
/// order in which the scan visits them.
pub proof fn lemma_near_count_permutation(a: Seq<u64>, b: Seq<u64>, radius: u64)
    requires
        a.to_multiset() == b.to_multiset(),
    ensures
        near_count(a, radius) == near_count(b, radius),
    decreases a.len(),
{
    a.to_multiset_ensures();
    b.to_multiset_ensures();
    if a.len() == 0 {
        assert(b.len() == 0);
    } else {
        let x = a.last();
        assert(a.contains(x));
        assert(b.to_multiset().count(x) > 0);
        assert(b.contains(x));
        let j = choose|j: int| 0 <= j < b.len() && b[j] == x;
        lemma_near_count_remove(b, radius, j);
        assert(a.remove(a.len() - 1) =~= a.drop_last());
        assert(a.drop_last().to_multiset() =~= b.remove(j).to_multiset());
        lemma_near_count_permutation(a.drop_last(), b.remove(j), radius);
    }
}

} // verus!
