use vstd::prelude::*;

use crate::filter::FilterConfig;
use crate::geo::Location;
use crate::snapshot::{filtered_features, matrix_fits, process_snapshot, rows_view, Feature};

verus! {

/// One raw snapshot, ready for filtering: its timestamp (an opaque,
/// lexically comparable string), its points in scan order, and the square
/// matrix of floored whole-meter pairwise distances, where `dists[i][j]`
/// is the distance from point `j` to point `i`.
pub struct SnapshotInput {
    pub timestamp: String,
    pub points: Vec<Location>,
    pub dists: Vec<Vec<u64>>,
}

/// The mathematical image of a [`SnapshotInput`].
#[verifier::ext_equal]
pub struct SnapshotInputView {
    pub timestamp: Seq<char>,
    pub points: Seq<Location>,
    pub dists: Seq<Seq<u64>>,
}

impl View for SnapshotInput {
    type V = SnapshotInputView;

    open spec fn view(&self) -> SnapshotInputView {
        SnapshotInputView {
            timestamp: self.timestamp@,
            points: self.points@,
            dists: rows_view(self.dists@),
        }
    }
}

impl SnapshotInputView {
    /// The distance matrix matches the point list.
    pub open spec fn wf(self) -> bool {
        matrix_fits(self.dists, self.points.len() as int)
    }
}

/// One retained snapshot of the output: its timestamp and its non-empty
/// list of surviving features, in scan order.
pub struct FilteredSnapshot {
    pub timestamp: String,
    pub features: Vec<Feature>,
}

/// The mathematical image of a [`FilteredSnapshot`].
#[verifier::ext_equal]
pub struct FilteredSnapshotView {
    pub timestamp: Seq<char>,
    pub features: Seq<Feature>,
}

impl View for FilteredSnapshot {
    type V = FilteredSnapshotView;

    open spec fn view(&self) -> FilteredSnapshotView {
        FilteredSnapshotView { timestamp: self.timestamp@, features: self.features@ }
    }
}

/// What the snapshot processor makes of one input snapshot.
pub open spec fn snapshot_result(s: SnapshotInputView, cfg: FilterConfig) -> FilteredSnapshotView {
    FilteredSnapshotView {
        timestamp: s.timestamp,
        features: filtered_features(s.points, s.dists, cfg),
    }
}

/// The whole batch, processed in input order: each snapshot's result
/// appears exactly when its feature list is non-empty, and the retained
/// results keep the input order.
pub open spec fn pipeline_spec(
    inputs: Seq<SnapshotInputView>,
    cfg: FilterConfig,
) -> Seq<FilteredSnapshotView>
    decreases inputs.len(),
{
    if inputs.len() == 0 {
        Seq::empty()
    } else {
        let rest = pipeline_spec(inputs.drop_last(), cfg);
        let r = snapshot_result(inputs.last(), cfg);
        if r.features.len() > 0 {
            rest.push(r)
        } else {
            rest
        }
    }
}

/// The views of a batch of input snapshots.
pub open spec fn views_of(inputs: Seq<SnapshotInput>) -> Seq<SnapshotInputView> {
    inputs.map_values(|s: SnapshotInput| s@)
}

/// The views of a batch of retained snapshots.
pub open spec fn outputs_view(out: Seq<FilteredSnapshot>) -> Seq<FilteredSnapshotView> {
    out.map_values(|r: FilteredSnapshot| r@)
}

/// Runs the batch pipeline over snapshots already in timestamp order:
/// processes each snapshot, drops those whose feature list comes out
/// empty, and returns the rest without re-sorting.
pub fn run_batch(inputs: &Vec<SnapshotInput>, cfg: &FilterConfig) -> (out: Vec<FilteredSnapshot>)
    requires
        cfg.wf(),
        forall|i: int| 0 <= i < inputs@.len() ==> (#[trigger] inputs@[i])@.wf(),
    ensures
        outputs_view(out@) == pipeline_spec(views_of(inputs@), *cfg),
{
    let mut out: Vec<FilteredSnapshot> = Vec::new();
    let mut i: usize = 0;
    while i < inputs.len()
        invariant
            cfg.wf(),
            forall|j: int| 0 <= j < inputs@.len() ==> (#[trigger] inputs@[j])@.wf(),
            i <= inputs@.len(),
            outputs_view(out@) == pipeline_spec(views_of(inputs@.take(i as int)), *cfg),
        decreases inputs@.len() - i,
    {
        let inp = &inputs[i];
        let features = process_snapshot(&inp.points, &inp.dists, cfg);
        if features.len() > 0 {
            out.push(FilteredSnapshot { timestamp: inp.timestamp.clone(), features });
        }
        proof {
            let pre = views_of(inputs@.take(i as int));
            let post = views_of(inputs@.take(i as int + 1));
            assert(post.drop_last() =~= pre);
            assert(post.last() == inputs@[i as int]@);
            assert(outputs_view(out@) =~= pipeline_spec(post, *cfg));
        }
        i = i + 1;
    }
    proof {
        assert(inputs@.take(i as int) =~= inputs@);
    }
    out
}

/// Law: the pipeline is exactly "map, then filter" — every input snapshot
/// is mapped to its result, and precisely the non-empty results survive,
/// in input order. In particular every element of the output has a
/// non-empty feature list, and retained snapshots keep their relative
/// input (timestamp) order.
pub proof fn lemma_pipeline_is_map_then_filter(inputs: Seq<SnapshotInputView>, cfg: FilterConfig)
    ensures
        pipeline_spec(inputs, cfg) == inputs.map_values(
            |s: SnapshotInputView| snapshot_result(s, cfg),
        ).filter(|r: FilteredSnapshotView| r.features.len() > 0),
    decreases inputs.len(),
{
    reveal(Seq::filter);
    let f = |s: SnapshotInputView| snapshot_result(s, cfg);
    let keep = |r: FilteredSnapshotView| r.features.len() > 0;
    if inputs.len() == 0 {
        assert(inputs.map_values(f) =~= Seq::<FilteredSnapshotView>::empty());
    } else {
        lemma_pipeline_is_map_then_filter(inputs.drop_last(), cfg);
        assert(inputs.map_values(f).drop_last() =~= inputs.drop_last().map_values(f));
        assert(inputs.map_values(f).last() == f(inputs.last()));
    }
}

/// Law: everything the pipeline retains is non-empty.
pub proof fn lemma_pipeline_retains_only_nonempty(inputs: Seq<SnapshotInputView>, cfg: FilterConfig)
    ensures
        forall|k: int|
            0 <= k < pipeline_spec(inputs, cfg).len() ==> (#[trigger] pipeline_spec(inputs, cfg)[k])
                .features.len() > 0,
    decreases inputs.len(),
{
    if inputs.len() > 0 {
        lemma_pipeline_retains_only_nonempty(inputs.drop_last(), cfg);
        let rest = pipeline_spec(inputs.drop_last(), cfg);
        let whole = pipeline_spec(inputs, cfg);
        assert forall|k: int| 0 <= k < whole.len() implies (#[trigger] whole[k]).features.len()
            > 0 by {
            if k < rest.len() {
                assert(whole[k] == rest[k]);
            }
        }
    }
}

} // verus!
