//! The batch builder: runs of drawables that share a texture.

use vstd::prelude::*;
use crate::ecs::{Drawable, Transform};
use crate::texture::TextureHandle;

verus! {

/// A run of consecutive drawables: where it starts in the paint order, how
/// many drawables it holds, and the texture they share.
pub struct Run {
    pub texture: TextureHandle,
    pub first: int,
    pub len: int,
}

/// Where the run at position `k` has to start: right after its predecessor.
pub open spec fn run_origin(runs: Seq<Run>, k: int) -> int {
    if k == 0 {
        0
    } else {
        runs[k - 1].first + runs[k - 1].len
    }
}

/// Whether the run at position `k` is not empty, starts right after its
/// predecessor and differs from it in texture.
pub open spec fn run_in_place(runs: Seq<Run>, k: int) -> bool {
    &&& runs[k].len > 0
    &&& runs[k].first == run_origin(runs, k)
    &&& k > 0 ==> runs[k].texture.id != runs[k - 1].texture.id
}

/// Whether the run at position `k` is named after the texture of its first
/// drawable and holds drawables of that texture only.
pub open spec fn run_uniform(runs: Seq<Run>, ds: Seq<Drawable>, k: int) -> bool {
    &&& runs[k].texture == ds[runs[k].first].1
    &&& forall|j: int|
        runs[k].first <= j < runs[k].first + runs[k].len ==> (#[trigger] ds[j]).1.id
            == runs[k].texture.id
}

/// Whether `runs` cuts `ds` into batches: the runs are not empty, follow one
/// another without gap from the first drawable to the last, each holds
/// drawables of one texture only and is named after the texture of its first
/// drawable, and two neighbouring runs differ in texture. Drawables that share
/// a texture but are not neighbours in `ds` therefore lie in different runs.
pub open spec fn partitions(runs: Seq<Run>, ds: Seq<Drawable>) -> bool {
    &&& forall|k: int| 0 <= k < runs.len() ==> #[trigger] run_in_place(runs, k)
    &&& forall|k: int| 0 <= k < runs.len() ==> #[trigger] run_uniform(runs, ds, k)
    &&& run_origin(runs, runs.len() as int) == ds.len()
}

/// One batch: a texture and the transforms of the consecutive drawables that
/// are painted with it, in paint order.
#[derive(Debug)]
pub struct Batch {
    /// The texture of the first drawable of the batch.
    pub texture: TextureHandle,
    /// Position of the first drawable of the batch in the paint order.
    pub first: usize,
    /// The transforms of the batch, in paint order.
    pub transforms: Vec<Transform>,
}

impl Batch {
    /// The run of drawables that the batch covers.
    pub open spec fn run(self) -> Run {
        Run { texture: self.texture, first: self.first as int, len: self.transforms@.len() as int }
    }

    /// Number of drawables in the batch.
    pub fn len(&self) -> (n: usize)
        ensures
            n == self.run().len,
    {
        self.transforms.len()
    }
}

/// The runs that a list of batches covers.
pub open spec fn runs_of(batches: Seq<Batch>) -> Seq<Run> {
    Seq::new(batches.len(), |k: int| batches[k].run())
}

/// Whether every batch holds the transforms of the drawables it covers.
pub open spec fn holds_transforms(batches: Seq<Batch>, ds: Seq<Drawable>) -> bool {
    forall|k: int, j: int|
        0 <= k < batches.len() && 0 <= j < batches[k].transforms@.len() ==> (
        #[trigger] batches[k].transforms@[j]) == ds[batches[k].first + j].0
}

/// Groups a paint-ordered list of drawables into batches with one scan:
/// a drawable joins the current batch if it has the texture of that batch,
/// and opens a new batch otherwise.
pub fn build_batches(drawables: &Vec<Drawable>) -> (batches: Vec<Batch>)
    ensures
        partitions(runs_of(batches@), drawables@),
        holds_transforms(batches@, drawables@),
{
    let mut batches: Vec<Batch> = Vec::new();
    let mut i: usize = 0;
    while i < drawables.len()
        invariant
            i <= drawables.len(),
            partitions(runs_of(batches@), drawables@.take(i as int)),
            holds_transforms(batches@, drawables@.take(i as int)),
        decreases drawables.len() - i,
    {
        let transform: Transform = drawables[i].0;
        let texture: TextureHandle = drawables[i].1;
        let ghost before = batches@;
        let ghost seen = drawables@.take(i as int);
        let ghost next = drawables@.take(i + 1);
        let n: usize = batches.len();
        let joins: bool = n > 0 && batches[n - 1].texture.id == texture.id;
        if joins {
            let mut last: Batch = batches.pop().unwrap();
            last.transforms.push(transform);
            batches.push(last);
            proof {
                let rb = runs_of(before);
                let ra = runs_of(batches@);
                assert(run_in_place(rb, n - 1));
                assert(run_uniform(rb, seen, n - 1));
                assert forall|k: int| 0 <= k < ra.len() implies #[trigger] run_in_place(ra, k) by {
                    assert(run_in_place(rb, k));
                    if k < n - 1 {
                        assert(ra[k] == rb[k]);
                    }
                    if 0 < k {
                        assert(ra[k - 1] == rb[k - 1]);
                    }
                }
                assert forall|k: int| 0 <= k < ra.len() implies #[trigger] run_uniform(
                    ra,
                    next,
                    k,
                ) by {
                    assert(run_uniform(rb, seen, k));
                    assert(run_in_place(rb, k));
                    if k < n - 1 {
                        assert(ra[k] == rb[k]);
                    }
                    lemma_run_within(rb, seen, k);
                    assert forall|j: int| ra[k].first <= j < ra[k].first + ra[k].len implies (
                    #[trigger] next[j]).1.id == ra[k].texture.id by {
                        if j < i {
                            assert(seen[j] == next[j]);
                        }
                    }
                    assert(seen[rb[k].first] == next[rb[k].first]);
                }
                assert forall|k: int, j: int|
                    0 <= k < batches@.len() && 0 <= j < batches@[k].transforms@.len() implies (
                #[trigger] batches@[k].transforms@[j]) == next[batches@[k].first + j].0 by {
                    assert(rb[k] == before[k].run());
                    lemma_run_within(rb, seen, k);
                    if k < n - 1 {
                        assert(batches@[k] == before[k]);
                    }
                    if k < n - 1 || j < before[k].transforms@.len() {
                        assert(before[k].transforms@[j] == seen[before[k].first + j].0);
                        assert(seen[before[k].first + j] == next[before[k].first + j]);
                    }
                }
            }
        } else {
            let mut transforms: Vec<Transform> = Vec::new();
            transforms.push(transform);
            batches.push(Batch { texture, first: i, transforms });
            proof {
                let rb = runs_of(before);
                let ra = runs_of(batches@);
                assert(run_origin(rb, n as int) == i);
                assert forall|k: int| 0 <= k < ra.len() implies #[trigger] run_in_place(ra, k) by {
                    if k < n {
                        assert(ra[k] == rb[k]);
                        assert(run_in_place(rb, k));
                    }
                    if 0 < k {
                        assert(ra[k - 1] == rb[k - 1]);
                    }
                }
                assert forall|k: int| 0 <= k < ra.len() implies #[trigger] run_uniform(
                    ra,
                    next,
                    k,
                ) by {
                    if k < n {
                        assert(ra[k] == rb[k]);
                        assert(run_uniform(rb, seen, k));
                        assert(run_in_place(rb, k));
                        lemma_run_within(rb, seen, k);
                        assert forall|j: int|
                            ra[k].first <= j < ra[k].first + ra[k].len implies (
                        #[trigger] next[j]).1.id == ra[k].texture.id by {
                            assert(seen[j] == next[j]);
                        }
                        assert(seen[rb[k].first] == next[rb[k].first]);
                    }
                }
                assert forall|k: int, j: int|
                    0 <= k < batches@.len() && 0 <= j < batches@[k].transforms@.len() implies (
                #[trigger] batches@[k].transforms@[j]) == next[batches@[k].first + j].0 by {
                    if k < n {
                        assert(batches@[k] == before[k]);
                        assert(before[k].transforms@[j] == seen[before[k].first + j].0);
                        assert(rb[k] == before[k].run());
                        lemma_run_within(rb, seen, k);
                        assert(seen[before[k].first + j] == next[before[k].first + j]);
                    }
                }
            }
        }
        i += 1;
    }
    assert(drawables@.take(i as int) =~= drawables@);
    batches
}

/// Every run of a partition lies inside the list it partitions.
pub proof fn lemma_run_within(runs: Seq<Run>, ds: Seq<Drawable>, k: int)
    requires
        partitions(runs, ds),
        0 <= k < runs.len(),
    ensures
        0 <= runs[k].first,
        runs[k].first + runs[k].len <= ds.len(),
{
    lemma_run_origin_bounds(runs, ds, k);
    lemma_run_origin_bounds(runs, ds, k + 1);
    assert(run_in_place(runs, k));
}

/// Run origins are non-negative and do not decrease with the position.
pub proof fn lemma_run_origin_bounds(runs: Seq<Run>, ds: Seq<Drawable>, k: int)
    requires
        partitions(runs, ds),
        0 <= k <= runs.len(),
    ensures
        0 <= run_origin(runs, k) <= ds.len(),
    decreases runs.len() - k,
{
    lemma_run_origin_nonneg(runs, ds, k);
    if k < runs.len() {
        lemma_run_origin_bounds(runs, ds, k + 1);
        assert(run_in_place(runs, k));
    }
}

/// Run origins are non-negative.
pub proof fn lemma_run_origin_nonneg(runs: Seq<Run>, ds: Seq<Drawable>, k: int)
    requires
        partitions(runs, ds),
        0 <= k <= runs.len(),
    ensures
        0 <= run_origin(runs, k),
    decreases k,
{
    if k > 0 {
        lemma_run_origin_nonneg(runs, ds, k - 1);
        assert(run_in_place(runs, k - 1));
    }
}

/// Two partitions of one list agree on their first `k` runs.
pub proof fn lemma_partitions_agree_upto(r1: Seq<Run>, r2: Seq<Run>, ds: Seq<Drawable>, k: int)
    requires
        partitions(r1, ds),
        partitions(r2, ds),
        0 <= k <= r1.len(),
    ensures
        k <= r2.len(),
        forall|c: int| 0 <= c < k ==> r1[c] == r2[c],
    decreases k,
{
    if k > 0 {
        let c = k - 1;
        lemma_partitions_agree_upto(r1, r2, ds, c);
        assert(run_origin(r1, c) == run_origin(r2, c)) by {
            if c > 0 {
                assert(r1[c - 1] == r2[c - 1]);
            }
        }
        let o = run_origin(r1, c);
        assert(run_in_place(r1, c));
        assert(run_uniform(r1, ds, c));
        lemma_run_within(r1, ds, c);
        assert(c < r2.len());
        assert(run_in_place(r2, c));
        assert(run_uniform(r2, ds, c));
        lemma_run_within(r2, ds, c);
        assert(r1[c].texture == r2[c].texture);
        lemma_run_reaches_change(r1, r2, ds, c);
        lemma_run_reaches_change(r2, r1, ds, c);
    }
}

/// Of two runs with the same start and texture, taken from two partitions
/// of one list, the first is not the shorter one: a run ends only where the
/// texture changes or the list ends.
proof fn lemma_run_reaches_change(a: Seq<Run>, b: Seq<Run>, ds: Seq<Drawable>, c: int)
    requires
        partitions(a, ds),
        partitions(b, ds),
        0 <= c < a.len(),
        c < b.len(),
        a[c].first == b[c].first,
        a[c].texture == b[c].texture,
    ensures
        a[c].len >= b[c].len,
{
    if a[c].len < b[c].len {
        let cut = a[c].first + a[c].len;
        assert(run_in_place(a, c));
        assert(run_uniform(b, ds, c));
        lemma_run_within(b, ds, c);
        assert(ds[cut].1.id == b[c].texture.id);
        assert(run_origin(a, c + 1) == cut);
        assert(c + 1 < a.len());
        assert(run_in_place(a, c + 1));
        assert(run_uniform(a, ds, c + 1));
        assert(a[c + 1].texture.id != a[c].texture.id);
    }
}

/// Batch contiguity: a list of drawables can be cut into batches in one way
/// only. Since `build_batches` returns such a cut, its result is the maximal
/// stretches of one texture along the paint order, and nothing else.
pub proof fn lemma_partition_unique(r1: Seq<Run>, r2: Seq<Run>, ds: Seq<Drawable>)
    requires
        partitions(r1, ds),
        partitions(r2, ds),
    ensures
        r1 == r2,
{
    lemma_partitions_agree_upto(r1, r2, ds, r1.len() as int);
    lemma_partitions_agree_upto(r2, r1, ds, r2.len() as int);
    assert(r1 =~= r2);
}

/// Batch contiguity on a stretch and a change: if the first `n` drawables
/// share a texture and one drawable of another texture follows and ends the
/// list, the batches are those `n` and that one.
pub proof fn lemma_stretch_then_change(runs: Seq<Run>, ds: Seq<Drawable>, n: int)
    requires
        partitions(runs, ds),
        n >= 1,
        ds.len() == n + 1,
        forall|i: int| 0 <= i < n ==> (#[trigger] ds[i]).1.id == ds[0].1.id,
        ds[n].1.id != ds[0].1.id,
    ensures
        runs.len() == 2,
        runs[0] == (Run { texture: ds[0].1, first: 0, len: n }),
        runs[1] == (Run { texture: ds[n].1, first: n, len: 1 }),
{
    let expected = seq![
        Run { texture: ds[0].1, first: 0, len: n },
        Run { texture: ds[n].1, first: n, len: 1 },
    ];
    assert(run_in_place(expected, 0));
    assert(run_in_place(expected, 1));
    assert(run_uniform(expected, ds, 0));
    assert(run_uniform(expected, ds, 1));
    assert(partitions(expected, ds));
    lemma_partition_unique(runs, expected, ds);
}

/// Two drawables that share a texture but have a drawable of another
/// texture between them lie in different batches.
pub proof fn lemma_separated_not_merged(
    runs: Seq<Run>,
    ds: Seq<Drawable>,
    k: int,
    i: int,
    between: int,
    j: int,
)
    requires
        partitions(runs, ds),
        0 <= k < runs.len(),
        runs[k].first <= i < between < j < ds.len(),
        i < runs[k].first + runs[k].len,
        ds[between].1.id != ds[i].1.id,
    ensures
        j >= runs[k].first + runs[k].len,
{
    assert(run_uniform(runs, ds, k));
}

} // verus!
