//! The frame plan: what one frame writes into a buffer slot and which draw
//! calls it issues.

use vstd::prelude::*;
use crate::batch::{build_batches, holds_transforms, lemma_run_within, partitions, run_in_place,
    run_origin, run_uniform, runs_of, Batch, Run};
use crate::ecs::Drawable;
use crate::geometry::{build_quad, build_quad_indices, corner_of_index, corner_vertex, Vertex,
    INDEX_STRIDE, VERTEX_STRIDE};
use crate::texture::TextureHandle;

verus! {

/// Capacity in bytes of the vertex buffer of one slot.
pub const SLOT_VERTEX_BYTES: u64 = 4096;

/// Capacity in bytes of the index buffer of one slot.
pub const SLOT_INDEX_BYTES: u64 = 4096;

/// Bytes of vertex data per quad.
pub const QUAD_VERTEX_BYTES: u64 = 64;

/// Bytes of index data per quad.
pub const QUAD_INDEX_BYTES: u64 = 12;

/// Why a frame could not be rendered.
#[derive(Clone, Copy, Debug, PartialEq, Eq, Structural)]
pub enum RenderError {
    /// The frame's vertex or index data does not fit into a buffer slot.
    BatchOverflow,
    /// The surface gave no image, also not after it was configured anew.
    SurfaceLost,
}

/// Whether the geometry of `quads` quads fits into one buffer slot.
pub open spec fn fits_slot(quads: int) -> bool {
    quads * QUAD_VERTEX_BYTES <= SLOT_VERTEX_BYTES && quads * QUAD_INDEX_BYTES <= SLOT_INDEX_BYTES
}

/// One draw call: the texture to bind, and where the batch's vertices and
/// indices lie in the buffers of the slot.
#[derive(Clone, Copy, Debug, PartialEq, Eq, Structural)]
pub struct BatchDraw {
    /// The texture to bind for this draw call.
    pub texture: TextureHandle,
    /// Byte offset of the batch's first vertex in the vertex buffer.
    pub vertex_offset: u64,
    /// Byte offset behind the batch's last vertex in the vertex buffer.
    pub vertex_end: u64,
    /// Number of vertices of the batch.
    pub vertex_count: u32,
    /// Byte offset of the batch's first index in the index buffer.
    pub index_offset: u64,
    /// Byte offset behind the batch's last index in the index buffer.
    pub index_end: u64,
    /// Number of indices of the batch.
    pub index_count: u32,
}

/// The draw call for a run of drawables.
pub open spec fn draw_of(run: Run) -> BatchDraw {
    BatchDraw {
        texture: run.texture,
        vertex_offset: (run.first * QUAD_VERTEX_BYTES) as u64,
        vertex_end: ((run.first + run.len) * QUAD_VERTEX_BYTES) as u64,
        vertex_count: (run.len * 4) as u32,
        index_offset: (run.first * QUAD_INDEX_BYTES) as u64,
        index_end: ((run.first + run.len) * QUAD_INDEX_BYTES) as u64,
        index_count: (run.len * 6) as u32,
    }
}

impl BatchDraw {
    /// The run of drawables that the draw call paints.
    pub open spec fn run(self) -> Run {
        Run {
            texture: self.texture,
            first: self.vertex_offset as int / QUAD_VERTEX_BYTES as int,
            len: self.vertex_count as int / 4,
        }
    }
}

/// The runs that a list of draw calls paints.
pub open spec fn draw_runs(draws: Seq<BatchDraw>) -> Seq<Run> {
    Seq::new(draws.len(), |k: int| draws[k].run())
}

/// The vertices of a frame: four per drawable, in paint order.
pub open spec fn frame_vertices(ds: Seq<Drawable>) -> Seq<Vertex> {
    Seq::new(4 * ds.len(), |v: int| corner_vertex(ds[v / 4].0, v % 4))
}

/// Position of the first drawable of the batch that the drawable at position
/// `q` belongs to: the start of the longest stretch of one texture that ends
/// at `q`.
pub open spec fn batch_start(ds: Seq<Drawable>, q: int) -> int
    decreases q,
{
    if q <= 0 {
        0
    } else if ds[q].1.id != ds[q - 1].1.id {
        q
    } else {
        batch_start(ds, q - 1)
    }
}

/// The index at position `p` of a frame's index list: it belongs to quad
/// `p / 6`, and counts vertices from the first vertex of that quad's batch.
pub open spec fn frame_index(ds: Seq<Drawable>, p: int) -> int {
    4 * (p / 6 - batch_start(ds, p / 6)) + corner_of_index(p % 6)
}

/// The indices of a frame: six per drawable, in paint order.
pub open spec fn frame_indices(ds: Seq<Drawable>) -> Seq<u16> {
    Seq::new(6 * ds.len(), |p: int| frame_index(ds, p) as u16)
}

/// Whether `bytes` hold `indices` with two bytes each, the low byte first.
pub open spec fn low_byte_first(indices: Seq<u16>, bytes: Seq<u8>) -> bool {
    forall|i: int|
        0 <= i < indices.len() ==> (#[trigger] indices[i]) == bytes[2 * i] + 256 * bytes[2 * i + 1]
}

/// Whether `bytes` hold `indices` with two bytes each, the high byte first.
pub open spec fn high_byte_first(indices: Seq<u16>, bytes: Seq<u8>) -> bool {
    forall|i: int|
        0 <= i < indices.len() ==> (#[trigger] indices[i]) == 256 * bytes[2 * i] + bytes[2 * i + 1]
}

/// Whether `bytes` are `indices` as they lie in memory: two bytes for each
/// index, all in the one byte order of the machine.
pub open spec fn index_bytes_of(indices: Seq<u16>, bytes: Seq<u8>) -> bool {
    &&& bytes.len() == 2 * indices.len()
    &&& low_byte_first(indices, bytes) || high_byte_first(indices, bytes)
}

/// The bytes of a list of indices, as an index buffer takes them.
///
/// Calls `bytemuck::cast_slice` to view the indices as bytes and copies the
/// view. Trusted: the view has two bytes for each index and shows each index
/// as it lies in memory, which is low byte first on some machines and high
/// byte first on others.
#[verifier::external_body]
fn index_bytes(indices: &[u16]) -> (bytes: Vec<u8>)
    ensures
        index_bytes_of(indices@, bytes@),
{
    bytemuck::cast_slice::<u16, u8>(indices).to_vec()
}

/// What one frame sends to the GPU.
#[derive(Debug)]
pub struct FramePlan {
    /// The buffer slot that the data is written to and drawn from.
    pub slot: usize,
    /// Vertex data, written at the start of the slot's vertex buffer.
    pub vertices: Vec<Vertex>,
    /// The indices of all quads, in paint order.
    pub indices: Vec<u16>,
    /// The indices as bytes, written at the start of the slot's index buffer.
    pub index_data: Vec<u8>,
    /// The draw calls, in paint order.
    pub draws: Vec<BatchDraw>,
}

impl FramePlan {
    /// Whether the plan paints the drawables `ds`, in this order, from the
    /// buffer slot `slot`: one draw call per batch, each with the byte
    /// offsets and counts of its batch, and the vertices and indices of all
    /// quads in paint order.
    pub open spec fn paints(&self, ds: Seq<Drawable>, slot: int) -> bool {
        &&& self.slot == slot
        &&& self.vertices@ == frame_vertices(ds)
        &&& self.indices@ == frame_indices(ds)
        &&& index_bytes_of(self.indices@, self.index_data@)
        &&& partitions(draw_runs(self.draws@), ds)
        &&& forall|k: int|
            0 <= k < self.draws@.len() ==> #[trigger] self.draws@[k] == draw_of(
                self.draws@[k].run(),
            )
    }
}

/// In a partition, the batch of a drawable starts where its run starts.
pub proof fn lemma_batch_start(runs: Seq<Run>, ds: Seq<Drawable>, k: int, q: int)
    requires
        partitions(runs, ds),
        0 <= k < runs.len(),
        runs[k].first <= q < runs[k].first + runs[k].len,
    ensures
        batch_start(ds, q) == runs[k].first,
    decreases q - runs[k].first,
{
    assert(run_in_place(runs, k));
    assert(run_uniform(runs, ds, k));
    lemma_run_within(runs, ds, k);
    if q == runs[k].first {
        if q > 0 {
            assert(k > 0);
            assert(run_in_place(runs, k - 1));
            assert(run_uniform(runs, ds, k - 1));
            assert(ds[q - 1].1.id == runs[k - 1].texture.id);
            assert(ds[q].1.id == runs[k].texture.id);
        }
    } else {
        lemma_batch_start(runs, ds, k, q - 1);
        assert(ds[q - 1].1.id == runs[k].texture.id);
        assert(ds[q].1.id == runs[k].texture.id);
    }
}

/// Index pattern: the six indices of the `i`-th quad of a batch are `4i`,
/// `4i + 1`, `4i + 2`, `4i + 2`, `4i + 3` and `4i`, wherever the batch lies in
/// the frame.
pub proof fn lemma_index_pattern(runs: Seq<Run>, ds: Seq<Drawable>, k: int, i: int, m: int)
    requires
        partitions(runs, ds),
        0 <= k < runs.len(),
        0 <= i < runs[k].len,
        0 <= m < 6,
    ensures
        frame_index(ds, 6 * (runs[k].first + i) + m) == 4 * i + corner_of_index(m),
        fits_slot(ds.len() as int) ==> frame_indices(ds)[6 * (runs[k].first + i) + m] == 4 * i
            + corner_of_index(m),
{
    let q = runs[k].first + i;
    lemma_batch_start(runs, ds, k, q);
    lemma_run_within(runs, ds, k);
    assert((6 * q + m) / 6 == q);
    assert((6 * q + m) % 6 == m);
}

/// Vertex layout: the four vertices of the drawable at position `q` lie at
/// the positions `4q` to `4q + 3` of the frame's vertices, in winding order.
pub proof fn lemma_vertex_layout(ds: Seq<Drawable>, q: int, corner: int)
    requires
        0 <= q < ds.len(),
        0 <= corner < 4,
    ensures
        frame_vertices(ds)[4 * q + corner] == corner_vertex(ds[q].0, corner),
{
    assert((4 * q + corner) / 4 == q);
    assert((4 * q + corner) % 4 == corner);
}

/// Builds the vertices of a frame: the quad of every drawable, in order.
pub fn build_vertices(drawables: &Vec<Drawable>) -> (vertices: Vec<Vertex>)
    ensures
        vertices@ == frame_vertices(drawables@),
{
    let mut vertices: Vec<Vertex> = Vec::new();
    let mut q: usize = 0;
    while q < drawables.len()
        invariant
            q <= drawables.len(),
            vertices@ == frame_vertices(drawables@).take(4 * q),
        decreases drawables.len() - q,
    {
        let quad = build_quad(&drawables[q].0);
        let ghost before = vertices@;
        vertices.push(quad[0]);
        vertices.push(quad[1]);
        vertices.push(quad[2]);
        vertices.push(quad[3]);
        proof {
            let all = frame_vertices(drawables@);
            assert forall|v: int| 0 <= v < 4 * q + 4 implies vertices@[v] == all[v] by {
                if v < 4 * q {
                    assert(vertices@[v] == before[v]);
                } else {
                    assert(v / 4 == q as int);
                    assert(quad@[v % 4] == corner_vertex(drawables@[q as int].0, v % 4));
                }
            }
            assert(vertices@ =~= all.take(4 * (q + 1)));
        }
        q += 1;
    }
    assert(vertices@ =~= frame_vertices(drawables@));
    vertices
}

/// Lays out one frame: groups the paint-ordered drawables into batches,
/// builds the vertices and indices of their quads and records one draw call
/// per batch. Fails when the data would not fit into a buffer slot.
pub fn plan_frame(drawables: &Vec<Drawable>, slot: usize) -> (result: Result<
    FramePlan,
    RenderError,
>)
    ensures
        match result {
            Ok(plan) => fits_slot(drawables@.len() as int) && plan.paints(
                drawables@,
                slot as int,
            ),
            Err(e) => !fits_slot(drawables@.len() as int) && e == RenderError::BatchOverflow,
        },
{
    let n: usize = drawables.len();
    if n as u64 > SLOT_VERTEX_BYTES / QUAD_VERTEX_BYTES || n as u64 > SLOT_INDEX_BYTES
        / QUAD_INDEX_BYTES {
        return Err(RenderError::BatchOverflow);
    }
    let batches: Vec<Batch> = build_batches(drawables);
    let vertices: Vec<Vertex> = build_vertices(drawables);
    let mut indices: Vec<u16> = Vec::new();
    let mut draws: Vec<BatchDraw> = Vec::new();
    let ghost ds = drawables@;
    let ghost runs = runs_of(batches@);
    let mut k: usize = 0;
    while k < batches.len()
        invariant
            k <= batches.len(),
            n <= 64,
            ds == drawables@,
            ds.len() == n,
            runs == runs_of(batches@),
            partitions(runs, ds),
            draws@.len() == k,
            forall|c: int| 0 <= c < k ==> #[trigger] draws@[c] == draw_of(runs[c]),
            indices@ == frame_indices(ds).take(6 * run_origin(runs, k as int)),
        decreases batches.len() - k,
    {
        let first: usize = batches[k].first;
        let len: usize = batches[k].len();
        proof {
            assert(runs[k as int] == batches@[k as int].run());
            assert(run_in_place(runs, k as int));
            lemma_run_within(runs, ds, k as int);
        }
        let mut j: usize = 0;
        while j < len
            invariant
                j <= len,
                n <= 64,
                ds.len() == n,
                0 <= k < runs.len(),
                partitions(runs, ds),
                first == runs[k as int].first,
                len == runs[k as int].len,
                first + len <= n,
                indices@ == frame_indices(ds).take(6 * (first + j)),
            decreases len - j,
        {
            let base: u16 = (4 * j) as u16;
            let quad = build_quad_indices(base);
            let ghost before = indices@;
            indices.push(quad[0]);
            indices.push(quad[1]);
            indices.push(quad[2]);
            indices.push(quad[3]);
            indices.push(quad[4]);
            indices.push(quad[5]);
            proof {
                let all = frame_indices(ds);
                let q = first + j;
                lemma_batch_start(runs, ds, k as int, q);
                assert forall|p: int| 0 <= p < 6 * q + 6 implies indices@[p] == all[p] by {
                    if p < 6 * q {
                        assert(indices@[p] == before[p]);
                    } else {
                        assert(p / 6 == q);
                        assert(quad@[p % 6] as int == crate::geometry::quad_indices(base as int)[p
                            % 6]);
                        assert(frame_index(ds, p) == 4 * j + corner_of_index(p % 6));
                    }
                }
                assert(indices@ =~= all.take(6 * (q + 1)));
            }
            j += 1;
        }
        draws.push(
            BatchDraw {
                texture: batches[k].texture,
                vertex_offset: first as u64 * QUAD_VERTEX_BYTES,
                vertex_end: (first + len) as u64 * QUAD_VERTEX_BYTES,
                vertex_count: (len * 4) as u32,
                index_offset: first as u64 * QUAD_INDEX_BYTES,
                index_end: (first + len) as u64 * QUAD_INDEX_BYTES,
                index_count: (len * 6) as u32,
            },
        );
        proof {
            assert(draws@[k as int] == draw_of(runs[k as int]));
            assert(run_origin(runs, k + 1) == first + len);
        }
        k += 1;
    }
    proof {
        let dr = draw_runs(draws@);
        assert forall|c: int| 0 <= c < runs.len() implies dr[c] == runs[c] by {
            assert(draws@[c] == draw_of(runs[c]));
            assert(run_in_place(runs, c));
            lemma_run_within(runs, ds, c);
        }
        assert(dr =~= runs);
        assert(indices@ =~= frame_indices(ds));
    }
    let index_data: Vec<u8> = index_bytes(indices.as_slice());
    Ok(FramePlan { slot, vertices, indices, index_data, draws })
}

/// A plan that paints a list which fits into a slot writes no more than the
/// slot's buffers hold.
pub proof fn lemma_plan_within_slot(plan: FramePlan, ds: Seq<Drawable>, slot: int)
    requires
        plan.paints(ds, slot),
        fits_slot(ds.len() as int),
    ensures
        plan.vertices@.len() * VERTEX_STRIDE <= SLOT_VERTEX_BYTES,
        plan.index_data@.len() <= SLOT_INDEX_BYTES,
{
}

/// Every draw call of a plan reads vertices and indices that the plan
/// writes: its byte ranges end within the written data.
pub proof fn lemma_draw_within_data(plan: FramePlan, ds: Seq<Drawable>, slot: int, k: int)
    requires
        plan.paints(ds, slot),
        fits_slot(ds.len() as int),
        0 <= k < plan.draws@.len(),
    ensures
        plan.draws@[k].vertex_end == plan.draws@[k].vertex_offset + plan.draws@[k].vertex_count
            * VERTEX_STRIDE,
        plan.draws@[k].vertex_end <= plan.vertices@.len() * VERTEX_STRIDE,
        plan.draws@[k].index_end == plan.draws@[k].index_offset + plan.draws@[k].index_count
            * INDEX_STRIDE,
        plan.draws@[k].index_end <= plan.index_data@.len(),
{
    let runs = draw_runs(plan.draws@);
    lemma_run_within(runs, ds, k);
    assert(run_in_place(runs, k));
    assert(plan.draws@[k] == draw_of(plan.draws@[k].run()));
}

} // verus!
