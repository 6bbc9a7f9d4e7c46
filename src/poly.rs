use vstd::prelude::*;
use crate::renderer::{DrawError, Renderer, saturating_sum};

verus! {

/// Vertices the polygon pipeline's vertex buffer holds; its index buffer holds
/// as many indices.
pub const MAX_DEFAULT_VERTICES: usize = 1000;

/// Primitive records the polygon pipeline's uniform array holds.
pub const MAX_DEFAULT_PRIMITIVES: usize = 2;

/// One finished shape: its per-shape record (color, rotation, origin), which
/// the vertex shader applies, and how many indices of the shared mesh it owns.
pub struct Primitive<P> {
    pub style: P,
    pub indices_count: u32,
}

/// A half-open range `start..end` of the shared index buffer.
#[derive(Debug, Clone, Copy, PartialEq, Eq, Structural)]
pub struct IndexRange {
    pub start: u32,
    pub end: u32,
}

/// The shared mesh of the pending shapes.
pub ghost struct MeshView<V, P> {
    /// Vertex positions, in the order the tessellator produced them.
    pub positions: Seq<V>,
    /// For each vertex, the id of the primitive it belongs to.
    pub prim_ids: Seq<u32>,
    /// Indices into `positions`, three per triangle.
    pub indices: Seq<u16>,
    /// The finished shapes, in the order they were drawn.
    pub primitives: Seq<Primitive<P>>,
    /// Indices added since the last finished shape.
    pub pending: nat,
}

/// The number of indices the given shapes own together.
pub open spec fn index_total<P>(prims: Seq<Primitive<P>>) -> nat
    decreases prims.len(),
{
    if prims.len() == 0 {
        0
    } else {
        index_total(prims.drop_last()) + prims.last().indices_count as nat
    }
}

/// The index range of each shape: each starts where the previous one ended.
pub open spec fn draw_ranges<P>(prims: Seq<Primitive<P>>) -> Seq<IndexRange> {
    Seq::new(
        prims.len(),
        |i: int|
            IndexRange {
                start: index_total(prims.take(i)) as u32,
                end: index_total(prims.take(i + 1)) as u32,
            },
    )
}

/// A mesh is made of whole triangles, and every index names one of its
/// `n_vertices` vertices.
pub open spec fn mesh_is_valid(n_vertices: nat, indices: Seq<u16>) -> bool {
    &&& indices.len() % 3 == 0
    &&& forall|j: int| 0 <= j < indices.len() ==> indices[j] < n_vertices
}

/// The number of draw calls executing the polygon pipeline issues: one per
/// finished primitive, and none when the mesh holds no vertex.
pub open spec fn mesh_draws<V, P>(mesh: MeshView<V, P>) -> nat {
    if mesh.positions.len() == 0 {
        0
    } else {
        mesh.primitives.len()
    }
}

impl<V, P> MeshView<V, P> {
    pub open spec fn empty() -> MeshView<V, P> {
        MeshView {
            positions: Seq::empty(),
            prim_ids: Seq::empty(),
            indices: Seq::empty(),
            primitives: Seq::empty(),
            pending: 0,
        }
    }

    /// Each finished primitive's index range names only vertices tagged with
    /// that primitive's id, and the indices after the last finished primitive
    /// name only vertices tagged with the id of the shape in progress.
    pub open spec fn indices_own_vertices(self) -> bool {
        &&& forall|k: int, j: int|
            #![trigger draw_ranges(self.primitives)[k], self.indices[j]]
            0 <= k < self.primitives.len() && draw_ranges(self.primitives)[k].start <= j
                < draw_ranges(self.primitives)[k].end ==> self.prim_ids[self.indices[j] as int]
                == k
        &&& forall|j: int|
            #![trigger self.indices[j]]
            index_total(self.primitives) <= j < self.indices.len() ==> self.prim_ids[self.indices[j]
                as int] == self.primitives.len()
    }

    /// The mesh fits the pipeline's fixed buffers, is made of whole triangles
    /// whose indices name its own vertices, and its primitives own exactly the
    /// indices before the shape in progress.
    pub open spec fn is_well_formed(self) -> bool {
        &&& self.positions.len() == self.prim_ids.len()
        &&& self.positions.len() <= MAX_DEFAULT_VERTICES
        &&& self.indices.len() <= MAX_DEFAULT_VERTICES
        &&& self.primitives.len() <= MAX_DEFAULT_PRIMITIVES
        &&& index_total(self.primitives) + self.pending == self.indices.len()
        &&& mesh_is_valid(self.positions.len(), self.indices)
        &&& self.indices_own_vertices()
    }

    /// Whether a mesh of `n_vertices` vertices and `n_indices` indices, and a
    /// new primitive record where `finishes`, fit the pipeline's buffers.
    pub open spec fn fits(self, n_vertices: nat, n_indices: nat, finishes: bool) -> bool {
        &&& self.positions.len() + n_vertices <= MAX_DEFAULT_VERTICES
        &&& self.indices.len() + n_indices <= MAX_DEFAULT_VERTICES
        &&& finishes ==> self.primitives.len() < MAX_DEFAULT_PRIMITIVES
    }

    /// The mesh after appending a tessellated shape: its vertices are tagged
    /// with the current primitive id, its indices are moved past the vertices
    /// already there, and where `primitive` is given the shape is finished with
    /// every index added since the last finished shape.
    pub open spec fn with_mesh(self, vertices: Seq<V>, indices: Seq<u16>, primitive: Option<P>) -> MeshView<V, P> {
        let base = self.positions.len();
        let id = self.primitives.len() as u32;
        let pending = self.pending + indices.len();
        MeshView {
            positions: self.positions + vertices,
            prim_ids: self.prim_ids + Seq::new(vertices.len(), |i: int| id),
            indices: self.indices + Seq::new(indices.len(), |i: int| (base + indices[i]) as u16),
            primitives: match primitive {
                Some(p) => self.primitives.push(Primitive { style: p, indices_count: pending as u32 }),
                None => self.primitives,
            },
            pending: if primitive is Some {
                0
            } else {
                pending
            },
        }
    }
}

/// Everything one execution of the polygon pipeline uploads and draws: the
/// shared mesh, the primitive records, and one indexed draw per primitive over
/// `ranges`.
pub struct MeshDraw<V, P> {
    pub positions: Vec<V>,
    pub prim_ids: Vec<u32>,
    pub indices: Vec<u16>,
    pub primitives: Vec<Primitive<P>>,
    pub ranges: Vec<IndexRange>,
}

impl<V, P> MeshDraw<V, P> {
    /// Whether this holds the given mesh and draws each of its primitives, in
    /// order, over consecutive index ranges.
    pub open spec fn holds(self, mesh: MeshView<V, P>) -> bool {
        &&& self.positions@ == mesh.positions
        &&& self.prim_ids@ == mesh.prim_ids
        &&& self.indices@ == mesh.indices
        &&& self.primitives@ == mesh.primitives
        &&& self.ranges@ == draw_ranges(mesh.primitives)
    }
}

/// Tessellated shapes accumulated into one shared vertex and index buffer.
pub struct PolyPipeline<V, P> {
    positions: Vec<V>,
    prim_ids: Vec<u32>,
    indices: Vec<u16>,
    primitives: Vec<Primitive<P>>,
    v_count: u32,
    i_index: u32,
}

impl<V, P> View for PolyPipeline<V, P> {
    type V = MeshView<V, P>;

    closed spec fn view(&self) -> MeshView<V, P> {
        MeshView {
            positions: self.positions@,
            prim_ids: self.prim_ids@,
            indices: self.indices@,
            primitives: self.primitives@,
            pending: self.v_count as nat,
        }
    }
}

proof fn lemma_index_total_push<P>(prims: Seq<Primitive<P>>, p: Primitive<P>)
    ensures
        index_total(prims.push(p)) == index_total(prims) + p.indices_count,
{
    assert(prims.push(p).drop_last() =~= prims);
}

proof fn lemma_index_total_step<P>(prims: Seq<Primitive<P>>, i: int)
    requires
        0 <= i < prims.len(),
    ensures
        index_total(prims.take(i + 1)) == index_total(prims.take(i)) + prims[i].indices_count,
{
    assert(prims.take(i + 1).drop_last() =~= prims.take(i));
}

proof fn lemma_index_total_prefix<P>(prims: Seq<Primitive<P>>, i: int)
    requires
        0 <= i <= prims.len(),
    ensures
        index_total(prims.take(i)) <= index_total(prims),
    decreases prims.len() - i,
{
    if i == prims.len() {
        assert(prims.take(i) =~= prims);
    } else {
        lemma_index_total_step(prims, i);
        lemma_index_total_prefix(prims, i + 1);
    }
}

proof fn lemma_draw_ranges_push<P>(prims: Seq<Primitive<P>>, p: Primitive<P>)
    ensures
        forall|k: int|
            0 <= k < prims.len() ==> #[trigger] draw_ranges(prims.push(p))[k] == draw_ranges(
                prims,
            )[k],
        draw_ranges(prims.push(p))[prims.len() as int] == (IndexRange {
            start: index_total(prims) as u32,
            end: (index_total(prims) + p.indices_count) as u32,
        }),
{
    let q = prims.push(p);
    assert forall|k: int| 0 <= k < prims.len() implies #[trigger] draw_ranges(q)[k] == draw_ranges(
        prims,
    )[k] by {
        assert(q.take(k) =~= prims.take(k));
        assert(q.take(k + 1) =~= prims.take(k + 1));
    }
    assert(q.take(prims.len() as int) =~= prims);
    assert(q.take(prims.len() as int + 1) =~= q);
    lemma_index_total_push(prims, p);
}

/// A range's end never passes the total the primitives own.
proof fn lemma_range_end_bound<P>(prims: Seq<Primitive<P>>, k: int)
    requires
        0 <= k < prims.len(),
        index_total(prims) <= u32::MAX,
    ensures
        draw_ranges(prims)[k].end <= index_total(prims),
        draw_ranges(prims)[k].start == index_total(prims.take(k)),
        draw_ranges(prims)[k].end == index_total(prims.take(k + 1)),
{
    lemma_index_total_prefix(prims, k);
    lemma_index_total_prefix(prims, k + 1);
}

proof fn lemma_with_mesh_well_formed<V, P>(
    m: MeshView<V, P>,
    vertices: Seq<V>,
    indices: Seq<u16>,
    primitive: Option<P>,
)
    requires
        m.is_well_formed(),
        mesh_is_valid(vertices.len(), indices),
        m.fits(vertices.len(), indices.len(), primitive is Some),
    ensures
        m.with_mesh(vertices, indices, primitive).is_well_formed(),
{
    let n = m.with_mesh(vertices, indices, primitive);
    let n_old = m.indices.len();
    let id = m.primitives.len();
    let base = m.positions.len();
    assert forall|j: int| 0 <= j < n.indices.len() implies #[trigger] n.indices[j]
        < n.positions.len() && n.prim_ids[n.indices[j] as int] as int == if j < n_old {
        m.prim_ids[m.indices[j] as int] as int
    } else {
        id as int
    } by {
        if j >= n_old {
            let i = j - n_old;
            assert(indices[i] < vertices.len());
            assert(n.indices[j] == (base + indices[i]) as u16);
        } else {
            assert(m.indices[j] < base);
        }
    }
    assert(mesh_is_valid(n.positions.len(), n.indices));
    match primitive {
        Some(p) => {
            let rec = Primitive { style: p, indices_count: (m.pending + indices.len()) as u32 };
            lemma_index_total_push(m.primitives, rec);
            lemma_draw_ranges_push(m.primitives, rec);
            assert(n.primitives == m.primitives.push(rec));
            assert forall|k: int, j: int|
                #![trigger draw_ranges(n.primitives)[k], n.indices[j]]
                0 <= k < n.primitives.len() && draw_ranges(n.primitives)[k].start <= j
                    < draw_ranges(n.primitives)[k].end implies n.prim_ids[n.indices[j] as int]
                == k by {
                if k < id {
                    lemma_range_end_bound(m.primitives, k);
                    assert(draw_ranges(m.primitives)[k] == draw_ranges(n.primitives)[k]);
                    assert(m.indices[j] == n.indices[j]);
                } else if j < n_old {
                    assert(m.indices[j] == n.indices[j]);
                }
            }
        },
        None => {
            assert forall|k: int, j: int|
                #![trigger draw_ranges(n.primitives)[k], n.indices[j]]
                0 <= k < n.primitives.len() && draw_ranges(n.primitives)[k].start <= j
                    < draw_ranges(n.primitives)[k].end implies n.prim_ids[n.indices[j] as int]
                == k by {
                lemma_range_end_bound(m.primitives, k);
                assert(m.indices[j] == n.indices[j]);
            }
            assert forall|j: int| index_total(n.primitives) <= j < n.indices.len() implies n.prim_ids[
                #[trigger] n.indices[j] as int] == n.primitives.len() by {
                if j < n_old {
                    assert(m.indices[j] == n.indices[j]);
                }
            }
        },
    }
}

/// The index range each primitive draws, in order.
fn ranges_of<P>(prims: &Vec<Primitive<P>>) -> (r: Vec<IndexRange>)
    requires
        index_total(prims@) <= MAX_DEFAULT_VERTICES,
    ensures
        r@ == draw_ranges(prims@),
{
    let mut ranges: Vec<IndexRange> = Vec::new();
    let mut offset: u32 = 0;
    let mut i: usize = 0;
    while i < prims.len()
        invariant
            i <= prims@.len(),
            index_total(prims@) <= MAX_DEFAULT_VERTICES,
            offset == index_total(prims@.take(i as int)),
            ranges@.len() == i,
            forall|k: int| 0 <= k < i ==> ranges@[k] == draw_ranges(prims@)[k],
        decreases prims@.len() - i,
    {
        proof {
            lemma_index_total_step(prims@, i as int);
            lemma_index_total_prefix(prims@, i + 1);
        }
        let end = offset + prims[i].indices_count;
        ranges.push(IndexRange { start: offset, end });
        offset = end;
        i = i + 1;
    }
    assert(ranges@ =~= draw_ranges(prims@));
    ranges
}

/// The draw ranges tile the indices the primitives own: the first starts at
/// zero, each starts where the previous one ended and spans its primitive's
/// indices, and the last ends at their total.
pub proof fn lemma_draw_ranges_contiguous<P>(prims: Seq<Primitive<P>>)
    requires
        index_total(prims) <= u32::MAX,
    ensures
        prims.len() > 0 ==> draw_ranges(prims)[0].start == 0,
        prims.len() > 0 ==> draw_ranges(prims)[prims.len() - 1].end == index_total(prims),
        forall|i: int|
            0 <= i < prims.len() ==> draw_ranges(prims)[i].end == draw_ranges(prims)[i].start
                + prims[i].indices_count,
        forall|i: int|
            0 <= i < prims.len() - 1 ==> draw_ranges(prims)[i].end == draw_ranges(prims)[i
                + 1].start,
{
    assert(prims.take(0) =~= Seq::<Primitive<P>>::empty());
    assert forall|i: int| 0 <= i < prims.len() implies draw_ranges(prims)[i].end == draw_ranges(
        prims,
    )[i].start + prims[i].indices_count by {
        lemma_index_total_step(prims, i);
        lemma_index_total_prefix(prims, i + 1);
    }
    if prims.len() > 0 {
        assert(prims.take(prims.len() as int) =~= prims);
    }
}

/// Whether the indices make whole triangles over `n_vertices` vertices.
fn indices_in_range(indices: &Vec<u16>, n_vertices: usize) -> (b: bool)
    ensures
        b == mesh_is_valid(n_vertices as nat, indices@),
{
    if indices.len() % 3 != 0 {
        return false;
    }
    let mut j: usize = 0;
    while j < indices.len()
        invariant
            j <= indices@.len(),
            forall|k: int| 0 <= k < j ==> indices@[k] < n_vertices,
        decreases indices@.len() - j,
    {
        if indices[j] as usize >= n_vertices {
            return false;
        }
        j = j + 1;
    }
    true
}

impl<V, P> PolyPipeline<V, P> {
    pub closed spec fn wf(&self) -> bool {
        &&& self@.is_well_formed()
        &&& self.i_index == self.primitives@.len()
    }

    /// An empty pipeline.
    pub fn create() -> (p: Self)
        ensures
            p.wf(),
            p@ == MeshView::<V, P>::empty(),
    {
        PolyPipeline {
            positions: Vec::new(),
            prim_ids: Vec::new(),
            indices: Vec::new(),
            primitives: Vec::new(),
            v_count: 0,
            i_index: 0,
        }
    }

    /// Drops the shared mesh and every primitive record.
    pub fn clear(&mut self)
        requires
            old(self).wf(),
        ensures
            final(self).wf(),
            final(self)@ == MeshView::<V, P>::empty(),
    {
        self.positions = Vec::new();
        self.prim_ids = Vec::new();
        self.indices = Vec::new();
        self.primitives = Vec::new();
        self.v_count = 0;
        self.i_index = 0;
    }

    pub fn index_count(&self) -> (n: usize)
        ensures
            n == self@.indices.len(),
    {
        self.indices.len()
    }

    pub fn vertex_count(&self) -> (n: usize)
        ensures
            n == self@.positions.len(),
    {
        self.positions.len()
    }

    pub fn primitives(&self) -> (v: &Vec<Primitive<P>>)
        ensures
            v@ == self@.primitives,
    {
        &self.primitives
    }

    /// Appends one tessellated shape (its own vertices, and indices into them)
    /// to the shared mesh, and finishes the current primitive with
    /// `primitive` when it is given. A mesh with an index past its vertices
    /// is refused, and so is one that does not fit the buffers.
    pub fn add_mesh(&mut self, vertices: Vec<V>, indices: Vec<u16>, primitive: Option<P>) -> (r:
        Result<(), DrawError>)
        requires
            old(self).wf(),
        ensures
            final(self).wf(),
            !mesh_is_valid(vertices@.len(), indices@) ==> r == Err::<(), DrawError>(
                DrawError::InvalidMesh,
            ) && final(self)@ == old(self)@,
            mesh_is_valid(vertices@.len(), indices@) && !old(self)@.fits(
                vertices@.len(),
                indices@.len(),
                primitive is Some,
            ) ==> r == Err::<(), DrawError>(DrawError::CapacityExceeded) && final(self)@ == old(
                self,
            )@,
            mesh_is_valid(vertices@.len(), indices@) && old(self)@.fits(
                vertices@.len(),
                indices@.len(),
                primitive is Some,
            ) ==> r is Ok && final(self)@ == old(self)@.with_mesh(vertices@, indices@, primitive),
            final(self)@.is_well_formed(),
    {
        let n_vertices = vertices.len();
        if !indices_in_range(&indices, n_vertices) {
            return Err(DrawError::InvalidMesh);
        }
        if n_vertices > MAX_DEFAULT_VERTICES - self.positions.len() || indices.len()
            > MAX_DEFAULT_VERTICES - self.indices.len() || (primitive.is_some()
            && self.primitives.len() >= MAX_DEFAULT_PRIMITIVES) {
            return Err(DrawError::CapacityExceeded);
        }
        let ghost old_view = self@;
        let ghost new_vertices = vertices@;
        let base = self.positions.len();
        let id = self.i_index;

        let mut shifted: Vec<u16> = Vec::new();
        let mut k: usize = 0;
        while k < indices.len()
            invariant
                k <= indices@.len(),
                base + n_vertices <= MAX_DEFAULT_VERTICES,
                mesh_is_valid(n_vertices as nat, indices@),
                shifted@ =~= Seq::new(k as nat, |i: int| (base + indices@[i]) as u16),
            decreases indices@.len() - k,
        {
            shifted.push((base + indices[k] as usize) as u16);
            k = k + 1;
        }

        let mut ids: Vec<u32> = Vec::new();
        let mut m: usize = 0;
        while m < n_vertices
            invariant
                m <= n_vertices,
                ids@ =~= Seq::new(m as nat, |i: int| id),
            decreases n_vertices - m,
        {
            ids.push(id);
            m = m + 1;
        }

        let mut vertices = vertices;
        self.positions.append(&mut vertices);
        self.prim_ids.append(&mut ids);
        self.indices.append(&mut shifted);
        let pending = self.v_count + indices.len() as u32;
        match primitive {
            Some(style) => {
                let record = Primitive { style, indices_count: pending };
                proof {
                    lemma_index_total_push(self.primitives@, record);
                }
                self.primitives.push(record);
                self.v_count = 0;
                self.i_index = self.i_index + 1;
            },
            None => {
                self.v_count = pending;
            },
        }
        assert(self.indices@ =~= old_view.indices + Seq::new(
            indices@.len(),
            |i: int| (base + indices@[i]) as u16,
        ));
        assert(self@.prim_ids =~= old_view.prim_ids + Seq::new(new_vertices.len(), |i: int| id));
        assert(self@ =~= old_view.with_mesh(new_vertices, indices@, primitive));
        proof {
            lemma_with_mesh_well_formed(old_view, new_vertices, indices@, primitive);
        }
        Ok(())
    }

    /// Hands out the shared mesh and the primitive records for upload, with
    /// one indexed draw per finished primitive over consecutive index ranges,
    /// counts those draws, and leaves the pipeline empty; indices of a shape
    /// that was never finished are uploaded but not drawn. With no vertex
    /// nothing is uploaded, drawn or counted and the pipeline is left as it is.
    pub fn execute(&mut self, renderer: &mut Renderer) -> (r: Option<MeshDraw<V, P>>)
        requires
            old(self).wf(),
        ensures
            final(self).wf(),
            old(self)@.is_well_formed(),
            old(self)@.positions.len() == 0 <==> r is None,
            r is None ==> final(self)@ == old(self)@,
            r matches Some(d) ==> d.holds(old(self)@) && final(self)@ == MeshView::<V, P>::empty(),
            r matches Some(d) ==> d.positions@.len() <= MAX_DEFAULT_VERTICES && d.indices@.len()
                <= MAX_DEFAULT_VERTICES && d.primitives@.len() <= MAX_DEFAULT_PRIMITIVES
                && mesh_is_valid(d.positions@.len(), d.indices@),
            *final(renderer) == (Renderer {
                draw_calls: saturating_sum(old(renderer).draw_calls, mesh_draws(old(self)@)),
                ..*old(renderer)
            }),
    {
        if self.positions.len() == 0 {
            return None;
        }
        proof {
            lemma_index_total_prefix(self.primitives@, 0);
        }
        let ranges = ranges_of(&self.primitives);
        renderer.count_draw_calls(self.primitives.len() as u64);
        let mut positions: Vec<V> = Vec::new();
        let mut prim_ids: Vec<u32> = Vec::new();
        let mut indices: Vec<u16> = Vec::new();
        let mut primitives: Vec<Primitive<P>> = Vec::new();
        std::mem::swap(&mut positions, &mut self.positions);
        std::mem::swap(&mut prim_ids, &mut self.prim_ids);
        std::mem::swap(&mut indices, &mut self.indices);
        std::mem::swap(&mut primitives, &mut self.primitives);
        self.v_count = 0;
        self.i_index = 0;
        Some(MeshDraw { positions, prim_ids, indices, primitives, ranges })
    }
}

} // verus!
