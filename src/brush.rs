use vstd::prelude::*;
use crate::pipeline::{
    CirclePipeline, DEFAULT_MAX_GRIDS, GridPipeline, MAX_DEFAULT_CIRCLES, MAX_DEFAULT_QUADS, QuadPipeline,
    instanced_draws,
};
use crate::poly::{
    MAX_DEFAULT_PRIMITIVES, MAX_DEFAULT_VERTICES, MeshDraw, MeshView, PolyPipeline, mesh_draws,
    mesh_is_valid,
};
use crate::renderer::{DrawError, FramePhase, Renderer, saturating_sum};

verus! {

/// Adding in two steps saturates as adding once does.
proof fn lemma_saturating_sum_assoc(a: u64, m: nat, n: nat)
    ensures
        saturating_sum(saturating_sum(a, m), n) == saturating_sum(a, m + n),
{
}

/// The batcher the scene draws through: one pipeline per primitive type, each
/// with its own pending list. Within one batch every circle is drawn, then
/// every polygon, then every quad, whatever order they were added in; `flush`
/// is the way to put later primitives on top of earlier ones.
pub struct Brush<G, C, V, P, Q> {
    pub grid_pipeline: GridPipeline<G>,
    pub circle_pipeline: CirclePipeline<C>,
    pub polygon_pipeline: PolyPipeline<V, P>,
    pub quad_pipeline: QuadPipeline<Q>,
}

/// What one execution of the circle, polygon and quad pipelines uploads and
/// draws, in drawing order; `None` where a pipeline had nothing to draw.
pub struct BrushDraws<C, V, P, Q> {
    pub circles: Option<Vec<C>>,
    pub polygons: Option<MeshDraw<V, P>>,
    pub quads: Option<Vec<Q>>,
}

impl<C, V, P, Q> BrushDraws<C, V, P, Q> {
    /// Whether this draws exactly what `b` had pending.
    pub open spec fn holds_pending_of<G>(self, b: Brush<G, C, V, P, Q>) -> bool {
        &&& (self.circles is None <==> b.circle_pipeline@.len() == 0)
        &&& (self.circles matches Some(v) ==> v@ == b.circle_pipeline@)
        &&& (self.polygons is None <==> b.polygon_pipeline@.positions.len() == 0)
        &&& (self.polygons matches Some(m) ==> m.holds(b.polygon_pipeline@))
        &&& (self.quads is None <==> b.quad_pipeline@.len() == 0)
        &&& (self.quads matches Some(v) ==> v@ == b.quad_pipeline@)
    }
}

impl<C, V, P, Q> BrushDraws<C, V, P, Q> {
    /// Whether everything this hands out fits the pipelines' fixed buffers:
    /// circle and quad instances, polygon vertices, indices and primitive
    /// records, with every index naming one of the uploaded vertices.
    pub open spec fn fits_buffers(self) -> bool {
        &&& (self.circles matches Some(v) ==> v@.len() <= MAX_DEFAULT_CIRCLES)
        &&& (self.quads matches Some(v) ==> v@.len() <= MAX_DEFAULT_QUADS)
        &&& (self.polygons matches Some(m) ==> m.positions@.len() <= MAX_DEFAULT_VERTICES
            && m.indices@.len() <= MAX_DEFAULT_VERTICES && m.primitives@.len()
            <= MAX_DEFAULT_PRIMITIVES && mesh_is_valid(m.positions@.len(), m.indices@))
    }
}

impl<G, C, V, P, Q> Brush<G, C, V, P, Q> {
    pub open spec fn wf(&self) -> bool {
        &&& self.grid_pipeline.wf()
        &&& self.circle_pipeline.wf()
        &&& self.polygon_pipeline.wf()
        &&& self.quad_pipeline.wf()
    }

    /// Nothing is pending in the circle, polygon and quad pipelines.
    pub open spec fn is_clear(&self) -> bool {
        &&& self.circle_pipeline@ == Seq::<C>::empty()
        &&& self.polygon_pipeline@ == MeshView::<V, P>::empty()
        &&& self.quad_pipeline@ == Seq::<Q>::empty()
    }

    /// The draw calls that executing the circle, polygon and quad pipelines
    /// issues: one per non-empty instanced pipeline, one per finished polygon.
    pub open spec fn pending_draws(&self) -> nat {
        instanced_draws(self.circle_pipeline@.len()) + mesh_draws(self.polygon_pipeline@)
            + instanced_draws(self.quad_pipeline@.len())
    }

    /// A brush with nothing pending whose grid pipeline holds `grid`, the
    /// background drawn under every frame.
    pub fn new(grid: G) -> (b: Self)
        ensures
            b.wf(),
            b.is_clear(),
            b.grid_pipeline.spec_grids() == seq![grid],
    {
        let mut grid_pipeline = GridPipeline::create();
        let mut grids: Vec<G> = Vec::new();
        grids.push(grid);
        let _ = grid_pipeline.set_grids(grids);
        Brush {
            grid_pipeline,
            circle_pipeline: CirclePipeline::create(),
            polygon_pipeline: PolyPipeline::create(),
            quad_pipeline: QuadPipeline::create(),
        }
    }

    /// Draws the grid: the pass that runs once per frame, right after the
    /// screen is cleared.
    pub fn execute_once(&self, renderer: &mut Renderer) -> (r: Option<u32>)
        requires
            self.wf(),
        ensures
            self.grid_pipeline.spec_grids().len() == 0 <==> r is None,
            r matches Some(n) ==> n == self.grid_pipeline.spec_grids().len() && n <= DEFAULT_MAX_GRIDS,
            *final(renderer) == (Renderer {
                draw_calls: saturating_sum(
                    old(renderer).draw_calls,
                    instanced_draws(self.grid_pipeline.spec_grids().len()),
                ),
                ..*old(renderer)
            }),
    {
        self.grid_pipeline.execute(renderer)
    }

    /// Executes the circle, polygon and quad pipelines, in that order, handing
    /// out what each uploads and draws and counting the draw calls.
    pub fn execute(&mut self, renderer: &mut Renderer) -> (d: BrushDraws<C, V, P, Q>)
        requires
            old(self).wf(),
        ensures
            final(self).wf(),
            d.holds_pending_of(*old(self)),
            d.fits_buffers(),
            final(self).grid_pipeline == old(self).grid_pipeline,
            final(self).circle_pipeline@ == Seq::<C>::empty(),
            final(self).quad_pipeline@ == Seq::<Q>::empty(),
            old(self).polygon_pipeline@.positions.len() == 0 ==> final(self).polygon_pipeline@
                == old(self).polygon_pipeline@,
            old(self).polygon_pipeline@.positions.len() != 0 ==> final(self).polygon_pipeline@
                == MeshView::<V, P>::empty(),
            *final(renderer) == (Renderer {
                draw_calls: saturating_sum(old(renderer).draw_calls, old(self).pending_draws()),
                ..*old(renderer)
            }),
    {
        let ghost r0 = renderer.draw_calls;
        let ghost b0 = *self;
        let circles = self.circle_pipeline.execute(renderer);
        let polygons = self.polygon_pipeline.execute(renderer);
        let quads = self.quad_pipeline.execute(renderer);
        proof {
            lemma_saturating_sum_assoc(
                r0,
                instanced_draws(b0.circle_pipeline@.len()),
                mesh_draws(b0.polygon_pipeline@),
            );
            lemma_saturating_sum_assoc(
                r0,
                instanced_draws(b0.circle_pipeline@.len()) + mesh_draws(b0.polygon_pipeline@),
                instanced_draws(b0.quad_pipeline@.len()),
            );
        }
        BrushDraws { circles, polygons, quads }
    }

    /// Drops everything pending in the circle, polygon and quad pipelines
    /// without drawing it. The grid stays.
    pub fn clear(&mut self)
        requires
            old(self).wf(),
        ensures
            final(self).wf(),
            final(self).is_clear(),
            final(self).grid_pipeline == old(self).grid_pipeline,
    {
        self.circle_pipeline.clear();
        self.polygon_pipeline.clear();
        self.quad_pipeline.clear();
    }

    /// Submits everything pending now, into the open frame, and clears it:
    /// whatever is drawn afterwards lands on top of it. Refused when no frame
    /// is open.
    pub fn flush(&mut self, renderer: &mut Renderer) -> (r: Result<BrushDraws<C, V, P, Q>, DrawError>)
        requires
            old(self).wf(),
        ensures
            final(self).wf(),
            final(self).grid_pipeline == old(self).grid_pipeline,
            old(renderer).phase == FramePhase::Idle ==> r is Err && *final(self) == *old(self)
                && *final(renderer) == *old(renderer),
            r matches Err(e) ==> e == DrawError::NoOpenFrame,
            old(renderer).phase == FramePhase::Open ==> r is Ok && final(self).is_clear()
                && *final(renderer) == (Renderer {
                draw_calls: saturating_sum(old(renderer).draw_calls, old(self).pending_draws()),
                ..*old(renderer)
            }),
            r matches Ok(d) ==> d.holds_pending_of(*old(self)) && d.fits_buffers(),
    {
        if !renderer.is_frame_open() {
            return Err(DrawError::NoOpenFrame);
        }
        let d = self.execute(renderer);
        self.clear();
        Ok(d)
    }

    /// Adds a circle instance; refused when the circle buffer is full.
    pub fn add_circle(&mut self, circle: C) -> (r: Result<(), DrawError>)
        requires
            old(self).wf(),
        ensures
            final(self).wf(),
            final(self).grid_pipeline == old(self).grid_pipeline,
            final(self).polygon_pipeline == old(self).polygon_pipeline,
            final(self).quad_pipeline == old(self).quad_pipeline,
            old(self).circle_pipeline@.len() < MAX_DEFAULT_CIRCLES ==> r is Ok
                && final(self).circle_pipeline@ == old(self).circle_pipeline@.push(circle),
            old(self).circle_pipeline@.len() >= MAX_DEFAULT_CIRCLES ==> r
                == Err::<(), DrawError>(DrawError::CapacityExceeded) && final(self).circle_pipeline@
                == old(self).circle_pipeline@,
    {
        self.circle_pipeline.add_circle(circle)
    }

    /// Adds a quad instance (a rectangle, a rounded rectangle or a line
    /// segment); refused when the quad buffer is full.
    pub fn add_quad(&mut self, quad: Q) -> (r: Result<(), DrawError>)
        requires
            old(self).wf(),
        ensures
            final(self).wf(),
            final(self).grid_pipeline == old(self).grid_pipeline,
            final(self).circle_pipeline == old(self).circle_pipeline,
            final(self).polygon_pipeline == old(self).polygon_pipeline,
            old(self).quad_pipeline@.len() < MAX_DEFAULT_QUADS ==> r is Ok
                && final(self).quad_pipeline@ == old(self).quad_pipeline@.push(quad),
            old(self).quad_pipeline@.len() >= MAX_DEFAULT_QUADS ==> r
                == Err::<(), DrawError>(DrawError::CapacityExceeded) && final(self).quad_pipeline@
                == old(self).quad_pipeline@,
    {
        self.quad_pipeline.add_quad(quad)
    }

    /// Adds a tessellated shape to the polygon pipeline's shared mesh,
    /// finishing it with the per-shape record `primitive` where one is given.
    pub fn add_mesh(&mut self, vertices: Vec<V>, indices: Vec<u16>, primitive: Option<P>) -> (r:
        Result<(), DrawError>)
        requires
            old(self).wf(),
        ensures
            final(self).wf(),
            final(self).grid_pipeline == old(self).grid_pipeline,
            final(self).circle_pipeline == old(self).circle_pipeline,
            final(self).quad_pipeline == old(self).quad_pipeline,
            !mesh_is_valid(vertices@.len(), indices@) ==> r == Err::<(), DrawError>(
                DrawError::InvalidMesh,
            ) && final(self).polygon_pipeline@ == old(self).polygon_pipeline@,
            mesh_is_valid(vertices@.len(), indices@) && !old(self).polygon_pipeline@.fits(
                vertices@.len(),
                indices@.len(),
                primitive is Some,
            ) ==> r == Err::<(), DrawError>(DrawError::CapacityExceeded)
                && final(self).polygon_pipeline@ == old(self).polygon_pipeline@,
            mesh_is_valid(vertices@.len(), indices@) && old(self).polygon_pipeline@.fits(
                vertices@.len(),
                indices@.len(),
                primitive is Some,
            ) ==> r is Ok && final(self).polygon_pipeline@ == old(
                self,
            ).polygon_pipeline@.with_mesh(vertices@, indices@, primitive),
    {
        self.polygon_pipeline.add_mesh(vertices, indices, primitive)
    }
}

/// Executing a cleared brush is a strict no-op: no pipeline hands anything
/// out and the draw-call counter stays where it was.
pub proof fn lemma_cleared_brush_executes_nothing<G, C, V, P, Q>(
    b: Brush<G, C, V, P, Q>,
    d: BrushDraws<C, V, P, Q>,
    draw_calls: u64,
)
    requires
        b.is_clear(),
        d.holds_pending_of(b),
    ensures
        d.circles is None,
        d.polygons is None,
        d.quads is None,
        b.pending_draws() == 0,
        saturating_sum(draw_calls, b.pending_draws()) == draw_calls,
{
}

/// A flush splits drawing into two submissions. The flush hands out exactly
/// the circles pending before it; the next execution of the brush (a later
/// flush, `execute_brush` or `render_end`) hands out exactly the circles
/// added since, however they were added, in a draw call of its own. The
/// frame's counter takes both calls. Submissions go out in this order, each
/// loading what is already in the target, so the second lands on top of the
/// first.
pub proof fn lemma_flush_separates_submissions<G, C, V, P, Q>(
    before: Brush<G, C, V, P, Q>,
    first: BrushDraws<C, V, P, Q>,
    flushed: Brush<G, C, V, P, Q>,
    added: Seq<C>,
    drawn: Brush<G, C, V, P, Q>,
    second: BrushDraws<C, V, P, Q>,
    draw_calls: u64,
)
    requires
        before.circle_pipeline@.len() > 0,
        added.len() > 0,
        first.holds_pending_of(before),
        flushed.is_clear(),
        drawn.circle_pipeline@ == flushed.circle_pipeline@ + added,
        second.holds_pending_of(drawn),
    ensures
        first.circles matches Some(v) && v@ == before.circle_pipeline@,
        second.circles matches Some(w) && w@ == added,
        before.pending_draws() >= 1,
        drawn.pending_draws() >= 1,
        draw_calls + 2 <= u64::MAX ==> saturating_sum(
            saturating_sum(draw_calls, before.pending_draws()),
            drawn.pending_draws(),
        ) >= draw_calls + 2,
{
    assert(flushed.circle_pipeline@ + added =~= added);
}

} // verus!
