use vstd::prelude::*;
use crate::renderer::{DrawError, Renderer, saturating_sum};

verus! {

/// Instances the circle pipeline's buffer holds.
pub const MAX_DEFAULT_CIRCLES: usize = 100;

/// Instances the quad pipeline's buffer holds.
pub const MAX_DEFAULT_QUADS: usize = 100;

/// Instances the grid pipeline's buffer holds.
pub const DEFAULT_MAX_GRIDS: usize = 1;

/// Indices of the two triangles that make up each instanced quad: `[0, 1, 2, 0, 2, 3]`.
pub const QUAD_INDEX_COUNT: u32 = 6;

/// A list of pending instances bounded by the capacity of the GPU buffer they
/// are uploaded into. An instance that does not fit is refused, never written
/// past the buffer.
pub struct InstanceBatch<T> {
    items: Vec<T>,
    capacity: usize,
}

impl<T> View for InstanceBatch<T> {
    type V = Seq<T>;

    closed spec fn view(&self) -> Seq<T> {
        self.items@
    }
}

impl<T> InstanceBatch<T> {
    /// The number of instances the buffer holds.
    pub closed spec fn cap(&self) -> nat {
        self.capacity as nat
    }

    pub closed spec fn wf(&self) -> bool {
        self.items@.len() <= self.capacity
    }

    pub fn new(capacity: usize) -> (b: Self)
        ensures
            b.wf(),
            b@ == Seq::<T>::empty(),
            b.cap() == capacity,
    {
        InstanceBatch { items: Vec::new(), capacity }
    }

    pub fn capacity(&self) -> (c: usize)
        ensures
            c == self.cap(),
    {
        self.capacity
    }

    pub fn len(&self) -> (n: usize)
        requires
            self.wf(),
        ensures
            n == self@.len(),
    {
        self.items.len()
    }

    pub fn is_empty(&self) -> (e: bool)
        ensures
            e == (self@.len() == 0),
    {
        self.items.len() == 0
    }

    /// The pending instances, in the order they were added.
    pub fn instances(&self) -> (v: &Vec<T>)
        ensures
            v@ == self@,
    {
        &self.items
    }

    /// Appends one instance, or refuses it when the buffer is full.
    pub fn push(&mut self, item: T) -> (r: Result<(), DrawError>)
        requires
            old(self).wf(),
        ensures
            final(self).wf(),
            final(self).cap() == old(self).cap(),
            old(self)@.len() < old(self).cap() ==> r is Ok && final(self)@ == old(self)@.push(item),
            old(self)@.len() >= old(self).cap() ==> r == Err::<(), DrawError>(
                DrawError::CapacityExceeded,
            ) && final(self)@ == old(self)@,
    {
        if self.items.len() < self.capacity {
            self.items.push(item);
            Ok(())
        } else {
            Err(DrawError::CapacityExceeded)
        }
    }

    /// Replaces every pending instance, or refuses a list longer than the buffer.
    pub fn set(&mut self, items: Vec<T>) -> (r: Result<(), DrawError>)
        requires
            old(self).wf(),
        ensures
            final(self).wf(),
            final(self).cap() == old(self).cap(),
            items@.len() <= old(self).cap() ==> r is Ok && final(self)@ == items@,
            items@.len() > old(self).cap() ==> r == Err::<(), DrawError>(
                DrawError::CapacityExceeded,
            ) && final(self)@ == old(self)@,
    {
        if items.len() <= self.capacity {
            self.items = items;
            Ok(())
        } else {
            Err(DrawError::CapacityExceeded)
        }
    }

    /// Drops every pending instance.
    pub fn clear(&mut self)
        requires
            old(self).wf(),
        ensures
            final(self).wf(),
            final(self).cap() == old(self).cap(),
            final(self)@ == Seq::<T>::empty(),
    {
        self.items = Vec::new();
    }

    /// Hands out every pending instance and leaves the batch empty.
    pub fn take(&mut self) -> (v: Vec<T>)
        requires
            old(self).wf(),
        ensures
            final(self).wf(),
            final(self).cap() == old(self).cap(),
            final(self)@ == Seq::<T>::empty(),
            v@ == old(self)@,
    {
        let mut v: Vec<T> = Vec::new();
        std::mem::swap(&mut v, &mut self.items);
        v
    }
}

/// The draw calls an instanced pipeline issues for `n` pending instances:
/// one when there is anything to draw, none otherwise.
pub open spec fn instanced_draws(n: nat) -> nat {
    if n == 0 {
        0
    } else {
        1
    }
}

/// Pending filled disks and rings, drawn as one instanced call.
pub struct CirclePipeline<C> {
    circles: InstanceBatch<C>,
}

impl<C> View for CirclePipeline<C> {
    type V = Seq<C>;

    closed spec fn view(&self) -> Seq<C> {
        self.circles@
    }
}

impl<C> CirclePipeline<C> {
    pub closed spec fn wf(&self) -> bool {
        self.circles.wf() && self.circles.cap() == MAX_DEFAULT_CIRCLES
    }

    /// An empty pipeline whose buffer holds the default number of circles.
    pub fn create() -> (p: Self)
        ensures
            p.wf(),
            p@ == Seq::<C>::empty(),
    {
        CirclePipeline { circles: InstanceBatch::new(MAX_DEFAULT_CIRCLES) }
    }

    /// Replaces the pending circles; refused when they do not fit the buffer.
    pub fn set_circles(&mut self, circles: Vec<C>) -> (r: Result<(), DrawError>)
        requires
            old(self).wf(),
        ensures
            final(self).wf(),
            circles@.len() <= MAX_DEFAULT_CIRCLES ==> r is Ok && final(self)@ == circles@,
            circles@.len() > MAX_DEFAULT_CIRCLES ==> r == Err::<(), DrawError>(
                DrawError::CapacityExceeded,
            ) && final(self)@ == old(self)@,
    {
        self.circles.set(circles)
    }

    /// Appends a circle; refused when the buffer is full.
    pub fn add_circle(&mut self, circle: C) -> (r: Result<(), DrawError>)
        requires
            old(self).wf(),
        ensures
            final(self).wf(),
            old(self)@.len() < MAX_DEFAULT_CIRCLES ==> r is Ok && final(self)@ == old(self)@.push(
                circle,
            ),
            old(self)@.len() >= MAX_DEFAULT_CIRCLES ==> r == Err::<(), DrawError>(
                DrawError::CapacityExceeded,
            ) && final(self)@ == old(self)@,
    {
        self.circles.push(circle)
    }

    pub fn clear(&mut self)
        requires
            old(self).wf(),
        ensures
            final(self).wf(),
            final(self)@ == Seq::<C>::empty(),
    {
        self.circles.clear();
    }

    pub fn circles(&self) -> (v: &Vec<C>)
        ensures
            v@ == self@,
    {
        self.circles.instances()
    }

    /// Hands out the pending circles for upload and one draw call of
    /// `QUAD_INDEX_COUNT` indices per instance, counting that call; with
    /// nothing pending nothing is drawn or counted.
    pub fn execute(&mut self, renderer: &mut Renderer) -> (r: Option<Vec<C>>)
        requires
            old(self).wf(),
        ensures
            final(self).wf(),
            final(self)@ == Seq::<C>::empty(),
            old(self)@.len() == 0 <==> r is None,
            r matches Some(v) ==> v@ == old(self)@ && v@.len() <= MAX_DEFAULT_CIRCLES,
            *final(renderer) == (Renderer {
                draw_calls: saturating_sum(
                    old(renderer).draw_calls,
                    instanced_draws(old(self)@.len()),
                ),
                ..*old(renderer)
            }),
    {
        if self.circles.is_empty() {
            return None;
        }
        renderer.count_draw_calls(1);
        Some(self.circles.take())
    }
}

/// Pending rectangles, rounded rectangles and line segments, drawn as one
/// instanced call.
pub struct QuadPipeline<Q> {
    quads: InstanceBatch<Q>,
}

impl<Q> View for QuadPipeline<Q> {
    type V = Seq<Q>;

    closed spec fn view(&self) -> Seq<Q> {
        self.quads@
    }
}

impl<Q> QuadPipeline<Q> {
    pub closed spec fn wf(&self) -> bool {
        self.quads.wf() && self.quads.cap() == MAX_DEFAULT_QUADS
    }

    /// An empty pipeline whose buffer holds the default number of quads.
    pub fn create() -> (p: Self)
        ensures
            p.wf(),
            p@ == Seq::<Q>::empty(),
    {
        QuadPipeline { quads: InstanceBatch::new(MAX_DEFAULT_QUADS) }
    }

    /// Replaces the pending quads; refused when they do not fit the buffer.
    pub fn set_quads(&mut self, quads: Vec<Q>) -> (r: Result<(), DrawError>)
        requires
            old(self).wf(),
        ensures
            final(self).wf(),
            quads@.len() <= MAX_DEFAULT_QUADS ==> r is Ok && final(self)@ == quads@,
            quads@.len() > MAX_DEFAULT_QUADS ==> r == Err::<(), DrawError>(
                DrawError::CapacityExceeded,
            ) && final(self)@ == old(self)@,
    {
        self.quads.set(quads)
    }

    /// Appends a quad; refused when the buffer is full.
    pub fn add_quad(&mut self, quad: Q) -> (r: Result<(), DrawError>)
        requires
            old(self).wf(),
        ensures
            final(self).wf(),
            old(self)@.len() < MAX_DEFAULT_QUADS ==> r is Ok && final(self)@ == old(self)@.push(
                quad,
            ),
            old(self)@.len() >= MAX_DEFAULT_QUADS ==> r == Err::<(), DrawError>(
                DrawError::CapacityExceeded,
            ) && final(self)@ == old(self)@,
    {
        self.quads.push(quad)
    }

    pub fn clear(&mut self)
        requires
            old(self).wf(),
        ensures
            final(self).wf(),
            final(self)@ == Seq::<Q>::empty(),
    {
        self.quads.clear();
    }

    pub fn quads(&self) -> (v: &Vec<Q>)
        ensures
            v@ == self@,
    {
        self.quads.instances()
    }

    /// Hands out the pending quads for upload and one draw call of
    /// `QUAD_INDEX_COUNT` indices per instance, counting that call; with
    /// nothing pending nothing is drawn or counted.
    pub fn execute(&mut self, renderer: &mut Renderer) -> (r: Option<Vec<Q>>)
        requires
            old(self).wf(),
        ensures
            final(self).wf(),
            final(self)@ == Seq::<Q>::empty(),
            old(self)@.len() == 0 <==> r is None,
            r matches Some(v) ==> v@ == old(self)@ && v@.len() <= MAX_DEFAULT_QUADS,
            *final(renderer) == (Renderer {
                draw_calls: saturating_sum(
                    old(renderer).draw_calls,
                    instanced_draws(old(self)@.len()),
                ),
                ..*old(renderer)
            }),
    {
        if self.quads.is_empty() {
            return None;
        }
        renderer.count_draw_calls(1);
        Some(self.quads.take())
    }
}

/// The background grid. Its instances are set once and kept from frame to
/// frame; they are drawn first in every frame, under everything else.
pub struct GridPipeline<G> {
    grids: Option<InstanceBatch<G>>,
}

impl<G> GridPipeline<G> {
    /// The grid instances, empty when none were ever set.
    pub closed spec fn spec_grids(&self) -> Seq<G> {
        match self.grids {
            Some(b) => b@,
            None => Seq::empty(),
        }
    }

    pub closed spec fn wf(&self) -> bool {
        self.grids matches Some(b) ==> b.wf() && b.cap() == DEFAULT_MAX_GRIDS
    }

    /// A pipeline with no grid set.
    pub fn create() -> (p: Self)
        ensures
            p.wf(),
            p.spec_grids() == Seq::<G>::empty(),
    {
        GridPipeline { grids: None }
    }

    /// Sets the grid instances; refused when they do not fit the buffer.
    pub fn set_grids(&mut self, grids: Vec<G>) -> (r: Result<(), DrawError>)
        requires
            old(self).wf(),
        ensures
            final(self).wf(),
            grids@.len() <= DEFAULT_MAX_GRIDS ==> r is Ok && final(self).spec_grids() == grids@,
            grids@.len() > DEFAULT_MAX_GRIDS ==> r == Err::<(), DrawError>(
                DrawError::CapacityExceeded,
            ) && final(self).spec_grids() == old(self).spec_grids(),
    {
        if grids.len() > DEFAULT_MAX_GRIDS {
            return Err(DrawError::CapacityExceeded);
        }
        let mut batch = InstanceBatch::new(DEFAULT_MAX_GRIDS);
        let r = batch.set(grids);
        self.grids = Some(batch);
        r
    }

    /// The grid instances to upload.
    pub fn grids(&self) -> (v: Option<&Vec<G>>)
        ensures
            v matches Some(g) ==> g@ == self.spec_grids(),
            v is None ==> self.spec_grids() == Seq::<G>::empty(),
    {
        match &self.grids {
            Some(b) => Some(b.instances()),
            None => None,
        }
    }

    /// Counts the one draw call that renders the grid instances and returns
    /// how many instances it covers; with no grid nothing is drawn or counted.
    /// The instances stay set.
    pub fn execute(&self, renderer: &mut Renderer) -> (r: Option<u32>)
        requires
            self.wf(),
        ensures
            self.spec_grids().len() == 0 <==> r is None,
            r matches Some(n) ==> n == self.spec_grids().len() && n <= DEFAULT_MAX_GRIDS,
            *final(renderer) == (Renderer {
                draw_calls: saturating_sum(
                    old(renderer).draw_calls,
                    instanced_draws(self.spec_grids().len()),
                ),
                ..*old(renderer)
            }),
    {
        match &self.grids {
            Some(b) => {
                let n = b.len();
                if n == 0 {
                    None
                } else {
                    renderer.count_draw_calls(1);
                    Some(n as u32)
                }
            },
            None => None,
        }
    }
}

} // verus!
