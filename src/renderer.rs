use vstd::prelude::*;
use crate::brush::{Brush, BrushDraws};
use crate::pipeline::{DEFAULT_MAX_GRIDS, instanced_draws};

verus! {

/// Why a drawing or frame operation was refused.
#[derive(Debug, Clone, Copy, PartialEq, Eq, Structural)]
pub enum DrawError {
    /// The pipeline's fixed-capacity buffer has no room for what was added.
    CapacityExceeded,
    /// A mesh refers to a vertex it does not hold.
    InvalidMesh,
    /// The operation needs an open frame and none is open.
    NoOpenFrame,
    /// A frame was begun while the previous one was still open.
    FrameAlreadyOpen,
}

/// Where the frame controller stands in the frame lifecycle.
#[derive(Debug, Clone, Copy, PartialEq, Eq, Structural)]
pub enum FramePhase {
    /// No frame is open.
    Idle,
    /// A surface image is acquired and its command stream is recording.
    Open,
}

/// The uniform shared by every pipeline: the surface resolution in pixels.
#[derive(Debug, Clone, Copy, PartialEq, Eq, Structural)]
pub struct Globals {
    pub width: u32,
    pub height: u32,
}

/// What the start of a frame has to do before the scene draws: upload the
/// globals uniform where it changed, and draw the grid's instances.
pub struct FrameStart {
    pub upload_globals: Option<Globals>,
    pub grid_instances: Option<u32>,
}

/// What the end of a frame draws before the UI overlay, and the number of
/// draw calls the frame issued.
pub struct FrameEnd<C, V, P, Q> {
    pub draws: BrushDraws<C, V, P, Q>,
    pub draw_calls: u64,
}

/// `a + n`, held at `u64::MAX` where it would not fit.
pub open spec fn saturating_sum(a: u64, n: nat) -> u64 {
    if a + n > u64::MAX {
        u64::MAX
    } else {
        (a + n) as u64
    }
}

/// The frame controller's state: window size, the globals uniform and whether
/// it still has to be uploaded, the frame phase and the draw calls issued in
/// the current frame. The draw-call counter is a diagnostic: it saturates
/// rather than wrap.
pub struct Renderer {
    pub window_size: (u32, u32),
    pub globals: Globals,
    pub has_to_update_globals: bool,
    pub phase: FramePhase,
    pub draw_calls: u64,
}

impl Renderer {
    /// A renderer for a window of the given size, with no frame open.
    pub fn new(width: u32, height: u32) -> (r: Renderer)
        ensures
            r.window_size == (width, height),
            r.globals == (Globals { width, height }),
            !r.has_to_update_globals,
            r.phase == FramePhase::Idle,
            r.draw_calls == 0,
    {
        Renderer {
            window_size: (width, height),
            globals: Globals { width, height },
            has_to_update_globals: false,
            phase: FramePhase::Idle,
            draw_calls: 0,
        }
    }

    /// Records a new surface size; the globals uniform takes it and is marked
    /// for upload before the next frame draws.
    pub fn resize(&mut self, width: u32, height: u32)
        ensures
            final(self).window_size == (width, height),
            final(self).globals == (Globals { width, height }),
            final(self).has_to_update_globals,
            final(self).phase == old(self).phase,
            final(self).draw_calls == old(self).draw_calls,
    {
        self.window_size = (width, height);
        self.globals = Globals { width, height };
        self.has_to_update_globals = true;
    }

    pub fn get_window_size(&self) -> (s: (u32, u32))
        ensures
            s == self.window_size,
    {
        self.window_size
    }

    pub fn is_frame_open(&self) -> (b: bool)
        ensures
            b == (self.phase == FramePhase::Open),
    {
        match self.phase {
            FramePhase::Open => true,
            FramePhase::Idle => false,
        }
    }

    /// Adds `n` issued draw calls to the frame's counter.
    pub(crate) fn count_draw_calls(&mut self, n: u64)
        ensures
            final(self).draw_calls == saturating_sum(old(self).draw_calls, n as nat),
            final(self).window_size == old(self).window_size,
            final(self).globals == old(self).globals,
            final(self).has_to_update_globals == old(self).has_to_update_globals,
            final(self).phase == old(self).phase,
    {
        self.draw_calls = self.draw_calls.saturating_add(n);
    }
    /// Opens a frame: the screen is cleared, the globals uniform is uploaded
    /// when a resize changed it, and the grid is drawn under everything the
    /// scene draws next. Refused while a frame is open.
    pub fn render_begin<G, C, V, P, Q>(&mut self, brush: &Brush<G, C, V, P, Q>) -> (r: Result<
        FrameStart,
        DrawError,
    >)
        requires
            brush.wf(),
        ensures
            old(self).phase == FramePhase::Open ==> r is Err && *final(self) == *old(self),
            r matches Err(e) ==> e == DrawError::FrameAlreadyOpen,
            old(self).phase == FramePhase::Idle ==> r is Ok && *final(self) == (Renderer {
                phase: FramePhase::Open,
                has_to_update_globals: false,
                draw_calls: saturating_sum(
                    old(self).draw_calls,
                    instanced_draws(brush.grid_pipeline.spec_grids().len()),
                ),
                ..*old(self)
            }),
            r matches Ok(s) ==> (s.upload_globals == if old(self).has_to_update_globals {
                Some(old(self).globals)
            } else {
                None
            }) && (s.grid_instances is None <==> brush.grid_pipeline.spec_grids().len() == 0) && (
            s.grid_instances matches Some(n) ==> n == brush.grid_pipeline.spec_grids().len() && n
                <= DEFAULT_MAX_GRIDS),
    {
        if self.is_frame_open() {
            return Err(DrawError::FrameAlreadyOpen);
        }
        let upload_globals = if self.has_to_update_globals {
            Some(self.globals)
        } else {
            None
        };
        self.has_to_update_globals = false;
        self.phase = FramePhase::Open;
        let grid_instances = brush.execute_once(self);
        Ok(FrameStart { upload_globals, grid_instances })
    }

    /// Submits what the brush has pending into the open frame and clears it.
    pub fn execute_brush<G, C, V, P, Q>(&mut self, brush: &mut Brush<G, C, V, P, Q>) -> (r: Result<
        BrushDraws<C, V, P, Q>,
        DrawError,
    >)
        requires
            old(brush).wf(),
        ensures
            final(brush).wf(),
            final(brush).grid_pipeline == old(brush).grid_pipeline,
            old(self).phase == FramePhase::Idle ==> r is Err && *final(brush) == *old(brush)
                && *final(self) == *old(self),
            r matches Err(e) ==> e == DrawError::NoOpenFrame,
            old(self).phase == FramePhase::Open ==> r is Ok && final(brush).is_clear()
                && *final(self) == (Renderer {
                draw_calls: saturating_sum(old(self).draw_calls, old(brush).pending_draws()),
                ..*old(self)
            }),
            r matches Ok(d) ==> d.holds_pending_of(*old(brush)) && d.fits_buffers(),
    {
        brush.flush(self)
    }

    /// Closes the frame: what the brush still has pending is drawn and
    /// cleared, and the frame's draw-call count is handed out and reset.
    /// Refused when no frame is open.
    pub fn render_end<G, C, V, P, Q>(&mut self, brush: &mut Brush<G, C, V, P, Q>) -> (r: Result<
        FrameEnd<C, V, P, Q>,
        DrawError,
    >)
        requires
            old(brush).wf(),
        ensures
            final(brush).wf(),
            final(brush).grid_pipeline == old(brush).grid_pipeline,
            old(self).phase == FramePhase::Idle ==> r is Err && *final(brush) == *old(brush)
                && *final(self) == *old(self),
            r matches Err(e) ==> e == DrawError::NoOpenFrame,
            old(self).phase == FramePhase::Open ==> r is Ok && final(brush).is_clear()
                && *final(self) == (Renderer {
                phase: FramePhase::Idle,
                draw_calls: 0,
                ..*old(self)
            }),
            r matches Ok(e) ==> e.draws.holds_pending_of(*old(brush)) && e.draws.fits_buffers()
                && e.draw_calls
                == saturating_sum(old(self).draw_calls, old(brush).pending_draws()),
    {
        let draws = match brush.flush(self) {
            Ok(d) => d,
            Err(e) => {
                return Err(e);
            },
        };
        let draw_calls = self.draw_calls;
        self.draw_calls = 0;
        self.phase = FramePhase::Idle;
        Ok(FrameEnd { draws, draw_calls })
    }
}

} // verus!
