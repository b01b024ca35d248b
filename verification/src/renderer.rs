//! The animation driver: owns the session start timestamp and the recurring
//! per-frame step. The driver has two states — unscheduled, then scheduled
//! once the first frame registration is issued — and no terminal state of its
//! own: cancellation belongs to the host. Each frame clears the buffers,
//! renders the cube at the elapsed time, and asks the host to schedule the
//! next frame; a refusal is fatal for the loop and is returned for the caller
//! to surface.

use vstd::prelude::*;

use crate::RenderError;
use crate::cube::Cube;
use crate::cube::create_trace;
use crate::cube::cube_error_matches;
use crate::cube::cube_granted;
use crate::cube::render_trace;
use crate::gl::GlCall;
use crate::gl::GlContext;
use crate::gl::head_flag;
use crate::gl::plan_same_but_frame_ok;
use crate::gl::same_store;
use crate::gl::tail_of;

verus! {

/// The commands one driver frame issues: clear, render, request the next
/// frame.
pub open spec fn frame_trace(c: Cube, elapsed_ms: u64, ok: bool) -> Seq<GlCall> {
    seq![GlCall::Clear] + render_trace(c, elapsed_ms) + seq![GlCall::RequestFrame { ok }]
}

/// The per-frame driver: unscheduled until `start`, scheduled from then on.
#[derive(Debug)]
pub struct AnimationDriver {
    /// Has the recurring frame callback been registered?
    pub scheduled: bool,
    /// The session start timestamp, captured when scheduling began.
    pub start_time_ms: u64,
}

impl AnimationDriver {
    /// A driver that has not yet scheduled anything.
    pub fn new() -> (d: AnimationDriver)
        ensures
            !d.scheduled,
            d.start_time_ms == 0,
    {
        AnimationDriver { scheduled: false, start_time_ms: 0 }
    }

    /// Captures the session start timestamp and asks the host to register the
    /// recurring frame callback. The driver is scheduled exactly when the
    /// host agreed; a refusal is fatal for the loop and the caller must
    /// surface it.
    pub fn start(&mut self, gl: &mut GlContext, now_ms: u64) -> (r: bool)
        requires
            !old(self).scheduled,
            old(gl).wf(),
        ensures
            final(gl).wf(),
            same_store(*old(gl), *final(gl)),
            r == head_flag(old(gl).plan.frame_ok@),
            final(self).scheduled == r,
            final(self).start_time_ms == now_ms,
            final(gl).plan.frame_ok@ == tail_of(old(gl).plan.frame_ok@),
            plan_same_but_frame_ok(old(gl).plan, final(gl).plan),
            final(gl).calls@ == old(gl).calls@.push(GlCall::RequestFrame { ok: r }),
    {
        self.start_time_ms = now_ms;
        let ok = gl.request_frame();
        self.scheduled = ok;
        ok
    }

    /// One frame of the scheduled loop: clears the color and depth buffers,
    /// renders the cube at the time elapsed since the session start, and asks
    /// the host to schedule the next frame. Returns whether the host agreed;
    /// a refusal is fatal for the loop and the caller must surface it.
    pub fn frame(&self, gl: &mut GlContext, cube: &Cube, now_ms: u64) -> (r: bool)
        requires
            self.scheduled,
            now_ms >= self.start_time_ms,
            old(gl).wf(),
            cube.live_in(*old(gl)),
        ensures
            final(gl).wf(),
            same_store(*old(gl), *final(gl)),
            cube.live_in(*final(gl)),
            r == head_flag(old(gl).plan.frame_ok@),
            final(gl).plan.frame_ok@ == tail_of(old(gl).plan.frame_ok@),
            plan_same_but_frame_ok(old(gl).plan, final(gl).plan),
            final(gl).calls@ == old(gl).calls@ + frame_trace(
                *cube,
                (now_ms - self.start_time_ms) as u64,
                head_flag(old(gl).plan.frame_ok@),
            ),
    {
        gl.clear();
        cube.render(gl, now_ms - self.start_time_ms);
        let ok = gl.request_frame();
        proof {
            assert(gl.calls@ =~= old(gl).calls@ + frame_trace(
                *cube,
                (now_ms - self.start_time_ms) as u64,
                head_flag(old(gl).plan.frame_ok@),
            ));
        }
        ok
    }
}

/// The renderer as a whole: the cube and the driver that animates it.
#[derive(Debug)]
pub struct Renderer {
    /// The one renderable object.
    pub cube: Cube,
    /// The per-frame driver.
    pub driver: AnimationDriver,
}

/// Builds the cube and starts the animation loop at the given session start
/// time. A construction error propagates unchanged, with no GPU resource
/// left allocated; on success, when the host refused the first frame
/// registration, the renderer comes back with its driver unscheduled, for
/// the caller to surface.
pub fn init_renderer(gl: &mut GlContext, now_ms: u64) -> (r: Result<Renderer, RenderError>)
    requires
        old(gl).wf(),
        old(gl).next_id + 5 <= u64::MAX,
    ensures
        final(gl).wf(),
        final(gl).shaders@ == old(gl).shaders@,
        final(gl).plan.frame_ok@ == (if cube_granted(old(gl).plan) {
            tail_of(old(gl).plan.frame_ok@)
        } else {
            old(gl).plan.frame_ok@
        }),
        r is Ok <==> cube_granted(old(gl).plan),
        r matches Err(e) ==> ({
            &&& final(gl).buffers@ == old(gl).buffers@
            &&& final(gl).programs@ == old(gl).programs@
            &&& cube_error_matches(old(gl).plan, e)
            &&& final(gl).calls@ == old(gl).calls@ + create_trace(old(gl).plan, old(gl).next_id)
        }),
        r matches Ok(rr) ==> ({
            &&& rr.cube.wf()
            &&& rr.cube.live_in(*final(gl))
            &&& rr.driver.start_time_ms == now_ms
            &&& rr.driver.scheduled == head_flag(old(gl).plan.frame_ok@)
            &&& final(gl).calls@ == old(gl).calls@ + create_trace(old(gl).plan, old(gl).next_id)
                + seq![GlCall::RequestFrame { ok: head_flag(old(gl).plan.frame_ok@) }]
        }),
{
    let ghost calls0 = old(gl).calls@;
    let ghost plan0 = old(gl).plan;
    let ghost n0 = old(gl).next_id;
    let cube = match Cube::new(gl) {
        Ok(c) => c,
        Err(e) => {
            return Err(e);
        },
    };
    let mut driver = AnimationDriver::new();
    driver.start(gl, now_ms);
    proof {
        assert(gl.calls@ =~= calls0 + create_trace(plan0, n0) + seq![
            GlCall::RequestFrame { ok: head_flag(plan0.frame_ok@) },
        ]);
    }
    Ok(Renderer { cube, driver })
}

} // verus!
