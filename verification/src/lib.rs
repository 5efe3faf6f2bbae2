//! A free-look camera and a small command-generating renderer for a single
//! textured quad, modeled over exact integer arithmetic.
//!
//! Orientation angles are kept in microdegrees, cursor positions in
//! thousandths of a pixel, and trigonometric samples as fixed-point values
//! scaled by [`vecmath::TRIG_ONE`]; the caller evaluates sine and cosine and
//! hands the samples in, and everything downstream of them — the derived
//! basis, the matrices, the per-frame GPU command stream — is computed and
//! specified exactly. The whole pipeline runs on a single thread; a caller
//! that moves input delivery elsewhere must guard the state with a lock of
//! its own.

pub mod camera;
pub mod matrix;
pub mod renderer;
pub mod vecmath;

use vstd::prelude::*;

use crate::camera::{
    clamped, initial_camera, mouse_delta_applied, Camera, CameraView, ANGLE_SAT, PITCH_LIMIT,
};
use crate::renderer::{
    spec_frame_commands, GpuCommand, Renderer, ResourceState, UniformName,
};

verus! {

/// Largest cursor coordinate magnitude accepted, in thousandths of a pixel:
/// a machine limit that keeps delta arithmetic exact, far beyond any screen.
pub const CURSOR_BOUND: i64 = 1_000_000_000_000_000;

/// Mouse-look input state: whether look is active, and the last cursor
/// sample that deltas are taken against. `first_mouse` marks that the next
/// sample only sets the baseline, so (re)activation never applies a spurious
/// jump.
pub struct Vars {
    pub first_mouse: bool,
    pub mouse_focused: bool,
    pub last_x: i64,
    pub last_y: i64,
}

/// The mathematical value of [`Vars`].
#[verifier::ext_equal]
pub struct VarsView {
    pub first_mouse: bool,
    pub mouse_focused: bool,
    pub last_x: int,
    pub last_y: int,
}

impl View for Vars {
    type V = VarsView;

    open spec fn view(&self) -> VarsView {
        VarsView {
            first_mouse: self.first_mouse,
            mouse_focused: self.mouse_focused,
            last_x: self.last_x as int,
            last_y: self.last_y as int,
        }
    }
}

/// The state fresh input tracking starts in.
pub open spec fn initial_vars() -> VarsView {
    VarsView { first_mouse: true, mouse_focused: false, last_x: 0, last_y: 0 }
}

impl Vars {
    /// The last cursor sample stays inside the accepted coordinate range.
    pub open spec fn wf(&self) -> bool {
        &&& -CURSOR_BOUND <= self.last_x <= CURSOR_BOUND
        &&& -CURSOR_BOUND <= self.last_y <= CURSOR_BOUND
    }

    /// Fresh input state: mouse-look off, next sample primes the baseline.
    pub fn new() -> (r: Vars)
        ensures
            r@ == initial_vars(),
            r.wf(),
    {
        Vars { first_mouse: true, mouse_focused: false, last_x: 0, last_y: 0 }
    }
}

/// The demo's whole state: the camera, the input tracking, and the
/// renderer's resource stage. The GPU handles themselves live with the
/// caller that owns the GPU context.
pub struct TestThing {
    pub camera: Camera,
    pub vars: Vars,
    pub renderer: Renderer,
}

/// The mathematical value of [`TestThing`].
#[verifier::ext_equal]
pub struct TestThingView {
    pub camera: CameraView,
    pub vars: VarsView,
    pub renderer_state: ResourceState,
}

impl View for TestThing {
    type V = TestThingView;

    open spec fn view(&self) -> TestThingView {
        TestThingView {
            camera: self.camera@,
            vars: self.vars@,
            renderer_state: self.renderer.state,
        }
    }
}

/// The state [`TestThing::new`] returns.
pub open spec fn initial_state() -> TestThingView {
    TestThingView {
        camera: initial_camera(),
        vars: initial_vars(),
        renderer_state: ResourceState::Uninitialized,
    }
}

/// What one cursor event does: nothing while mouse-look is inactive; while
/// active, the first sample after (re)activation only sets the baseline, and
/// every later sample applies its delta from the previous sample to the
/// camera's orientation.
pub open spec fn cursor_moved(t: TestThingView, x: int, y: int) -> TestThingView {
    if !t.vars.mouse_focused {
        t
    } else {
        let bx = if t.vars.first_mouse {
            x
        } else {
            t.vars.last_x
        };
        let by = if t.vars.first_mouse {
            y
        } else {
            t.vars.last_y
        };
        TestThingView {
            camera: mouse_delta_applied(t.camera, x - bx, y - by),
            vars: VarsView { first_mouse: false, last_x: x, last_y: y, ..t.vars },
            ..t
        }
    }
}

/// What a focus change does: sets mouse-look, and primes the next cursor
/// sample as a baseline so no stale delta is ever applied.
pub open spec fn focus_set(t: TestThingView, tf: bool) -> TestThingView {
    TestThingView {
        vars: VarsView { mouse_focused: tf, first_mouse: true, ..t.vars },
        ..t
    }
}

impl TestThing {
    /// The camera's invariant and the input bounds together.
    pub open spec fn wf(&self) -> bool {
        &&& self.camera.wf()
        &&& self.vars.wf()
    }

    /// The demo's starting state: default camera, mouse-look off, no GPU
    /// resources yet.
    pub fn new() -> (r: TestThing)
        ensures
            r.wf(),
            r@ == initial_state(),
    {
        TestThing { camera: Camera::new(), vars: Vars::new(), renderer: Renderer::new() }
    }

    /// Reserved per-tick hook; the demo does all its work in the frame draw.
    pub fn update() {
    }

    /// One frame of the cloud quad: emits the GPU command stream for the
    /// caller holding the GPU context to execute, creating and filling the
    /// quad's buffer exactly on the first call, then writing each uniform
    /// the compiled shader has (`available`) and drawing with culling
    /// disabled and restored.
    pub fn draw_clouds(&mut self, available: &Vec<UniformName>) -> (cmds: Vec<GpuCommand>)
        ensures
            cmds@ == spec_frame_commands(
                old(self)@.renderer_state == ResourceState::Ready,
                available@,
            ),
            final(self)@ == (TestThingView {
                renderer_state: ResourceState::Ready,
                ..old(self)@
            }),
            old(self).wf() ==> final(self).wf(),
    {
        self.renderer.render_frame(available)
    }

    /// Handles a cursor sample (thousandths of a pixel). While mouse-look is
    /// active, applies the delta from the previous sample to the camera —
    /// except for the first sample after (re)activation, which only sets the
    /// baseline. The caller rebuilds the basis and matrices afterwards with
    /// fresh trigonometric samples of the new angles.
    pub fn cursor_pos(&mut self, x: i64, y: i64)
        requires
            old(self).wf(),
            -CURSOR_BOUND <= x <= CURSOR_BOUND,
            -CURSOR_BOUND <= y <= CURSOR_BOUND,
        ensures
            final(self)@ == cursor_moved(old(self)@, x as int, y as int),
            final(self).wf(),
    {
        if self.vars.mouse_focused {
            let bx: i64 = if self.vars.first_mouse {
                x
            } else {
                self.vars.last_x
            };
            let by: i64 = if self.vars.first_mouse {
                y
            } else {
                self.vars.last_y
            };
            let dx: i64 = x - bx;
            let dy: i64 = y - by;
            self.vars.first_mouse = false;
            self.vars.last_x = x;
            self.vars.last_y = y;
            self.camera.on_mouse_delta(dx, dy);
        }
    }

    /// Turns mouse-look on or off and primes the baseline either way, so the
    /// first sample after a (re)activation applies no rotation.
    pub fn set_mouse_focused(&mut self, tf: bool)
        requires
            old(self).wf(),
        ensures
            final(self)@ == focus_set(old(self)@, tf),
            final(self).wf(),
    {
        if tf {
            self.vars.mouse_focused = true;
            self.vars.first_mouse = true;
        } else {
            self.vars.mouse_focused = false;
            self.vars.first_mouse = true;
        }
    }
}

/// While mouse-look is inactive, cursor events are no-ops: the whole state,
/// camera orientation included, is unchanged.
pub proof fn lemma_unfocused_cursor_noop(t: TestThingView, x: int, y: int)
    requires
        !t.vars.mouse_focused,
    ensures
        cursor_moved(t, x, y) == t,
{
}

/// Activation reset: right after mouse-look is (re)activated, the first
/// cursor sample applies zero net rotation — it only sets the baseline — and
/// the second applies exactly its delta from the first, scaled by the
/// camera's sensitivity (clamped and saturated as always).
pub proof fn lemma_activation_reset(t: TestThingView, x1: int, y1: int, x2: int, y2: int)
    requires
        -ANGLE_SAT <= t.camera.yaw <= ANGLE_SAT,
        -PITCH_LIMIT <= t.camera.pitch <= PITCH_LIMIT,
    ensures
        ({
            let t1 = focus_set(t, true);
            let t2 = cursor_moved(t1, x1, y1);
            let t3 = cursor_moved(t2, x2, y2);
            &&& t2.camera.yaw == t.camera.yaw
            &&& t2.camera.pitch == t.camera.pitch
            &&& t3.camera.yaw == clamped(
                t.camera.yaw + (x2 - x1) * t.camera.sensitivity,
                ANGLE_SAT as int,
            )
            &&& t3.camera.pitch == clamped(
                t.camera.pitch - (y2 - y1) * t.camera.sensitivity,
                PITCH_LIMIT as int,
            )
        }),
{
    assert((x1 - x1) * t.camera.sensitivity == 0) by (nonlinear_arith);
    assert((y1 - y1) * t.camera.sensitivity == 0) by (nonlinear_arith);
}

} // verus!
