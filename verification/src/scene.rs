//! Per-frame scene state and the render loop's decisions.
//!
//! The scene holds what the loop mutates: the camera, the last known
//! window size, and the frame counter (elapsed time is `frame / 60`
//! seconds, a fixed step per redraw). `handle_event` is the loop's whole
//! decision table: it maps each incoming event to the exact state change
//! and the action the host must carry out (keep going, exit, reconfigure
//! the surface, or render a frame). `recovery_action` is the per-frame
//! error policy for surface acquisition.

use vstd::prelude::*;
use crate::camera::Camera;
use crate::camera::CamView;
use crate::camera::CameraMove;
use crate::camera::SIN_SCALE;
use crate::camera::spec_move_bounded;

verus! {

/// Initial window size in pixels.
pub const INIT_WIDTH: u32 = 800;

pub const INIT_HEIGHT: u32 = 600;

/// Grid parameters the viewer is built with.
pub const GRID_WIDTH: u32 = 80;

pub const GRID_DEPTH: u32 = 60;

/// A pressed key, already classified: the six camera motions, escape,
/// or anything else.
#[derive(Copy, Clone, PartialEq, Eq, Structural, Debug)]
pub enum KeyPress {
    Forward,
    Backward,
    YawLeft,
    YawRight,
    Up,
    Down,
    Escape,
    Other,
}

/// The camera motion a key triggers, if any. Escape and unrecognized keys
/// move nothing (and are not consumed by the camera).
pub open spec fn spec_key_move(k: KeyPress) -> Option<CameraMove> {
    match k {
        KeyPress::Forward => Some(CameraMove::Forward),
        KeyPress::Backward => Some(CameraMove::Backward),
        KeyPress::YawLeft => Some(CameraMove::YawLeft),
        KeyPress::YawRight => Some(CameraMove::YawRight),
        KeyPress::Up => Some(CameraMove::Up),
        KeyPress::Down => Some(CameraMove::Down),
        KeyPress::Escape => None,
        KeyPress::Other => None,
    }
}

/// An event delivered to the loop. A key press carries the sine and
/// cosine of the current yaw scaled by 10^5, since the movement direction
/// depends on them. A window resize and a scale-factor change both arrive
/// as `Resized`.
#[derive(Copy, Clone, PartialEq, Eq, Structural, Debug)]
pub enum LoopEvent {
    KeyPressed { key: KeyPress, sin_e5: i64, cos_e5: i64 },
    CloseRequested,
    Resized { width: u32, height: u32 },
    RedrawRequested,
}

/// What the host must do after an event is processed.
#[derive(Copy, Clone, PartialEq, Eq, Structural, Debug)]
pub enum LoopAction {
    /// Nothing to carry out; keep draining events.
    Continue,
    /// Leave the event loop and end the process cleanly.
    Exit,
    /// Reconfigure the surface and depth buffer to the scene's size.
    Reconfigure,
    /// Recompute the uniforms from the scene and draw one frame.
    Render,
}

/// Mathematical model of the scene.
pub ghost struct SceneView {
    pub cam: CamView,
    pub width: int,
    pub height: int,
    pub frame: int,
}

/// A resize request: accepted exactly when both dimensions are positive,
/// otherwise a no-op (never a zero-sized surface, never a zero aspect
/// divisor).
pub open spec fn spec_resize(s: SceneView, w: int, h: int) -> SceneView {
    if 1 <= w && 1 <= h {
        SceneView { width: w, height: h, ..s }
    } else {
        s
    }
}

/// One redraw: the frame counter advances by one fixed time step (held at
/// the machine bound, which sixty steps a second never reach).
pub open spec fn spec_tick(s: SceneView) -> SceneView {
    if s.frame < u64::MAX {
        SceneView { frame: s.frame + 1, ..s }
    } else {
        s
    }
}

/// The loop's full decision table: next state and required action for
/// each event.
pub open spec fn spec_step(s: SceneView, ev: LoopEvent) -> (SceneView, LoopAction) {
    match ev {
        LoopEvent::KeyPressed { key, sin_e5, cos_e5 } => match spec_key_move(key) {
            Some(m) => (
                SceneView { cam: spec_move_bounded(s.cam, m, sin_e5 as int, cos_e5 as int), ..s },
                LoopAction::Continue,
            ),
            None => if key == KeyPress::Escape {
                (s, LoopAction::Exit)
            } else {
                (s, LoopAction::Continue)
            },
        },
        LoopEvent::CloseRequested => (s, LoopAction::Exit),
        LoopEvent::Resized { width, height } => (
            spec_resize(s, width as int, height as int),
            if 1 <= width && 1 <= height {
                LoopAction::Reconfigure
            } else {
                LoopAction::Continue
            },
        ),
        LoopEvent::RedrawRequested => (spec_tick(s), LoopAction::Render),
    }
}

/// A key event must carry a plausible sine/cosine pair: both within the
/// scale that stands for [-1, 1].
pub open spec fn event_ok(ev: LoopEvent) -> bool {
    match ev {
        LoopEvent::KeyPressed { key, sin_e5, cos_e5 } => {
            &&& -SIN_SCALE <= sin_e5 <= SIN_SCALE
            &&& -SIN_SCALE <= cos_e5 <= SIN_SCALE
        },
        _ => true,
    }
}

/// The mutable state of the viewer.
#[derive(Copy, Clone, Debug)]
pub struct Scene {
    pub camera: Camera,
    pub width: u32,
    pub height: u32,
    pub frame: u64,
}

impl View for Scene {
    type V = SceneView;

    open spec fn view(&self) -> SceneView {
        SceneView {
            cam: self.camera@,
            width: self.width as int,
            height: self.height as int,
            frame: self.frame as int,
        }
    }
}

impl Scene {
    /// The invariant every transition preserves: the camera within its
    /// bound, and a window size that is never zero on either axis.
    pub open spec fn wf(self) -> bool {
        &&& self.camera.wf()
        &&& 1 <= self.width
        &&& 1 <= self.height
    }

    /// The scene as the viewer starts: default camera, the 800 by 600
    /// window, frame zero.
    pub fn new() -> (s: Scene)
        ensures
            s.wf(),
            s.camera@ == Camera::new_view(),
            s.width == INIT_WIDTH,
            s.height == INIT_HEIGHT,
            s.frame == 0,
    {
        Scene { camera: Camera::new(), width: INIT_WIDTH, height: INIT_HEIGHT, frame: 0 }
    }

    /// Record a window resize. Returns whether the size changed — that is,
    /// whether the host must reconfigure the surface. A request with a zero
    /// width or height is a no-op and reports no change.
    pub fn resize(&mut self, width: u32, height: u32) -> (changed: bool)
        requires
            old(self).wf(),
        ensures
            final(self).wf(),
            final(self)@ == spec_resize(old(self)@, width as int, height as int),
            changed == (1 <= width && 1 <= height),
    {
        if width >= 1 && height >= 1 {
            self.width = width;
            self.height = height;
            true
        } else {
            false
        }
    }

    /// Advance the clock by one fixed step of a sixtieth of a second.
    pub fn tick(&mut self)
        requires
            old(self).wf(),
        ensures
            final(self).wf(),
            final(self)@ == spec_tick(old(self)@),
    {
        if self.frame < u64::MAX {
            self.frame = self.frame + 1;
        }
    }

    /// The aspect ratio the projection must use: exactly the latest known
    /// width and height, with the divisor never zero.
    pub fn aspect(&self) -> (r: (u32, u32))
        requires
            self.wf(),
        ensures
            r.0 == self@.width,
            r.1 == self@.height,
            1 <= r.0,
            1 <= r.1,
    {
        (self.width, self.height)
    }

    /// Process one event: mutate the scene exactly as `spec_step` says and
    /// hand back the action the host must carry out.
    pub fn handle_event(&mut self, ev: LoopEvent) -> (a: LoopAction)
        requires
            old(self).wf(),
            event_ok(ev),
        ensures
            final(self).wf(),
            final(self)@ == spec_step(old(self)@, ev).0,
            a == spec_step(old(self)@, ev).1,
    {
        match ev {
            LoopEvent::KeyPressed { key, sin_e5, cos_e5 } => match key {
                KeyPress::Forward => {
                    self.camera.apply_move(CameraMove::Forward, sin_e5, cos_e5);
                    LoopAction::Continue
                }
                KeyPress::Backward => {
                    self.camera.apply_move(CameraMove::Backward, sin_e5, cos_e5);
                    LoopAction::Continue
                }
                KeyPress::YawLeft => {
                    self.camera.apply_move(CameraMove::YawLeft, sin_e5, cos_e5);
                    LoopAction::Continue
                }
                KeyPress::YawRight => {
                    self.camera.apply_move(CameraMove::YawRight, sin_e5, cos_e5);
                    LoopAction::Continue
                }
                KeyPress::Up => {
                    self.camera.apply_move(CameraMove::Up, sin_e5, cos_e5);
                    LoopAction::Continue
                }
                KeyPress::Down => {
                    self.camera.apply_move(CameraMove::Down, sin_e5, cos_e5);
                    LoopAction::Continue
                }
                KeyPress::Escape => LoopAction::Exit,
                KeyPress::Other => LoopAction::Continue,
            },
            LoopEvent::CloseRequested => LoopAction::Exit,
            LoopEvent::Resized { width, height } => {
                let changed: bool = self.resize(width, height);
                if changed {
                    LoopAction::Reconfigure
                } else {
                    LoopAction::Continue
                }
            }
            LoopEvent::RedrawRequested => {
                self.tick();
                LoopAction::Render
            }
        }
    }
}

/// Law: a rejected resize — zero width or zero height — leaves the scene
/// exactly as it was.
pub proof fn lemma_resize_zero_noop(s: SceneView, w: int, h: int)
    requires
        w < 1 || h < 1,
    ensures
        spec_resize(s, w, h) == s,
{
}

/// Law: the projection's aspect ratio is never stale. After a resize
/// accepted earlier in a frame, the redraw that follows computes from
/// exactly the new width and height (the tick touches only the clock).
pub proof fn lemma_aspect_fresh_after_resize(s: SceneView, w: int, h: int)
    requires
        1 <= w,
        1 <= h,
    ensures
        spec_tick(spec_resize(s, w, h)).width == w,
        spec_tick(spec_resize(s, w, h)).height == h,
{
}

/// What went wrong when acquiring the next surface image.
#[derive(Copy, Clone, PartialEq, Eq, Structural, Debug)]
pub enum SurfaceIssue {
    /// Acquisition timed out this frame.
    Timeout,
    /// The surface no longer matches the window and will be remade by the
    /// platform.
    Outdated,
    /// The surface was lost; it must be reconfigured.
    Lost,
    /// Unrecoverable memory exhaustion.
    OutOfMemory,
}

/// What to do about a failed acquisition.
#[derive(Copy, Clone, PartialEq, Eq, Structural, Debug)]
pub enum RecoveryAction {
    /// Log and skip this frame; the next redraw is the retry.
    SkipFrame,
    /// Reconfigure the surface at the current size and go on.
    Reconfigure,
    /// Terminate: the condition is unrecoverable.
    Exit,
}

/// The error policy: lost surfaces are reconfigured, memory exhaustion
/// ends the process, anything else is logged and the frame skipped.
pub open spec fn spec_recovery(e: SurfaceIssue) -> RecoveryAction {
    match e {
        SurfaceIssue::Lost => RecoveryAction::Reconfigure,
        SurfaceIssue::OutOfMemory => RecoveryAction::Exit,
        SurfaceIssue::Timeout => RecoveryAction::SkipFrame,
        SurfaceIssue::Outdated => RecoveryAction::SkipFrame,
    }
}

/// Decide how the loop recovers from a surface acquisition failure.
pub fn recovery_action(e: SurfaceIssue) -> (a: RecoveryAction)
    ensures
        a == spec_recovery(e),
{
    match e {
        SurfaceIssue::Lost => RecoveryAction::Reconfigure,
        SurfaceIssue::OutOfMemory => RecoveryAction::Exit,
        SurfaceIssue::Timeout => RecoveryAction::SkipFrame,
        SurfaceIssue::Outdated => RecoveryAction::SkipFrame,
    }
}

} // verus!
