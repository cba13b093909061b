//! Free-fly camera: a position in ℝ³ and a yaw angle, mutated by discrete
//! key-press events.
//!
//! Coordinates are held in micro-units (millionths of a world unit) and the
//! yaw in micro-radians, so every transition is exact integer arithmetic.
//! The direction of travel depends on the sine and cosine of the current
//! yaw; those are transcendental, so the caller hands them in scaled by
//! 10^5 (`sin_e5`, `cos_e5`). With the movement step fixed at 0.1 units,
//! the positional delta in micro-units is then exactly `sin_e5` resp.
//! `cos_e5`: `0.1 * (sin_e5 * 10^-5) * 10^6 = sin_e5`.

use vstd::prelude::*;

verus! {

/// Movement step per key event, in micro-units (0.1 world units).
pub const MOVE_STEP_MICRO: i64 = 100_000;

/// Yaw step per key event, in micro-radians (0.1 radians).
pub const YAW_STEP_MICRO: i64 = 100_000;

/// Scale of the sine/cosine arguments: a value in [-SIN_SCALE, SIN_SCALE]
/// stands for a real number in [-1, 1].
pub const SIN_SCALE: i64 = 100_000;

/// Coordinates and yaw are kept within this bound (10^9 world units).
/// An event that would carry the camera past it is ignored; single-precision
/// floats would have stopped resolving the 0.1-unit step far earlier.
pub const POS_LIMIT_MICRO: i64 = 1_000_000_000_000_000;

/// Initial eye position: (0, 0.5, -5) world units, yaw 0.
pub const INIT_X_MICRO: i64 = 0;
pub const INIT_Y_MICRO: i64 = 500_000;
pub const INIT_Z_MICRO: i64 = -5_000_000;

/// The six camera motions a key press can trigger.
#[derive(Copy, Clone, PartialEq, Eq, Structural, Debug)]
pub enum CameraMove {
    Forward,
    Backward,
    YawLeft,
    YawRight,
    Up,
    Down,
}

/// Mathematical model of the camera state: unbounded integers in
/// micro-units / micro-radians.
pub ghost struct CamView {
    pub x: int,
    pub y: int,
    pub z: int,
    pub yaw: int,
}

impl CamView {
    /// All four components lie within the machine bound.
    pub open spec fn in_bounds(self) -> bool {
        &&& -POS_LIMIT_MICRO <= self.x <= POS_LIMIT_MICRO
        &&& -POS_LIMIT_MICRO <= self.y <= POS_LIMIT_MICRO
        &&& -POS_LIMIT_MICRO <= self.z <= POS_LIMIT_MICRO
        &&& -POS_LIMIT_MICRO <= self.yaw <= POS_LIMIT_MICRO
    }
}

/// The unclamped transition: the new camera state after one key event,
/// given the scaled sine and cosine of the current yaw.
///
///   forward:  position += 0.1 * (sin yaw, 0, cos yaw)
///   backward: position -= 0.1 * (sin yaw, 0, cos yaw)
///   yaw-left / yaw-right: yaw -+= 0.1 rad
///   up / down: y +-= 0.1
pub open spec fn spec_move(c: CamView, m: CameraMove, s: int, co: int) -> CamView {
    match m {
        CameraMove::Forward => CamView { x: c.x + s, z: c.z + co, ..c },
        CameraMove::Backward => CamView { x: c.x - s, z: c.z - co, ..c },
        CameraMove::YawLeft => CamView { yaw: c.yaw - YAW_STEP_MICRO, ..c },
        CameraMove::YawRight => CamView { yaw: c.yaw + YAW_STEP_MICRO, ..c },
        CameraMove::Up => CamView { y: c.y + MOVE_STEP_MICRO, ..c },
        CameraMove::Down => CamView { y: c.y - MOVE_STEP_MICRO, ..c },
    }
}

/// The transition actually taken: the unclamped one when it stays within
/// the machine bound, otherwise no motion at all.
pub open spec fn spec_move_bounded(c: CamView, m: CameraMove, s: int, co: int) -> CamView {
    let t = spec_move(c, m, s, co);
    if t.in_bounds() {
        t
    } else {
        c
    }
}

/// Camera state: position in micro-units, yaw in micro-radians.
#[derive(Copy, Clone, PartialEq, Eq, Structural, Debug)]
pub struct Camera {
    pub x_micro: i64,
    pub y_micro: i64,
    pub z_micro: i64,
    pub yaw_micro: i64,
}

impl View for Camera {
    type V = CamView;

    open spec fn view(&self) -> CamView {
        CamView {
            x: self.x_micro as int,
            y: self.y_micro as int,
            z: self.z_micro as int,
            yaw: self.yaw_micro as int,
        }
    }
}

impl Camera {
    /// Invariant: the state never leaves the machine bound.
    pub open spec fn wf(self) -> bool {
        self@.in_bounds()
    }

    /// The initial camera state as a model value.
    pub open spec fn new_view() -> CamView {
        CamView { x: INIT_X_MICRO as int, y: INIT_Y_MICRO as int, z: INIT_Z_MICRO as int, yaw: 0 }
    }

    /// The camera as the viewer starts: half a unit up, five units back,
    /// looking along +Z.
    pub fn new() -> (c: Camera)
        ensures
            c@ == Camera::new_view(),
            c.wf(),
    {
        Camera { x_micro: INIT_X_MICRO, y_micro: INIT_Y_MICRO, z_micro: INIT_Z_MICRO, yaw_micro: 0 }
    }

    /// Apply one key event. `sin_e5` and `cos_e5` are the sine and cosine
    /// of the current yaw scaled by 10^5; any pair within that scale is
    /// accepted and the contract is exact in terms of it.
    pub fn apply_move(&mut self, m: CameraMove, sin_e5: i64, cos_e5: i64)
        requires
            old(self).wf(),
            -SIN_SCALE <= sin_e5 <= SIN_SCALE,
            -SIN_SCALE <= cos_e5 <= SIN_SCALE,
        ensures
            final(self).wf(),
            final(self)@ == spec_move_bounded(old(self)@, m, sin_e5 as int, cos_e5 as int),
    {
        match m {
            CameraMove::Forward => {
                let nx: i64 = self.x_micro + sin_e5;
                let nz: i64 = self.z_micro + cos_e5;
                if -POS_LIMIT_MICRO <= nx && nx <= POS_LIMIT_MICRO && -POS_LIMIT_MICRO <= nz
                    && nz <= POS_LIMIT_MICRO {
                    self.x_micro = nx;
                    self.z_micro = nz;
                }
            }
            CameraMove::Backward => {
                let nx: i64 = self.x_micro - sin_e5;
                let nz: i64 = self.z_micro - cos_e5;
                if -POS_LIMIT_MICRO <= nx && nx <= POS_LIMIT_MICRO && -POS_LIMIT_MICRO <= nz
                    && nz <= POS_LIMIT_MICRO {
                    self.x_micro = nx;
                    self.z_micro = nz;
                }
            }
            CameraMove::YawLeft => {
                let ny: i64 = self.yaw_micro - YAW_STEP_MICRO;
                if -POS_LIMIT_MICRO <= ny && ny <= POS_LIMIT_MICRO {
                    self.yaw_micro = ny;
                }
            }
            CameraMove::YawRight => {
                let ny: i64 = self.yaw_micro + YAW_STEP_MICRO;
                if -POS_LIMIT_MICRO <= ny && ny <= POS_LIMIT_MICRO {
                    self.yaw_micro = ny;
                }
            }
            CameraMove::Up => {
                let ny: i64 = self.y_micro + MOVE_STEP_MICRO;
                if -POS_LIMIT_MICRO <= ny && ny <= POS_LIMIT_MICRO {
                    self.y_micro = ny;
                }
            }
            CameraMove::Down => {
                let ny: i64 = self.y_micro - MOVE_STEP_MICRO;
                if -POS_LIMIT_MICRO <= ny && ny <= POS_LIMIT_MICRO {
                    self.y_micro = ny;
                }
            }
        }
    }
}

/// One recorded key event: the motion together with the scaled sine and
/// cosine of the yaw at the moment it was applied.
pub ghost struct MoveEvent {
    pub m: CameraMove,
    pub s: int,
    pub co: int,
}

/// Folding a whole sequence of key events over the unclamped transition.
pub open spec fn spec_apply_events(c: CamView, evs: Seq<MoveEvent>) -> CamView
    decreases evs.len(),
{
    if evs.len() == 0 {
        c
    } else {
        spec_move(spec_apply_events(c, evs.drop_last()), evs.last().m, evs.last().s, evs.last().co)
    }
}

/// The x-contribution of a single event.
pub open spec fn delta_x(e: MoveEvent) -> int {
    match e.m {
        CameraMove::Forward => e.s,
        CameraMove::Backward => -e.s,
        _ => 0,
    }
}

/// The y-contribution of a single event.
pub open spec fn delta_y(e: MoveEvent) -> int {
    match e.m {
        CameraMove::Up => MOVE_STEP_MICRO as int,
        CameraMove::Down => -(MOVE_STEP_MICRO as int),
        _ => 0,
    }
}

/// The z-contribution of a single event.
pub open spec fn delta_z(e: MoveEvent) -> int {
    match e.m {
        CameraMove::Forward => e.co,
        CameraMove::Backward => -e.co,
        _ => 0,
    }
}

/// The yaw-contribution of a single event.
pub open spec fn delta_yaw(e: MoveEvent) -> int {
    match e.m {
        CameraMove::YawLeft => -(YAW_STEP_MICRO as int),
        CameraMove::YawRight => YAW_STEP_MICRO as int,
        _ => 0,
    }
}

pub open spec fn sum_delta_x(evs: Seq<MoveEvent>) -> int
    decreases evs.len(),
{
    if evs.len() == 0 {
        0
    } else {
        sum_delta_x(evs.drop_last()) + delta_x(evs.last())
    }
}

pub open spec fn sum_delta_y(evs: Seq<MoveEvent>) -> int
    decreases evs.len(),
{
    if evs.len() == 0 {
        0
    } else {
        sum_delta_y(evs.drop_last()) + delta_y(evs.last())
    }
}

pub open spec fn sum_delta_z(evs: Seq<MoveEvent>) -> int
    decreases evs.len(),
{
    if evs.len() == 0 {
        0
    } else {
        sum_delta_z(evs.drop_last()) + delta_z(evs.last())
    }
}

pub open spec fn sum_delta_yaw(evs: Seq<MoveEvent>) -> int
    decreases evs.len(),
{
    if evs.len() == 0 {
        0
    } else {
        sum_delta_yaw(evs.drop_last()) + delta_yaw(evs.last())
    }
}

/// Superposition: after any sequence of key events, each component of the
/// camera state equals its initial value plus the sum of the per-event
/// deltas. The x- and z-deltas carry the sine/cosine recorded in the event,
/// so event order still matters for them exactly insofar as it changed
/// those recorded values; the y- and yaw-deltas are constants per motion,
/// so for them the order is immaterial.
pub proof fn lemma_superposition(c: CamView, evs: Seq<MoveEvent>)
    ensures
        spec_apply_events(c, evs).x == c.x + sum_delta_x(evs),
        spec_apply_events(c, evs).y == c.y + sum_delta_y(evs),
        spec_apply_events(c, evs).z == c.z + sum_delta_z(evs),
        spec_apply_events(c, evs).yaw == c.yaw + sum_delta_yaw(evs),
    decreases evs.len(),
{
    if evs.len() > 0 {
        lemma_superposition(c, evs.drop_last());
    }
}

/// How many events of the sequence trigger the given motion.
pub open spec fn count_move(evs: Seq<MoveEvent>, m: CameraMove) -> int
    decreases evs.len(),
{
    if evs.len() == 0 {
        0
    } else {
        count_move(evs.drop_last(), m) + if evs.last().m == m {
            1int
        } else {
            0int
        }
    }
}

/// Yaw and height are order-independent: they depend only on how many
/// times each of their keys was pressed, since their per-event deltas are
/// constants. (The x- and z-deltas instead carry the yaw's sine and
/// cosine, which is exactly where order matters.)
pub proof fn lemma_yaw_and_height_count_events(c: CamView, evs: Seq<MoveEvent>)
    ensures
        spec_apply_events(c, evs).yaw == c.yaw + YAW_STEP_MICRO * (count_move(evs, CameraMove::YawRight)
            - count_move(evs, CameraMove::YawLeft)),
        spec_apply_events(c, evs).y == c.y + MOVE_STEP_MICRO * (count_move(evs, CameraMove::Up)
            - count_move(evs, CameraMove::Down)),
    decreases evs.len(),
{
    if evs.len() > 0 {
        lemma_yaw_and_height_count_events(c, evs.drop_last());
        let r = count_move(evs, CameraMove::YawRight);
        let l = count_move(evs, CameraMove::YawLeft);
        let rp = count_move(evs.drop_last(), CameraMove::YawRight);
        let lp = count_move(evs.drop_last(), CameraMove::YawLeft);
        assert(YAW_STEP_MICRO * (r - l) == YAW_STEP_MICRO * (rp - lp) + YAW_STEP_MICRO * ((r - rp)
            - (l - lp))) by (nonlinear_arith);
        let u = count_move(evs, CameraMove::Up);
        let d = count_move(evs, CameraMove::Down);
        let up = count_move(evs.drop_last(), CameraMove::Up);
        let dp = count_move(evs.drop_last(), CameraMove::Down);
        assert(MOVE_STEP_MICRO * (u - d) == MOVE_STEP_MICRO * (up - dp) + MOVE_STEP_MICRO * ((u
            - up) - (d - dp))) by (nonlinear_arith);
    }
}

/// Within the machine bound the clamped transition is the unclamped one:
/// clamping only ever intervenes at the bound itself.
pub proof fn lemma_move_bounded_is_move(c: CamView, m: CameraMove, s: int, co: int)
    requires
        spec_move(c, m, s, co).in_bounds(),
    ensures
        spec_move_bounded(c, m, s, co) == spec_move(c, m, s, co),
{
}

/// Folding a sequence of key events over the transition the camera
/// actually takes, bound and all.
pub open spec fn spec_apply_events_bounded(c: CamView, evs: Seq<MoveEvent>) -> CamView
    decreases evs.len(),
{
    if evs.len() == 0 {
        c
    } else {
        spec_move_bounded(
            spec_apply_events_bounded(c, evs.drop_last()),
            evs.last().m,
            evs.last().s,
            evs.last().co,
        )
    }
}

/// Every step of the ideal fold stays within the machine bound.
pub open spec fn all_in_bounds(c: CamView, evs: Seq<MoveEvent>) -> bool
    decreases evs.len(),
{
    if evs.len() == 0 {
        true
    } else {
        &&& all_in_bounds(c, evs.drop_last())
        &&& spec_move(
            spec_apply_events(c, evs.drop_last()),
            evs.last().m,
            evs.last().s,
            evs.last().co,
        ).in_bounds()
    }
}

/// As long as the ideal trajectory never touches the machine bound — in
/// practice, always — the camera follows it exactly: the superposition
/// law holds of the states the camera actually reaches.
pub proof fn lemma_bounded_fold_matches_ideal(c: CamView, evs: Seq<MoveEvent>)
    requires
        all_in_bounds(c, evs),
    ensures
        spec_apply_events_bounded(c, evs) == spec_apply_events(c, evs),
    decreases evs.len(),
{
    if evs.len() > 0 {
        lemma_bounded_fold_matches_ideal(c, evs.drop_last());
    }
}

} // verus!
