//! The orbit camera: a focus point, a distance from it, and two angles.
//!
//! Angles are in microradians, the radius in millimetres, the focus in
//! picometres, and pointer motion in whole screen units. The camera's world transform is a function of the
//! state alone and is built from it by the renderer.

use vstd::prelude::*;
use vstd::arithmetic::div_mod::{lemma_fundamental_div_mod, lemma_fundamental_div_mod_converse};
use crate::input::{axis_or_zero, axis_value, InputSnapshot};
use crate::guarantees::lemma_pan_moves_focus;
use crate::routing::RoutingDecision;

verus! {

/// One full turn, 2π, in microradians.
pub const FULL_TURN: i64 = 6_283_185;

/// A quarter turn, π/2, in microradians.
pub const QUARTER_TURN: i64 = 1_570_796;

/// Pitch stays strictly between `-PITCH_LIMIT` and `PITCH_LIMIT`; the limit
/// is below a quarter turn so that the view never flips over a pole.
pub const PITCH_LIMIT: i64 = 1_500_000;

/// Smallest distance from camera to focus, in millimetres.
pub const RADIUS_MIN: i64 = 500;

/// Largest distance from camera to focus, in millimetres.
pub const RADIUS_MAX: i64 = 100_000;

/// Yaw turned per screen unit of horizontal orbit drag, in microradians.
pub const YAW_SENSITIVITY: i64 = 10_000;

/// Pitch turned per screen unit of vertical orbit drag, in microradians.
pub const PITCH_SENSITIVITY: i64 = 10_000;

/// Components of pan basis vectors are given in millionths.
pub const BASIS_UNIT: i64 = 1_000_000;

/// A pan moves the focus by `1 / PAN_DEN` of the radius per screen unit
/// along a unit basis vector.
pub const PAN_DEN: i64 = 1_000;

/// One scroll notch towards the scene scales the radius by
/// `ZOOM_NUM / ZOOM_DEN`; one notch away scales it by the inverse.
pub const ZOOM_NUM: i64 = 9;

/// See `ZOOM_NUM`.
pub const ZOOM_DEN: i64 = 10;

/// Focus units (picometres) in a millimetre. It equals `BASIS_UNIT * PAN_DEN`,
/// so a pan moves the focus by a whole number of units and no drag, however
/// slow, is rounded away.
pub const FOCUS_PER_MM: i64 = BASIS_UNIT * PAN_DEN;

/// A point in world space, in picometres.
#[derive(Clone, Copy, Debug, PartialEq, Eq, Structural)]
pub struct Point3 {
    pub x: i64,
    pub y: i64,
    pub z: i64,
}

/// A direction in world space, each component in millionths.
#[derive(Clone, Copy, Debug, PartialEq, Eq, Structural)]
pub struct Direction {
    pub x: i32,
    pub y: i32,
    pub z: i32,
}

/// The camera's current right and up vectors, along which a pan moves the
/// focus. They are a function of yaw and pitch, computed by whoever renders
/// the camera.
#[derive(Clone, Copy, Debug, PartialEq, Eq, Structural)]
pub struct PanBasis {
    pub right: Direction,
    pub up: Direction,
}

impl PanBasis {
    /// The right and up vectors are not parallel: their cross product is
    /// not zero.
    pub open spec fn independent(self) -> bool {
        let (r, u) = (self.right, self.up);
        !(r.y * u.z - r.z * u.y == 0 && r.z * u.x - r.x * u.z == 0 && r.x * u.y - r.y * u.x == 0)
    }
}

/// The state of the orbit camera.
#[derive(Clone, Copy, Debug, PartialEq, Eq, Structural)]
pub struct CameraState {
    /// The point the camera looks at.
    pub focus: Point3,
    /// Distance from the focus to the camera.
    pub radius: i64,
    /// Rotation around the world up axis, in `[0, FULL_TURN)`.
    pub yaw: i64,
    /// Rotation around the camera's right axis, in `(-PITCH_LIMIT, PITCH_LIMIT)`.
    pub pitch: i64,
}

/// A yaw angle wrapped into `[0, FULL_TURN)`.
pub open spec fn wrap_yaw(a: int) -> int {
    a % (FULL_TURN as int)
}

/// A pitch angle clamped into the open interval `(-PITCH_LIMIT, PITCH_LIMIT)`.
pub open spec fn clamp_pitch(p: int) -> int {
    if p <= -PITCH_LIMIT {
        -PITCH_LIMIT + 1
    } else if p >= PITCH_LIMIT {
        PITCH_LIMIT - 1
    } else {
        p
    }
}

/// A radius clamped into `[RADIUS_MIN, RADIUS_MAX]`.
pub open spec fn clamp_radius(r: int) -> int {
    if r < RADIUS_MIN {
        RADIUS_MIN as int
    } else if r > RADIUS_MAX {
        RADIUS_MAX as int
    } else {
        r
    }
}

/// `v` held inside the range of `i64`.
pub open spec fn saturate(v: int) -> int {
    if v < i64::MIN {
        i64::MIN as int
    } else if v > i64::MAX {
        i64::MAX as int
    } else {
        v
    }
}

/// One coordinate of the drag `(dx, dy)` laid along the right and up
/// vectors: `-dx * right + dy * up`, in millionths of a screen unit.
pub open spec fn drag_along(dx: int, dy: int, right: int, up: int) -> int {
    -dx * right + dy * up
}

/// How far one focus coordinate moves, in focus units, for a pan drag of
/// `(dx, dy)`: the drag along the basis scaled by the radius. In
/// millimetres this is `drag_along * radius / (BASIS_UNIT * PAN_DEN)`, that
/// is `1 / PAN_DEN` of the radius per screen unit along a unit vector.
pub open spec fn pan_shift(dx: int, dy: int, right: int, up: int, radius: int) -> int {
    drag_along(dx, dy, right, up) * radius
}

/// `v` lies in the range of `i64`.
pub open spec fn fits_i64(v: int) -> bool {
    i64::MIN <= v <= i64::MAX
}

/// The focus after a pan drag of `(dx, dy)` along `basis`.
pub open spec fn panned_focus(f: Point3, dx: int, dy: int, basis: PanBasis, radius: int) -> Point3 {
    Point3 {
        x: saturate(f.x + pan_shift(dx, dy, basis.right.x as int, basis.up.x as int, radius)) as i64,
        y: saturate(f.y + pan_shift(dx, dy, basis.right.y as int, basis.up.y as int, radius)) as i64,
        z: saturate(f.z + pan_shift(dx, dy, basis.right.z as int, basis.up.z as int, radius)) as i64,
    }
}

/// One scroll notch towards the scene.
pub open spec fn zoom_in_step(r: int) -> int {
    let n = r * ZOOM_NUM / (ZOOM_DEN as int);
    if n < RADIUS_MIN {
        RADIUS_MIN as int
    } else {
        n
    }
}

/// One scroll notch away from the scene.
pub open spec fn zoom_out_step(r: int) -> int {
    let n = r * ZOOM_DEN / (ZOOM_NUM as int);
    if n > RADIUS_MAX {
        RADIUS_MAX as int
    } else {
        n
    }
}

/// The radius after `notches` scroll notches: positive ones zoom in,
/// negative ones zoom out, one notch at a time.
pub open spec fn zoomed(r: int, notches: int) -> int
    decreases (if notches >= 0 { notches } else { -notches }),
{
    if notches > 0 {
        zoomed(zoom_in_step(r), notches - 1)
    } else if notches < 0 {
        zoomed(zoom_out_step(r), notches + 1)
    } else {
        r
    }
}

impl CameraState {
    /// The invariants of the camera: radius within its bounds, yaw wrapped,
    /// pitch strictly inside its limit.
    pub open spec fn wf(self) -> bool {
        &&& RADIUS_MIN <= self.radius <= RADIUS_MAX
        &&& 0 <= self.yaw < FULL_TURN
        &&& -PITCH_LIMIT < self.pitch < PITCH_LIMIT
    }

    /// The state after an orbit drag of `(dx, dy)` screen units.
    pub open spec fn orbited(self, dx: int, dy: int) -> CameraState {
        CameraState {
            yaw: wrap_yaw(self.yaw + dx * YAW_SENSITIVITY) as i64,
            pitch: clamp_pitch(self.pitch - dy * PITCH_SENSITIVITY) as i64,
            ..self
        }
    }

    /// The state after a pan drag of `(dx, dy)` screen units along `basis`.
    pub open spec fn panned(self, dx: int, dy: int, basis: PanBasis) -> CameraState {
        CameraState { focus: panned_focus(self.focus, dx, dy, basis, self.radius as int), ..self }
    }

    /// A pan drag of `(dx, dy)` along `basis` moves no focus coordinate past
    /// the bounds of `i64`.
    pub open spec fn pan_fits(self, dx: int, dy: int, basis: PanBasis) -> bool {
        let r = self.radius as int;
        &&& fits_i64(self.focus.x + pan_shift(dx, dy, basis.right.x as int, basis.up.x as int, r))
        &&& fits_i64(self.focus.y + pan_shift(dx, dy, basis.right.y as int, basis.up.y as int, r))
        &&& fits_i64(self.focus.z + pan_shift(dx, dy, basis.right.z as int, basis.up.z as int, r))
    }

    /// The state after `notches` scroll notches.
    pub open spec fn zoomed_by(self, notches: int) -> CameraState {
        CameraState { radius: zoomed(self.radius as int, notches) as i64, ..self }
    }

    /// The state after one frame of scene input: an orbit drag if the orbit
    /// button is down, else a pan drag if the pan button is down, then the
    /// scroll as zoom.
    pub open spec fn stepped(self, input: InputSnapshot, basis: PanBasis) -> CameraState {
        let dx = axis_value(input.dx);
        let dy = axis_value(input.dy);
        let moved = if input.orbit_button.down() {
            self.orbited(dx, dy)
        } else if input.pan_button.down() {
            self.panned(dx, dy, basis)
        } else {
            self
        };
        moved.zoomed_by(axis_value(input.scroll))
    }

    /// The state after one frame: unchanged unless the scene owns the pointer.
    pub open spec fn updated(self, input: InputSnapshot, decision: RoutingDecision, basis: PanBasis) -> CameraState {
        if decision == RoutingDecision::SceneInteraction {
            self.stepped(input, basis)
        } else {
            self
        }
    }

    /// A camera from designer-supplied values: the radius and pitch are
    /// clamped into their bounds and the yaw is wrapped.
    pub fn new(focus: Point3, radius: i64, yaw: i64, pitch: i64) -> (r: CameraState)
        ensures
            r.wf(),
            r.focus == focus,
            r.radius == clamp_radius(radius as int),
            r.yaw == wrap_yaw(yaw as int),
            r.pitch == clamp_pitch(pitch as int),
    {
        let wrapped = if yaw == i64::MIN {
            // Shifting by one turn leaves the wrapped angle as it is.
            wrap_angle(yaw + FULL_TURN)
        } else {
            wrap_angle(yaw)
        };
        CameraState {
            focus,
            radius: clamp_i64(radius, RADIUS_MIN, RADIUS_MAX),
            yaw: wrapped,
            pitch: clamp_i64(pitch, -PITCH_LIMIT + 1, PITCH_LIMIT - 1),
        }
    }

    /// Moves the focus along the camera's right and up vectors by a pan drag
    /// of `(dx, dy)` screen units, scaled by the radius so that the pan looks
    /// equally fast at every distance. Each coordinate saturates at the
    /// bounds of `i64`. Radius and angles are kept. A drag other than
    /// `(0, 0)` along two vectors that are not parallel always moves the
    /// focus, unless it would take it past those bounds.
    pub fn pan(&mut self, dx: i32, dy: i32, basis: &PanBasis)
        requires
            old(self).wf(),
        ensures
            *final(self) == old(self).panned(dx as int, dy as int, *basis),
            final(self).wf(),
            (dx != 0 || dy != 0) && basis.independent() && old(self).pan_fits(dx as int, dy as int, *basis)
                ==> final(self).focus != old(self).focus,
    {
        proof {
            if (dx != 0 || dy != 0) && basis.independent() && self.pan_fits(dx as int, dy as int, *basis) {
                lemma_pan_moves_focus(*self, dx as int, dy as int, *basis);
            }
        }
        let r = self.radius;
        self.focus = Point3 {
            x: shifted(self.focus.x, pan_offset(dx, dy, basis.right.x, basis.up.x, r)),
            y: shifted(self.focus.y, pan_offset(dx, dy, basis.right.y, basis.up.y, r)),
            z: shifted(self.focus.z, pan_offset(dx, dy, basis.right.z, basis.up.z, r)),
        };
    }

    /// Scales the radius by `notches` scroll notches, each one multiplying it
    /// by `ZOOM_NUM / ZOOM_DEN` (towards the scene) or the inverse (away from
    /// it), held inside `[RADIUS_MIN, RADIUS_MAX]`. Focus and angles are kept.
    pub fn zoom(&mut self, notches: i32)
        requires
            old(self).wf(),
        ensures
            *final(self) == old(self).zoomed_by(notches as int),
            final(self).wf(),
    {
        let mut r = self.radius;
        let mut n = notches;
        while n != 0
            invariant
                RADIUS_MIN <= r <= RADIUS_MAX,
                zoomed(r as int, n as int) == zoomed(old(self).radius as int, notches as int),
            ensures
                RADIUS_MIN <= r <= RADIUS_MAX,
                r == zoomed(old(self).radius as int, notches as int),
            decreases (if n >= 0 { n as int } else { -n as int }),
        {
            if n > 0 {
                if r == RADIUS_MIN {
                    proof { lemma_zoom_in_floor(n as int); }
                    break;
                }
                let next = r * ZOOM_NUM / ZOOM_DEN;
                r = if next < RADIUS_MIN { RADIUS_MIN } else { next };
                n = n - 1;
            } else {
                if r == RADIUS_MAX {
                    proof { lemma_zoom_out_ceiling(n as int); }
                    break;
                }
                let next = r * ZOOM_DEN / ZOOM_NUM;
                r = if next > RADIUS_MAX { RADIUS_MAX } else { next };
                n = n + 1;
            }
        }
        self.radius = r;
    }

    /// Turns the camera around the focus by an orbit drag of `(dx, dy)`
    /// screen units: yaw follows `dx`, pitch follows `-dy` and is held inside
    /// its limit, yaw is wrapped into one turn.
    pub fn orbit(&mut self, dx: i32, dy: i32)
        requires
            old(self).wf(),
        ensures
            *final(self) == old(self).orbited(dx as int, dy as int),
            final(self).wf(),
    {
        let yaw = wrap_angle(self.yaw + (dx as i64) * YAW_SENSITIVITY);
        let pitch = clamp_i64(self.pitch - (dy as i64) * PITCH_SENSITIVITY, -PITCH_LIMIT + 1, PITCH_LIMIT - 1);
        self.yaw = yaw;
        self.pitch = pitch;
    }
}

/// Applies one frame of input to the camera.
///
/// When the UI owns the pointer the state is left exactly as it was, so the
/// camera never reacts to a drag meant for the UI. Otherwise an orbit drag
/// (orbit button down) or else a pan drag (pan button down) is applied,
/// then the scroll zooms. `basis` holds the camera's right and up vectors
/// for the state as it is on entry; a pan only happens in a frame without
/// an orbit, so they are still current when it is applied.
pub fn update(input: &InputSnapshot, decision: RoutingDecision, state: &mut CameraState, basis: &PanBasis)
    requires
        old(state).wf(),
    ensures
        *final(state) == old(state).updated(*input, decision, *basis),
        final(state).wf(),
{
    if decision != RoutingDecision::SceneInteraction {
        return;
    }
    let dx = axis_or_zero(input.dx);
    let dy = axis_or_zero(input.dy);
    if input.orbit_button.is_down() {
        state.orbit(dx, dy);
    } else if input.pan_button.is_down() {
        state.pan(dx, dy, basis);
    }
    state.zoom(axis_or_zero(input.scroll));
}

/// Once the radius is at its lower bound, zooming in keeps it there.
proof fn lemma_zoom_in_floor(n: int)
    requires
        n >= 0,
    ensures
        zoomed(RADIUS_MIN as int, n) == RADIUS_MIN,
    decreases n,
{
    if n > 0 {
        lemma_zoom_in_floor(n - 1);
    }
}

/// Once the radius is at its upper bound, zooming out keeps it there.
proof fn lemma_zoom_out_ceiling(n: int)
    requires
        n <= 0,
    ensures
        zoomed(RADIUS_MAX as int, n) == RADIUS_MAX,
    decreases -n,
{
    if n < 0 {
        lemma_zoom_out_ceiling(n + 1);
    }
}

/// The product of two `i32` values is at most `2^62` in size.
proof fn lemma_product_bound(a: int, b: int)
    requires
        -0x8000_0000 <= a < 0x8000_0000,
        -0x8000_0000 <= b < 0x8000_0000,
    ensures
        -0x4000_0000_0000_0000 <= a * b <= 0x4000_0000_0000_0000,
{
    assert(-0x4000_0000_0000_0000 <= a * b <= 0x4000_0000_0000_0000) by (nonlinear_arith)
        requires
            -0x8000_0000 <= a < 0x8000_0000,
            -0x8000_0000 <= b < 0x8000_0000,
    ;
}

/// `v + d`, saturating at the bounds of `i64`.
fn shifted(v: i64, d: i128) -> (r: i64)
    requires
        -0x8000_0000_0000_0000i128 * 100_000 <= d <= 0x8000_0000_0000_0000i128 * 100_000,
    ensures
        r == saturate(v + d),
{
    let s = v as i128 + d;
    if s < i64::MIN as i128 {
        i64::MIN
    } else if s > i64::MAX as i128 {
        i64::MAX
    } else {
        s as i64
    }
}

/// How far one focus coordinate moves in a pan, see `pan_shift`.
fn pan_offset(dx: i32, dy: i32, right: i32, up: i32, radius: i64) -> (r: i128)
    requires
        0 <= radius <= RADIUS_MAX,
    ensures
        r == pan_shift(dx as int, dy as int, right as int, up as int, radius as int),
        -0x8000_0000_0000_0000i128 * 100_000 <= r <= 0x8000_0000_0000_0000i128 * 100_000,
{
    proof {
        lemma_product_bound(dx as int, right as int);
        lemma_product_bound(dy as int, up as int);
    }
    let a = -((dx as i128) * (right as i128));
    let b = (dy as i128) * (up as i128);
    let c = a + b;
    proof {
        assert(-0x8000_0000_0000_0000i128 * 100_000 <= c * (radius as i128) <= 0x8000_0000_0000_0000i128 * 100_000) by (nonlinear_arith)
            requires -0x8000_0000_0000_0000 <= c <= 0x8000_0000_0000_0000, 0 <= radius <= 100_000;
        assert(-(dx as int) * (right as int) == -((dx as int) * (right as int))) by (nonlinear_arith);
    }
    c * (radius as i128)
}

/// `v` clamped into `[lo, hi]`.
fn clamp_i64(v: i64, lo: i64, hi: i64) -> (r: i64)
    requires
        lo <= hi,
    ensures
        r == (if v < lo { lo } else if v > hi { hi } else { v }),
{
    if v < lo {
        lo
    } else if v > hi {
        hi
    } else {
        v
    }
}

/// `a` wrapped into `[0, FULL_TURN)`, whatever its sign.
fn wrap_angle(a: i64) -> (r: i64)
    requires
        a > i64::MIN,
    ensures
        r == wrap_yaw(a as int),
        0 <= r < FULL_TURN,
{
    if a >= 0 {
        a % FULL_TURN
    } else {
        let m = (-a) % FULL_TURN;
        proof {
            let t = FULL_TURN as int;
            let q = (-a as int) / t;
            lemma_fundamental_div_mod(-a as int, t);
            if m == 0 {
                lemma_fundamental_div_mod_converse(a as int, t, -q, 0);
            } else {
                lemma_fundamental_div_mod_converse(a as int, t, -q - 1, t - m);
            }
        }
        if m == 0 {
            0
        } else {
            FULL_TURN - m
        }
    }
}

} // verus!
