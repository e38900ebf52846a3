//! What the camera guarantees over any number of frames.

use vstd::prelude::*;
use vstd::arithmetic::div_mod::{lemma_add_mod_noop, lemma_small_mod};
use crate::camera::{drag_along, wrap_yaw, zoom_in_step, zoom_out_step, zoomed, CameraState, PanBasis, FULL_TURN, PITCH_LIMIT, QUARTER_TURN, RADIUS_MAX, RADIUS_MIN, YAW_SENSITIVITY};
use crate::input::{axis_value, InputSnapshot};
use crate::routing::RoutingDecision;

verus! {

/// The state after a run of frames, each one an input, the decision taken
/// for it, and the pan basis of that frame.
pub open spec fn after_frames(s: CameraState, frames: Seq<(InputSnapshot, RoutingDecision, PanBasis)>) -> CameraState
    decreases frames.len(),
{
    if frames.len() == 0 {
        s
    } else {
        let last = frames.last();
        after_frames(s, frames.drop_last()).updated(last.0, last.1, last.2)
    }
}

/// The state after a run of orbit drags, each with horizontal motion only.
pub open spec fn after_orbits(s: CameraState, dxs: Seq<int>) -> CameraState
    decreases dxs.len(),
{
    if dxs.len() == 0 {
        s
    } else {
        after_orbits(s, dxs.drop_last()).orbited(dxs.last(), 0)
    }
}

/// The sum of a run of motions.
pub open spec fn total(ds: Seq<int>) -> int
    decreases ds.len(),
{
    if ds.len() == 0 {
        0
    } else {
        total(ds.drop_last()) + ds.last()
    }
}

/// Zooming keeps a radius inside its bounds.
proof fn lemma_zoomed_in_bounds(r: int, n: int)
    requires
        RADIUS_MIN <= r <= RADIUS_MAX,
    ensures
        RADIUS_MIN <= zoomed(r, n) <= RADIUS_MAX,
    decreases (if n >= 0 { n } else { -n }),
{
    if n > 0 {
        lemma_zoomed_in_bounds(zoom_in_step(r), n - 1);
    } else if n < 0 {
        lemma_zoomed_in_bounds(zoom_out_step(r), n + 1);
    }
}

/// Zooming in never makes the radius larger.
proof fn lemma_zoom_in_not_larger(r: int, n: int)
    requires
        RADIUS_MIN <= r <= RADIUS_MAX,
        n >= 0,
    ensures
        zoomed(r, n) <= r,
    decreases n,
{
    if n > 0 {
        lemma_zoom_in_not_larger(zoom_in_step(r), n - 1);
    }
}

/// Zooming out never makes the radius smaller.
proof fn lemma_zoom_out_not_smaller(r: int, n: int)
    requires
        RADIUS_MIN <= r <= RADIUS_MAX,
        n <= 0,
    ensures
        zoomed(r, n) >= r,
    decreases -n,
{
    if n < 0 {
        lemma_zoom_out_not_smaller(zoom_out_step(r), n + 1);
    }
}

/// One frame keeps the camera's invariants, whatever the input and the
/// decision.
pub proof fn lemma_update_keeps_invariants(s: CameraState, input: InputSnapshot, decision: RoutingDecision, basis: PanBasis)
    requires
        s.wf(),
    ensures
        s.updated(input, decision, basis).wf(),
{
    let dx = axis_value(input.dx);
    let dy = axis_value(input.dy);
    let moved = if input.orbit_button.down() {
        s.orbited(dx, dy)
    } else if input.pan_button.down() {
        s.panned(dx, dy, basis)
    } else {
        s
    };
    assert(moved.wf());
    lemma_zoomed_in_bounds(moved.radius as int, axis_value(input.scroll));
}

/// After every run of frames the radius lies in `[RADIUS_MIN, RADIUS_MAX]`
/// and the pitch strictly inside `(-PITCH_LIMIT, PITCH_LIMIT)`.
pub proof fn lemma_frames_keep_invariants(s: CameraState, frames: Seq<(InputSnapshot, RoutingDecision, PanBasis)>)
    requires
        s.wf(),
    ensures
        after_frames(s, frames).wf(),
        RADIUS_MIN <= after_frames(s, frames).radius <= RADIUS_MAX,
        -PITCH_LIMIT < after_frames(s, frames).pitch < PITCH_LIMIT,
    decreases frames.len(),
{
    if frames.len() > 0 {
        lemma_frames_keep_invariants(s, frames.drop_last());
        let last = frames.last();
        lemma_update_keeps_invariants(after_frames(s, frames.drop_last()), last.0, last.1, last.2);
    }
}

/// A well-formed camera never looks straight up or down: its pitch stays
/// strictly inside a quarter turn, so the look-at direction is never
/// parallel to the world up axis.
pub proof fn lemma_view_never_vertical(s: CameraState)
    requires
        s.wf(),
    ensures
        -QUARTER_TURN < s.pitch < QUARTER_TURN,
{
}

/// A frame that the UI owns leaves the camera state, and so the transform
/// built from it, exactly as it was.
pub proof fn lemma_ui_frame_keeps_state(s: CameraState, input: InputSnapshot, basis: PanBasis)
    ensures
        s.updated(input, RoutingDecision::UI, basis) == s,
{
}

/// A run of horizontal orbit drags moves the yaw by their sum and leaves
/// everything else as it was.
pub proof fn lemma_orbits_add_up(s: CameraState, dxs: Seq<int>)
    requires
        s.wf(),
    ensures
        after_orbits(s, dxs) == (CameraState { yaw: wrap_yaw(s.yaw + total(dxs) * YAW_SENSITIVITY) as i64, ..s }),
    decreases dxs.len(),
{
    let t = FULL_TURN as int;
    if dxs.len() == 0 {
        lemma_small_mod(s.yaw as nat, t as nat);
    } else {
        let before = total(dxs.drop_last());
        lemma_orbits_add_up(s, dxs.drop_last());
        let a = s.yaw + before * YAW_SENSITIVITY;
        let b = dxs.last() * YAW_SENSITIVITY;
        lemma_add_mod_noop(a, b, t);
        lemma_add_mod_noop(a % t, b, t);
        assert((a % t) % t == a % t) by {
            lemma_small_mod((a % t) as nat, t as nat);
        }
        assert(a + b == s.yaw + total(dxs) * YAW_SENSITIVITY) by (nonlinear_arith)
            requires
                a == s.yaw + before * YAW_SENSITIVITY,
                b == dxs.last() * YAW_SENSITIVITY,
                total(dxs) == before + dxs.last(),
        ;
    }
}

/// Horizontal orbit drags whose turns add up to whole turns bring the
/// camera back to exactly where it started.
pub proof fn lemma_orbit_round_trip(s: CameraState, dxs: Seq<int>)
    requires
        s.wf(),
        (total(dxs) * YAW_SENSITIVITY) % (FULL_TURN as int) == 0,
    ensures
        after_orbits(s, dxs) == s,
{
    let t = FULL_TURN as int;
    lemma_orbits_add_up(s, dxs);
    lemma_add_mod_noop(s.yaw as int, total(dxs) * YAW_SENSITIVITY, t);
    lemma_small_mod(s.yaw as nat, t as nat);
}

/// A frame of scene input that scrolls towards the scene, with no drag,
/// moves the camera closer until the radius reaches `RADIUS_MIN`, and
/// leaves focus and angles as they were.
pub proof fn lemma_scroll_in_moves_closer(s: CameraState, input: InputSnapshot, basis: PanBasis)
    requires
        s.wf(),
        !input.orbit_button.down(),
        !input.pan_button.down(),
        axis_value(input.scroll) > 0,
    ensures
        ({
            let t = s.updated(input, RoutingDecision::SceneInteraction, basis);
            &&& t.focus == s.focus
            &&& t.yaw == s.yaw
            &&& t.pitch == s.pitch
            &&& s.radius > RADIUS_MIN ==> t.radius < s.radius
            &&& s.radius == RADIUS_MIN ==> t.radius == RADIUS_MIN
        }),
{
    let r = s.radius as int;
    let n = axis_value(input.scroll);
    lemma_zoomed_in_bounds(zoom_in_step(r), n - 1);
    lemma_zoom_in_not_larger(zoom_in_step(r), n - 1);
}

/// A frame of scene input that scrolls away from the scene, with no drag,
/// moves the camera further away until the radius reaches `RADIUS_MAX`, and
/// leaves focus and angles as they were.
pub proof fn lemma_scroll_out_moves_away(s: CameraState, input: InputSnapshot, basis: PanBasis)
    requires
        s.wf(),
        !input.orbit_button.down(),
        !input.pan_button.down(),
        axis_value(input.scroll) < 0,
    ensures
        ({
            let t = s.updated(input, RoutingDecision::SceneInteraction, basis);
            &&& t.focus == s.focus
            &&& t.yaw == s.yaw
            &&& t.pitch == s.pitch
            &&& s.radius < RADIUS_MAX ==> t.radius > s.radius
            &&& s.radius == RADIUS_MAX ==> t.radius == RADIUS_MAX
        }),
{
    let r = s.radius as int;
    let n = axis_value(input.scroll);
    lemma_zoomed_in_bounds(zoom_out_step(r), n + 1);
    lemma_zoom_out_not_smaller(zoom_out_step(r), n + 1);
}

/// A frame of scene input that pans, without orbit or scroll, moves only
/// the focus: radius and angles stay as they were.
pub proof fn lemma_pan_keeps_distance(s: CameraState, input: InputSnapshot, basis: PanBasis)
    requires
        s.wf(),
        input.pan_button.down(),
        !input.orbit_button.down(),
        axis_value(input.scroll) == 0,
    ensures
        ({
            let t = s.updated(input, RoutingDecision::SceneInteraction, basis);
            &&& t.radius == s.radius
            &&& t.yaw == s.yaw
            &&& t.pitch == s.pitch
        }),
{
}

/// A frame of scene input that orbits horizontally only: orbit button
/// down, no vertical motion, no scroll.
pub open spec fn horizontal_orbit_frame(f: (InputSnapshot, RoutingDecision, PanBasis)) -> bool {
    &&& f.1 == RoutingDecision::SceneInteraction
    &&& f.0.orbit_button.down()
    &&& axis_value(f.0.dy) == 0
    &&& axis_value(f.0.scroll) == 0
}

/// The horizontal motions of a run of frames.
pub open spec fn horizontal_motions(frames: Seq<(InputSnapshot, RoutingDecision, PanBasis)>) -> Seq<int>
    decreases frames.len(),
{
    if frames.len() == 0 {
        Seq::empty()
    } else {
        horizontal_motions(frames.drop_last()).push(axis_value(frames.last().0.dx))
    }
}

/// Frames that only orbit horizontally act on the camera as the orbit drags
/// of their horizontal motions.
proof fn lemma_orbit_frames_are_orbits(s: CameraState, frames: Seq<(InputSnapshot, RoutingDecision, PanBasis)>)
    requires
        s.wf(),
        forall|i: int| 0 <= i < frames.len() ==> #[trigger] horizontal_orbit_frame(frames[i]),
    ensures
        after_frames(s, frames) == after_orbits(s, horizontal_motions(frames)),
    decreases frames.len(),
{
    if frames.len() > 0 {
        let rest = frames.drop_last();
        assert forall|i: int| 0 <= i < rest.len() implies #[trigger] horizontal_orbit_frame(rest[i]) by {
            assert(horizontal_orbit_frame(frames[i]));
        }
        lemma_orbit_frames_are_orbits(s, rest);
        let ds = horizontal_motions(frames);
        assert(ds.drop_last() =~= horizontal_motions(rest));
        assert(horizontal_orbit_frame(frames[frames.len() - 1]));
    }
}

/// Frames that only orbit horizontally, and whose turns add up to whole
/// turns, bring the camera back to exactly where it started.
pub proof fn lemma_orbit_frames_round_trip(s: CameraState, frames: Seq<(InputSnapshot, RoutingDecision, PanBasis)>)
    requires
        s.wf(),
        forall|i: int| 0 <= i < frames.len() ==> #[trigger] horizontal_orbit_frame(frames[i]),
        (total(horizontal_motions(frames)) * YAW_SENSITIVITY) % (FULL_TURN as int) == 0,
    ensures
        after_frames(s, frames) == s,
{
    lemma_orbit_frames_are_orbits(s, frames);
    lemma_orbit_round_trip(s, horizontal_motions(frames));
}

/// A drag laid along two vectors that are not parallel is zero only when
/// the drag itself is `(0, 0)`.
proof fn lemma_drag_along_independent(dx: int, dy: int, basis: PanBasis)
    requires
        basis.independent(),
        drag_along(dx, dy, basis.right.x as int, basis.up.x as int) == 0,
        drag_along(dx, dy, basis.right.y as int, basis.up.y as int) == 0,
        drag_along(dx, dy, basis.right.z as int, basis.up.z as int) == 0,
    ensures
        dx == 0 && dy == 0,
{
    let (rx, ry, rz) = (basis.right.x as int, basis.right.y as int, basis.right.z as int);
    let (ux, uy, uz) = (basis.up.x as int, basis.up.y as int, basis.up.z as int);
    let cx = ry * uz - rz * uy;
    let cy = rz * ux - rx * uz;
    let cz = rx * uy - ry * ux;
    assert(dx * cx == 0 && dx * cy == 0 && dx * cz == 0 && dy * cx == 0 && dy * cy == 0 && dy * cz == 0)
        by (nonlinear_arith)
        requires
            -dx * rx + dy * ux == 0,
            -dx * ry + dy * uy == 0,
            -dx * rz + dy * uz == 0,
            cx == ry * uz - rz * uy,
            cy == rz * ux - rx * uz,
            cz == rx * uy - ry * ux,
    ;
    assert(cx != 0 || cy != 0 || cz != 0);
    assert(dx == 0 && dy == 0) by (nonlinear_arith)
        requires
            cx != 0 || cy != 0 || cz != 0,
            dx * cx == 0 && dx * cy == 0 && dx * cz == 0,
            dy * cx == 0 && dy * cy == 0 && dy * cz == 0,
    ;
}

/// A pan drag other than `(0, 0)` along two vectors that are not parallel
/// moves the focus, however slow the drag and however close the camera,
/// unless it would take the focus past the bounds of `i64`.
pub proof fn lemma_pan_moves_focus(s: CameraState, dx: int, dy: int, basis: PanBasis)
    requires
        s.wf(),
        dx != 0 || dy != 0,
        basis.independent(),
        s.pan_fits(dx, dy, basis),
    ensures
        s.panned(dx, dy, basis).focus != s.focus,
{
    let r = s.radius as int;
    let vx = drag_along(dx, dy, basis.right.x as int, basis.up.x as int);
    let vy = drag_along(dx, dy, basis.right.y as int, basis.up.y as int);
    let vz = drag_along(dx, dy, basis.right.z as int, basis.up.z as int);
    if vx == 0 && vy == 0 && vz == 0 {
        lemma_drag_along_independent(dx, dy, basis);
    }
    assert(vx * r != 0 || vy * r != 0 || vz * r != 0) by (nonlinear_arith)
        requires
            vx != 0 || vy != 0 || vz != 0,
            r > 0,
    ;
}

/// A frame of scene input that pans by a drag other than `(0, 0)`, without
/// orbit or scroll, along a basis whose vectors are not parallel, moves the
/// focus unless it would take it past the bounds of `i64`.
pub proof fn lemma_pan_frame_moves_focus(s: CameraState, input: InputSnapshot, basis: PanBasis)
    requires
        s.wf(),
        input.pan_button.down(),
        !input.orbit_button.down(),
        axis_value(input.scroll) == 0,
        axis_value(input.dx) != 0 || axis_value(input.dy) != 0,
        basis.independent(),
        s.pan_fits(axis_value(input.dx), axis_value(input.dy), basis),
    ensures
        s.updated(input, RoutingDecision::SceneInteraction, basis).focus != s.focus,
{
    lemma_pan_moves_focus(s, axis_value(input.dx), axis_value(input.dy), basis);
}

} // verus!
