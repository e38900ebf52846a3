use orbit_viewport::camera::{
    update, CameraState, Direction, PanBasis, Point3, FOCUS_PER_MM, FULL_TURN, PITCH_LIMIT,
    RADIUS_MAX, RADIUS_MIN,
};
use orbit_viewport::input::{axis_or_zero, ButtonState, InputSnapshot};
use orbit_viewport::pipeline::run_frame;
use orbit_viewport::routing::{decide, ui_wants_pointer, CapabilityFlags, RoutingDecision};

const ORIGIN: Point3 = Point3 { x: 0, y: 0, z: 0 };

fn start() -> CameraState {
    CameraState::new(ORIGIN, 5000, 0, 0)
}

fn basis() -> PanBasis {
    PanBasis {
        right: Direction { x: 1_000_000, y: 0, z: 0 },
        up: Direction { x: 0, y: 1_000_000, z: 0 },
    }
}

fn frame(dx: i32, dy: i32, scroll: i32, orbit: ButtonState, pan: ButtonState, ui: bool) -> InputSnapshot {
    InputSnapshot {
        dx: Some(dx),
        dy: Some(dy),
        scroll: Some(scroll),
        orbit_button: orbit,
        pan_button: pan,
        ui_wants_pointer: ui,
    }
}

fn wf(s: &CameraState) -> bool {
    RADIUS_MIN <= s.radius
        && s.radius <= RADIUS_MAX
        && 0 <= s.yaw
        && s.yaw < FULL_TURN
        && -PITCH_LIMIT < s.pitch
        && s.pitch < PITCH_LIMIT
}

#[test]
fn orbit_drag_turns_yaw_by_one_radian() {
    let mut s = start();
    let mut flags = CapabilityFlags::all(false);
    let input = frame(100, 0, 0, ButtonState::Held, ButtonState::Up, false);
    let d = run_frame(&input, &mut flags, &mut s, &basis());
    assert_eq!(d, RoutingDecision::SceneInteraction);
    assert_eq!(s.yaw, 1_000_000);
    assert_eq!(s.pitch, 0);
    assert_eq!(s.radius, 5000);
    assert_eq!(s.focus, ORIGIN);
    assert!(flags.picking && flags.highlighting && flags.interacting);
}

#[test]
fn ui_frame_blocks_camera_and_gate() {
    let mut s = start();
    let before = s;
    let mut flags = CapabilityFlags::all(true);
    let input = frame(100, 0, 0, ButtonState::Held, ButtonState::Up, true);
    let d = run_frame(&input, &mut flags, &mut s, &basis());
    assert_eq!(d, RoutingDecision::UI);
    assert_eq!(s, before);
    assert!(!flags.picking && !flags.highlighting && !flags.interacting);
}

#[test]
fn ui_decision_leaves_state_for_any_input() {
    let inputs = [
        frame(100, -40, 3, ButtonState::Held, ButtonState::Up, false),
        frame(-7, 9, -2, ButtonState::Up, ButtonState::Pressed, false),
        frame(0, 0, 5, ButtonState::Released, ButtonState::Held, true),
    ];
    for input in inputs.iter() {
        let mut s = CameraState::new(Point3 { x: 3, y: -4, z: 5 }, 2500, 1_234_567, -300_000);
        let before = s;
        update(input, RoutingDecision::UI, &mut s, &basis());
        assert_eq!(s, before);
    }
}

#[test]
fn invariants_hold_over_a_long_session() {
    let mut s = start();
    let mut flags = CapabilityFlags::all(false);
    let buttons = [ButtonState::Up, ButtonState::Pressed, ButtonState::Held, ButtonState::Released];
    for i in 0..500i32 {
        let dx = (i * 7919) % 2001 - 1000;
        let dy = (i * 104_729) % 801 - 400;
        let scroll = (i % 9) - 4;
        let input = frame(
            dx,
            dy,
            scroll,
            buttons[(i % 4) as usize],
            buttons[((i / 4) % 4) as usize],
            i % 5 == 0,
        );
        run_frame(&input, &mut flags, &mut s, &basis());
        assert!(wf(&s), "frame {} broke the invariants: {:?}", i, s);
    }
}

#[test]
fn orbit_by_whole_turns_returns_to_start() {
    let mut s = CameraState::new(Point3 { x: 10, y: 20, z: 30 }, 7000, 400_000, 250_000);
    let before = s;
    // 1_256_637 screen units at 10_000 microradians each make 2000 whole turns.
    s.orbit(1_000_000, 0);
    assert_ne!(s.yaw, before.yaw);
    s.orbit(256_637, 0);
    assert_eq!(s, before);
}

#[test]
fn scroll_in_shrinks_until_minimum() {
    let mut s = start();
    let mut last = s.radius;
    for _ in 0..100 {
        let input = frame(0, 0, 1, ButtonState::Up, ButtonState::Up, false);
        update(&input, RoutingDecision::SceneInteraction, &mut s, &basis());
        assert_eq!(s.focus, ORIGIN);
        if last > RADIUS_MIN {
            assert!(s.radius < last);
        } else {
            assert_eq!(s.radius, RADIUS_MIN);
        }
        last = s.radius;
    }
    assert_eq!(s.radius, RADIUS_MIN);
}

#[test]
fn scroll_out_grows_until_maximum() {
    let mut s = start();
    let mut last = s.radius;
    for _ in 0..100 {
        let input = frame(0, 0, -1, ButtonState::Up, ButtonState::Up, false);
        update(&input, RoutingDecision::SceneInteraction, &mut s, &basis());
        assert_eq!(s.focus, ORIGIN);
        if last < RADIUS_MAX {
            assert!(s.radius > last);
        } else {
            assert_eq!(s.radius, RADIUS_MAX);
        }
        last = s.radius;
    }
    assert_eq!(s.radius, RADIUS_MAX);
}

#[test]
fn one_notch_scales_by_nine_tenths() {
    let mut s = start();
    s.zoom(1);
    assert_eq!(s.radius, 4500);
    s.zoom(-1);
    assert_eq!(s.radius, 5000);
    s.zoom(3);
    assert_eq!(s.radius, 3645);
}

#[test]
fn huge_scroll_clamps_radius() {
    let mut s = start();
    s.zoom(i32::MAX);
    assert_eq!(s.radius, RADIUS_MIN);
    s.zoom(i32::MIN);
    assert_eq!(s.radius, RADIUS_MAX);
}

#[test]
fn pan_moves_focus_and_keeps_distance() {
    let mut s = start();
    let input = frame(10, 4, 0, ButtonState::Up, ButtonState::Held, false);
    update(&input, RoutingDecision::SceneInteraction, &mut s, &basis());
    // 10 units left and 4 units up, each a thousandth of the 5000 mm radius.
    assert_eq!(s.focus, Point3 { x: -50 * FOCUS_PER_MM, y: 20 * FOCUS_PER_MM, z: 0 });
    assert_eq!(s.focus.x, -50_000_000_000);
    assert_eq!(s.radius, 5000);
    assert_eq!(s.yaw, 0);
    assert_eq!(s.pitch, 0);
}

#[test]
fn pan_scales_with_radius() {
    let mut s = CameraState::new(ORIGIN, 20_000, 0, 0);
    s.pan(10, 0, &basis());
    assert_eq!(s.focus, Point3 { x: -200 * FOCUS_PER_MM, y: 0, z: 0 });
}

#[test]
fn slow_pan_at_closest_range_moves_focus() {
    let mut s = CameraState::new(ORIGIN, RADIUS_MIN, 0, 0);
    s.pan(1, -1, &basis());
    // Half a millimetre each way: a thousandth of the 500 mm radius.
    assert_eq!(s.focus, Point3 { x: -500_000_000, y: -500_000_000, z: 0 });
    assert_eq!(s.radius, RADIUS_MIN);
}

#[test]
fn slow_pan_along_diagonal_basis_moves_focus() {
    let diagonal = PanBasis {
        right: Direction { x: 707_107, y: 0, z: -707_107 },
        up: Direction { x: 0, y: 1_000_000, z: 0 },
    };
    let mut s = CameraState::new(ORIGIN, 999, 0, 0);
    s.pan(1, 0, &diagonal);
    assert_eq!(s.focus, Point3 { x: -706_399_893, y: 0, z: 706_399_893 });
}

#[test]
fn pan_saturates_at_world_edge() {
    let mut s = CameraState::new(Point3 { x: i64::MIN + 10, y: i64::MAX - 10, z: 0 }, RADIUS_MAX, 0, 0);
    s.pan(i32::MAX, i32::MAX, &basis());
    assert_eq!(s.focus.x, i64::MIN);
    assert_eq!(s.focus.y, i64::MAX);
}

#[test]
fn orbit_takes_priority_over_pan() {
    let mut s = start();
    let input = frame(100, 0, 0, ButtonState::Held, ButtonState::Held, false);
    update(&input, RoutingDecision::SceneInteraction, &mut s, &basis());
    assert_eq!(s.yaw, 1_000_000);
    assert_eq!(s.focus, ORIGIN);
}

#[test]
fn released_buttons_do_not_drag() {
    let mut s = start();
    let input = frame(100, 50, 0, ButtonState::Released, ButtonState::Released, false);
    update(&input, RoutingDecision::SceneInteraction, &mut s, &basis());
    assert_eq!(s, start());
}

#[test]
fn pressed_button_drags_in_its_first_frame() {
    let mut s = start();
    let input = frame(-1, 0, 0, ButtonState::Pressed, ButtonState::Up, false);
    update(&input, RoutingDecision::SceneInteraction, &mut s, &basis());
    assert_eq!(s.yaw, FULL_TURN - 10_000);
}

#[test]
fn pitch_stays_inside_limit() {
    let mut s = start();
    s.orbit(0, -1000);
    assert_eq!(s.pitch, PITCH_LIMIT - 1);
    s.orbit(0, 1000);
    assert_eq!(s.pitch, -PITCH_LIMIT + 1);
    s.orbit(0, -20);
    assert_eq!(s.pitch, -PITCH_LIMIT + 1 + 200_000);
}

#[test]
fn missing_readings_count_as_no_motion() {
    let mut s = start();
    let input = InputSnapshot {
        dx: None,
        dy: Some(-10),
        scroll: None,
        orbit_button: ButtonState::Held,
        pan_button: ButtonState::Up,
        ui_wants_pointer: false,
    };
    update(&input, RoutingDecision::SceneInteraction, &mut s, &basis());
    assert_eq!(s.yaw, 0);
    assert_eq!(s.pitch, 100_000);
    assert_eq!(s.radius, 5000);
    assert_eq!(axis_or_zero(None), 0);
    assert_eq!(axis_or_zero(Some(-3)), -3);
}

#[test]
fn new_normalises_designer_values() {
    let s = CameraState::new(ORIGIN, 0, -10_000, 9_000_000);
    assert_eq!(s.radius, RADIUS_MIN);
    assert_eq!(s.yaw, FULL_TURN - 10_000);
    assert_eq!(s.pitch, PITCH_LIMIT - 1);
    let t = CameraState::new(ORIGIN, i64::MAX, i64::MIN, i64::MIN);
    assert_eq!(t.radius, RADIUS_MAX);
    assert_eq!(t.yaw, 2_518_672);
    assert_eq!(t.pitch, -PITCH_LIMIT + 1);
    let u = CameraState::new(ORIGIN, 4000, i64::MAX, 7);
    assert_eq!(u.yaw, 3_764_512);
    assert_eq!(u.radius, 4000);
    assert_eq!(u.pitch, 7);
}

#[test]
fn gate_sets_all_flags_together() {
    let mut flags = CapabilityFlags { picking: true, highlighting: false, interacting: true };
    flags.apply(RoutingDecision::UI);
    assert_eq!(flags, CapabilityFlags::all(false));
    flags.apply(RoutingDecision::SceneInteraction);
    assert_eq!(flags, CapabilityFlags::all(true));
}

#[test]
fn arbiter_follows_ui_signal() {
    assert_eq!(decide(true), RoutingDecision::UI);
    assert_eq!(decide(false), RoutingDecision::SceneInteraction);
    assert!(!ui_wants_pointer(false, false, false));
    assert!(ui_wants_pointer(true, false, false));
    assert!(ui_wants_pointer(false, true, false));
    assert!(ui_wants_pointer(false, false, true));
}

#[test]
fn button_down_states() {
    assert!(ButtonState::Pressed.is_down());
    assert!(ButtonState::Held.is_down());
    assert!(!ButtonState::Up.is_down());
    assert!(!ButtonState::Released.is_down());
}

#[test]
fn button_transitions_from_levels() {
    assert_eq!(ButtonState::between(false, false), ButtonState::Up);
    assert_eq!(ButtonState::between(false, true), ButtonState::Pressed);
    assert_eq!(ButtonState::between(true, true), ButtonState::Held);
    assert_eq!(ButtonState::between(true, false), ButtonState::Released);
}

#[test]
fn orbit_frames_by_whole_turns_return_to_start() {
    let mut s = CameraState::new(Point3 { x: -5, y: 0, z: 9 }, 3000, 6_000_000, -1_000_000);
    let before = s;
    // 12_566_370 screen units at 10_000 microradians each make 20_000 whole turns.
    for dx in [5_000_000, -1_000_000, 8_566_370].iter() {
        let input = InputSnapshot {
            dx: Some(*dx),
            dy: None,
            scroll: Some(0),
            orbit_button: ButtonState::Held,
            pan_button: ButtonState::Up,
            ui_wants_pointer: false,
        };
        run_frame(&input, &mut CapabilityFlags::all(false), &mut s, &basis());
    }
    assert_eq!(s, before);
}
