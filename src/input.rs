//! What the platform reports about the pointer in one frame.

use vstd::prelude::*;

verus! {

/// The transition of one pointer button during a frame.
#[derive(Clone, Copy, Debug, PartialEq, Eq, Structural)]
pub enum ButtonState {
    /// Up for the whole frame.
    Up,
    /// Went down during this frame.
    Pressed,
    /// Down since an earlier frame.
    Held,
    /// Went up during this frame.
    Released,
}

impl ButtonState {
    /// The button is down at the end of the frame.
    pub open spec fn down(self) -> bool {
        self == ButtonState::Pressed || self == ButtonState::Held
    }

    /// The transition of a button that was down (or not) at the end of the
    /// last frame and is down (or not) at the end of this one.
    pub open spec fn spec_between(was_down: bool, now_down: bool) -> ButtonState {
        if was_down {
            if now_down { ButtonState::Held } else { ButtonState::Released }
        } else {
            if now_down { ButtonState::Pressed } else { ButtonState::Up }
        }
    }

    /// The transition of a button from its level in the last frame and in
    /// this one.
    pub fn between(was_down: bool, now_down: bool) -> (r: ButtonState)
        ensures
            r == ButtonState::spec_between(was_down, now_down),
            r.down() == now_down,
    {
        match (was_down, now_down) {
            (true, true) => ButtonState::Held,
            (true, false) => ButtonState::Released,
            (false, true) => ButtonState::Pressed,
            (false, false) => ButtonState::Up,
        }
    }

    /// Whether the button is down at the end of the frame.
    pub fn is_down(&self) -> (r: bool)
        ensures
            r == self.down(),
    {
        match self {
            ButtonState::Pressed | ButtonState::Held => true,
            ButtonState::Up | ButtonState::Released => false,
        }
    }
}

/// The value of one input axis: a reading that was not a finite number
/// arrives as `None` and counts as no motion.
pub open spec fn axis_value(v: Option<i32>) -> int {
    match v {
        Some(x) => x as int,
        None => 0,
    }
}

/// The value of one input axis, zero where the reading was not a number.
pub fn axis_or_zero(v: Option<i32>) -> (r: i32)
    ensures
        r == axis_value(v),
{
    match v {
        Some(x) => x,
        None => 0,
    }
}

/// One frame of pointer input.
#[derive(Clone, Copy, Debug, PartialEq, Eq, Structural)]
pub struct InputSnapshot {
    /// Horizontal pointer motion in screen units.
    pub dx: Option<i32>,
    /// Vertical pointer motion in screen units, positive downwards.
    pub dy: Option<i32>,
    /// Scroll in notches, positive towards the scene.
    pub scroll: Option<i32>,
    /// The button that orbits the camera.
    pub orbit_button: ButtonState,
    /// The button that pans the camera.
    pub pan_button: ButtonState,
    /// The UI layer wants the pointer this frame.
    pub ui_wants_pointer: bool,
}

} // verus!
