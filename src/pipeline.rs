//! One frame of the viewport, in its fixed order: arbitration, then the
//! capability gate, then the camera.

use vstd::prelude::*;
use crate::camera::{update, CameraState, PanBasis};
use crate::input::InputSnapshot;
use crate::routing::{decide, decision_for, CapabilityFlags, RoutingDecision};

verus! {

/// Runs one frame: decides who owns the pointer, sets the capability flags
/// of the picking and gizmo subsystem from that decision, and updates the
/// camera with the same decision. Returns the decision.
pub fn run_frame(
    input: &InputSnapshot,
    flags: &mut CapabilityFlags,
    state: &mut CameraState,
    basis: &PanBasis,
) -> (r: RoutingDecision)
    requires
        old(state).wf(),
    ensures
        r == decision_for(input.ui_wants_pointer),
        *final(flags) == CapabilityFlags::for_decision(r),
        *final(state) == old(state).updated(*input, r, *basis),
        final(state).wf(),
{
    let decision = decide(input.ui_wants_pointer);
    flags.apply(decision);
    update(input, decision, state, basis);
    decision
}

} // verus!
