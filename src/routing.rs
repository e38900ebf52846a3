//! Per-frame decision of who owns the pointer, and the capability flags that
//! carry that decision to the picking and gizmo subsystem.

use vstd::prelude::*;

verus! {

/// Which consumer may react to pointer input during one frame.
#[derive(Clone, Copy, Debug, PartialEq, Eq, Structural)]
pub enum RoutingDecision {
    /// An overlaid UI surface owns the pointer.
    UI,
    /// Picking, gizmo manipulation and camera navigation own the pointer.
    SceneInteraction,
}

/// The UI wants the pointer when it is over a UI area, when a UI widget is
/// being dragged, or when a hovered UI control asks for pointer input.
pub open spec fn ui_claims_pointer(over_area: bool, using_pointer: bool, wants_input: bool) -> bool {
    over_area || using_pointer || wants_input
}

/// The decision for a frame, given whether the UI wants the pointer.
pub open spec fn decision_for(ui_wants_pointer: bool) -> RoutingDecision {
    if ui_wants_pointer {
        RoutingDecision::UI
    } else {
        RoutingDecision::SceneInteraction
    }
}

/// Folds the three UI sub-signals into one "UI wants the pointer" flag.
pub fn ui_wants_pointer(over_area: bool, using_pointer: bool, wants_input: bool) -> (r: bool)
    ensures
        r == ui_claims_pointer(over_area, using_pointer, wants_input),
{
    over_area || using_pointer || wants_input
}

/// Decides who owns the pointer this frame.
///
/// The decision follows the UI signal of the current frame alone: a scene
/// drag that crosses onto a UI surface stops at once rather than being
/// latched until the button is released.
pub fn decide(ui_wants_pointer: bool) -> (r: RoutingDecision)
    ensures
        r == decision_for(ui_wants_pointer),
{
    if ui_wants_pointer {
        RoutingDecision::UI
    } else {
        RoutingDecision::SceneInteraction
    }
}

/// The three switches of the picking and gizmo subsystem.
#[derive(Clone, Copy, Debug, PartialEq, Eq, Structural)]
pub struct CapabilityFlags {
    pub picking: bool,
    pub highlighting: bool,
    pub interacting: bool,
}

impl CapabilityFlags {
    /// All three flags equal to `on`.
    pub open spec fn uniform(self, on: bool) -> bool {
        self.picking == on && self.highlighting == on && self.interacting == on
    }

    /// The flags that a decision calls for.
    pub open spec fn for_decision(d: RoutingDecision) -> CapabilityFlags {
        let on = d == RoutingDecision::SceneInteraction;
        CapabilityFlags { picking: on, highlighting: on, interacting: on }
    }

    /// Flags with all three switches set to `on`.
    pub fn all(on: bool) -> (r: CapabilityFlags)
        ensures
            r.uniform(on),
    {
        CapabilityFlags { picking: on, highlighting: on, interacting: on }
    }

    /// Sets all three flags as one group from the frame's decision: on for
    /// scene interaction, off for UI.
    pub fn apply(&mut self, decision: RoutingDecision)
        ensures
            *final(self) == CapabilityFlags::for_decision(decision),
            final(self).uniform(decision == RoutingDecision::SceneInteraction),
    {
        let on = match decision {
            RoutingDecision::SceneInteraction => true,
            RoutingDecision::UI => false,
        };
        self.picking = on;
        self.highlighting = on;
        self.interacting = on;
    }
}

} // verus!
