//! The fixing-brake lamp
use vstd::prelude::*;
use crate::control::{ButtonEvent, Command, ControlType};
use crate::lifecycle::{handle_lifecycle, lifecycle_step};
use crate::registry::Registry;

verus! {

/// Handles one device event for a  driven by telemetry alone, presses do nothing.:fixing-brake button.
pub fn handle_event_fixing_brake(event: ButtonEvent, vehicle_model: &str, buttons: &mut Registry) -> (cmds: Vec<Command>)
    requires
        old(buttons).wf(),
    ensures
        final(buttons).wf(),
        lifecycle_step(old(buttons)@, final(buttons)@, cmds@.map_values(|c: Command| c@), ControlType::FixingBrake, event, vehicle_model@),
{
    handle_lifecycle(event, ControlType::FixingBrake, vehicle_model, buttons)
}

} // verus!
