//! The in-bus status lamp
use vstd::prelude::*;
use crate::control::{ButtonEvent, Command, ControlType};
use crate::lifecycle::{handle_lifecycle, lifecycle_step};
use crate::registry::Registry;

verus! {

/// Handles one device event for a  driven by telemetry alone, presses do nothing.:in-bus button.
pub fn handle_event_inbus(event: ButtonEvent, vehicle_model: &str, buttons: &mut Registry) -> (cmds: Vec<Command>)
    requires
        old(buttons).wf(),
    ensures
        final(buttons).wf(),
        lifecycle_step(old(buttons)@, final(buttons)@, cmds@.map_values(|c: Command| c@), ControlType::InBus, event, vehicle_model@),
{
    handle_lifecycle(event, ControlType::InBus, vehicle_model, buttons)
}

} // verus!
