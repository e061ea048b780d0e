//! The ignition button
use vstd::prelude::*;
use crate::control::{ButtonEvent, Command, ControlType};
use crate::lifecycle::{handle_lifecycle, lifecycle_step};
use crate::registry::Registry;

verus! {

/// Handles one device event for a  press starts, release stops the motor start/stop action.:ignition button.
pub fn handle_event_ignition(event: ButtonEvent, vehicle_model: &str, buttons: &mut Registry) -> (cmds: Vec<Command>)
    requires
        old(buttons).wf(),
    ensures
        final(buttons).wf(),
        lifecycle_step(old(buttons)@, final(buttons)@, cmds@.map_values(|c: Command| c@), ControlType::Ignition, event, vehicle_model@),
{
    handle_lifecycle(event, ControlType::Ignition, vehicle_model, buttons)
}

} // verus!
