//! The stop-brake button
use vstd::prelude::*;
use crate::control::{ButtonEvent, Command, ControlType};
use crate::lifecycle::{handle_lifecycle, lifecycle_step};
use crate::registry::Registry;

verus! {

/// Handles one device event for a  a press toggles the stop brake.:stop-brake button.
pub fn handle_event_stop_brake(event: ButtonEvent, vehicle_model: &str, buttons: &mut Registry) -> (cmds: Vec<Command>)
    requires
        old(buttons).wf(),
    ensures
        final(buttons).wf(),
        lifecycle_step(old(buttons)@, final(buttons)@, cmds@.map_values(|c: Command| c@), ControlType::StopBrake, event, vehicle_model@),
{
    handle_lifecycle(event, ControlType::StopBrake, vehicle_model, buttons)
}

} // verus!
