//! Routes inbound device events to the handler of the control they name.
use vstd::prelude::*;
use crate::control::{control_from_uuid, control_of, ButtonEvent, Command};
use crate::lifecycle::{handle_lifecycle, lifecycle_step};
use crate::registry::Registry;

verus! {

/// Hands `event` to the handler of the control that `action` names. Events
/// without a known control identifier are ignored.
pub fn route_event(action: &str, event: ButtonEvent, vehicle_model: &str, buttons: &mut Registry) -> (cmds: Vec<Command>)
    requires
        old(buttons).wf(),
    ensures
        final(buttons).wf(),
        match control_of(action@) {
            Some(control) => lifecycle_step(
                old(buttons)@,
                final(buttons)@,
                cmds@.map_values(|c: Command| c@),
                control,
                event,
                vehicle_model@,
            ),
            None => final(buttons)@ == old(buttons)@ && cmds@.len() == 0,
        },
{
    match control_from_uuid(action) {
        Some(control) => handle_lifecycle(event, control, vehicle_model, buttons),
        None => Vec::new(),
    }
}

} // verus!
