//! Passenger door buttons: model-dependent door commands and door icons.
use vstd::prelude::*;
use crate::control::{ButtonEvent, Command, CommandView, ControlType};
use crate::lifecycle::{handle_lifecycle, lifecycle_step};
use crate::registry::Registry;
use crate::settings::{get_value_or_default, text_or_default, SettingValue, Settings};
use crate::text::{join, join3, text_eq};

verus! {

/// The vehicle model whose middle, rear and fourth door commands use the
/// variant naming scheme.
pub const VARIANT_DOOR_MODEL: &'static str = "Citea LLE";

/// The configured door of a door button; "Door 1" when unset.
pub open spec fn door_selection(entries: Seq<(String, SettingValue)>) -> Seq<char> {
    text_or_default(entries, "DoorSelector"@, "Door 1"@)
}

/// The telemetry action that opens or closes the selected door on `model`.
pub open spec fn door_action_of(door: Seq<char>, model: Seq<char>) -> Seq<char> {
    if model == VARIANT_DOOR_MODEL@ {
        if door == "Door 1"@ { "DoorFrontOpenClose"@ }
        else if door == "Door 2"@ { "MiddleDoorOpenClose"@ }
        else if door == "Door 3"@ { "RearDoorOpenClose"@ }
        else if door == "Door 4"@ { "FourthDoorOpenClose"@ }
        else if door == "Clearance"@ { "ToggleDoorClearance"@ }
        else { "DoorFrontOpenClose"@ }
    } else {
        if door == "Door 1"@ { "DoorFrontOpenClose"@ }
        else if door == "Door 2"@ { "DoorMiddleOpenClose"@ }
        else if door == "Door 3"@ { "DoorRearOpenClose"@ }
        else if door == "Door 4"@ { "DoorFourthOpenClose"@ }
        else if door == "Clearance"@ { "ToggleDoorClearance"@ }
        else { "DoorFrontOpenClose"@ }
    }
}

/// The icon of a door button: the clearance family for "Clearance", the
/// door family otherwise.
pub open spec fn door_image_of(door: Seq<char>, on: bool) -> Seq<char> {
    (if door == "Clearance"@ { "actions/assets/doorclearance_"@ } else { "actions/assets/doorbutton_"@ })
        + (if on { "on"@ } else { "off"@ }) + ".png"@
}

/// The request a door button sends when pressed.
pub open spec fn door_press_spec(entries: Seq<(String, SettingValue)>, model: Seq<char>) -> Seq<char> {
    "sendeventpress?event="@ + door_action_of(door_selection(entries), model)
}

/// The request a door button sends when released.
pub open spec fn door_release_spec(entries: Seq<(String, SettingValue)>, model: Seq<char>) -> Seq<char> {
    "sendeventrelease?event="@ + door_action_of(door_selection(entries), model)
}

/// What a door button renders when it appears, unlit.
pub open spec fn door_appear_spec(ctx: Seq<char>, entries: Seq<(String, SettingValue)>) -> Seq<CommandView> {
    seq![CommandView::SetImage { context: ctx, image: door_image_of(door_selection(entries), false) }]
}

/// The telemetry action for a door selector on a vehicle model.
pub fn get_door_action(doorselector: &str, model: &str) -> (r: String)
    ensures
        r@ == door_action_of(doorselector@, model@),
{
    let d = if text_eq(model, VARIANT_DOOR_MODEL) {
        if text_eq(doorselector, "Door 1") { "DoorFrontOpenClose" }
        else if text_eq(doorselector, "Door 2") { "MiddleDoorOpenClose" }
        else if text_eq(doorselector, "Door 3") { "RearDoorOpenClose" }
        else if text_eq(doorselector, "Door 4") { "FourthDoorOpenClose" }
        else if text_eq(doorselector, "Clearance") { "ToggleDoorClearance" }
        else { "DoorFrontOpenClose" }
    } else {
        if text_eq(doorselector, "Door 1") { "DoorFrontOpenClose" }
        else if text_eq(doorselector, "Door 2") { "DoorMiddleOpenClose" }
        else if text_eq(doorselector, "Door 3") { "DoorRearOpenClose" }
        else if text_eq(doorselector, "Door 4") { "DoorFourthOpenClose" }
        else if text_eq(doorselector, "Clearance") { "ToggleDoorClearance" }
        else { "DoorFrontOpenClose" }
    };
    String::from_str(d)
}

/// The configured door of a door button.
pub fn get_door_selection(settings: &Settings) -> (r: String)
    ensures
        r@ == door_selection(settings.entries@),
{
    get_value_or_default(settings, "DoorSelector", "Door 1")
}

/// The icon of a door button.
pub fn door_image(door: &str, on: bool) -> (r: String)
    ensures
        r@ == door_image_of(door@, on),
{
    let family = if text_eq(door, "Clearance") { "actions/assets/doorclearance_" } else { "actions/assets/doorbutton_" };
    join3(family, if on { "on" } else { "off" }, ".png")
}

/// What a door button renders when it appears.
pub fn door_appear(ctx: &String, settings: &Settings) -> (r: Vec<Command>)
    ensures
        r@.map_values(|c: Command| c@) == door_appear_spec(ctx@, settings.entries@),
{
    let door = get_door_selection(settings);
    let image = door_image(door.as_str(), false);
    let out = vec![Command::SetImage { context: ctx.clone(), image }];
    assert(out@.map_values(|c: Command| c@) =~= door_appear_spec(ctx@, settings.entries@));
    out
}

/// The request a door button sends when pressed.
pub fn door_press(settings: &Settings, model: &str) -> (r: String)
    ensures
        r@ == door_press_spec(settings.entries@, model@),
{
    let door = get_door_selection(settings);
    let action = get_door_action(door.as_str(), model);
    join("sendeventpress?event=", action.as_str())
}

/// The request a door button sends when released.
pub fn door_release(settings: &Settings, model: &str) -> (r: String)
    ensures
        r@ == door_release_spec(settings.entries@, model@),
{
    let door = get_door_selection(settings);
    let action = get_door_action(door.as_str(), model);
    join("sendeventrelease?event=", action.as_str())
}

/// Handles one device event for a passenger door button.
pub fn handle_event_passenger_doors(
    event: ButtonEvent,
    vehicle_model: &str,
    buttons: &mut Registry,
) -> (cmds: Vec<Command>)
    requires
        old(buttons).wf(),
    ensures
        final(buttons).wf(),
        lifecycle_step(
            old(buttons)@,
            final(buttons)@,
            cmds@.map_values(|c: Command| c@),
            ControlType::PassengerDoors,
            event,
            vehicle_model@,
        ),
{
    handle_lifecycle(event, ControlType::PassengerDoors, vehicle_model, buttons)
}

} // verus!
