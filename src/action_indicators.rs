//! Turn indicator and warning light buttons.
use vstd::prelude::*;
use crate::control::{ButtonEvent, Command, CommandView, ControlType};
use crate::lifecycle::{handle_lifecycle, lifecycle_step};
use crate::registry::Registry;
use crate::settings::{get_value_or_default, text_or_default, SettingValue, Settings};
use crate::text::text_eq;

verus! {

/// The configured indicator of an indicator button; left when unset.
pub open spec fn indicator_selection(entries: Seq<(String, SettingValue)>) -> Seq<char> {
    text_or_default(entries, "IndicatorSelector"@, "IndicatorLeft"@)
}

/// The lit icon of an indicator button.
pub open spec fn indicator_image_on_of(sel: Seq<char>) -> Seq<char> {
    if sel == "IndicatorRight"@ { "actions/assets/indicator_right_on.png"@ }
    else if sel == "IndicatorLeft"@ { "actions/assets/indicator_left_on.png"@ }
    else { "actions/assets/warninglights_on.png"@ }
}

/// The unlit icon of an indicator button; an unknown selector shows the lit
/// warning-light icon.
pub open spec fn indicator_image_off_of(sel: Seq<char>) -> Seq<char> {
    if sel == "IndicatorRight"@ { "actions/assets/indicator_right_off.png"@ }
    else if sel == "IndicatorLeft"@ { "actions/assets/indicator_left_off.png"@ }
    else if sel == "WarningLights"@ { "actions/assets/warninglights_off.png"@ }
    else { "actions/assets/warninglights_on.png"@ }
}

/// The request an indicator button sends when pressed.
pub open spec fn indicator_press_spec(entries: Seq<(String, SettingValue)>) -> Seq<char> {
    let sel = indicator_selection(entries);
    if sel == "IndicatorRight"@ { "sendevent?event=IndicatorUp"@ }
    else if sel == "IndicatorLeft"@ { "sendevent?event=IndicatorDown"@ }
    else { "sendevent?event=ToggleWarningLights"@ }
}

/// What an indicator button renders when it appears, unlit.
pub open spec fn indicator_appear_spec(ctx: Seq<char>, entries: Seq<(String, SettingValue)>) -> Seq<CommandView> {
    seq![CommandView::SetImage { context: ctx, image: indicator_image_off_of(indicator_selection(entries)) }]
}

/// The lit icon of an indicator button.
pub fn get_indicator_image_on(indicatorselector: &str) -> (r: String)
    ensures
        r@ == indicator_image_on_of(indicatorselector@),
{
    let d = if text_eq(indicatorselector, "IndicatorRight") { "actions/assets/indicator_right_on.png" }
    else if text_eq(indicatorselector, "IndicatorLeft") { "actions/assets/indicator_left_on.png" }
    else { "actions/assets/warninglights_on.png" };
    String::from_str(d)
}

/// The unlit icon of an indicator button.
pub fn get_indicator_image_off(indicatorselector: &str) -> (r: String)
    ensures
        r@ == indicator_image_off_of(indicatorselector@),
{
    let d = if text_eq(indicatorselector, "IndicatorRight") { "actions/assets/indicator_right_off.png" }
    else if text_eq(indicatorselector, "IndicatorLeft") { "actions/assets/indicator_left_off.png" }
    else if text_eq(indicatorselector, "WarningLights") { "actions/assets/warninglights_off.png" }
    else { "actions/assets/warninglights_on.png" };
    String::from_str(d)
}

/// The configured indicator of an indicator button.
pub fn get_indicator_selection(settings: &Settings) -> (r: String)
    ensures
        r@ == indicator_selection(settings.entries@),
{
    get_value_or_default(settings, "IndicatorSelector", "IndicatorLeft")
}

/// What an indicator button renders when it appears.
pub fn indicator_appear(ctx: &String, settings: &Settings) -> (r: Vec<Command>)
    ensures
        r@.map_values(|c: Command| c@) == indicator_appear_spec(ctx@, settings.entries@),
{
    let sel = get_indicator_selection(settings);
    let image = get_indicator_image_off(sel.as_str());
    let out = vec![Command::SetImage { context: ctx.clone(), image }];
    assert(out@.map_values(|c: Command| c@) =~= indicator_appear_spec(ctx@, settings.entries@));
    out
}

/// The request an indicator button sends when pressed.
pub fn indicator_press(settings: &Settings) -> (r: String)
    ensures
        r@ == indicator_press_spec(settings.entries@),
{
    let sel = get_indicator_selection(settings);
    let cmd = if text_eq(sel.as_str(), "IndicatorRight") { "sendevent?event=IndicatorUp" }
    else if text_eq(sel.as_str(), "IndicatorLeft") { "sendevent?event=IndicatorDown" }
    else { "sendevent?event=ToggleWarningLights" };
    String::from_str(cmd)
}

/// Handles one device event for a indicator button.
pub fn handle_event_indicators(
    event: ButtonEvent,
    vehicle_model: &str,
    buttons: &mut Registry,
) -> (cmds: Vec<Command>)
    requires
        old(buttons).wf(),
    ensures
        final(buttons).wf(),
        lifecycle_step(
            old(buttons)@,
            final(buttons)@,
            cmds@.map_values(|c: Command| c@),
            ControlType::Indicators,
            event,
            vehicle_model@,
        ),
{
    handle_lifecycle(event, ControlType::Indicators, vehicle_model, buttons)
}

} // verus!
