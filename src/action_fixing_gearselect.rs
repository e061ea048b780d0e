//! The gear selector: a configured target gear, its letter, and the icon that
//! shows whether the vehicle is in that gear.
use vstd::prelude::*;
use crate::control::{ButtonEvent, Command, CommandView, ControlType};
use crate::lifecycle::{handle_lifecycle, lifecycle_step};
use crate::registry::Registry;
use crate::settings::{get_value_or_default, text_or_default, SettingValue, Settings};
use crate::text::{decimal_of, join, join3, render_decimal, text_eq};

verus! {

/// The configured gear of a gear button; neutral ("2") when unset.
pub open spec fn gear_selection(entries: Seq<(String, SettingValue)>) -> Seq<char> {
    text_or_default(entries, "GearSelection"@, "2"@)
}

/// The letter of a gear code: 1 drive, 2 neutral, 3 reverse, anything else
/// neutral.
pub open spec fn gear_letter_of(gear: Seq<char>) -> Seq<char> {
    if gear == "1"@ { "D"@ }
    else if gear == "2"@ { "N"@ }
    else if gear == "3"@ { "R"@ }
    else { "N"@ }
}

/// The icon of a gear button configured for `gear` while the vehicle's
/// selector stands at `state`: "on" when the two agree.
pub open spec fn gear_image_of(gear: Seq<char>, state: u8) -> Seq<char> {
    "actions/assets/gear_"@ + gear_letter_of(gear)
        + (if decimal_of(state as int) == gear { "_on"@ } else { "_off"@ }) + ".png"@
}

/// The request a gear button sends when pressed.
pub open spec fn gear_press_spec(entries: Seq<(String, SettingValue)>) -> Seq<char> {
    "sendeventpress?event=SetGear"@ + gear_letter_of(gear_selection(entries))
}

/// The request a gear button sends when released.
pub open spec fn gear_release_spec(entries: Seq<(String, SettingValue)>) -> Seq<char> {
    "sendeventrelease?event=SetGear"@ + gear_letter_of(gear_selection(entries))
}

/// What a gear button renders when it appears, in its baseline state 0.
pub open spec fn gear_appear_spec(ctx: Seq<char>, entries: Seq<(String, SettingValue)>) -> Seq<CommandView> {
    seq![CommandView::SetImage { context: ctx, image: gear_image_of(gear_selection(entries), 0) }]
}

/// The letter of a gear code.
pub fn gear_letter(gear: &str) -> (r: &'static str)
    ensures
        r@ == gear_letter_of(gear@),
{
    if text_eq(gear, "1") { "D" }
    else if text_eq(gear, "2") { "N" }
    else if text_eq(gear, "3") { "R" }
    else { "N" }
}

/// The configured gear of a gear button.
pub fn get_gear_selection(settings: &Settings) -> (r: String)
    ensures
        r@ == gear_selection(settings.entries@),
{
    get_value_or_default(settings, "GearSelection", "2")
}

/// The icon of a gear button for a selector position.
pub fn gear_image(gear: &str, state: u8) -> (r: String)
    ensures
        r@ == gear_image_of(gear@, state),
{
    let shown = render_decimal(state as i64);
    let active = if text_eq(shown.as_str(), gear) { "_on" } else { "_off" };
    let mut s = join3("actions/assets/gear_", gear_letter(gear), active);
    s.append(".png");
    s
}

/// What a gear button renders when it appears.
pub fn gear_appear(ctx: &String, settings: &Settings) -> (r: Vec<Command>)
    ensures
        r@.map_values(|c: Command| c@) == gear_appear_spec(ctx@, settings.entries@),
{
    let gear = get_gear_selection(settings);
    let image = gear_image(gear.as_str(), 0);
    let out = vec![Command::SetImage { context: ctx.clone(), image }];
    assert(out@.map_values(|c: Command| c@) =~= gear_appear_spec(ctx@, settings.entries@));
    out
}

/// The request a gear button sends when pressed.
pub fn gear_press(settings: &Settings) -> (r: String)
    ensures
        r@ == gear_press_spec(settings.entries@),
{
    let gear = get_gear_selection(settings);
    join("sendeventpress?event=SetGear", gear_letter(gear.as_str()))
}

/// The request a gear button sends when released.
pub fn gear_release(settings: &Settings) -> (r: String)
    ensures
        r@ == gear_release_spec(settings.entries@),
{
    let gear = get_gear_selection(settings);
    join("sendeventrelease?event=SetGear", gear_letter(gear.as_str()))
}

/// Handles one device event for a gear selector button.
pub fn handle_event_fixing_gearselect(
    event: ButtonEvent,
    vehicle_model: &str,
    buttons: &mut Registry,
) -> (cmds: Vec<Command>)
    requires
        old(buttons).wf(),
    ensures
        final(buttons).wf(),
        lifecycle_step(
            old(buttons)@,
            final(buttons)@,
            cmds@.map_values(|c: Command| c@),
            ControlType::GearSelect,
            event,
            vehicle_model@,
        ),
{
    handle_lifecycle(event, ControlType::GearSelect, vehicle_model, buttons)
}

} // verus!
