//! The cash/coin selector: a denomination label table and the release
//! request that hands out change.
use vstd::prelude::*;
use crate::control::{ButtonEvent, Command, CommandView, ControlType};
use crate::lifecycle::{handle_lifecycle, lifecycle_step};
use crate::registry::Registry;
use crate::settings::{get_value_or_empty, text_or_empty, SettingValue, Settings};
use crate::text::{join, text_eq};

verus! {

/// The label shown for a denomination code.
pub open spec fn coin_title(coin: Seq<char>) -> Seq<char> {
    if coin == "Coins5"@ { "0.05 €"@ }
    else if coin == "Coins10"@ { "0.10 €"@ }
    else if coin == "Coins15"@ { "0.15 €"@ }
    else if coin == "Coins20"@ { "0.20 €"@ }
    else if coin == "Coins30"@ { "0.30 €"@ }
    else if coin == "Coins50"@ { "0.50 €"@ }
    else if coin == "Coins60"@ { "0.60 €"@ }
    else if coin == "Coins100"@ { "1.00 €"@ }
    else if coin == "Coins200"@ { "2.00 €"@ }
    else if coin == "Coins400"@ { "4.00 €"@ }
    else if coin == "Coins600"@ { "6.00 €"@ }
    else if coin == "Coins800"@ { "8.00 €"@ }
    else { "Grab"@ }
}

/// Looks up the label of a denomination code; unknown codes, the empty code
/// and the cash-collection code give "Grab".
pub fn get_coin_title(coin: &str) -> (r: String)
    ensures
        r@ == coin_title(coin@),
{
    let d = if text_eq(coin, "Coins5") { "0.05 €" }
    else if text_eq(coin, "Coins10") { "0.10 €" }
    else if text_eq(coin, "Coins15") { "0.15 €" }
    else if text_eq(coin, "Coins20") { "0.20 €" }
    else if text_eq(coin, "Coins30") { "0.30 €" }
    else if text_eq(coin, "Coins50") { "0.50 €" }
    else if text_eq(coin, "Coins60") { "0.60 €" }
    else if text_eq(coin, "Coins100") { "1.00 €" }
    else if text_eq(coin, "Coins200") { "2.00 €" }
    else if text_eq(coin, "Coins400") { "4.00 €" }
    else if text_eq(coin, "Coins600") { "6.00 €" }
    else if text_eq(coin, "Coins800") { "8.00 €" }
    else { "Grab" };
    String::from_str(d)
}

/// What a coin button renders when it appears: its denomination label as
/// title, when auto-labelling is switched on.
pub open spec fn change_appear_spec(ctx: Seq<char>, entries: Seq<(String, SettingValue)>) -> Seq<CommandView> {
    if text_or_empty(entries, "AutoLabel"@) == "True"@ {
        seq![CommandView::SetTitle { context: ctx, title: coin_title(text_or_empty(entries, "CashChangeSelect"@)) }]
    } else {
        Seq::empty()
    }
}

/// The request a coin button sends on release.
pub open spec fn change_release_spec(entries: Seq<(String, SettingValue)>) -> Seq<char> {
    "sendevent?event="@ + text_or_empty(entries, "CashChangeSelect"@)
}

/// What a coin button renders when it appears.
pub fn change_appear(ctx: &String, settings: &Settings) -> (r: Vec<Command>)
    ensures
        r@.map_values(|c: Command| c@) == change_appear_spec(ctx@, settings.entries@),
{
    let mut out: Vec<Command> = Vec::new();
    let autolabel = get_value_or_empty(settings, "AutoLabel");
    if text_eq(autolabel.as_str(), "True") {
        let select = get_value_or_empty(settings, "CashChangeSelect");
        let title = get_coin_title(select.as_str());
        out.push(Command::SetTitle { context: ctx.clone(), title });
    }
    assert(out@.map_values(|c: Command| c@) =~= change_appear_spec(ctx@, settings.entries@));
    out
}

/// The request a coin button sends on release.
pub fn change_release(settings: &Settings) -> (r: String)
    ensures
        r@ == change_release_spec(settings.entries@),
{
    let select = get_value_or_empty(settings, "CashChangeSelect");
    join("sendevent?event=", select.as_str())
}

/// Handles one device event for a coin selector button.
pub fn handle_event_change(
    event: ButtonEvent,
    vehicle_model: &str,
    buttons: &mut Registry,
) -> (cmds: Vec<Command>)
    requires
        old(buttons).wf(),
    ensures
        final(buttons).wf(),
        lifecycle_step(
            old(buttons)@,
            final(buttons)@,
            cmds@.map_values(|c: Command| c@),
            ControlType::Change,
            event,
            vehicle_model@,
        ),
{
    handle_lifecycle(event, ControlType::Change, vehicle_model, buttons)
}

} // verus!
