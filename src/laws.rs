//! Properties that hold across calls of the library, proved from the
//! contracts of the functions they speak of.
use vstd::prelude::*;
use crate::action_change::coin_title;
use crate::action_fixing_gearselect::gear_letter_of;
use crate::action_passenger_doors::{door_action_of, door_press_spec, door_release_spec, door_selection, VARIANT_DOOR_MODEL};
use crate::control::{ButtonEvent, CommandView, ControlType, EventKind};
use crate::lifecycle::lifecycle_step;
use crate::poller::{discovery_due, DISCOVERY_THRESHOLD, FAILED_FETCH_POLLS};
use crate::propagate::{rendered, stale, target_of, value_writes, valued, writes, Rendering};
use crate::registry::{unique_contexts, visible, ActionInstance};
use crate::settings::{lookup, SettingValue};

verus! {

/// A second "appeared" for a context that is already registered changes
/// nothing and issues nothing: after two appearances exactly one button has
/// that context.
pub proof fn lemma_appear_idempotent(
    start: Seq<ActionInstance>,
    mid: Seq<ActionInstance>,
    end: Seq<ActionInstance>,
    first_cmds: Seq<CommandView>,
    second_cmds: Seq<CommandView>,
    control: ControlType,
    first: ButtonEvent,
    second: ButtonEvent,
    model: Seq<char>,
)
    requires
        unique_contexts(start),
        unique_contexts(mid),
        first.kind == EventKind::Appeared,
        second.kind == EventKind::Appeared,
        second.context@ == first.context@,
        lifecycle_step(start, mid, first_cmds, control, first, model),
        lifecycle_step(mid, end, second_cmds, control, second, model),
    ensures
        end == mid,
        second_cmds.len() == 0,
        visible(end, first.context@),
        unique_contexts(end),
        forall|i: int, j: int|
            0 <= i < end.len() && 0 <= j < end.len() && end[i].context@ == first.context@
                && end[j].context@ == first.context@ ==> i == j,
{
    if !visible(start, first.context@) {
        assert(mid[start.len() as int].context@ == first.context@);
    }
}

/// After "disappeared" the context is gone, whatever came before, and every
/// later event for it other than "appeared" changes nothing and issues
/// nothing.
pub proof fn lemma_disappear_closes(
    start: Seq<ActionInstance>,
    gone: Seq<ActionInstance>,
    later: Seq<ActionInstance>,
    gone_cmds: Seq<CommandView>,
    later_cmds: Seq<CommandView>,
    control: ControlType,
    other_control: ControlType,
    leave: ButtonEvent,
    next: ButtonEvent,
    model: Seq<char>,
)
    requires
        unique_contexts(start),
        leave.kind == EventKind::Disappeared,
        next.context@ == leave.context@,
        next.kind != EventKind::Appeared,
        lifecycle_step(start, gone, gone_cmds, control, leave, model),
        lifecycle_step(gone, later, later_cmds, other_control, next, model),
    ensures
        !visible(gone, leave.context@),
        gone_cmds.len() == 0,
        later == gone,
        later_cmds.len() == 0,
{
}

/// Rendering the same value a second time issues no device write: after
/// the first pass every button of the control already shows its target.
pub proof fn lemma_propagate_debounced(r: Rendering, control: ControlType, s: Seq<ActionInstance>)
    ensures
        writes(r, control, s.map_values(|b: ActionInstance| rendered(r, control, b))).len() == 0,
        s.map_values(|b: ActionInstance| rendered(r, control, b)).map_values(
            |b: ActionInstance| rendered(r, control, b),
        ) == s.map_values(|b: ActionInstance| rendered(r, control, b)),
    decreases s.len(),
{
    let once = s.map_values(|b: ActionInstance| rendered(r, control, b));
    if s.len() > 0 {
        lemma_propagate_debounced(r, control, s.drop_last());
        assert(once.drop_last() =~= s.drop_last().map_values(|b: ActionInstance| rendered(r, control, b)));
        let b = s.last();
        assert(target_of(r, rendered(r, control, b)) == target_of(r, b));
        assert(!stale(r, control, once.last()));
    }
    assert(once.map_values(|b: ActionInstance| rendered(r, control, b)) =~= once) by {
        assert forall|i: int| 0 <= i < once.len() implies rendered(r, control, once[i]) == once[i] by {
            assert(target_of(r, rendered(r, control, s[i])) == target_of(r, s[i]));
        }
    }
}

/// Showing the same percentage a second time issues no device write.
pub proof fn lemma_value_debounced(value: i64, control: ControlType, s: Seq<ActionInstance>)
    ensures
        value_writes(value, control, s.map_values(|b: ActionInstance| valued(value, control, b))).len() == 0,
    decreases s.len(),
{
    let once = s.map_values(|b: ActionInstance| valued(value, control, b));
    if s.len() > 0 {
        lemma_value_debounced(value, control, s.drop_last());
        assert(once.drop_last() =~= s.drop_last().map_values(|b: ActionInstance| valued(value, control, b)));
    }
}

/// Settings without a door selector drive the same door commands as
/// "Door 1", on every vehicle model.
pub proof fn lemma_door_default(entries: Seq<(String, SettingValue)>, model: Seq<char>)
    requires
        lookup(entries, "DoorSelector"@) is None,
    ensures
        door_action_of(door_selection(entries), model) == door_action_of("Door 1"@, model),
        door_press_spec(entries, model) == "sendeventpress?event="@ + door_action_of("Door 1"@, model),
        door_release_spec(entries, model) == "sendeventrelease?event="@ + door_action_of("Door 1"@, model),
{
}

/// On the variant model, "Door 2" names another action than on any other
/// model.
pub proof fn lemma_model_door_naming(model: Seq<char>)
    requires
        model != VARIANT_DOOR_MODEL@,
    ensures
        door_action_of("Door 2"@, VARIANT_DOOR_MODEL@) != door_action_of("Door 2"@, model),
{
    reveal_strlit("Door 1");
    reveal_strlit("Door 2");
    reveal_strlit("MiddleDoorOpenClose");
    reveal_strlit("DoorMiddleOpenClose");
    assert("Door 2"@[5] != "Door 1"@[5]);
    assert("MiddleDoorOpenClose"@[0] != "DoorMiddleOpenClose"@[0]);
}

/// Every denomination code outside the label table gives "Grab".
pub proof fn lemma_unknown_coin(coin: Seq<char>)
    requires
        coin != "Coins5"@,
        coin != "Coins10"@,
        coin != "Coins15"@,
        coin != "Coins20"@,
        coin != "Coins30"@,
        coin != "Coins50"@,
        coin != "Coins60"@,
        coin != "Coins100"@,
        coin != "Coins200"@,
        coin != "Coins400"@,
        coin != "Coins600"@,
        coin != "Coins800"@,
    ensures
        coin_title(coin) == "Grab"@,
{
}

/// Gear codes 1, 2 and 3 give the letters D, N and R; every other code N.
pub proof fn lemma_gear_letters(gear: Seq<char>)
    ensures
        gear_letter_of("1"@) == "D"@,
        gear_letter_of("2"@) == "N"@,
        gear_letter_of("3"@) == "R"@,
        gear != "1"@ && gear != "2"@ && gear != "3"@ ==> gear_letter_of(gear) == "N"@,
{
    reveal_strlit("1");
    reveal_strlit("2");
    reveal_strlit("3");
    assert("2"@[0] != "1"@[0]);
    assert("3"@[0] != "1"@[0]);
    assert("3"@[0] != "2"@[0]);
}

/// With a vehicle known and the counter restarted at discovery, the cycle
/// after `k` consecutive successful polls queries the vehicle again exactly
/// when `k` is 11; and a failed fetch makes the next cycle query at once.
pub proof fn lemma_rediscovery(vehicle_name: Seq<char>, k: u8)
    requires
        vehicle_name.len() > 0,
        k <= DISCOVERY_THRESHOLD + 1,
    ensures
        discovery_due(vehicle_name, k) <==> k == 11,
        discovery_due(Seq::empty(), FAILED_FETCH_POLLS),
{
}

} // verus!
