//! Change-detecting fan-out of telemetry values to every button of a control
//! type: a device write goes out only where the rendered value changes.
use vstd::prelude::*;
use crate::action_fixing_gearselect::{gear_image, gear_image_of, gear_selection, get_gear_selection};
use crate::action_indicators::{
    get_indicator_image_off, get_indicator_image_on, get_indicator_selection, indicator_image_off_of,
    indicator_image_on_of, indicator_selection,
};
use crate::action_passenger_doors::{door_image, door_image_of, door_selection, get_door_selection};
use crate::control::{Command, CommandView, ControlType};
use crate::registry::{ActionInstance, Registry};
use crate::text::{decimal_of, join, render_decimal, text_eq};

verus! {

/// A telemetry-derived value to render, with the way a button of the
/// control derives its own state from it.
#[derive(Clone, Copy)]
pub enum Rendering {
    /// The same state for every button, written as a state.
    State(u8),
    /// The gear selector position, shown as a gear icon.
    Gear(u8),
    /// Door lamps: index 0 the doors-open flag, 1 to 4 the door lamps.
    DoorLamps([u8; 5]),
    /// Indicator lamps: 0 warning lights, 1 left, 2 right.
    IndicatorLamps([u8; 3]),
}

/// The lamp a door selector reads: its door number, 0 for anything else.
pub open spec fn door_index_of(door: Seq<char>) -> int {
    if door == "Door 1"@ { 1 }
    else if door == "Door 2"@ { 2 }
    else if door == "Door 3"@ { 3 }
    else if door == "Door 4"@ { 4 }
    else { 0 }
}

/// The lamp an indicator selector reads.
pub open spec fn indicator_index_of(sel: Seq<char>) -> int {
    if sel == "WarningLights"@ { 0 }
    else if sel == "IndicatorLeft"@ { 1 }
    else if sel == "IndicatorRight"@ { 2 }
    else { 0 }
}

/// The state that button `b` should show for rendering `r`.
pub open spec fn target_of(r: Rendering, b: ActionInstance) -> u8 {
    match r {
        Rendering::State(s) => s,
        Rendering::Gear(s) => s,
        Rendering::DoorLamps(l) => l@[door_index_of(door_selection(b.settings.entries@))],
        Rendering::IndicatorLamps(l) => l@[indicator_index_of(indicator_selection(b.settings.entries@))],
    }
}

/// The device write that shows state `s` on button `b`.
pub open spec fn write_of(r: Rendering, b: ActionInstance, s: u8) -> CommandView {
    match r {
        Rendering::State(_) => CommandView::SetState { context: b.context@, state: s },
        Rendering::Gear(_) => CommandView::SetImage {
            context: b.context@,
            image: gear_image_of(gear_selection(b.settings.entries@), s),
        },
        Rendering::DoorLamps(_) => CommandView::SetImage {
            context: b.context@,
            image: door_image_of(door_selection(b.settings.entries@), s == 1),
        },
        Rendering::IndicatorLamps(_) => {
            let sel = indicator_selection(b.settings.entries@);
            CommandView::SetImage {
                context: b.context@,
                image: if s == 0 { indicator_image_off_of(sel) } else { indicator_image_on_of(sel) },
            }
        },
    }
}

/// Button `b` needs a write for rendering `r`: it shows `control` and its
/// stored state differs from its target.
pub open spec fn stale(r: Rendering, control: ControlType, b: ActionInstance) -> bool {
    b.control == control && b.state != target_of(r, b)
}

/// Button `b` after rendering `r`.
pub open spec fn rendered(r: Rendering, control: ControlType, b: ActionInstance) -> ActionInstance {
    if stale(r, control, b) {
        ActionInstance { state: target_of(r, b), ..b }
    } else {
        b
    }
}

/// The device writes that rendering `r` issues over the buttons `s`, in order.
pub open spec fn writes(r: Rendering, control: ControlType, s: Seq<ActionInstance>) -> Seq<CommandView>
    decreases s.len(),
{
    if s.len() == 0 {
        Seq::empty()
    } else {
        writes(r, control, s.drop_last()) + if stale(r, control, s.last()) {
            seq![write_of(r, s.last(), target_of(r, s.last()))]
        } else {
            Seq::empty()
        }
    }
}

fn door_index(door: &str) -> (r: usize)
    ensures
        r as int == door_index_of(door@),
{
    if text_eq(door, "Door 1") { 1 }
    else if text_eq(door, "Door 2") { 2 }
    else if text_eq(door, "Door 3") { 3 }
    else if text_eq(door, "Door 4") { 4 }
    else { 0 }
}

fn indicator_index(sel: &str) -> (r: usize)
    ensures
        r as int == indicator_index_of(sel@),
{
    if text_eq(sel, "WarningLights") { 0 }
    else if text_eq(sel, "IndicatorLeft") { 1 }
    else if text_eq(sel, "IndicatorRight") { 2 }
    else { 0 }
}

fn target(r: Rendering, b: &ActionInstance) -> (t: u8)
    ensures
        t == target_of(r, *b),
{
    match r {
        Rendering::State(s) => s,
        Rendering::Gear(s) => s,
        Rendering::DoorLamps(l) => {
            let door = get_door_selection(&b.settings);
            l[door_index(door.as_str())]
        },
        Rendering::IndicatorLamps(l) => {
            let sel = get_indicator_selection(&b.settings);
            l[indicator_index(sel.as_str())]
        },
    }
}

fn write(r: Rendering, b: &ActionInstance, s: u8) -> (c: Command)
    ensures
        c@ == write_of(r, *b, s),
{
    match r {
        Rendering::State(_) => Command::SetState { context: b.context.clone(), state: s },
        Rendering::Gear(_) => {
            let gear = get_gear_selection(&b.settings);
            Command::SetImage { context: b.context.clone(), image: gear_image(gear.as_str(), s) }
        },
        Rendering::DoorLamps(_) => {
            let door = get_door_selection(&b.settings);
            Command::SetImage { context: b.context.clone(), image: door_image(door.as_str(), s == 1) }
        },
        Rendering::IndicatorLamps(_) => {
            let sel = get_indicator_selection(&b.settings);
            let image = if s == 0 {
                get_indicator_image_off(sel.as_str())
            } else {
                get_indicator_image_on(sel.as_str())
            };
            Command::SetImage { context: b.context.clone(), image }
        },
    }
}

/// Renders `r` on every button of `control` whose stored state differs
/// from its target, storing the new state; returns the device writes.
pub fn propagate(buttons: &mut Registry, control: ControlType, r: Rendering) -> (cmds: Vec<Command>)
    requires
        old(buttons).wf(),
    ensures
        final(buttons).wf(),
        final(buttons)@ == old(buttons)@.map_values(|b: ActionInstance| rendered(r, control, b)),
        cmds@.map_values(|c: Command| c@) == writes(r, control, old(buttons)@),
{
    let ghost start = buttons@;
    let mut out: Vec<Command> = Vec::new();
    let mut i: usize = 0;
    let n = buttons.len();
    while i < n
        invariant
            buttons.wf(),
            n == start.len(),
            buttons@.len() == start.len(),
            i <= n,
            forall|j: int| 0 <= j < i ==> buttons@[j] == rendered(r, control, start[j]),
            forall|j: int| i <= j < n ==> buttons@[j] == start[j],
            out@.map_values(|c: Command| c@) == writes(r, control, start.subrange(0, i as int)),
        decreases n - i,
    {
        let ghost before = out@;
        let b = buttons.at(i);
        assert(start.subrange(0, i + 1).drop_last() =~= start.subrange(0, i as int));
        if b.control == control {
            let t = target(r, b);
            if b.state != t {
                let c = write(r, b, t);
                buttons.set_state_at(i, t);
                out.push(c);
                assert(out@.map_values(|c: Command| c@) =~= before.map_values(|c: Command| c@) + seq![c@]);
            } else {
                assert(out@.map_values(|c: Command| c@) =~= before.map_values(|c: Command| c@) + Seq::<CommandView>::empty());
            }
        } else {
            assert(out@.map_values(|c: Command| c@) =~= before.map_values(|c: Command| c@) + Seq::<CommandView>::empty());
        }
        i = i + 1;
    }
    assert(start.subrange(0, n as int) =~= start);
    assert(buttons@ =~= start.map_values(|b: ActionInstance| rendered(r, control, b)));
    out
}

/// Drives every button of `control` to state `state`.
pub fn set_state_for_uuid(buttons: &mut Registry, control: ControlType, state: u8) -> (cmds: Vec<Command>)
    requires
        old(buttons).wf(),
    ensures
        final(buttons).wf(),
        final(buttons)@ == old(buttons)@.map_values(|b: ActionInstance| rendered(Rendering::State(state), control, b)),
        cmds@.map_values(|c: Command| c@) == writes(Rendering::State(state), control, old(buttons)@),
{
    propagate(buttons, control, Rendering::State(state))
}

/// Shows the gear selector position `state` on every gear button.
pub fn set_gearselect_for_uuid(buttons: &mut Registry, control: ControlType, state: u8) -> (cmds: Vec<Command>)
    requires
        old(buttons).wf(),
    ensures
        final(buttons).wf(),
        final(buttons)@ == old(buttons)@.map_values(|b: ActionInstance| rendered(Rendering::Gear(state), control, b)),
        cmds@.map_values(|c: Command| c@) == writes(Rendering::Gear(state), control, old(buttons)@),
{
    propagate(buttons, control, Rendering::Gear(state))
}

/// Shows the door lamps on every door button, each reading the lamp of its
/// configured door.
pub fn set_door_lamps_for_uuid(buttons: &mut Registry, control: ControlType, lamps: [u8; 5]) -> (cmds: Vec<Command>)
    requires
        old(buttons).wf(),
    ensures
        final(buttons).wf(),
        final(buttons)@ == old(buttons)@.map_values(|b: ActionInstance| rendered(Rendering::DoorLamps(lamps), control, b)),
        cmds@.map_values(|c: Command| c@) == writes(Rendering::DoorLamps(lamps), control, old(buttons)@),
{
    propagate(buttons, control, Rendering::DoorLamps(lamps))
}

/// Shows the indicator lamps on every indicator button, each reading the
/// lamp of its configured selector.
pub fn set_indicator_lamps_for_uuid(buttons: &mut Registry, control: ControlType, lamps: [u8; 3]) -> (cmds: Vec<Command>)
    requires
        old(buttons).wf(),
    ensures
        final(buttons).wf(),
        final(buttons)@ == old(buttons)@.map_values(|b: ActionInstance| rendered(Rendering::IndicatorLamps(lamps), control, b)),
        cmds@.map_values(|c: Command| c@) == writes(Rendering::IndicatorLamps(lamps), control, old(buttons)@),
{
    propagate(buttons, control, Rendering::IndicatorLamps(lamps))
}

/// The title that shows a percentage value.
pub open spec fn percent_title(value: i64) -> Seq<char> {
    decimal_of(value as int) + "%"@
}

/// Button `b` after showing `value`: stored where it shows `control`.
pub open spec fn valued(value: i64, control: ControlType, b: ActionInstance) -> ActionInstance {
    if b.control == control && b.value != value {
        ActionInstance { value: value, ..b }
    } else {
        b
    }
}

/// The title writes that showing `value` issues over the buttons `s`.
pub open spec fn value_writes(value: i64, control: ControlType, s: Seq<ActionInstance>) -> Seq<CommandView>
    decreases s.len(),
{
    if s.len() == 0 {
        Seq::empty()
    } else {
        value_writes(value, control, s.drop_last()) + if s.last().control == control && s.last().value != value {
            seq![CommandView::SetTitle { context: s.last().context@, title: percent_title(value) }]
        } else {
            Seq::empty()
        }
    }
}

/// The title writes that `title` issues over the buttons `s`: one for each
/// button of `control`, changed or not.
pub open spec fn title_writes(title: Seq<char>, control: ControlType, s: Seq<ActionInstance>) -> Seq<CommandView>
    decreases s.len(),
{
    if s.len() == 0 {
        Seq::empty()
    } else {
        title_writes(title, control, s.drop_last()) + if s.last().control == control {
            seq![CommandView::SetTitle { context: s.last().context@, title: title }]
        } else {
            Seq::empty()
        }
    }
}

/// Shows `value` as a percentage title on every button of `control` whose
/// stored value differs, storing the new value.
pub fn set_value_for_uuid(buttons: &mut Registry, control: ControlType, value: i64) -> (cmds: Vec<Command>)
    requires
        old(buttons).wf(),
    ensures
        final(buttons).wf(),
        final(buttons)@ == old(buttons)@.map_values(|b: ActionInstance| valued(value, control, b)),
        cmds@.map_values(|c: Command| c@) == value_writes(value, control, old(buttons)@),
{
    let ghost start = buttons@;
    let shown = render_decimal(value);
    let title = join(shown.as_str(), "%");
    let mut out: Vec<Command> = Vec::new();
    let mut i: usize = 0;
    let n = buttons.len();
    while i < n
        invariant
            buttons.wf(),
            n == start.len(),
            buttons@.len() == start.len(),
            i <= n,
            title@ == percent_title(value),
            forall|j: int| 0 <= j < i ==> buttons@[j] == valued(value, control, start[j]),
            forall|j: int| i <= j < n ==> buttons@[j] == start[j],
            out@.map_values(|c: Command| c@) == value_writes(value, control, start.subrange(0, i as int)),
        decreases n - i,
    {
        let ghost before = out@;
        let b = buttons.at(i);
        assert(start.subrange(0, i + 1).drop_last() =~= start.subrange(0, i as int));
        if b.control == control && b.value != value {
            let c = Command::SetTitle { context: b.context.clone(), title: title.clone() };
            buttons.set_value_at(i, value);
            out.push(c);
            assert(out@.map_values(|c: Command| c@) =~= before.map_values(|c: Command| c@) + seq![c@]);
        } else {
            assert(out@.map_values(|c: Command| c@) =~= before.map_values(|c: Command| c@) + Seq::<CommandView>::empty());
        }
        i = i + 1;
    }
    assert(start.subrange(0, n as int) =~= start);
    assert(buttons@ =~= start.map_values(|b: ActionInstance| valued(value, control, b)));
    out
}

/// Writes `value` as the title of every button of `control`.
pub fn set_title_for_uuid(buttons: &Registry, control: ControlType, value: String) -> (cmds: Vec<Command>)
    ensures
        cmds@.map_values(|c: Command| c@) == title_writes(value@, control, buttons@),
{
    let mut out: Vec<Command> = Vec::new();
    let mut i: usize = 0;
    let n = buttons.len();
    while i < n
        invariant
            n == buttons@.len(),
            i <= n,
            out@.map_values(|c: Command| c@) == title_writes(value@, control, buttons@.subrange(0, i as int)),
        decreases n - i,
    {
        let ghost before = out@;
        let b = buttons.at(i);
        assert(buttons@.subrange(0, i + 1).drop_last() =~= buttons@.subrange(0, i as int));
        if b.control == control {
            let c = Command::SetTitle { context: b.context.clone(), title: value.clone() };
            out.push(c);
            assert(out@.map_values(|c: Command| c@) =~= before.map_values(|c: Command| c@) + seq![c@]);
        } else {
            assert(out@.map_values(|c: Command| c@) =~= before.map_values(|c: Command| c@) + Seq::<CommandView>::empty());
        }
        i = i + 1;
    }
    assert(buttons@.subrange(0, n as int) =~= buttons@);
    out
}

} // verus!
