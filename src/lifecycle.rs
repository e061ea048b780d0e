//! The state machine that every control shares: a button is absent until it
//! appears, and while visible it takes new settings and title parameters and
//! turns presses and releases into telemetry requests.
use vstd::prelude::*;
use crate::action_change::{change_appear, change_appear_spec, change_release, change_release_spec};
use crate::action_fixing_gearselect::{
    gear_appear, gear_appear_spec, gear_press, gear_press_spec, gear_release, gear_release_spec,
};
use crate::action_indicators::{indicator_appear, indicator_appear_spec, indicator_press, indicator_press_spec};
use crate::action_passenger_doors::{
    door_appear, door_appear_spec, door_press, door_press_spec, door_release, door_release_spec,
};
use crate::control::{ButtonEvent, Command, CommandView, ControlType, EventKind};
use crate::registry::{
    appeared, disappeared, settings_replaced, title_taken, visible, ActionInstance, Registry,
};
use crate::settings::{SettingValue, Settings};

verus! {

pub const IGNITION_PRESS: &'static str = "sendeventpress?event=MotorStartStop";
pub const IGNITION_RELEASE: &'static str = "sendeventrelease?event=MotorStartStop";
pub const STOP_BRAKE_TOGGLE: &'static str = "sendevent?event=StopBrakeOnOff";

/// What a control renders right after its baseline state when it appears.
pub open spec fn appear_visuals_spec(control: ControlType, ctx: Seq<char>, entries: Seq<(String, SettingValue)>) -> Seq<CommandView> {
    match control {
        ControlType::Change => change_appear_spec(ctx, entries),
        ControlType::GearSelect => gear_appear_spec(ctx, entries),
        ControlType::PassengerDoors => door_appear_spec(ctx, entries),
        ControlType::Indicators => indicator_appear_spec(ctx, entries),
        _ => Seq::empty(),
    }
}

/// The request a control sends when pressed, if any.
pub open spec fn press_spec(control: ControlType, entries: Seq<(String, SettingValue)>, model: Seq<char>) -> Option<Seq<char>> {
    match control {
        ControlType::Ignition => Some(IGNITION_PRESS@),
        ControlType::StopBrake => Some(STOP_BRAKE_TOGGLE@),
        ControlType::GearSelect => Some(gear_press_spec(entries)),
        ControlType::PassengerDoors => Some(door_press_spec(entries, model)),
        ControlType::Indicators => Some(indicator_press_spec(entries)),
        _ => None,
    }
}

/// The request a control sends when released, if any.
pub open spec fn release_spec(control: ControlType, entries: Seq<(String, SettingValue)>, model: Seq<char>) -> Option<Seq<char>> {
    match control {
        ControlType::Ignition => Some(IGNITION_RELEASE@),
        ControlType::GearSelect => Some(gear_release_spec(entries)),
        ControlType::PassengerDoors => Some(door_release_spec(entries, model)),
        ControlType::Change => Some(change_release_spec(entries)),
        _ => None,
    }
}

/// A request as the list of commands that carries it.
pub open spec fn request_views(r: Option<Seq<char>>) -> Seq<CommandView> {
    match r {
        Some(q) => seq![CommandView::Telemetry { request: q }],
        None => Seq::empty(),
    }
}

/// The commands a press or release of the button `ctx` issues: none when it
/// is not visible, else the control's request from that button's settings.
pub open spec fn key_commands(
    old: Seq<ActionInstance>,
    cmds: Seq<CommandView>,
    ctx: Seq<char>,
    request: spec_fn(Seq<(String, SettingValue)>) -> Option<Seq<char>>,
) -> bool {
    &&& !visible(old, ctx) ==> cmds.len() == 0
    &&& forall|i: int| 0 <= i < old.len() && old[i].context@ == ctx
        ==> cmds == request_views(request(old[i].settings.entries@))
}

/// One step of the shared state machine: how the registry `old` becomes
/// `new`, and which commands `cmds` go out, on `event` for a control.
pub open spec fn lifecycle_step(
    old: Seq<ActionInstance>,
    new: Seq<ActionInstance>,
    cmds: Seq<CommandView>,
    control: ControlType,
    event: ButtonEvent,
    model: Seq<char>,
) -> bool {
    let ctx = event.context@;
    match event.kind {
        EventKind::Appeared => {
            &&& appeared(old, new, ctx, control, event.settings)
            &&& cmds == if visible(old, ctx) {
                Seq::empty()
            } else {
                seq![CommandView::SetState { context: ctx, state: 0 }]
                    + appear_visuals_spec(control, ctx, event.settings.entries@)
            }
        },
        EventKind::Disappeared => disappeared(old, new, ctx) && cmds.len() == 0,
        EventKind::TitleParametersChanged => title_taken(old, new, ctx, event.settings) && cmds.len() == 0,
        EventKind::SettingsReceived => settings_replaced(old, new, ctx, event.settings) && cmds.len() == 0,
        EventKind::Pressed => new == old && key_commands(old, cmds, ctx, |e| press_spec(control, e, model)),
        EventKind::Released => new == old && key_commands(old, cmds, ctx, |e| release_spec(control, e, model)),
    }
}

fn appear_visuals(control: ControlType, ctx: &String, settings: &Settings) -> (r: Vec<Command>)
    ensures
        r@.map_values(|c: Command| c@) == appear_visuals_spec(control, ctx@, settings.entries@),
{
    match control {
        ControlType::Change => change_appear(ctx, settings),
        ControlType::GearSelect => gear_appear(ctx, settings),
        ControlType::PassengerDoors => door_appear(ctx, settings),
        ControlType::Indicators => indicator_appear(ctx, settings),
        _ => {
            let out: Vec<Command> = Vec::new();
            assert(out@.map_values(|c: Command| c@) =~= Seq::<CommandView>::empty());
            out
        },
    }
}

fn press_request(control: ControlType, settings: &Settings, model: &str) -> (r: Option<String>)
    ensures
        match r {
            Some(q) => press_spec(control, settings.entries@, model@) == Some(q@),
            None => press_spec(control, settings.entries@, model@) is None,
        },
{
    match control {
        ControlType::Ignition => Some(String::from_str(IGNITION_PRESS)),
        ControlType::StopBrake => Some(String::from_str(STOP_BRAKE_TOGGLE)),
        ControlType::GearSelect => Some(gear_press(settings)),
        ControlType::PassengerDoors => Some(door_press(settings, model)),
        ControlType::Indicators => Some(indicator_press(settings)),
        _ => None,
    }
}

fn release_request(control: ControlType, settings: &Settings, model: &str) -> (r: Option<String>)
    ensures
        match r {
            Some(q) => release_spec(control, settings.entries@, model@) == Some(q@),
            None => release_spec(control, settings.entries@, model@) is None,
        },
{
    match control {
        ControlType::Ignition => Some(String::from_str(IGNITION_RELEASE)),
        ControlType::GearSelect => Some(gear_release(settings)),
        ControlType::PassengerDoors => Some(door_release(settings, model)),
        ControlType::Change => Some(change_release(settings)),
        _ => None,
    }
}

fn request_commands(r: Option<String>) -> (out: Vec<Command>)
    ensures
        out@.map_values(|c: Command| c@) == request_views(match r { Some(q) => Some(q@), None => None }),
{
    let mut out: Vec<Command> = Vec::new();
    match r {
        Some(q) => {
            out.push(Command::Telemetry { request: q });
        },
        None => {},
    }
    assert(out@.map_values(|c: Command| c@) =~= request_views(match r { Some(q) => Some(q@), None => None }));
    out
}

/// Runs one event through the state machine of `control`, updating the
/// registry and returning the commands to issue, in order.
pub fn handle_lifecycle(event: ButtonEvent, control: ControlType, model: &str, buttons: &mut Registry) -> (cmds: Vec<Command>)
    requires
        old(buttons).wf(),
    ensures
        final(buttons).wf(),
        lifecycle_step(old(buttons)@, final(buttons)@, cmds@.map_values(|c: Command| c@), control, event, model@),
{
    let ghost ev = event;
    let ButtonEvent { kind, context, settings } = event;
    match kind {
        EventKind::Appeared => {
            let ctx = context.clone();
            let n = buttons.len();
            let added = buttons.upsert_on_appear(context, control, settings);
            if added {
                let b = buttons.at(n);
                let mut out: Vec<Command> = vec![Command::SetState { context: ctx.clone(), state: 0 }];
                let mut visuals = appear_visuals(control, &ctx, &b.settings);
                let ghost first = out@;
                let ghost rest = visuals@;
                out.append(&mut visuals);
                assert(out@.map_values(|c: Command| c@) =~= first.map_values(|c: Command| c@) + rest.map_values(|c: Command| c@));
                assert(first.map_values(|c: Command| c@) =~= seq![CommandView::SetState { context: ev.context@, state: 0 }]);
                assert(b.settings == ev.settings);
                out
            } else {
                let out: Vec<Command> = Vec::new();
                assert(out@.map_values(|c: Command| c@) =~= Seq::<CommandView>::empty());
                out
            }
        },
        EventKind::Disappeared => {
            buttons.remove_on_disappear(context.as_str());
            Vec::new()
        },
        EventKind::TitleParametersChanged => {
            buttons.update_title_field(context.as_str(), &settings);
            Vec::new()
        },
        EventKind::SettingsReceived => {
            buttons.update_settings(context.as_str(), settings);
            Vec::new()
        },
        EventKind::Pressed => {
            match buttons.find(context.as_str()) {
                Some(i) => {
                    let r = press_request(control, &buttons.at(i).settings, model);
                    request_commands(r)
                },
                None => Vec::new(),
            }
        },
        EventKind::Released => {
            match buttons.find(context.as_str()) {
                Some(i) => {
                    let r = release_request(control, &buttons.at(i).settings, model);
                    request_commands(r)
                },
                None => Vec::new(),
            }
        },
    }
}

} // verus!
