use thebus_deck::action_change::handle_event_change;
use thebus_deck::action_fixing_gearselect::handle_event_fixing_gearselect;
use thebus_deck::action_ignition::handle_event_ignition;
use thebus_deck::action_indicators::handle_event_indicators;
use thebus_deck::action_passenger_doors::handle_event_passenger_doors;
use thebus_deck::action_stop_brake::handle_event_stop_brake;
use thebus_deck::control::{ButtonEvent, Command, EventKind};
use thebus_deck::registry::Registry;
use thebus_deck::router::route_event;
use thebus_deck::settings::{SettingValue, Settings};

fn event(kind: EventKind, ctx: &str, pairs: &[(&str, &str)]) -> ButtonEvent {
    let mut settings = Settings::new();
    for (k, v) in pairs {
        settings.insert(k.to_string(), SettingValue::Text(v.to_string()));
    }
    ButtonEvent { kind, context: ctx.to_string(), settings }
}

fn request(cmds: &[Command]) -> Option<String> {
    match cmds {
        [Command::Telemetry { request }] => Some(request.clone()),
        _ => None,
    }
}

#[test]
fn appear_twice_keeps_one_entry() {
    let mut reg = Registry::new();
    let first = handle_event_ignition(event(EventKind::Appeared, "c1", &[]), "", &mut reg);
    assert_eq!(first.len(), 1);
    assert!(matches!(&first[0], Command::SetState { context, state: 0 } if context == "c1"));
    let second = handle_event_ignition(event(EventKind::Appeared, "c1", &[]), "", &mut reg);
    assert!(second.is_empty());
    assert_eq!(reg.len(), 1);
}

#[test]
fn disappear_removes_and_silences() {
    let mut reg = Registry::new();
    handle_event_passenger_doors(event(EventKind::Appeared, "d", &[]), "", &mut reg);
    handle_event_passenger_doors(event(EventKind::Appeared, "e", &[]), "", &mut reg);
    let out = handle_event_passenger_doors(event(EventKind::Disappeared, "d", &[]), "", &mut reg);
    assert!(out.is_empty());
    assert!(!reg.contains("d"));
    assert!(reg.contains("e"));
    let pressed = handle_event_passenger_doors(event(EventKind::Pressed, "d", &[]), "", &mut reg);
    assert!(pressed.is_empty());
    let again = handle_event_passenger_doors(event(EventKind::Disappeared, "d", &[]), "", &mut reg);
    assert!(again.is_empty());
    assert_eq!(reg.len(), 1);
}

#[test]
fn door_press_uses_default_selector_and_model() {
    let mut reg = Registry::new();
    let out = handle_event_passenger_doors(event(EventKind::Appeared, "d", &[]), "Citea LLE", &mut reg);
    assert!(matches!(&out[1], Command::SetImage { image, .. } if image == "actions/assets/doorbutton_off.png"));
    let down = handle_event_passenger_doors(event(EventKind::Pressed, "d", &[]), "Citea LLE", &mut reg);
    assert_eq!(request(&down).unwrap(), "sendeventpress?event=DoorFrontOpenClose");
    handle_event_passenger_doors(event(EventKind::SettingsReceived, "d", &[("DoorSelector", "Door 2")]), "", &mut reg);
    let up = handle_event_passenger_doors(event(EventKind::Released, "d", &[]), "Citea LLE", &mut reg);
    assert_eq!(request(&up).unwrap(), "sendeventrelease?event=MiddleDoorOpenClose");
    let up2 = handle_event_passenger_doors(event(EventKind::Released, "d", &[]), "Lion's City", &mut reg);
    assert_eq!(request(&up2).unwrap(), "sendeventrelease?event=DoorMiddleOpenClose");
}

#[test]
fn clearance_door_uses_clearance_icon() {
    let mut reg = Registry::new();
    let out = handle_event_passenger_doors(event(EventKind::Appeared, "d", &[("DoorSelector", "Clearance")]), "", &mut reg);
    assert!(matches!(&out[1], Command::SetImage { image, .. } if image == "actions/assets/doorclearance_off.png"));
}

#[test]
fn gear_button_commands() {
    let mut reg = Registry::new();
    let out = handle_event_fixing_gearselect(event(EventKind::Appeared, "g", &[("GearSelection", "3")]), "", &mut reg);
    assert_eq!(out.len(), 2);
    assert!(matches!(&out[1], Command::SetImage { image, .. } if image == "actions/assets/gear_R_off.png"));
    let down = handle_event_fixing_gearselect(event(EventKind::Pressed, "g", &[]), "", &mut reg);
    assert_eq!(request(&down).unwrap(), "sendeventpress?event=SetGearR");
    let up = handle_event_fixing_gearselect(event(EventKind::Released, "g", &[]), "", &mut reg);
    assert_eq!(request(&up).unwrap(), "sendeventrelease?event=SetGearR");
}

#[test]
fn gear_button_defaults_to_neutral() {
    let mut reg = Registry::new();
    handle_event_fixing_gearselect(event(EventKind::Appeared, "g", &[]), "", &mut reg);
    let down = handle_event_fixing_gearselect(event(EventKind::Pressed, "g", &[]), "", &mut reg);
    assert_eq!(request(&down).unwrap(), "sendeventpress?event=SetGearN");
}

#[test]
fn ignition_press_and_release() {
    let mut reg = Registry::new();
    handle_event_ignition(event(EventKind::Appeared, "i", &[]), "", &mut reg);
    let down = handle_event_ignition(event(EventKind::Pressed, "i", &[]), "", &mut reg);
    assert_eq!(request(&down).unwrap(), "sendeventpress?event=MotorStartStop");
    let up = handle_event_ignition(event(EventKind::Released, "i", &[]), "", &mut reg);
    assert_eq!(request(&up).unwrap(), "sendeventrelease?event=MotorStartStop");
}

#[test]
fn stop_brake_toggles_on_press_only() {
    let mut reg = Registry::new();
    handle_event_stop_brake(event(EventKind::Appeared, "s", &[]), "", &mut reg);
    let down = handle_event_stop_brake(event(EventKind::Pressed, "s", &[]), "", &mut reg);
    assert_eq!(request(&down).unwrap(), "sendevent?event=StopBrakeOnOff");
    let up = handle_event_stop_brake(event(EventKind::Released, "s", &[]), "", &mut reg);
    assert!(up.is_empty());
}

#[test]
fn indicator_press_by_selector() {
    let mut reg = Registry::new();
    let out = handle_event_indicators(event(EventKind::Appeared, "l", &[]), "", &mut reg);
    assert!(matches!(&out[1], Command::SetImage { image, .. } if image == "actions/assets/indicator_left_off.png"));
    handle_event_indicators(event(EventKind::Appeared, "r", &[("IndicatorSelector", "IndicatorRight")]), "", &mut reg);
    handle_event_indicators(event(EventKind::Appeared, "w", &[("IndicatorSelector", "WarningLights")]), "", &mut reg);
    let l = handle_event_indicators(event(EventKind::Pressed, "l", &[]), "", &mut reg);
    let r = handle_event_indicators(event(EventKind::Pressed, "r", &[]), "", &mut reg);
    let w = handle_event_indicators(event(EventKind::Pressed, "w", &[]), "", &mut reg);
    assert_eq!(request(&l).unwrap(), "sendevent?event=IndicatorDown");
    assert_eq!(request(&r).unwrap(), "sendevent?event=IndicatorUp");
    assert_eq!(request(&w).unwrap(), "sendevent?event=ToggleWarningLights");
    assert!(handle_event_indicators(event(EventKind::Released, "w", &[]), "", &mut reg).is_empty());
}

#[test]
fn coin_button_auto_label_and_release() {
    let mut reg = Registry::new();
    let out = handle_event_change(
        event(EventKind::Appeared, "m", &[("AutoLabel", "True"), ("CashChangeSelect", "Coins100")]),
        "",
        &mut reg,
    );
    assert_eq!(out.len(), 2);
    assert!(matches!(&out[1], Command::SetTitle { title, .. } if title == "1.00 €"));
    assert!(handle_event_change(event(EventKind::Pressed, "m", &[]), "", &mut reg).is_empty());
    let up = handle_event_change(event(EventKind::Released, "m", &[]), "", &mut reg);
    assert_eq!(request(&up).unwrap(), "sendevent?event=Coins100");
}

#[test]
fn coin_button_without_auto_label() {
    let mut reg = Registry::new();
    let out = handle_event_change(event(EventKind::Appeared, "m", &[("CashChangeSelect", "Coins5")]), "", &mut reg);
    assert_eq!(out.len(), 1);
}

#[test]
fn title_parameters_store_title() {
    let mut reg = Registry::new();
    handle_event_ignition(event(EventKind::Appeared, "i", &[]), "", &mut reg);
    handle_event_ignition(event(EventKind::TitleParametersChanged, "i", &[("title", "Engine")]), "", &mut reg);
    assert_eq!(reg.get("i").unwrap().title, "Engine");
    handle_event_ignition(event(EventKind::TitleParametersChanged, "i", &[]), "", &mut reg);
    assert_eq!(reg.get("i").unwrap().title, "Engine");
}

#[test]
fn router_ignores_unknown_actions() {
    let mut reg = Registry::new();
    let out = route_event("unknown.action", event(EventKind::Appeared, "x", &[]), "", &mut reg);
    assert!(out.is_empty());
    assert_eq!(reg.len(), 0);
    let out = route_event("de.thatzok.thebus.ignition", event(EventKind::Appeared, "x", &[]), "", &mut reg);
    assert_eq!(out.len(), 1);
    assert_eq!(reg.len(), 1);
}
