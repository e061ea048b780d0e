use the_bus_telemetry::api::ApiVehicleType;
use thebus_deck::control::{ButtonEvent, Command, ControlType, EventKind};
use thebus_deck::poller::{PollContext, VehicleSnapshot};
use thebus_deck::propagate::{
    set_door_lamps_for_uuid, set_gearselect_for_uuid, set_indicator_lamps_for_uuid, set_state_for_uuid,
    set_title_for_uuid, set_value_for_uuid,
};
use thebus_deck::registry::Registry;
use thebus_deck::router::route_event;
use thebus_deck::settings::{SettingValue, Settings};

fn appear(reg: &mut Registry, action: &str, ctx: &str, pairs: &[(&str, &str)]) {
    let mut settings = Settings::new();
    for (k, v) in pairs {
        settings.insert(k.to_string(), SettingValue::Text(v.to_string()));
    }
    route_event(action, ButtonEvent { kind: EventKind::Appeared, context: ctx.to_string(), settings }, "", reg);
}

#[test]
fn state_propagation_is_debounced() {
    let mut reg = Registry::new();
    appear(&mut reg, "de.thatzok.thebus.stopbrake", "a", &[]);
    appear(&mut reg, "de.thatzok.thebus.stopbrake", "b", &[]);
    appear(&mut reg, "de.thatzok.thebus.ignition", "c", &[]);
    let first = set_state_for_uuid(&mut reg, ControlType::StopBrake, 1);
    assert_eq!(first.len(), 2);
    assert!(matches!(&first[0], Command::SetState { state: 1, .. }));
    let second = set_state_for_uuid(&mut reg, ControlType::StopBrake, 1);
    assert!(second.is_empty());
    assert_eq!(reg.get("c").unwrap().state, 0);
}

#[test]
fn value_propagation_formats_percent() {
    let mut reg = Registry::new();
    appear(&mut reg, "de.thatzok.thebus.inbus", "a", &[]);
    let first = set_value_for_uuid(&mut reg, ControlType::InBus, 42);
    assert!(matches!(&first[..], [Command::SetTitle { title, .. }] if title == "42%"));
    assert!(set_value_for_uuid(&mut reg, ControlType::InBus, 42).is_empty());
    assert_eq!(reg.get("a").unwrap().value, 42);
}

#[test]
fn title_propagation_writes_every_time() {
    let mut reg = Registry::new();
    appear(&mut reg, "de.thatzok.thebus.inbus", "a", &[]);
    assert_eq!(set_title_for_uuid(&reg, ControlType::InBus, "x".to_string()).len(), 1);
    assert_eq!(set_title_for_uuid(&reg, ControlType::InBus, "x".to_string()).len(), 1);
}

#[test]
fn gear_propagation_shows_icon() {
    let mut reg = Registry::new();
    appear(&mut reg, "de.thatzok.thebus.gearselect", "d", &[("GearSelection", "1")]);
    appear(&mut reg, "de.thatzok.thebus.gearselect", "r", &[("GearSelection", "3")]);
    let out = set_gearselect_for_uuid(&mut reg, ControlType::GearSelect, 1);
    assert_eq!(out.len(), 2);
    assert!(matches!(&out[0], Command::SetImage { context, image } if context == "d" && image == "actions/assets/gear_D_on.png"));
    assert!(matches!(&out[1], Command::SetImage { context, image } if context == "r" && image == "actions/assets/gear_R_off.png"));
    assert!(set_gearselect_for_uuid(&mut reg, ControlType::GearSelect, 1).is_empty());
}

#[test]
fn door_lamps_read_selected_door() {
    let mut reg = Registry::new();
    appear(&mut reg, "de.thatzok.thebus.dooraction", "d1", &[]);
    appear(&mut reg, "de.thatzok.thebus.dooraction", "d3", &[("DoorSelector", "Door 3")]);
    appear(&mut reg, "de.thatzok.thebus.dooraction", "cl", &[("DoorSelector", "Clearance")]);
    let out = set_door_lamps_for_uuid(&mut reg, ControlType::PassengerDoors, [1, 0, 0, 1, 0]);
    assert_eq!(out.len(), 2);
    assert!(matches!(&out[0], Command::SetImage { context, image } if context == "d3" && image == "actions/assets/doorbutton_on.png"));
    assert!(matches!(&out[1], Command::SetImage { context, image } if context == "cl" && image == "actions/assets/doorclearance_on.png"));
    assert!(set_door_lamps_for_uuid(&mut reg, ControlType::PassengerDoors, [1, 0, 0, 1, 0]).is_empty());
}

#[test]
fn indicator_lamps_read_selected_lamp() {
    let mut reg = Registry::new();
    appear(&mut reg, "de.thatzok.thebus.indicatorcontrol", "l", &[]);
    appear(&mut reg, "de.thatzok.thebus.indicatorcontrol", "w", &[("IndicatorSelector", "WarningLights")]);
    let out = set_indicator_lamps_for_uuid(&mut reg, ControlType::Indicators, [0, 1, 0]);
    assert!(matches!(&out[..], [Command::SetImage { context, image }] if context == "l" && image == "actions/assets/indicator_left_on.png"));
    let off = set_indicator_lamps_for_uuid(&mut reg, ControlType::Indicators, [0, 0, 0]);
    assert!(matches!(&off[..], [Command::SetImage { image, .. }] if image == "actions/assets/indicator_left_off.png"));
}

#[test]
fn rediscovery_after_eleven_polls() {
    let mut reg = Registry::new();
    let mut ctx = PollContext::new(false);
    assert!(ctx.begin_tick());
    ctx.record_vehicle_name("Bus1".to_string());
    assert!(ctx.has_vehicle());
    let mut snapshot = VehicleSnapshot::empty();
    snapshot.gear_selector = 2;
    ctx.apply_snapshot("Citea LLE".to_string(), snapshot, &mut reg);
    for _ in 0..10 {
        assert!(!ctx.begin_tick());
        ctx.apply_snapshot("Citea LLE".to_string(), snapshot, &mut reg);
    }
    assert_eq!(ctx.polls, 11);
    assert!(ctx.begin_tick());
    assert_eq!(ctx.polls, 0);
    assert_eq!(ctx.vehicle_model, "Citea LLE");
}

#[test]
fn failed_fetch_forces_rediscovery() {
    let mut ctx = PollContext::new(false);
    ctx.begin_tick();
    ctx.record_vehicle_name("Bus1".to_string());
    ctx.on_fetch_failed();
    assert!(!ctx.has_vehicle());
    assert_eq!(ctx.polls, 12);
    assert!(ctx.begin_tick());
}

#[test]
fn no_vehicle_turns_in_bus_off() {
    let mut reg = Registry::new();
    appear(&mut reg, "de.thatzok.thebus.inbus", "b", &[]);
    let mut ctx = PollContext::new(false);
    let mut snapshot = VehicleSnapshot::empty();
    snapshot.gear_selector = 1;
    let on = ctx.apply_snapshot("M".to_string(), snapshot, &mut reg);
    assert!(matches!(&on[..], [Command::SetState { state: 1, .. }]));
    let off = ctx.on_no_vehicle(&mut reg);
    assert!(matches!(&off[..], [Command::SetState { state: 0, .. }]));
    assert_eq!(ctx.vehicle, VehicleSnapshot::empty());
}

#[test]
fn snapshot_blinks_indicators() {
    let mut reg = Registry::new();
    appear(&mut reg, "de.thatzok.thebus.indicatorcontrol", "r", &[("IndicatorSelector", "IndicatorRight")]);
    let mut ctx = PollContext::new(false);
    let mut snapshot = VehicleSnapshot::empty();
    snapshot.indicator = 2;
    let first = ctx.apply_snapshot("M".to_string(), snapshot, &mut reg);
    assert_eq!(ctx.blink, 1);
    assert!(matches!(&first[..], [Command::SetImage { image, .. }] if image == "actions/assets/indicator_right_on.png"));
    let second = ctx.apply_snapshot("M".to_string(), snapshot, &mut reg);
    assert_eq!(ctx.blink, 0);
    assert!(matches!(&second[..], [Command::SetImage { image, .. }] if image == "actions/assets/indicator_right_off.png"));
}

#[test]
fn vehicle_payload_is_decoded() {
    let mut reg = Registry::new();
    appear(&mut reg, "de.thatzok.thebus.fixingbrake", "f", &[]);
    let mut ctx = PollContext::new(false);
    let mut av = ApiVehicleType::default();
    av.fixing_brake = "true".to_string();
    av.indicator_state = -1;
    let out = ctx.on_vehicle_data("Citea LLE".to_string(), av, &mut reg);
    assert!(ctx.vehicle.fixing_brake);
    assert_eq!(ctx.vehicle.indicator, 1);
    assert_eq!(ctx.vehicle.gear_selector, 2);
    assert!(matches!(&out[..], [Command::SetState { state: 1, .. }]));
    assert_eq!(ctx.vehicle_model, "Citea LLE");
}
