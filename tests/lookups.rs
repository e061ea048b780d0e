use thebus_deck::action_change::get_coin_title;
use thebus_deck::action_fixing_gearselect::{gear_image, gear_letter};
use thebus_deck::action_indicators::{get_indicator_image_off, get_indicator_image_on};
use thebus_deck::action_passenger_doors::get_door_action;
use thebus_deck::control::{control_from_uuid, ControlType};
use thebus_deck::settings::{get_value_or_default, get_value_or_empty, SettingValue, Settings};
use thebus_deck::text::{render_decimal, text_eq};

#[test]
fn coin_title_known_denominations() {
    assert_eq!(get_coin_title("Coins5"), "0.05 €");
    assert_eq!(get_coin_title("Coins100"), "1.00 €");
    assert_eq!(get_coin_title("Coins800"), "8.00 €");
}

#[test]
fn coin_title_falls_back_to_grab() {
    assert_eq!(get_coin_title("Coins7"), "Grab");
    assert_eq!(get_coin_title(""), "Grab");
    assert_eq!(get_coin_title("Take Cash Money"), "Grab");
}

#[test]
fn gear_letters_map_codes() {
    assert_eq!(gear_letter("1"), "D");
    assert_eq!(gear_letter("2"), "N");
    assert_eq!(gear_letter("3"), "R");
    assert_eq!(gear_letter("4"), "N");
    assert_eq!(gear_letter(""), "N");
}

#[test]
fn gear_image_lights_matching_gear() {
    assert_eq!(gear_image("1", 1), "actions/assets/gear_D_on.png");
    assert_eq!(gear_image("3", 1), "actions/assets/gear_R_off.png");
    assert_eq!(gear_image("2", 0), "actions/assets/gear_N_off.png");
}

#[test]
fn door_action_depends_on_model() {
    assert_eq!(get_door_action("Door 2", "Citea LLE"), "MiddleDoorOpenClose");
    assert_eq!(get_door_action("Door 2", "Other Bus"), "DoorMiddleOpenClose");
    assert_ne!(get_door_action("Door 2", "Citea LLE"), get_door_action("Door 2", ""));
    assert_eq!(get_door_action("Door 4", "Citea LLE"), "FourthDoorOpenClose");
    assert_eq!(get_door_action("Door 3", "X"), "DoorRearOpenClose");
}

#[test]
fn door_clearance_ignores_model() {
    assert_eq!(get_door_action("Clearance", "Citea LLE"), "ToggleDoorClearance");
    assert_eq!(get_door_action("Clearance", "Other"), "ToggleDoorClearance");
    assert_eq!(get_door_action("Door 9", "Other"), "DoorFrontOpenClose");
}

#[test]
fn indicator_images() {
    assert_eq!(get_indicator_image_on("IndicatorRight"), "actions/assets/indicator_right_on.png");
    assert_eq!(get_indicator_image_on("Nope"), "actions/assets/warninglights_on.png");
    assert_eq!(get_indicator_image_off("IndicatorLeft"), "actions/assets/indicator_left_off.png");
    assert_eq!(get_indicator_image_off("WarningLights"), "actions/assets/warninglights_off.png");
    assert_eq!(get_indicator_image_off("Nope"), "actions/assets/warninglights_on.png");
}

#[test]
fn settings_accessor_defaults() {
    let mut s = Settings::new();
    s.insert("DoorSelector".to_string(), SettingValue::Text("Door 3".to_string()));
    s.insert("Count".to_string(), SettingValue::Number(4));
    assert_eq!(get_value_or_empty(&s, "DoorSelector"), "Door 3");
    assert_eq!(get_value_or_empty(&s, "Count"), "");
    assert_eq!(get_value_or_empty(&s, "Missing"), "");
    assert_eq!(get_value_or_default(&s, "Missing", "Door 1"), "Door 1");
    assert_eq!(get_value_or_default(&s, "DoorSelector", "Door 1"), "Door 3");
}

#[test]
fn settings_insert_replaces() {
    let mut s = Settings::new();
    s.insert("GearSelection".to_string(), SettingValue::Text("1".to_string()));
    s.insert("GearSelection".to_string(), SettingValue::Text("3".to_string()));
    assert_eq!(s.entries.len(), 1);
    assert_eq!(get_value_or_empty(&s, "GearSelection"), "3");
}

#[test]
fn decimal_rendering() {
    assert_eq!(render_decimal(0), "0");
    assert_eq!(render_decimal(42), "42");
    assert_eq!(render_decimal(-7), "-7");
    assert_eq!(render_decimal(i64::MIN), "-9223372036854775808");
    assert_eq!(render_decimal(i64::MAX), "9223372036854775807");
}

#[test]
fn text_equality() {
    assert!(text_eq("abc", "abc"));
    assert!(!text_eq("abc", "abd"));
    assert!(!text_eq("abc", "ab"));
    assert!(text_eq("", ""));
}

#[test]
fn control_identifiers() {
    assert_eq!(control_from_uuid("de.thatzok.thebus.inbus"), Some(ControlType::InBus));
    assert_eq!(control_from_uuid("de.thatzok.thebus.dooraction"), Some(ControlType::PassengerDoors));
    assert_eq!(control_from_uuid("de.thatzok.thebus.indicatorcontrol"), Some(ControlType::Indicators));
    assert_eq!(control_from_uuid("something.else"), None);
}
