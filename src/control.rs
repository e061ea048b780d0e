//! Logical control types, inbound button events and outbound commands.
use vstd::prelude::*;
use crate::settings::Settings;
use crate::text::text_eq;

verus! {

pub const UUID_FIXING_BRAKE: &'static str = "de.thatzok.thebus.fixingbrake";
pub const UUID_INBUS: &'static str = "de.thatzok.thebus.inbus";
pub const UUID_GEARSELECT: &'static str = "de.thatzok.thebus.gearselect";
pub const UUID_IGNITION: &'static str = "de.thatzok.thebus.ignition";
pub const UUID_PASSENGER_DOORS: &'static str = "de.thatzok.thebus.dooraction";
pub const UUID_INDICATORS: &'static str = "de.thatzok.thebus.indicatorcontrol";
pub const UUID_STOP_BRAKE: &'static str = "de.thatzok.thebus.stopbrake";
pub const UUID_CHANGE: &'static str = "de.thatzok.thebus.change";

/// The logical control that a button shows.
#[derive(PartialEq, Eq, Structural, Clone, Copy, Debug)]
pub enum ControlType {
    InBus,
    FixingBrake,
    GearSelect,
    Ignition,
    PassengerDoors,
    Indicators,
    StopBrake,
    Change,
}

/// The control type that an action identifier names, if any.
pub open spec fn control_of(uuid: Seq<char>) -> Option<ControlType> {
    if uuid == UUID_INBUS@ {
        Some(ControlType::InBus)
    } else if uuid == UUID_FIXING_BRAKE@ {
        Some(ControlType::FixingBrake)
    } else if uuid == UUID_GEARSELECT@ {
        Some(ControlType::GearSelect)
    } else if uuid == UUID_IGNITION@ {
        Some(ControlType::Ignition)
    } else if uuid == UUID_PASSENGER_DOORS@ {
        Some(ControlType::PassengerDoors)
    } else if uuid == UUID_INDICATORS@ {
        Some(ControlType::Indicators)
    } else if uuid == UUID_STOP_BRAKE@ {
        Some(ControlType::StopBrake)
    } else if uuid == UUID_CHANGE@ {
        Some(ControlType::Change)
    } else {
        None
    }
}

/// Maps an action identifier to the control type it names.
pub fn control_from_uuid(uuid: &str) -> (r: Option<ControlType>)
    ensures
        r == control_of(uuid@),
{
    if text_eq(uuid, UUID_INBUS) {
        Some(ControlType::InBus)
    } else if text_eq(uuid, UUID_FIXING_BRAKE) {
        Some(ControlType::FixingBrake)
    } else if text_eq(uuid, UUID_GEARSELECT) {
        Some(ControlType::GearSelect)
    } else if text_eq(uuid, UUID_IGNITION) {
        Some(ControlType::Ignition)
    } else if text_eq(uuid, UUID_PASSENGER_DOORS) {
        Some(ControlType::PassengerDoors)
    } else if text_eq(uuid, UUID_INDICATORS) {
        Some(ControlType::Indicators)
    } else if text_eq(uuid, UUID_STOP_BRAKE) {
        Some(ControlType::StopBrake)
    } else if text_eq(uuid, UUID_CHANGE) {
        Some(ControlType::Change)
    } else {
        None
    }
}

/// What happened to a button, as reported by the device.
#[derive(PartialEq, Eq, Structural, Clone, Copy, Debug)]
pub enum EventKind {
    Appeared,
    Disappeared,
    TitleParametersChanged,
    Pressed,
    Released,
    SettingsReceived,
}

/// One inbound device event about one button.
pub struct ButtonEvent {
    pub kind: EventKind,
    pub context: String,
    pub settings: Settings,
}

/// An outbound command: a write to the device or a request to the vehicle.
pub enum Command {
    SetState { context: String, state: u8 },
    SetTitle { context: String, title: String },
    SetImage { context: String, image: String },
    Telemetry { request: String },
}

/// A command with its texts seen as character sequences.
pub enum CommandView {
    SetState { context: Seq<char>, state: u8 },
    SetTitle { context: Seq<char>, title: Seq<char> },
    SetImage { context: Seq<char>, image: Seq<char> },
    Telemetry { request: Seq<char> },
}

impl View for Command {
    type V = CommandView;

    open spec fn view(&self) -> CommandView {
        match self {
            Command::SetState { context, state } => CommandView::SetState { context: context@, state: *state },
            Command::SetTitle { context, title } => CommandView::SetTitle { context: context@, title: title@ },
            Command::SetImage { context, image } => CommandView::SetImage { context: context@, image: image@ },
            Command::Telemetry { request } => CommandView::Telemetry { request: request@ },
        }
    }
}

} // verus!
