//! The telemetry poll cycle: when to rediscover the active vehicle, how a
//! failed fetch is recovered, and how one snapshot is fanned out to buttons.
use vstd::prelude::*;
use the_bus_telemetry::api::ApiVehicleType;
use the_bus_telemetry::api2vehicle::get_vehicle_state_from_api;
use crate::control::{Command, CommandView, ControlType};
use crate::propagate::{propagate, rendered, writes, Rendering};
use crate::registry::{ActionInstance, Registry};

verus! {

#[verifier::external_type_specification]
#[verifier::external_body]
pub struct ExApiVehicleType(ApiVehicleType);

/// A poll counter above this value forces rediscovery of the active vehicle.
pub const DISCOVERY_THRESHOLD: u8 = 10;

/// The counter value a failed fetch leaves behind: above the threshold, so
/// that the next cycle rediscovers at once.
pub const FAILED_FETCH_POLLS: u8 = 12;

/// One telemetry read of the signals the buttons show.
#[derive(PartialEq, Eq, Structural, Clone, Copy, Debug)]
pub struct VehicleSnapshot {
    pub fixing_brake: bool,
    /// 1 drive, 2 neutral, 3 reverse; 0 when no vehicle is known.
    pub gear_selector: u8,
    pub doors_open: bool,
    pub front_door_lamp: bool,
    pub second_door_lamp: bool,
    pub third_door_lamp: bool,
    pub fourth_door_lamp: bool,
    /// 0 off, 1 left, 2 right.
    pub indicator: u8,
    pub warning_lights: bool,
    pub stop_brake_lamp: bool,
}

impl VehicleSnapshot {
    /// The snapshot used while no vehicle is known: everything off.
    pub open spec fn empty_spec() -> VehicleSnapshot {
        VehicleSnapshot {
            fixing_brake: false,
            gear_selector: 0,
            doors_open: false,
            front_door_lamp: false,
            second_door_lamp: false,
            third_door_lamp: false,
            fourth_door_lamp: false,
            indicator: 0,
            warning_lights: false,
            stop_brake_lamp: false,
        }
    }

    /// The snapshot used while no vehicle is known: everything off.
    pub fn empty() -> (r: VehicleSnapshot)
        ensures
            r == VehicleSnapshot::empty_spec(),
    {
        VehicleSnapshot {
            fixing_brake: false,
            gear_selector: 0,
            doors_open: false,
            front_door_lamp: false,
            second_door_lamp: false,
            third_door_lamp: false,
            fourth_door_lamp: false,
            indicator: 0,
            warning_lights: false,
            stop_brake_lamp: false,
        }
    }
}

/// Relies on the_bus_telemetry::api2vehicle::get_vehicle_state_from_api to
/// decode a vehicle payload; its source maps the gear selector to 1, 2 or 3
/// and the indicator to 0, 1 or 2.
#[verifier::external_body]
fn vehicle_state_of(av: ApiVehicleType) -> (s: VehicleSnapshot)
    ensures
        1 <= s.gear_selector <= 3,
        s.indicator <= 2,
{
    let v = get_vehicle_state_from_api(av);
    VehicleSnapshot {
        fixing_brake: v.fixing_brake,
        gear_selector: v.gear_selector,
        doors_open: v.doors,
        front_door_lamp: v.lights_front_door,
        second_door_lamp: v.lights_second_door,
        third_door_lamp: v.lights_third_door,
        fourth_door_lamp: v.lights_fourth_door,
        indicator: v.indicator,
        warning_lights: v.lights_warning,
        stop_brake_lamp: v.lights_stop_brake,
    }
}

/// A flag as a lamp state.
pub open spec fn lamp(b: bool) -> u8 {
    if b { 1 } else { 0 }
}

/// Door lamps: the doors-open flag, then the lamps of doors 1 to 4.
pub open spec fn door_lamps_of(s: VehicleSnapshot) -> [u8; 5] {
    [lamp(s.doors_open), lamp(s.front_door_lamp), lamp(s.second_door_lamp), lamp(s.third_door_lamp), lamp(s.fourth_door_lamp)]
}

/// Indicator lamps: warning lights, then left and right, each blinking with
/// `blink` while its direction or the warning lights are on.
pub open spec fn indicator_lamps_of(s: VehicleSnapshot, blink: u8) -> [u8; 3] {
    [
        lamp(s.warning_lights),
        if s.indicator == 1 || s.warning_lights { blink } else { 0 },
        if s.indicator == 2 || s.warning_lights { blink } else { 0 },
    ]
}

/// The order in which one snapshot is fanned out: each rendering with the
/// control type it drives.
pub open spec fn sync_steps(s: VehicleSnapshot, blink: u8) -> Seq<(Rendering, ControlType)> {
    seq![
        (Rendering::IndicatorLamps(indicator_lamps_of(s, blink)), ControlType::Indicators),
        (Rendering::State(1), ControlType::InBus),
        (Rendering::State(lamp(s.fixing_brake)), ControlType::FixingBrake),
        (Rendering::Gear(s.gear_selector), ControlType::GearSelect),
        (Rendering::DoorLamps(door_lamps_of(s)), ControlType::PassengerDoors),
        (Rendering::State(lamp(s.stop_brake_lamp)), ControlType::StopBrake),
    ]
}

/// The buttons after applying `steps` in order.
pub open spec fn after_steps(steps: Seq<(Rendering, ControlType)>, s: Seq<ActionInstance>) -> Seq<ActionInstance>
    decreases steps.len(),
{
    if steps.len() == 0 {
        s
    } else {
        let last = steps.last();
        after_steps(steps.drop_last(), s).map_values(|b: ActionInstance| rendered(last.0, last.1, b))
    }
}

/// The device writes of applying `steps` in order.
pub open spec fn steps_writes(steps: Seq<(Rendering, ControlType)>, s: Seq<ActionInstance>) -> Seq<CommandView>
    decreases steps.len(),
{
    if steps.len() == 0 {
        Seq::empty()
    } else {
        let last = steps.last();
        steps_writes(steps.drop_last(), s) + writes(last.0, last.1, after_steps(steps.drop_last(), s))
    }
}

/// A cycle starts with a query for the active vehicle when none is known or
/// when the counter has passed the threshold.
pub open spec fn discovery_due(vehicle_name: Seq<char>, polls: u8) -> bool {
    vehicle_name.len() == 0 || polls > DISCOVERY_THRESHOLD
}

/// The blink flip-flop after one more successful poll.
pub open spec fn flip(blink: u8) -> u8 {
    if blink == 0 { 1 } else { 0 }
}

/// The process-wide state of the poll cycle.
pub struct PollContext {
    /// The active vehicle; empty when none is known.
    pub vehicle_name: String,
    /// Successful polls since the last discovery.
    pub polls: u8,
    /// The last reported vehicle model.
    pub vehicle_model: String,
    pub debugging: bool,
    /// The indicator blink flip-flop, 0 or 1.
    pub blink: u8,
    /// The latest snapshot.
    pub vehicle: VehicleSnapshot,
}

fn door_lamps(s: VehicleSnapshot) -> (r: [u8; 5])
    ensures
        r == door_lamps_of(s),
{
    [
        if s.doors_open { 1 } else { 0 },
        if s.front_door_lamp { 1 } else { 0 },
        if s.second_door_lamp { 1 } else { 0 },
        if s.third_door_lamp { 1 } else { 0 },
        if s.fourth_door_lamp { 1 } else { 0 },
    ]
}

fn indicator_lamps(s: VehicleSnapshot, blink: u8) -> (r: [u8; 3])
    ensures
        r == indicator_lamps_of(s, blink),
{
    [
        if s.warning_lights { 1 } else { 0 },
        if s.indicator == 1 || s.warning_lights { blink } else { 0 },
        if s.indicator == 2 || s.warning_lights { blink } else { 0 },
    ]
}

impl PollContext {
    /// The state at start-up: no vehicle known.
    pub fn new(debugging: bool) -> (r: PollContext)
        ensures
            r.vehicle_name@.len() == 0,
            r.polls == 0,
            r.vehicle_model@.len() == 0,
            r.debugging == debugging,
            r.blink == 0,
            r.vehicle == VehicleSnapshot::empty_spec(),
    {
        PollContext {
            vehicle_name: String::new(),
            polls: 0,
            vehicle_model: String::new(),
            debugging,
            blink: 0,
            vehicle: VehicleSnapshot::empty(),
        }
    }

    /// Starts a cycle. Returns whether the active vehicle must be queried
    /// now; if so the counter restarts, whatever the query brings.
    pub fn begin_tick(&mut self) -> (query: bool)
        ensures
            query == discovery_due(old(self).vehicle_name@, old(self).polls),
            query ==> final(self).polls == 0,
            !query ==> final(self).polls == old(self).polls,
            final(self).polls <= DISCOVERY_THRESHOLD,
            final(self).vehicle_name == old(self).vehicle_name,
            final(self).vehicle_model == old(self).vehicle_model,
            final(self).debugging == old(self).debugging,
            final(self).blink == old(self).blink,
            final(self).vehicle == old(self).vehicle,
    {
        let query = self.vehicle_name.as_str().is_empty() || self.polls > DISCOVERY_THRESHOLD;
        if query {
            self.polls = 0;
        }
        query
    }

    /// Records the answer of a vehicle query (empty: no vehicle).
    pub fn record_vehicle_name(&mut self, name: String)
        ensures
            final(self).vehicle_name == name,
            final(self).polls == old(self).polls,
            final(self).vehicle_model == old(self).vehicle_model,
            final(self).debugging == old(self).debugging,
            final(self).blink == old(self).blink,
            final(self).vehicle == old(self).vehicle,
    {
        self.vehicle_name = name;
    }

    /// Whether a vehicle is known, so that its data can be fetched.
    pub fn has_vehicle(&self) -> (r: bool)
        ensures
            r == (self.vehicle_name@.len() > 0),
    {
        !self.vehicle_name.as_str().is_empty()
    }

    /// Ends a cycle in which no vehicle is known: the snapshot is cleared
    /// and the in-bus lamps go to 0.
    pub fn on_no_vehicle(&mut self, buttons: &mut Registry) -> (cmds: Vec<Command>)
        requires
            old(buttons).wf(),
        ensures
            final(buttons).wf(),
            final(self).vehicle == VehicleSnapshot::empty_spec(),
            final(self).vehicle_name == old(self).vehicle_name,
            final(self).polls == old(self).polls,
            final(self).vehicle_model == old(self).vehicle_model,
            final(self).debugging == old(self).debugging,
            final(self).blink == old(self).blink,
            final(buttons)@ == old(buttons)@.map_values(|b: ActionInstance| rendered(Rendering::State(0), ControlType::InBus, b)),
            cmds@.map_values(|c: Command| c@) == writes(Rendering::State(0), ControlType::InBus, old(buttons)@),
    {
        self.vehicle = VehicleSnapshot::empty();
        propagate(buttons, ControlType::InBus, Rendering::State(0))
    }

    /// Ends a cycle whose vehicle fetch failed: the vehicle is forgotten and
    /// the counter is pushed past the threshold.
    pub fn on_fetch_failed(&mut self)
        ensures
            final(self).vehicle_name@.len() == 0,
            final(self).polls == FAILED_FETCH_POLLS,
            discovery_due(final(self).vehicle_name@, final(self).polls),
            final(self).vehicle_model == old(self).vehicle_model,
            final(self).debugging == old(self).debugging,
            final(self).blink == old(self).blink,
            final(self).vehicle == old(self).vehicle,
    {
        self.vehicle_name = String::new();
        self.polls = FAILED_FETCH_POLLS;
    }

    /// Ends a cycle that fetched `snapshot` for a vehicle of `model`: counts
    /// the poll, records the model and snapshot, toggles the blink and
    /// renders the snapshot on every button.
    pub fn apply_snapshot(&mut self, model: String, snapshot: VehicleSnapshot, buttons: &mut Registry) -> (cmds: Vec<Command>)
        requires
            old(self).polls <= DISCOVERY_THRESHOLD,
            old(buttons).wf(),
        ensures
            final(buttons).wf(),
            final(self).polls == old(self).polls + 1,
            final(self).vehicle_model == model,
            final(self).vehicle == snapshot,
            final(self).blink == flip(old(self).blink),
            final(self).vehicle_name == old(self).vehicle_name,
            final(self).debugging == old(self).debugging,
            final(buttons)@ == after_steps(sync_steps(snapshot, final(self).blink), old(buttons)@),
            cmds@.map_values(|c: Command| c@) == steps_writes(sync_steps(snapshot, final(self).blink), old(buttons)@),
    {
        self.polls = self.polls + 1;
        self.vehicle_model = model;
        self.vehicle = snapshot;
        self.blink = if self.blink == 0 { 1 } else { 0 };
        let blink = self.blink;
        let steps: Vec<(Rendering, ControlType)> = vec![
            (Rendering::IndicatorLamps(indicator_lamps(snapshot, blink)), ControlType::Indicators),
            (Rendering::State(1), ControlType::InBus),
            (Rendering::State(if snapshot.fixing_brake { 1 } else { 0 }), ControlType::FixingBrake),
            (Rendering::Gear(snapshot.gear_selector), ControlType::GearSelect),
            (Rendering::DoorLamps(door_lamps(snapshot)), ControlType::PassengerDoors),
            (Rendering::State(if snapshot.stop_brake_lamp { 1 } else { 0 }), ControlType::StopBrake),
        ];
        assert(steps@ =~= sync_steps(snapshot, blink));
        let ghost start = buttons@;
        let mut out: Vec<Command> = Vec::new();
        let mut i: usize = 0;
        while i < steps.len()
            invariant
                i <= steps@.len(),
                buttons.wf(),
                buttons@ == after_steps(steps@.subrange(0, i as int), start),
                out@.map_values(|c: Command| c@) == steps_writes(steps@.subrange(0, i as int), start),
            decreases steps@.len() - i,
        {
            let ghost before = out@;
            let (r, control) = steps[i];
            assert(steps@.subrange(0, i + 1).drop_last() =~= steps@.subrange(0, i as int));
            let mut more = propagate(buttons, control, r);
            let ghost added = more@;
            out.append(&mut more);
            assert(out@.map_values(|c: Command| c@) =~= before.map_values(|c: Command| c@) + added.map_values(|c: Command| c@));
            i = i + 1;
        }
        assert(steps@.subrange(0, steps@.len() as int) =~= steps@);
        out
    }

    /// Ends a cycle that fetched the payload of a vehicle of `model`: decodes
    /// it and applies the snapshot as `apply_snapshot` does.
    pub fn on_vehicle_data(&mut self, model: String, vehicle: ApiVehicleType, buttons: &mut Registry) -> (cmds: Vec<Command>)
        requires
            old(self).polls <= DISCOVERY_THRESHOLD,
            old(buttons).wf(),
        ensures
            final(buttons).wf(),
            final(self).polls == old(self).polls + 1,
            final(self).vehicle_model == model,
            final(self).blink == flip(old(self).blink),
            final(self).vehicle_name == old(self).vehicle_name,
            final(self).debugging == old(self).debugging,
            1 <= final(self).vehicle.gear_selector <= 3,
            final(self).vehicle.indicator <= 2,
            final(buttons)@ == after_steps(sync_steps(final(self).vehicle, final(self).blink), old(buttons)@),
            cmds@.map_values(|c: Command| c@) == steps_writes(sync_steps(final(self).vehicle, final(self).blink), old(buttons)@),
    {
        let snapshot = vehicle_state_of(vehicle);
        self.apply_snapshot(model, snapshot, buttons)
    }
}

} // verus!
