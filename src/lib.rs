//! Button registry and telemetry synchronisation for a deck of physical
//! buttons that mirrors the state of a simulated bus.
pub mod text;
pub mod settings;
pub mod control;
pub mod registry;
pub mod lifecycle;
pub mod router;
pub mod propagate;
pub mod poller;
pub mod laws;
pub mod action_change;
pub mod action_fixing_brake;
pub mod action_fixing_gearselect;
pub mod action_ignition;
pub mod action_inbus;
pub mod action_indicators;
pub mod action_passenger_doors;
pub mod action_stop_brake;
