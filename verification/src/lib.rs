//! Navigation and decision engine for piloting pods around a closed circuit
//! of checkpoints that is discovered one sighting at a time.
//!
//! The engine works on plain integer telemetry: positions and aim points in
//! course-plane units, heading errors in whole degrees, distances in course
//! units. Distance tests are carried out on squared distances, which agree
//! exactly with the plain comparisons for the non-negative quantities
//! involved. The turn-by-turn text protocol with the simulator lives outside
//! this crate; it hands the engine a typed snapshot each turn and consumes a
//! typed action.

pub mod checkpoints;
pub mod config;
pub mod engine;
pub mod pod;
pub mod point;
