//! The fixed design parameters of the engine, promoted to named constants so
//! that every rule reads them from one place.

use vstd::prelude::*;

verus! {

/// A pod has arrived at a checkpoint once its distance to the centre drops
/// below this radius, in course units.
pub const CHECKPOINT_RADIUS: i64 = 600;

/// Axis comparisons in the cardinal classifier ignore differences within
/// this band, in course units.
pub const CARDINAL_DEADBAND: i64 = 10;

/// How far a tuned aim point is pulled opposite an on-axis direction.
pub const TUNE_AXIS_OFFSET: i64 = 500;

/// How far a tuned aim point is pulled on each axis opposite a diagonal
/// direction.
pub const TUNE_DIAGONAL_OFFSET: i64 = 350;

/// Heading errors strictly above this angle, in degrees, select the
/// slow-down thrust rule.
pub const SLOW_DOWN_ANGLE: i64 = 70;

/// Thrust emitted by the slow-down rule.
pub const SLOW_DOWN_THRUST: i64 = 50;

/// Remaining distances strictly below this threshold select the braking
/// thrust rule.
pub const BRAKE_DISTANCE: i64 = 1500;

/// Thrust emitted by the braking rule.
pub const BRAKE_THRUST: i64 = 25;

/// Full thrust, the default when no other rule applies.
pub const MAX_THRUST: i64 = 100;

/// Boost is armed only when the remaining distance strictly exceeds this
/// threshold.
pub const BOOST_DISTANCE: i64 = 4000;

/// While coasting, thrust is raised to this floor if the pod is about to
/// stall.
pub const STALL_THRUST: i64 = 50;

/// A pod counts as about to stall while the magnitude of its velocity is
/// strictly below this, in course units per turn.
pub const LOW_SPEED: i64 = 100;

/// How many turns of coasting are armed before a sharp turn.
pub const COAST_TICKS: u8 = 3;

/// Coasting is armed when the pod would cover the remaining distance in
/// strictly fewer than this many turns at its current speed.
pub const BRAKE_PROJECTION_TURNS: i64 = 5;

/// With a complete map, heading errors at most this angle allow aiming at
/// the checkpoint after next early.
pub const TURN_EARLY_ANGLE: i64 = 3;

/// With a complete map, remaining distances at most this threshold allow
/// aiming at the checkpoint after next early.
pub const TURN_EARLY_DISTANCE: i64 = 2000;

/// Heading errors strictly above this angle slow an attacking pod down.
pub const ATTACK_SLOW_ANGLE: i64 = 75;

/// Thrust of an attacking pod while it is turning.
pub const ATTACK_TURN_THRUST: i64 = 85;

/// Bound on the coordinates of any observed position or checkpoint. The
/// course is far smaller; the bound only keeps every geometric computation
/// inside `i64`.
pub const MAX_COORD: i64 = 1_000_000_000;

/// Bound on the coordinates of any velocity: the difference of two bounded
/// positions.
pub const MAX_SPAN: i64 = 2_000_000_000;

} // verus!
