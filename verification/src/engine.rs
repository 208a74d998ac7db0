//! The per-turn engine: the two-state motion controller and the step that
//! turns one telemetry snapshot into one action.

use vstd::prelude::*;

use crate::checkpoints::{
    next_cursor, observe_mapped, observe_points, tuned_seq, Checkpoints, Target,
};
use crate::config::{CHECKPOINT_RADIUS, MAX_THRUST, TURN_EARLY_ANGLE, TURN_EARLY_DISTANCE};
use crate::point::{abs_i64, abs_val, dist_sq, Point};
use crate::pod::{run_spec, velocity_update, Action, Pod, Thrust};

verus! {

/// The controller's two states: between legs, or committed to an aim point
/// for the current leg.
#[derive(Clone, Copy, PartialEq, Eq, Structural, Debug)]
pub enum State {
    Moving(Target),
    ChangingTarget,
}

impl State {
    /// Commits to an aim point for the new leg.
    pub fn move_to(&mut self, target: Target)
        ensures
            *final(self) == State::Moving(target),
    {
        *self = State::Moving(target);
    }

    /// Releases the committed aim point; the next turn re-acquires one.
    pub fn change_target(&mut self)
        ensures
            *final(self) is ChangingTarget,
    {
        *self = State::ChangingTarget;
    }
}

/// One turn's telemetry, as the adapter hands it over: the pod's reported
/// position, the reported next checkpoint, and the simulator's precomputed
/// distance and heading error (whole degrees, normalized).
#[derive(Clone, Copy, PartialEq, Eq, Structural, Debug)]
pub struct Snapshot {
    pub position: Point,
    pub next_checkpoint: Point,
    pub distance_to_next: i64,
    pub angle_to_next: i64,
}

impl Snapshot {
    /// What every snapshot from the simulator satisfies: bounded
    /// coordinates, a non-negative distance, a normalized heading error.
    pub open spec fn wf(self) -> bool {
        &&& self.position.fits()
        &&& self.next_checkpoint.fits()
        &&& self.distance_to_next >= 0
        &&& -180 < self.angle_to_next <= 180
    }
}

/// What holds of the map and the controller between any two turns: the map
/// is well-formed, and a committed aim point came from a non-empty map.
pub open spec fn engine_inv(map: Checkpoints, state: State) -> bool {
    &&& map.wf()
    &&& (state matches State::Moving(t) ==> map.checkpoints@.len() > 0 && t.original.fits())
}

/// The pod after absorbing the turn's telemetry, before the policy runs.
pub open spec fn pod_with_telemetry(p: Pod, snap: Snapshot) -> Pod {
    Pod {
        angle: snap.angle_to_next,
        distance_to_next: snap.distance_to_next,
        ..velocity_update(p, snap.position)
    }
}

/// Whether the look-ahead override applies: the map is complete, the
/// heading error is small and the remaining distance is short, so the pod
/// aims at the checkpoint after next early to avoid overshooting.
pub open spec fn turn_early(map: Checkpoints, snap: Snapshot) -> bool {
    &&& map.all_mapped
    &&& abs_val(snap.angle_to_next as int) <= TURN_EARLY_ANGLE
    &&& snap.distance_to_next <= TURN_EARLY_DISTANCE
}

/// The aim point a committed target stands for: the tuned point when one
/// exists, the raw checkpoint before lap closure.
pub open spec fn committed_aim(t: Target) -> Point {
    match t.tuned {
        Some(p) => p,
        None => t.original,
    }
}

/// The target under the map's cursor, tuned when the map is complete.
pub open spec fn current_target(map: Checkpoints) -> Target {
    Target {
        original: map.checkpoints@[map.current_checkpoint as int],
        tuned: if map.all_mapped {
            Some(tuned_seq(map.checkpoints@)[map.current_checkpoint as int])
        } else {
            Option::<Point>::None
        },
    }
}

/// One turn of the engine. The pod absorbs the telemetry; then, between
/// legs, the observed checkpoint extends the map (while it is incomplete),
/// the cursor advances, the new target is committed and full thrust is
/// emitted toward it; within a leg, arrival at the committed target's
/// checkpoint releases the commitment for the next turn, the thrust policy
/// runs, and the pod steers at the committed aim point — or, late on a
/// mapped leg with a small heading error, at the checkpoint after next.
pub fn step_turn(map: &mut Checkpoints, state: &mut State, pod: &mut Pod, snap: Snapshot) -> (a:
    Action)
    requires
        engine_inv(*old(map), *old(state)),
        old(pod).position.fits(),
        snap.wf(),
    ensures
        engine_inv(*final(map), *final(state)),
        (*old(state) matches State::Moving(t) ==> {
            &&& final(map).checkpoints@ == old(map).checkpoints@
            &&& final(map).all_mapped == old(map).all_mapped
            &&& final(map).current_checkpoint == old(map).current_checkpoint
            &&& final(map).tuned_checkpoints@ == old(map).tuned_checkpoints@
            &&& *final(pod) == run_spec(pod_with_telemetry(*old(pod), snap))
            &&& *final(state) == (if dist_sq(snap.position, t.original) < CHECKPOINT_RADIUS
                * CHECKPOINT_RADIUS {
                State::ChangingTarget
            } else {
                *old(state)
            })
            &&& a.target == (if turn_early(*old(map), snap) {
                old(map).checkpoints@[next_cursor(
                    old(map).current_checkpoint as int,
                    old(map).checkpoints@.len() as int,
                )]
            } else {
                committed_aim(t)
            })
            &&& a.thrust == (if final(pod).boosting {
                Thrust::Boost
            } else {
                Thrust::Value(final(pod).speed)
            })
        }),
        (*old(state) is ChangingTarget ==> {
            &&& *final(pod) == pod_with_telemetry(*old(pod), snap)
            &&& final(map).checkpoints@ == (if old(map).all_mapped {
                old(map).checkpoints@
            } else {
                observe_points(old(map).checkpoints@, snap.next_checkpoint)
            })
            &&& final(map).all_mapped == (old(map).all_mapped || observe_mapped(
                old(map).checkpoints@,
                snap.next_checkpoint,
            ))
            &&& final(map).current_checkpoint == next_cursor(
                old(map).current_checkpoint as int,
                final(map).checkpoints@.len() as int,
            )
            &&& *final(state) == State::Moving(current_target(*final(map)))
            &&& a.target == committed_aim(current_target(*final(map)))
            &&& a.thrust == Thrust::Value(MAX_THRUST)
        }),
{
    pod.calculate_velocity(snap.position);
    pod.angle = snap.angle_to_next;
    pod.distance_to_next = snap.distance_to_next;
    let st = *state;
    match st {
        State::Moving(target) => {
            if pod.position.distance_squared_to(target.original) < CHECKPOINT_RADIUS
                * CHECKPOINT_RADIUS {
                state.change_target();
            }
            let aim = if map.all_mapped && abs_i64(snap.angle_to_next) <= TURN_EARLY_ANGLE
                && snap.distance_to_next <= TURN_EARLY_DISTANCE {
                map.get_next()
            } else {
                match target.tuned {
                    Some(p) => p,
                    None => target.original,
                }
            };
            pod.run();
            Action { target: aim, thrust: pod.get_speed() }
        },
        State::ChangingTarget => {
            if !map.all_mapped {
                map.add(snap.next_checkpoint);
            }
            map.next();
            let t = map.get();
            state.move_to(t);
            let aim = match t.tuned {
                Some(p) => p,
                None => t.original,
            };
            Action { target: aim, thrust: Thrust::Value(MAX_THRUST) }
        },
    }
}

/// The magnitude of a heading-error difference, in whole degrees,
/// normalized first to the interval from -180 to just below 180 and then
/// taken absolutely.
pub open spec fn angle_error_spec(d: int) -> int {
    abs_val((abs_val(d) + 180) % 360 - 180)
}

/// Normalizes a raw difference of two headings, in whole degrees, to the
/// magnitude of the heading error.
pub fn normalize_angle_error(delta: i64) -> (r: i64)
    requires
        i64::MIN + 181 <= delta <= i64::MAX - 180,
    ensures
        r == angle_error_spec(delta as int),
        0 <= r <= 180,
{
    let a = abs_i64(delta);
    let m = (a + 180) % 360 - 180;
    abs_i64(m)
}

} // verus!
