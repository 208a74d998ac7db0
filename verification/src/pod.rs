//! Per-pod state: kinematics, the thrust and boost policy, the opponent
//! selector and the attack behaviour.

use vstd::prelude::*;

use crate::config::{
    ATTACK_SLOW_ANGLE, ATTACK_TURN_THRUST, BOOST_DISTANCE, BRAKE_DISTANCE, BRAKE_PROJECTION_TURNS,
    BRAKE_THRUST, COAST_TICKS, LOW_SPEED, MAX_THRUST, SLOW_DOWN_ANGLE, SLOW_DOWN_THRUST,
    STALL_THRUST,
};
use crate::point::{abs_i64, abs_val, dist_sq, len_sq, Point};

verus! {

/// The thrust part of a turn's action: a numeric thrust, or the single-use
/// boost.
#[derive(Clone, Copy, PartialEq, Eq, Structural, Debug)]
pub enum Thrust {
    Value(i64),
    Boost,
}

/// A turn's action: the aim point to steer toward and the thrust to apply.
#[derive(Clone, Copy, PartialEq, Eq, Structural, Debug)]
pub struct Action {
    pub target: Point,
    pub thrust: Thrust,
}

/// What a pod is for: chasing checkpoints, harassing the nearest opponent,
/// or merely being tracked.
#[derive(Clone, Copy, PartialEq, Eq, Structural, Debug)]
pub enum Strategy {
    Attack,
    Race,
    Idle,
}

impl Default for Strategy {
    /// A pod whose role has not been assigned is merely tracked.
    fn default() -> (s: Strategy)
        ensures
            s is Idle,
    {
        Strategy::Idle
    }
}

/// One pod's state: kinematics as estimated from the telemetry, and the
/// thrust policy's bookkeeping.
#[derive(Clone, Copy, PartialEq, Eq, Structural, Debug)]
pub struct Pod {
    /// Position as last reported.
    pub position: Point,
    /// Previous position minus current position; zero until the pod has
    /// been seen twice.
    pub velocity: Point,
    /// Whether a position has been absorbed at least once.
    pub moving: bool,
    /// Heading error to the next checkpoint, in whole degrees, normalized
    /// to the interval from just above -180 to 180.
    pub angle: i64,
    /// The numeric thrust last decided.
    pub speed: i64,
    /// How often the single-use boost has been consumed: zero or one.
    pub boosts_used: u8,
    /// Whether the boost was consumed on this very turn.
    pub boosting: bool,
    /// Remaining distance to the next checkpoint, in course units.
    pub distance_to_next: i64,
    /// Turns of forced coasting that remain armed.
    pub ticks_to_skip: u8,
}

/// The pod after absorbing a newly reported position: the velocity becomes
/// the previous position minus the new one, or zero on the first sighting.
pub open spec fn velocity_update(p: Pod, new_position: Point) -> Pod {
    Pod {
        position: new_position,
        velocity: if p.moving {
            Point {
                x: (p.position.x - new_position.x) as i64,
                y: (p.position.y - new_position.y) as i64,
            }
        } else {
            Point { x: 0i64, y: 0i64 }
        },
        moving: true,
        ..p
    }
}

/// The thrust selected by the priority rules alone, before coasting for the
/// next sharp turn is armed.
pub open spec fn run_rules(p: Pod) -> Pod {
    let base = Pod { boosting: false, ..p };
    if p.ticks_to_skip > 0 {
        Pod {
            ticks_to_skip: (p.ticks_to_skip - 1) as u8,
            speed: if len_sq(p.velocity) < LOW_SPEED * LOW_SPEED {
                STALL_THRUST
            } else {
                0
            },
            ..base
        }
    } else if abs_val(p.angle as int) > SLOW_DOWN_ANGLE {
        Pod { speed: SLOW_DOWN_THRUST, ..base }
    } else if p.distance_to_next < BRAKE_DISTANCE {
        Pod { speed: BRAKE_THRUST, ..base }
    } else if p.boosts_used == 0 && p.distance_to_next > BOOST_DISTANCE && p.angle == 0 {
        Pod { speed: MAX_THRUST, boosting: true, boosts_used: 1, ..base }
    } else {
        Pod { speed: MAX_THRUST, ..base }
    }
}

/// Whether coasting is armed for the coming turns: the pod would cover the
/// remaining distance in strictly fewer turns than the projection horizon
/// at its current speed, or the heading error is large.
pub open spec fn coast_needed(p: Pod) -> bool {
    ||| p.distance_to_next * p.distance_to_next < BRAKE_PROJECTION_TURNS * BRAKE_PROJECTION_TURNS
        * len_sq(p.velocity)
    ||| abs_val(p.angle as int) > SLOW_DOWN_ANGLE
}

/// One evaluation of the thrust policy: the priority rules pick the thrust
/// (and possibly the boost), then coasting is armed for the following turns
/// where a hard brake or a sharp turn is coming.
pub open spec fn run_spec(p: Pod) -> Pod {
    let decided = run_rules(p);
    if coast_needed(p) {
        Pod { ticks_to_skip: COAST_TICKS, ..decided }
    } else {
        decided
    }
}

impl Pod {
    /// Absorbs a newly reported position and re-derives the velocity from
    /// the position delta; the first report leaves the velocity at zero.
    pub fn calculate_velocity(&mut self, new_position: Point)
        requires
            old(self).position.fits(),
            new_position.fits(),
        ensures
            *final(self) == velocity_update(*old(self), new_position),
            final(self).velocity.span_fits(),
    {
        if self.moving {
            self.velocity = self.position.sub(new_position);
        } else {
            self.moving = true;
            self.velocity = Point::new(0, 0);
        }
        self.position = new_position;
    }

    /// Raises the thrust to the stall floor when the pod is barely moving.
    pub fn clamp_speed(&mut self)
        requires
            old(self).velocity.span_fits(),
        ensures
            *final(self) == (if len_sq(old(self).velocity) < LOW_SPEED * LOW_SPEED {
                Pod { speed: STALL_THRUST, ..*old(self) }
            } else {
                *old(self)
            }),
    {
        if self.velocity.length_squared() < LOW_SPEED * LOW_SPEED {
            self.speed = STALL_THRUST;
        }
    }

    /// Consumes the single-use boost; once it has been used, asking again
    /// is a silent no-op.
    pub fn boost(&mut self)
        ensures
            old(self).boosts_used > 0 ==> *final(self) == *old(self),
            old(self).boosts_used == 0 ==> *final(self) == (Pod {
                boosting: true,
                boosts_used: 1,
                ..*old(self)
            }),
    {
        if self.boosts_used > 0 {
            return ;
        }
        self.boosting = true;
        self.boosts_used += 1;
    }

    /// The thrust to emit for this turn: the boost when it was consumed
    /// this turn, the decided numeric thrust otherwise.
    pub fn get_speed(&self) -> (t: Thrust)
        ensures
            t == (if self.boosting {
                Thrust::Boost
            } else {
                Thrust::Value(self.speed)
            }),
    {
        if self.boosting {
            Thrust::Boost
        } else {
            Thrust::Value(self.speed)
        }
    }

    /// Runs the thrust policy for this turn: coasting first, then the
    /// slow-down, braking and boost rules, and finally arms coasting where
    /// a hard brake or a sharp turn is coming.
    pub fn run(&mut self)
        requires
            old(self).velocity.span_fits(),
            old(self).angle > i64::MIN,
            old(self).distance_to_next >= 0,
        ensures
            *final(self) == run_spec(*old(self)),
    {
        self.boosting = false;
        if self.ticks_to_skip > 0 {
            self.ticks_to_skip -= 1;
            self.speed = 0;
            self.clamp_speed();
        } else if abs_i64(self.angle) > SLOW_DOWN_ANGLE {
            self.speed = SLOW_DOWN_THRUST;
        } else if self.distance_to_next < BRAKE_DISTANCE {
            self.speed = BRAKE_THRUST;
        } else {
            self.speed = MAX_THRUST;
            if self.distance_to_next > BOOST_DISTANCE && self.angle == 0 {
                self.boost();
            }
        }
        let projected = self.coasting_due();
        if projected || abs_i64(self.angle) > SLOW_DOWN_ANGLE {
            self.ticks_to_skip = COAST_TICKS;
        }
    }

    /// Whether the projected time to the next checkpoint calls for
    /// coasting: the remaining distance, squared, is under the squared
    /// projection of the horizon at the current speed.
    fn coasting_due(&self) -> (due: bool)
        requires
            self.velocity.span_fits(),
            self.distance_to_next >= 0,
        ensures
            due == (self.distance_to_next * self.distance_to_next < BRAKE_PROJECTION_TURNS
                * BRAKE_PROJECTION_TURNS * len_sq(self.velocity)),
    {
        let vsq = self.velocity.length_squared();
        let d = self.distance_to_next;
        proof {
            lemma_mul_bound(d as int, d as int, i64::MAX as int, i64::MAX as int);
            assert((i64::MAX as int) * (i64::MAX as int) < i128::MAX as int) by (nonlinear_arith);
        }
        (d as i128) * (d as i128) < (BRAKE_PROJECTION_TURNS as i128) * (BRAKE_PROJECTION_TURNS
            as i128) * (vsq as i128)
    }

    /// Arms the given number of turns of forced coasting.
    pub fn skip_ticks(&mut self, ticks: u8)
        ensures
            *final(self) == (Pod { ticks_to_skip: ticks, ..*old(self) }),
    {
        self.ticks_to_skip = ticks;
    }

    /// Of exactly two tracked opponents, the one nearer to this pod; a tie
    /// keeps the first. Squared distances decide the comparison exactly.
    pub fn closest_to_me(&self, others: &[Pod]) -> (c: Pod)
        requires
            others@.len() == 2,
            self.position.fits(),
            others@[0].position.fits(),
            others@[1].position.fits(),
        ensures
            c == (if dist_sq(self.position, others@[1].position) < dist_sq(
                self.position,
                others@[0].position,
            ) {
                others@[1]
            } else {
                others@[0]
            }),
    {
        let d0 = self.position.distance_squared_to(others[0].position);
        let d1 = self.position.distance_squared_to(others[1].position);
        if d1 < d0 {
            others[1]
        } else {
            others[0]
        }
    }

    /// The attack action: aim at the opponent's projected next position
    /// (its position plus its velocity), corrected by this pod's own
    /// velocity, and slow down only while still turning toward it.
    /// `angle_to_target` is the magnitude of the heading error toward that
    /// aim point, in whole degrees, as the adapter measures it.
    pub fn run_attack(&self, opponent: &Pod, angle_to_target: i64) -> (a: Action)
        requires
            self.velocity.span_fits(),
            opponent.position.fits(),
            opponent.velocity.span_fits(),
        ensures
            a.target.x == opponent.position.x + opponent.velocity.x - self.velocity.x,
            a.target.y == opponent.position.y + opponent.velocity.y - self.velocity.y,
            a.thrust == (if angle_to_target > ATTACK_SLOW_ANGLE {
                Thrust::Value(ATTACK_TURN_THRUST)
            } else {
                Thrust::Value(MAX_THRUST)
            }),
    {
        let projected = opponent.position.add(opponent.velocity);
        let target = projected.sub(self.velocity);
        let thrust = if angle_to_target > ATTACK_SLOW_ANGLE {
            ATTACK_TURN_THRUST
        } else {
            MAX_THRUST
        };
        Action { target, thrust: Thrust::Value(thrust) }
    }
}

impl Default for Pod {
    /// A pod before the first telemetry: standing, boost unused, full
    /// thrust decided, and the next checkpoint arbitrarily far away.
    fn default() -> (p: Pod)
        ensures
            p.position == (Point { x: 0i64, y: 0i64 }),
            p.velocity == (Point { x: 0i64, y: 0i64 }),
            !p.moving,
            p.angle == 0,
            p.speed == MAX_THRUST,
            p.boosts_used == 0,
            !p.boosting,
            p.distance_to_next == i64::MAX,
            p.ticks_to_skip == 0,
    {
        Pod {
            position: Point { x: 0, y: 0 },
            velocity: Point { x: 0, y: 0 },
            moving: false,
            angle: 0,
            speed: MAX_THRUST,
            boosts_used: 0,
            boosting: false,
            distance_to_next: i64::MAX,
            ticks_to_skip: 0,
        }
    }
}

/// Products of non-negative values bounded by `ba` and `bb` are bounded by
/// `ba * bb`.
proof fn lemma_mul_bound(a: int, b: int, ba: int, bb: int)
    requires
        0 <= a <= ba,
        0 <= b <= bb,
    ensures
        0 <= a * b <= ba * bb,
{
    assert(0 <= a * b <= ba * bb) by (nonlinear_arith)
        requires
            0 <= a <= ba,
            0 <= b <= bb,
    ;
}

/// The telemetry one turn writes into a pod before its thrust policy runs:
/// everything the outside world may change between two policy evaluations.
/// It never touches the boost bookkeeping.
#[derive(Clone, Copy, PartialEq, Eq, Structural, Debug)]
pub struct TurnInput {
    pub position: Point,
    pub velocity: Point,
    pub angle: i64,
    pub distance: i64,
    pub ticks: u8,
}

/// The pod with one turn's telemetry written in.
pub open spec fn with_inputs(p: Pod, t: TurnInput) -> Pod {
    Pod {
        position: t.position,
        velocity: t.velocity,
        angle: t.angle,
        distance_to_next: t.distance,
        ticks_to_skip: t.ticks,
        ..p
    }
}

/// The pod after a whole sequence of turns, each writing its telemetry and
/// then running the thrust policy.
pub open spec fn run_turns(p: Pod, inputs: Seq<TurnInput>) -> Pod
    decreases inputs.len(),
{
    if inputs.len() == 0 {
        p
    } else {
        run_spec(with_inputs(run_turns(p, inputs.drop_last()), inputs.last()))
    }
}

/// How many of the turns granted the boost.
pub open spec fn boost_grants(p: Pod, inputs: Seq<TurnInput>) -> nat
    decreases inputs.len(),
{
    if inputs.len() == 0 {
        0nat
    } else {
        boost_grants(p, inputs.drop_last()) + if run_turns(p, inputs).boosting {
            1nat
        } else {
            0nat
        }
    }
}

/// One policy evaluation consumes the boost only when it was still unused,
/// and never hands a consumed boost back.
proof fn lemma_run_spec_boost(p: Pod)
    ensures
        run_spec(p).boosts_used >= p.boosts_used,
        run_spec(p).boosting ==> p.boosts_used == 0 && run_spec(p).boosts_used == 1,
{
}

/// The boost count never decreases over a sequence of turns.
proof fn lemma_turns_monotone(p: Pod, inputs: Seq<TurnInput>)
    ensures
        run_turns(p, inputs).boosts_used >= p.boosts_used,
    decreases inputs.len(),
{
    if inputs.len() > 0 {
        lemma_turns_monotone(p, inputs.drop_last());
        lemma_run_spec_boost(with_inputs(run_turns(p, inputs.drop_last()), inputs.last()));
    }
}

/// Once some turn granted the boost, the count shows it.
proof fn lemma_grant_raises_count(p: Pod, inputs: Seq<TurnInput>)
    ensures
        boost_grants(p, inputs) >= 1 ==> run_turns(p, inputs).boosts_used >= 1,
    decreases inputs.len(),
{
    if inputs.len() > 0 {
        let rest = inputs.drop_last();
        lemma_grant_raises_count(p, rest);
        lemma_run_spec_boost(with_inputs(run_turns(p, rest), inputs.last()));
    }
}

/// Law: a pod whose boost is already spent is granted no boost on any later
/// turn, whatever telemetry the turns bring.
pub proof fn lemma_no_boost_after_use(p: Pod, inputs: Seq<TurnInput>)
    requires
        p.boosts_used >= 1,
    ensures
        boost_grants(p, inputs) == 0,
    decreases inputs.len(),
{
    if inputs.len() > 0 {
        let rest = inputs.drop_last();
        lemma_no_boost_after_use(p, rest);
        lemma_turns_monotone(p, rest);
        lemma_run_spec_boost(with_inputs(run_turns(p, rest), inputs.last()));
    }
}

/// Law: across an arbitrarily long sequence of turns, boost is granted at
/// most once — even if its preconditions hold on every turn.
pub proof fn lemma_boost_granted_at_most_once(p: Pod, inputs: Seq<TurnInput>)
    requires
        p.boosts_used == 0,
    ensures
        boost_grants(p, inputs) <= 1,
    decreases inputs.len(),
{
    if inputs.len() > 0 {
        let rest = inputs.drop_last();
        lemma_boost_granted_at_most_once(p, rest);
        if run_turns(p, inputs).boosting {
            lemma_run_spec_boost(with_inputs(run_turns(p, rest), inputs.last()));
            lemma_grant_raises_count(p, rest);
        }
    }
}

} // verus!
