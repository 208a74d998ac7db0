use podracer::checkpoints::Checkpoints;
use podracer::engine::{normalize_angle_error, step_turn, Snapshot, State};
use podracer::pod::{Pod, Thrust};
use podracer::point::Point;

fn snapshot(pos: Point, next: Point, distance: i64, angle: i64) -> Snapshot {
    Snapshot { position: pos, next_checkpoint: next, distance_to_next: distance, angle_to_next: angle }
}

#[test]
fn first_turn_commits_a_target_at_full_thrust() {
    let mut map = Checkpoints::default();
    let mut state = State::ChangingTarget;
    let mut pod = Pod::default();
    let cp = Point::new(5000, 3000);
    let a = step_turn(&mut map, &mut state, &mut pod, snapshot(Point::new(0, 0), cp, 5830, 0));
    assert_eq!(a.thrust, Thrust::Value(100));
    assert_eq!(a.target, cp);
    assert_eq!(map.checkpoints, vec![cp]);
    assert!(matches!(state, State::Moving(t) if t.original == cp && t.tuned.is_none()));
}

#[test]
fn arrival_within_radius_releases_the_commitment() {
    let mut map = Checkpoints::default();
    let mut state = State::ChangingTarget;
    let mut pod = Pod::default();
    let cp = Point::new(550, 0);
    let snap = snapshot(Point::new(0, 0), cp, 550, 0);
    step_turn(&mut map, &mut state, &mut pod, snap);
    assert!(matches!(state, State::Moving(_)));
    // distance 550 is under the 600-unit radius: back to ChangingTarget,
    // while this turn still steers at the committed target
    let a = step_turn(&mut map, &mut state, &mut pod, snap);
    assert!(matches!(state, State::ChangingTarget));
    assert_eq!(a.target, cp);
}

#[test]
fn far_from_the_target_the_commitment_stands() {
    let mut map = Checkpoints::default();
    let mut state = State::ChangingTarget;
    let mut pod = Pod::default();
    let cp = Point::new(5000, 0);
    step_turn(&mut map, &mut state, &mut pod, snapshot(Point::new(0, 0), cp, 5000, 0));
    let a = step_turn(&mut map, &mut state, &mut pod, snapshot(Point::new(800, 0), cp, 4200, 0));
    assert!(matches!(state, State::Moving(_)));
    assert_eq!(a.target, cp);
    // distance 4200 exceeds the boost threshold with a zero heading error
    assert_eq!(a.thrust, Thrust::Boost);
}

#[test]
fn late_on_a_mapped_leg_the_pod_aims_at_the_next_checkpoint() {
    let mut map = Checkpoints::default();
    map.add(Point::new(0, 0));
    map.add(Point::new(9000, 0));
    map.add(Point::new(9000, 9000));
    map.add(Point::new(0, 0));
    assert!(map.all_mapped);
    let mut state = State::ChangingTarget;
    let mut pod = Pod::default();
    // commit to the checkpoint under the advanced cursor: (9000, 0), tuned
    let first = step_turn(
        &mut map,
        &mut state,
        &mut pod,
        snapshot(Point::new(2000, 0), Point::new(9000, 0), 7000, 0),
    );
    assert_eq!(first.target, map.tuned_checkpoints[1]);
    // close in with a small heading error: the aim point overrides to the
    // checkpoint after the cursor
    let a = step_turn(
        &mut map,
        &mut state,
        &mut pod,
        snapshot(Point::new(7200, 0), Point::new(9000, 0), 1800, 2),
    );
    assert_eq!(a.target, Point::new(9000, 9000));
}

#[test]
fn a_wide_heading_error_keeps_the_committed_aim_point() {
    let mut map = Checkpoints::default();
    map.add(Point::new(0, 0));
    map.add(Point::new(9000, 0));
    map.add(Point::new(0, 0));
    let mut state = State::ChangingTarget;
    let mut pod = Pod::default();
    step_turn(
        &mut map,
        &mut state,
        &mut pod,
        snapshot(Point::new(2000, 0), Point::new(9000, 0), 7000, 0),
    );
    let a = step_turn(
        &mut map,
        &mut state,
        &mut pod,
        snapshot(Point::new(7200, 0), Point::new(9000, 0), 1800, 40),
    );
    assert_eq!(a.target, map.tuned_checkpoints[1]);
}

#[test]
fn a_discovery_lap_records_each_sighting_once() {
    let mut map = Checkpoints::default();
    let mut state = State::ChangingTarget;
    let mut pod = Pod::default();
    let cps = [Point::new(1000, 1000), Point::new(8000, 1000), Point::new(4000, 6000)];
    for lap in 0..2 {
        for cp in cps {
            // between legs: the sighting is registered and committed
            step_turn(
                &mut map,
                &mut state,
                &mut pod,
                snapshot(Point::new(4000, 4000), cp, 4000, 10),
            );
            assert!(matches!(state, State::Moving(_)));
            // a turn near the checkpoint hands the leg back
            step_turn(&mut map, &mut state, &mut pod, snapshot(cp, cp, 0, 0));
            assert!(matches!(state, State::ChangingTarget));
        }
        if lap == 0 {
            assert!(!map.all_mapped || map.checkpoints.len() == 3);
        }
    }
    assert!(map.all_mapped);
    assert_eq!(map.checkpoints, cps.to_vec());
}

#[test]
fn heading_errors_normalize_to_a_magnitude_within_180() {
    assert_eq!(normalize_angle_error(0), 0);
    assert_eq!(normalize_angle_error(45), 45);
    assert_eq!(normalize_angle_error(-80), 80);
    assert_eq!(normalize_angle_error(180), 180);
    assert_eq!(normalize_angle_error(190), 170);
    assert_eq!(normalize_angle_error(-190), 170);
    assert_eq!(normalize_angle_error(360), 0);
    assert_eq!(normalize_angle_error(540), 180);
}
