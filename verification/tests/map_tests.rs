use podracer::checkpoints::Checkpoints;
use podracer::point::Point;

fn observe(map: &mut Checkpoints, x: i64, y: i64) {
    map.add(Point::new(x, y));
}

#[test]
fn records_distinct_points_in_first_sighting_order() {
    let mut m = Checkpoints::default();
    observe(&mut m, 10, 20);
    observe(&mut m, 30, 40);
    observe(&mut m, 50, 60);
    observe(&mut m, 70, 80);
    assert_eq!(
        m.checkpoints,
        vec![
            Point::new(10, 20),
            Point::new(30, 40),
            Point::new(50, 60),
            Point::new(70, 80),
        ]
    );
    assert!(!m.all_mapped);
    assert!(m.tuned_checkpoints.is_empty());
}

#[test]
fn completes_exactly_on_first_repeat() {
    let mut m = Checkpoints::default();
    observe(&mut m, 10, 20);
    observe(&mut m, 30, 40);
    assert!(!m.all_mapped);
    observe(&mut m, 30, 40);
    assert!(m.all_mapped);
    assert_eq!(m.checkpoints, vec![Point::new(10, 20), Point::new(30, 40)]);
    assert_eq!(m.tuned_checkpoints.len(), 2);
}

#[test]
fn lap_scenario_three_checkpoints_and_wrapping_cursor() {
    let mut m = Checkpoints::default();
    observe(&mut m, 0, 0);
    observe(&mut m, 1000, 0);
    observe(&mut m, 1000, 1000);
    observe(&mut m, 0, 0);
    assert_eq!(
        m.checkpoints,
        vec![Point::new(0, 0), Point::new(1000, 0), Point::new(1000, 1000)]
    );
    assert!(m.all_mapped);
    assert_eq!(m.current_checkpoint, 0);
    m.next();
    assert_eq!(m.current_checkpoint, 1);
    m.next();
    assert_eq!(m.current_checkpoint, 2);
    m.next();
    assert_eq!(m.current_checkpoint, 0);
}

#[test]
fn advancing_once_per_checkpoint_returns_the_cursor() {
    let mut m = Checkpoints::default();
    observe(&mut m, 0, 0);
    observe(&mut m, 100, 0);
    observe(&mut m, 200, 0);
    observe(&mut m, 300, 0);
    m.next();
    m.next();
    let start = m.current_checkpoint;
    for _ in 0..4 {
        m.next();
    }
    assert_eq!(m.current_checkpoint, start);
}

#[test]
fn advance_on_empty_map_stays_at_zero() {
    let mut m = Checkpoints::default();
    m.next();
    assert_eq!(m.current_checkpoint, 0);
}

#[test]
fn tuning_pulls_aim_points_opposite_the_axis_direction() {
    let mut m = Checkpoints::default();
    observe(&mut m, 0, 0);
    observe(&mut m, 1000, 0);
    observe(&mut m, 0, 0);
    assert!(m.all_mapped);
    // successor of (0,0) lies to the right: pull the aim point left
    assert_eq!(m.tuned_checkpoints[0], Point::new(-500, 0));
    // successor of (1000,0) lies to the left: pull the aim point right
    assert_eq!(m.tuned_checkpoints[1], Point::new(1500, 0));
}

#[test]
fn tuning_pulls_aim_points_opposite_a_diagonal() {
    let mut m = Checkpoints::default();
    observe(&mut m, 0, 0);
    observe(&mut m, 1000, 1000);
    observe(&mut m, 0, 0);
    assert_eq!(m.tuned_checkpoints[0], Point::new(-350, -350));
    assert_eq!(m.tuned_checkpoints[1], Point::new(1350, 1350));
}

#[test]
fn tuning_within_the_deadband_leaves_the_aim_point() {
    let mut m = Checkpoints::default();
    observe(&mut m, 0, 0);
    observe(&mut m, 5, -5);
    observe(&mut m, 0, 0);
    assert_eq!(m.tuned_checkpoints[0], Point::new(0, 0));
    assert_eq!(m.tuned_checkpoints[1], Point::new(5, -5));
}

#[test]
fn tuning_fewer_than_two_checkpoints_is_a_no_op() {
    let mut m = Checkpoints::default();
    m.tune_checkpoints();
    assert!(m.tuned_checkpoints.is_empty());
    observe(&mut m, 123, 456);
    m.tune_checkpoints();
    assert_eq!(m.tuned_checkpoints, vec![Point::new(123, 456)]);
}

#[test]
fn retuning_an_unchanged_set_yields_the_same_offsets() {
    let mut m = Checkpoints::default();
    observe(&mut m, 0, 0);
    observe(&mut m, 1000, 0);
    observe(&mut m, 1000, 1000);
    observe(&mut m, 0, 0);
    let first = m.tuned_checkpoints.clone();
    m.tune_checkpoints();
    assert_eq!(m.tuned_checkpoints, first);
}

#[test]
fn get_returns_the_checkpoint_under_the_cursor() {
    let mut m = Checkpoints::default();
    observe(&mut m, 10, 10);
    observe(&mut m, 20, 20);
    let t = m.get();
    assert_eq!(t.original, Point::new(10, 10));
    assert_eq!(t.tuned, None);
    observe(&mut m, 10, 10);
    let t = m.get();
    assert_eq!(t.original, Point::new(10, 10));
    assert_eq!(t.tuned, Some(m.tuned_checkpoints[0]));
}

#[test]
fn get_next_peeks_one_step_ahead_and_wraps() {
    let mut m = Checkpoints::default();
    observe(&mut m, 10, 10);
    observe(&mut m, 20, 20);
    observe(&mut m, 30, 30);
    assert_eq!(m.get_next(), Point::new(20, 20));
    m.next();
    m.next();
    assert_eq!(m.current_checkpoint, 2);
    assert_eq!(m.get_next(), Point::new(10, 10));
}

#[test]
fn seen_checkpoint_is_found_by_exact_value() {
    let mut m = Checkpoints::default();
    observe(&mut m, 10, 10);
    assert!(m.have_we_seen_checkpoint(&Point::new(10, 10)));
    assert!(!m.have_we_seen_checkpoint(&Point::new(10, 11)));
}
