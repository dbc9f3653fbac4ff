use osc_bridge::side::Side;
use osc_bridge::sync::Sync;
use osc_bridge::value::Transform;

#[test]
fn flip_twice_gives_the_side_back() {
    assert_eq!(Side::Left.flip(), Side::Right);
    assert_eq!(Side::Right.flip(), Side::Left);
    assert_eq!(Side::Left.flip().flip(), Side::Left);
    assert_eq!(Side::Right.flip().flip(), Side::Right);
}

#[test]
fn fresh_sync_is_unsynchronized_and_quiet() {
    let mut s = Sync::new("x01".to_string());
    assert_eq!(s.name(), "x01");
    assert_eq!(s.current_master(), None);
    assert_eq!(s.left_value(), 0);
    assert_eq!(s.right_value(), 0);
    assert_eq!(s.flush(0), None);
    assert_eq!(s.flush(100), None);
}

#[test]
fn update_within_noise_is_ignored() {
    let mut s = Sync::new("x".to_string());
    assert!(s.update(Side::Left, 5_000_000, 0));
    // exactly EPS away: not recorded
    assert!(!s.update(Side::Left, 5_010_000, 10));
    assert_eq!(s.left_value(), 5_000_000);
    assert!(!s.update(Side::Left, 4_990_000, 20));
    assert_eq!(s.left_value(), 5_000_000);
    // one step beyond EPS: recorded
    assert!(s.update(Side::Left, 5_010_001, 30));
    assert_eq!(s.left_value(), 5_010_001);
}

#[test]
fn suppressed_update_keeps_timestamp() {
    let mut s = Sync::new("x".to_string());
    assert!(s.update(Side::Left, 5_000_000, 0));
    assert_eq!(s.flush(0), Some((5_000_000, Side::Right)));
    // a report within noise at t=200 does not refresh the master
    assert!(!s.update(Side::Left, 5_005_000, 200));
    assert_eq!(s.flush(300), None);
    assert_eq!(s.current_master(), None);
}

#[test]
fn new_update_elects_master_and_pushes() {
    let mut s = Sync::new("x".to_string());
    s.update(Side::Left, 5_000_000, 0);
    assert!(!s.will_force());
    assert_eq!(s.flush(0), Some((5_000_000, Side::Right)));
    assert_eq!(s.current_master(), Some(Side::Left));
    // nothing new: nothing pushed
    assert_eq!(s.flush(100), None);
    assert_eq!(s.current_master(), Some(Side::Left));
}

#[test]
fn master_holds_against_the_other_side() {
    let mut s = Sync::new("x".to_string());
    s.update(Side::Left, 5_000_000, 0);
    assert_eq!(s.flush(0), Some((5_000_000, Side::Right)));
    assert_eq!(s.current_master(), Some(Side::Left));
    s.update(Side::Right, 5_000_000, 50);
    assert_eq!(s.flush(100), None);
    assert_eq!(s.current_master(), Some(Side::Left));
    // even a different value from the right does not take over
    s.update(Side::Right, 7_000_000, 150);
    assert_eq!(s.flush(200), None);
    assert_eq!(s.current_master(), Some(Side::Left));
}

#[test]
fn master_pushes_its_new_values() {
    let mut s = Sync::new("x".to_string());
    s.update(Side::Left, 1_000_000, 0);
    assert_eq!(s.flush(0), Some((1_000_000, Side::Right)));
    s.update(Side::Left, 2_000_000, 50);
    assert_eq!(s.flush(100), Some((2_000_000, Side::Right)));
}

#[test]
fn silent_master_loses_authority() {
    let mut s = Sync::new("x".to_string());
    s.update(Side::Left, 5_000_000, 0);
    assert_eq!(s.flush(0), Some((5_000_000, Side::Right)));
    // exactly 250 ms later the master still holds
    assert_eq!(s.flush(250), None);
    assert_eq!(s.current_master(), Some(Side::Left));
    // more than 250 ms: reset
    assert_eq!(s.flush(251), None);
    assert_eq!(s.current_master(), None);
}

#[test]
fn tie_goes_to_the_right_side() {
    let mut s = Sync::new("x".to_string());
    s.update(Side::Left, 1_000_000, 10);
    s.update(Side::Right, 3_000_000, 10);
    assert_eq!(s.flush(10), Some((3_000_000, Side::Left)));
    assert_eq!(s.current_master(), Some(Side::Right));
}

#[test]
fn later_side_wins_when_unsynchronized() {
    let mut s = Sync::new("x".to_string());
    s.update(Side::Right, 3_000_000, 10);
    s.update(Side::Left, 1_000_000, 20);
    assert_eq!(s.flush(30), Some((1_000_000, Side::Right)));
    assert_eq!(s.current_master(), Some(Side::Left));
}

#[test]
fn force_sync_pushes_default_master_once() {
    let mut s = Sync::new("x".to_string());
    s.update(Side::Right, 2_000_000, 0);
    assert_eq!(s.flush(0), Some((2_000_000, Side::Left)));
    // the right side goes silent: authority lapses
    assert_eq!(s.flush(300), None);
    assert_eq!(s.current_master(), None);
    assert_eq!(s.left_value(), 0);
    assert_eq!(s.right_value(), 2_000_000);
    // the sides disagree by 2.0 > 1.0 with nothing new: forced from the right
    assert!(s.will_force());
    let copy = s.clone();
    assert_eq!(copy.right_value(), 2_000_000);
    assert_eq!(s.flush(400), Some((2_000_000, Side::Left)));
    assert_eq!(s.current_master(), Some(Side::Right));
    assert_eq!(s.flush(500), None);
}

#[test]
fn force_sync_needs_more_than_tolerance() {
    let mut s = Sync::new("x".to_string());
    s.update(Side::Right, 1_000_000, 0);
    assert_eq!(s.flush(0), Some((1_000_000, Side::Left)));
    assert_eq!(s.flush(300), None);
    // disagreement of exactly 1.0: no force
    assert!(!s.will_force());
    assert_eq!(s.flush(400), None);
    assert_eq!(s.current_master(), None);
}

#[test]
fn echo_of_a_push_is_not_pushed_back() {
    let mut s = Sync::new("x".to_string());
    s.update(Side::Left, 300_000, 0);
    assert_eq!(s.flush(0), Some((300_000, Side::Right)));
    // the right device reports the pushed value back
    assert!(s.update(Side::Right, 300_000, 40));
    assert_eq!(s.flush(100), None);
    assert_eq!(s.flush(200), None);
    assert_eq!(s.current_master(), Some(Side::Left));
}

#[test]
fn transforms_apply_to_pushes() {
    let mut s = Sync::with_transform(
        "g01".to_string(),
        Transform::GainDs100ToWing,
        Transform::GainWingToDs100,
    );
    s.update(Side::Left, 24_000_000, 0);
    assert_eq!(s.flush(0), Some((10_000_000, Side::Right)));
    s.update(Side::Right, -14_400_000, 300);
    s.update(Side::Left, 24_000_000, 300);
    // the left report is within noise, so the left master has gone silent
    assert_eq!(s.flush(301), None);
    assert_eq!(s.current_master(), None);
    assert_eq!(s.flush(400), Some((-12_000_000, Side::Left)));
}

#[test]
fn force_sync_repeats_while_the_sides_disagree() {
    let mut s = Sync::new("x".to_string());
    s.update(Side::Right, 2_000_000, 0);
    assert_eq!(s.flush(0), Some((2_000_000, Side::Left)));
    assert_eq!(s.flush(300), None);
    assert_eq!(s.flush(400), Some((2_000_000, Side::Left)));
    assert_eq!(s.flush(500), None);
    assert_eq!(s.current_master(), None);
    // the left device never took the value: the push comes again
    assert_eq!(s.flush(600), Some((2_000_000, Side::Left)));
    // once the left device reports it, the sides agree and stay quiet
    assert!(s.update(Side::Left, 2_000_000, 650));
    assert_eq!(s.flush(700), None);
    assert_eq!(s.current_master(), None);
    assert_eq!(s.flush(800), None);
    assert_eq!(s.flush(900), None);
}
