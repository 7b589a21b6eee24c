use physics_scene::light::{light_rotation, FULL_TURN, TILT};
use physics_scene::transform::EulerOrder;

#[test]
fn light_at_start() {
    let r = light_rotation(0);
    assert_eq!(r.order, EulerOrder::Zyx);
    assert_eq!(r.first, 0);
    assert_eq!(r.second, 0);
    assert_eq!(r.third, -45000);
    assert_eq!(TILT, -45000);
}

#[test]
fn light_quarter_turn_after_two_and_a_half_seconds() {
    assert_eq!(light_rotation(2500).second, 90000);
}

#[test]
fn light_turn_follows_phase_in_period() {
    assert_eq!(light_rotation(10000).second, 0);
    assert_eq!(light_rotation(12500).second, 90000);
    assert_eq!(light_rotation(9999).second, 359964);
    assert_eq!(light_rotation(u64::MAX).second, ((u64::MAX % 10000) as i64) * 36);
    assert!(light_rotation(9999).second < FULL_TURN);
}

#[test]
fn light_rotation_same_when_time_held() {
    assert_eq!(light_rotation(4321), light_rotation(4321));
    assert_eq!(light_rotation(4321).third, light_rotation(77).third);
}
