use swinder::kinematics::{ConfigurationError, KinematicConstants};
use swinder::{FEED_PER_FULL_ROTATION_UM, FULL_ROTATION, WIRE_DIAMETER_UM};

#[test]
fn documented_constants_give_ratio_eight() {
    let k = KinematicConstants::derive(WIRE_DIAMETER_UM, FULL_ROTATION, FEED_PER_FULL_ROTATION_UM)
        .unwrap();
    assert_eq!(k.coil_steps_per_feed_step, 8);
    assert_eq!(k.feed_per_step_nm, 20_000);
    assert_eq!(KinematicConstants::machine_default(), Ok(k));
}

#[test]
fn derivation_is_repeatable() {
    let a = KinematicConstants::derive(511, 200, 8000);
    let b = KinematicConstants::derive(511, 200, 8000);
    assert_eq!(a, b);
}

#[test]
fn ratio_rounds_to_nearest() {
    // 8000 / (2 * 400) = 10 exactly
    assert_eq!(KinematicConstants::derive(400, 200, 8000).unwrap().coil_steps_per_feed_step, 10);
    // 8000 / (2 * 1000) = 4
    assert_eq!(KinematicConstants::derive(1000, 400, 8000).unwrap().coil_steps_per_feed_step, 4);
    // 8000 / (2 * 5000) = 0.8 rounds up to 1
    assert_eq!(KinematicConstants::derive(5000, 200, 8000).unwrap().coil_steps_per_feed_step, 1);
}

#[test]
fn thick_wire_is_a_configuration_error() {
    assert_eq!(KinematicConstants::derive(20_000, 200, 8000), Err(ConfigurationError::RatioZero));
    // just below half a step rounds to zero
    assert_eq!(KinematicConstants::derive(8001, 200, 8000), Err(ConfigurationError::RatioZero));
    assert!(KinematicConstants::derive(8000, 200, 8000).is_ok());
}

#[test]
fn zero_constants_are_refused() {
    assert_eq!(KinematicConstants::derive(0, 200, 8000), Err(ConfigurationError::ZeroConstant));
    assert_eq!(KinematicConstants::derive(511, 0, 8000), Err(ConfigurationError::ZeroConstant));
    assert_eq!(KinematicConstants::derive(511, 200, 0), Err(ConfigurationError::ZeroConstant));
}

#[test]
fn large_constants_do_not_overflow() {
    let k = KinematicConstants::derive(1, u16::MAX, u32::MAX).unwrap();
    assert_eq!(k.coil_steps_per_feed_step, 2_147_483_648);
}
