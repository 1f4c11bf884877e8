use swinder::params::{Field, MachineParameters, ParamCommand, ValidationError};
use swinder::{MAX_INDUCTANCE_UH, MAX_LENGTH_UM, MAX_RADIUS_UM};

fn cmd(field: Field, delta: i64) -> ParamCommand {
    ParamCommand { field, delta }
}

#[test]
fn defaults_at_power_on() {
    let p = MachineParameters::new();
    assert_eq!(p.length_um, 50_000);
    assert_eq!(p.radius_um, 5_000);
    assert_eq!(p.inductance_uh, 40_000);
    assert_eq!(p.num_turns, 0);
}

#[test]
fn change_within_bounds_is_applied() {
    let mut p = MachineParameters::new();
    assert_eq!(p.apply(cmd(Field::Length, 1000)), Ok(()));
    assert_eq!(p.length_um, 51_000);
    assert_eq!(p.apply(cmd(Field::Turns, 400)), Ok(()));
    assert_eq!(p.num_turns, 400);
    assert_eq!(p.apply(cmd(Field::Radius, -4_999)), Ok(()));
    assert_eq!(p.radius_um, 1);
    assert_eq!(p.apply(cmd(Field::Inductance, -40_000)), Ok(()));
    assert_eq!(p.inductance_uh, 0);
}

#[test]
fn change_out_of_bounds_leaves_parameters_unchanged() {
    let mut p = MachineParameters::new();
    let before = p.snapshot();
    assert_eq!(p.apply(cmd(Field::Length, -50_000)), Err(ValidationError::OutOfRange(Field::Length)));
    assert_eq!(p, before);
    assert_eq!(
        p.apply(cmd(Field::Length, (MAX_LENGTH_UM - 50_000 + 1) as i64)),
        Err(ValidationError::OutOfRange(Field::Length))
    );
    assert_eq!(
        p.apply(cmd(Field::Radius, (MAX_RADIUS_UM) as i64)),
        Err(ValidationError::OutOfRange(Field::Radius))
    );
    assert_eq!(
        p.apply(cmd(Field::Inductance, (MAX_INDUCTANCE_UH) as i64)),
        Err(ValidationError::OutOfRange(Field::Inductance))
    );
    assert_eq!(p.apply(cmd(Field::Turns, -1)), Err(ValidationError::OutOfRange(Field::Turns)));
    assert_eq!(p.apply(cmd(Field::Turns, i64::MAX)), Err(ValidationError::OutOfRange(Field::Turns)));
    assert_eq!(p.apply(cmd(Field::Length, i64::MIN)), Err(ValidationError::OutOfRange(Field::Length)));
    assert_eq!(p, before);
}

#[test]
fn upper_bounds_are_inclusive() {
    let mut p = MachineParameters::new();
    assert_eq!(p.apply(cmd(Field::Length, (MAX_LENGTH_UM - 50_000) as i64)), Ok(()));
    assert_eq!(p.get(Field::Length), MAX_LENGTH_UM);
}
