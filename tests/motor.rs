use swinder::control::{command_for, Command, CommandResult, Machine};
use swinder::input::{Button, InputEvent};
use swinder::kinematics::KinematicConstants;
use swinder::motor::{
    Axis, Direction, EndReason, Sensors, SessionStatus, Sequencer, StartError, StepOutcome,
};
use swinder::motor::{pulse_plan, PulsePhase};
use swinder::params::{Field, MachineParameters, ParamCommand, ValidationError};
use swinder::MOTOR_DELAY_MS;

const QUIET: Sensors = Sensors { coil_fault: false, feed_fault: false, limit_start: false, limit_end: false };

fn kin() -> KinematicConstants {
    KinematicConstants::machine_default().unwrap()
}

fn started() -> Sequencer {
    let k = kin();
    let mut s = Sequencer::new(&k);
    assert_eq!(s.start(&MachineParameters::new(), &k), Ok(()));
    s
}

#[test]
fn feed_steps_follow_coil_steps() {
    let mut s = started();
    for n in 1..=100u64 {
        let o = s.tick(QUIET);
        assert_eq!(o, StepOutcome::Step { feed: n % 8 == 0, feed_direction: Direction::Forward });
        assert_eq!(s.session.coil_steps, n);
        assert_eq!(s.session.feed_steps, n / 8);
        assert_eq!(s.coil.position_steps, n as i64);
        assert_eq!(s.feed.position_steps, (n / 8) as i64);
    }
}

#[test]
fn default_target_is_one_layer() {
    let s = started();
    // 50 000 um of coil / 511 um of wire
    assert_eq!(s.session.target_turns, 97);
    assert_eq!(s.session.target_coil_steps, 97 * 200);
    assert_eq!(s.session.traverse_steps, 2500);
    assert_eq!(s.session.status, SessionStatus::Running);
}

#[test]
fn session_completes_at_target() {
    let k = kin();
    let mut s = Sequencer::new(&k);
    let mut p = MachineParameters::new();
    p.apply(ParamCommand { field: Field::Turns, delta: 1 }).unwrap();
    s.start(&p, &k).unwrap();
    let xs = vec![QUIET; 201];
    let out = s.run_cycles(&xs);
    assert_eq!(out[199], StepOutcome::Step { feed: true, feed_direction: Direction::Forward });
    assert_eq!(out[200], StepOutcome::Halted(EndReason::TargetReached));
    assert_eq!(s.session.coil_steps, 200);
    assert_eq!(s.session.feed_steps, 25);
    assert!(!s.coil.enabled && !s.feed.enabled);
    assert_eq!(s.tick(QUIET), StepOutcome::Idle);
}

#[test]
fn feed_reverses_at_end_of_layer() {
    let k = KinematicConstants::derive(511, 200, 8000).unwrap();
    let mut s = Sequencer::new(&k);
    let mut p = MachineParameters::new();
    // 60 um of coil: 3 feed steps of 20 um
    p.apply(ParamCommand { field: Field::Length, delta: 60 - 50_000 }).unwrap();
    p.apply(ParamCommand { field: Field::Turns, delta: 10 }).unwrap();
    s.start(&p, &k).unwrap();
    assert_eq!(s.session.traverse_steps, 3);
    let mut positions = Vec::new();
    for _ in 0..(8 * 8) {
        if let StepOutcome::Step { feed: true, .. } = s.tick(QUIET) {
            positions.push(s.feed.position_steps);
        }
    }
    assert_eq!(positions, vec![1, 2, 3, 2, 1, 0, 1, 2]);
}

#[test]
fn motor_fault_halts_both_axes() {
    let mut s = started();
    for _ in 0..10 {
        s.tick(QUIET);
    }
    let coil = s.coil.position_steps;
    let feed = s.feed.position_steps;
    let o = s.tick(Sensors { feed_fault: true, ..QUIET });
    assert_eq!(o, StepOutcome::Halted(EndReason::MotorFault(Axis::Feed)));
    assert!(s.feed.fault && !s.coil.fault);
    assert!(!s.coil.enabled && !s.feed.enabled);
    for _ in 0..10 {
        assert_eq!(s.tick(QUIET), StepOutcome::Idle);
    }
    assert_eq!(s.coil.position_steps, coil);
    assert_eq!(s.feed.position_steps, feed);
    let k = kin();
    assert_eq!(s.start(&MachineParameters::new(), &k), Err(StartError::AxisFaulted));
    s.reset();
    assert_eq!(s.start(&MachineParameters::new(), &k), Ok(()));
}

#[test]
fn coil_fault_names_the_coil_axis() {
    let mut s = started();
    let o = s.tick(Sensors { coil_fault: true, feed_fault: true, ..QUIET });
    assert_eq!(o, StepOutcome::Halted(EndReason::MotorFault(Axis::Coil)));
    assert!(s.coil.fault && s.feed.fault);
}

#[test]
fn end_limit_stops_session_and_feed() {
    let k = kin();
    let mut m = Machine::new(k);
    assert_eq!(m.params.length_um, 50_000);
    assert_eq!(m.params.radius_um, 5_000);
    assert_eq!(m.handle(Command::StartStop), CommandResult::Started);
    for _ in 0..50 {
        m.motors.tick(QUIET);
    }
    assert!(m.motors.session.coil_steps < m.motors.session.target_coil_steps);
    let feed = m.motors.feed.position_steps;
    let o = m.motors.tick(Sensors { limit_end: true, ..QUIET });
    assert_eq!(o, StepOutcome::Halted(EndReason::LimitTripped));
    assert_eq!(m.motors.session.status, SessionStatus::Completed(EndReason::LimitTripped));
    for _ in 0..20 {
        assert_eq!(m.motors.tick(QUIET), StepOutcome::Idle);
    }
    assert_eq!(m.motors.feed.position_steps, feed);
}

#[test]
fn stop_takes_effect_between_pulses() {
    let mut s = started();
    s.tick(QUIET);
    s.request_stop();
    assert!(s.is_running());
    assert_eq!(s.tick(QUIET), StepOutcome::Halted(EndReason::Stopped));
    assert_eq!(s.session.coil_steps, 1);
}

#[test]
fn second_start_is_refused_while_running() {
    let k = kin();
    let mut s = started();
    assert_eq!(s.start(&MachineParameters::new(), &k), Err(StartError::AlreadyRunning));
}

#[test]
fn events_become_commands() {
    assert_eq!(
        command_for(InputEvent::ButtonPressed(Button::Up), Field::Length),
        Some(Command::Adjust(ParamCommand { field: Field::Length, delta: 1000 }))
    );
    assert_eq!(
        command_for(InputEvent::ButtonPressed(Button::Down), Field::Radius),
        Some(Command::Adjust(ParamCommand { field: Field::Radius, delta: -100 }))
    );
    assert_eq!(
        command_for(InputEvent::EncoderDelta(-3), Field::Turns),
        Some(Command::Adjust(ParamCommand { field: Field::Turns, delta: -3 }))
    );
    assert_eq!(
        command_for(InputEvent::ButtonPressed(Button::Right), Field::Turns),
        Some(Command::SelectField(Field::Length))
    );
    assert_eq!(
        command_for(InputEvent::ButtonPressed(Button::Left), Field::Length),
        Some(Command::SelectField(Field::Turns))
    );
    assert_eq!(command_for(InputEvent::ButtonPressed(Button::Select), Field::Length), Some(Command::StartStop));
    assert_eq!(command_for(InputEvent::ButtonReleased(Button::Up), Field::Length), None);
    assert_eq!(command_for(InputEvent::EncoderDelta(0), Field::Length), None);
}

#[test]
fn machine_commands() {
    let mut m = Machine::new(kin());
    assert_eq!(m.handle(Command::SelectField(Field::Radius)), CommandResult::Selected);
    assert_eq!(m.selected, Field::Radius);
    assert_eq!(
        m.handle(Command::Adjust(ParamCommand { field: Field::Radius, delta: -5_000 })),
        CommandResult::Rejected(ValidationError::OutOfRange(Field::Radius))
    );
    assert_eq!(m.params.radius_um, 5_000);
    assert_eq!(m.handle(Command::StartStop), CommandResult::Started);
    assert_eq!(m.handle(Command::StartStop), CommandResult::StopRequested);
    assert_eq!(m.motors.tick(QUIET), StepOutcome::Halted(EndReason::Stopped));
    assert_eq!(m.handle(Command::StartStop), CommandResult::Started);
    m.motors.tick(Sensors { coil_fault: true, ..QUIET });
    assert_eq!(m.handle(Command::StartStop), CommandResult::FaultsCleared);
    assert!(!m.motors.is_running());
    assert_eq!(m.handle(Command::StartStop), CommandResult::Started);
}

#[test]
fn pulse_plan_phases() {
    let o = StepOutcome::Step { feed: true, feed_direction: Direction::Reverse };
    assert_eq!(
        pulse_plan(o, MOTOR_DELAY_MS),
        vec![
            PulsePhase::SetFeedDirection(Direction::Reverse),
            PulsePhase::Raise { coil: true, feed: true },
            PulsePhase::Wait(1),
            PulsePhase::Lower { coil: true, feed: true },
            PulsePhase::Wait(1),
        ]
    );
    assert_eq!(pulse_plan(StepOutcome::Halted(EndReason::Stopped), 1), vec![PulsePhase::DisableBoth]);
    assert!(pulse_plan(StepOutcome::Idle, 1).is_empty());
}
