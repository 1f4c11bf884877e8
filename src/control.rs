//! Operator commands and their effect on the machine state shared between
//! the input task and the winding task.

use vstd::prelude::*;
use crate::input::{Button, InputEvent};
use crate::kinematics::KinematicConstants;
use crate::motor::{Sequencer, StartError};
use crate::params::{Field, MachineParameters, ParamCommand, ValidationError};

verus! {

#[derive(Debug, Clone, Copy, PartialEq, Eq, Structural)]
pub enum Command {
    /// Move a parameter.
    Adjust(ParamCommand),
    /// Choose the parameter that the up/down buttons and the encoder move.
    SelectField(Field),
    /// Start a session, stop the running one, or, after a driver fault,
    /// reset the axes.
    StartStop,
}

/// The amount one press or one encoder step moves field `f`: 1 mm of
/// length, 0.1 mm of radius, 1 mH, or one turn.
pub open spec fn field_step_spec(f: Field) -> int {
    match f {
        Field::Length => 1000,
        Field::Radius => 100,
        Field::Inductance => 1000,
        Field::Turns => 1,
    }
}

pub open spec fn next_field(f: Field) -> Field {
    match f {
        Field::Length => Field::Radius,
        Field::Radius => Field::Inductance,
        Field::Inductance => Field::Turns,
        Field::Turns => Field::Length,
    }
}

pub open spec fn prev_field(f: Field) -> Field {
    match f {
        Field::Length => Field::Turns,
        Field::Radius => Field::Length,
        Field::Inductance => Field::Radius,
        Field::Turns => Field::Inductance,
    }
}

/// The command an event asks for while `selected` is the chosen field.
pub open spec fn command_spec(e: InputEvent, selected: Field) -> Option<Command> {
    match e {
        InputEvent::ButtonPressed(Button::Up) => Some(
            Command::Adjust(ParamCommand { field: selected, delta: field_step_spec(selected) as i64 }),
        ),
        InputEvent::ButtonPressed(Button::Down) => Some(
            Command::Adjust(
                ParamCommand { field: selected, delta: (-field_step_spec(selected)) as i64 },
            ),
        ),
        InputEvent::ButtonPressed(Button::Left) => Some(Command::SelectField(prev_field(selected))),
        InputEvent::ButtonPressed(Button::Right) => Some(Command::SelectField(next_field(selected))),
        InputEvent::ButtonPressed(Button::Select) => Some(Command::StartStop),
        InputEvent::ButtonReleased(_) => None,
        InputEvent::EncoderDelta(d) => if d == 0 {
            None
        } else {
            Some(
                Command::Adjust(
                    ParamCommand { field: selected, delta: (d * field_step_spec(selected)) as i64 },
                ),
            )
        },
    }
}

pub fn field_step(f: Field) -> (r: i64)
    ensures
        r == field_step_spec(f),
{
    match f {
        Field::Length => 1000,
        Field::Radius => 100,
        Field::Inductance => 1000,
        Field::Turns => 1,
    }
}

/// The command an event asks for while `selected` is the chosen field.
pub fn command_for(e: InputEvent, selected: Field) -> (r: Option<Command>)
    ensures
        r == command_spec(e, selected),
{
    match e {
        InputEvent::ButtonPressed(b) => match b {
            Button::Up => Some(
                Command::Adjust(ParamCommand { field: selected, delta: field_step(selected) }),
            ),
            Button::Down => Some(
                Command::Adjust(ParamCommand { field: selected, delta: -field_step(selected) }),
            ),
            Button::Left => Some(
                Command::SelectField(
                    match selected {
                        Field::Length => Field::Turns,
                        Field::Radius => Field::Length,
                        Field::Inductance => Field::Radius,
                        Field::Turns => Field::Inductance,
                    },
                ),
            ),
            Button::Right => Some(
                Command::SelectField(
                    match selected {
                        Field::Length => Field::Radius,
                        Field::Radius => Field::Inductance,
                        Field::Inductance => Field::Turns,
                        Field::Turns => Field::Length,
                    },
                ),
            ),
            Button::Select => Some(Command::StartStop),
        },
        InputEvent::ButtonReleased(_) => None,
        InputEvent::EncoderDelta(d) => if d == 0 {
            None
        } else {
            let s = field_step(selected);
            assert(-0x8000_0000 * 1000 <= d * s <= 0x7fff_ffff * 1000) by (nonlinear_arith)
                requires
                    -0x8000_0000 <= d <= 0x7fff_ffff,
                    1 <= s <= 1000,
            ;
            Some(Command::Adjust(ParamCommand { field: selected, delta: d as i64 * s }))
        },
    }
}

/// What a command did.
#[derive(Debug, Clone, Copy, PartialEq, Eq, Structural)]
pub enum CommandResult {
    Adjusted,
    Rejected(ValidationError),
    Selected,
    Started,
    StartRefused(StartError),
    StopRequested,
    FaultsCleared,
}

/// The state shared by the tasks: the operator's parameters, the chosen
/// field, and both motor axes with the winding session.
pub struct Machine {
    pub kinematics: KinematicConstants,
    pub params: MachineParameters,
    pub selected: Field,
    pub motors: Sequencer,
}

impl Machine {
    pub open spec fn wf(&self) -> bool {
        self.kinematics.wf() && self.params.valid() && self.motors.wf()
    }

    /// The machine at power-on.
    pub fn new(k: KinematicConstants) -> (r: Machine)
        requires
            k.wf(),
        ensures
            r.wf(),
            r.kinematics == k,
            r.params == MachineParameters::new_spec(),
            r.selected == Field::Length,
            !r.motors.running(),
    {
        Machine {
            kinematics: k,
            params: MachineParameters::new(),
            selected: Field::Length,
            motors: Sequencer::new(&k),
        }
    }

    /// Carries out one command.
    pub fn handle(&mut self, c: Command) -> (r: CommandResult)
        requires
            old(self).wf(),
        ensures
            final(self).wf(),
            final(self).kinematics == old(self).kinematics,
            match c {
                Command::Adjust(pc) => {
                    &&& final(self).motors == old(self).motors
                    &&& final(self).selected == old(self).selected
                    &&& if crate::params::in_bounds(
                        pc.field,
                        old(self).params.field_value(pc.field) + pc.delta,
                    ) {
                        &&& r == CommandResult::Adjusted
                        &&& final(self).params == old(self).params.with_field(
                            pc.field,
                            old(self).params.field_value(pc.field) + pc.delta,
                        )
                    } else {
                        &&& r == CommandResult::Rejected(ValidationError::OutOfRange(pc.field))
                        &&& final(self).params == old(self).params
                    }
                },
                Command::SelectField(f) => {
                    &&& r == CommandResult::Selected
                    &&& final(self).selected == f
                    &&& final(self).params == old(self).params
                    &&& final(self).motors == old(self).motors
                },
                Command::StartStop => {
                    &&& final(self).params == old(self).params
                    &&& final(self).selected == old(self).selected
                    &&& if old(self).motors.running() {
                        &&& r == CommandResult::StopRequested
                        &&& final(self).motors == (Sequencer {
                            session: crate::motor::WindingSession {
                                stop_requested: true,
                                ..old(self).motors.session
                            },
                            ..old(self).motors
                        })
                    } else if old(self).motors.coil.fault || old(self).motors.feed.fault {
                        &&& r == CommandResult::FaultsCleared
                        &&& final(self).motors == (Sequencer {
                            coil: crate::motor::MotorAxisState {
                                fault: false,
                                ..old(self).motors.coil
                            },
                            feed: crate::motor::MotorAxisState {
                                fault: false,
                                ..old(self).motors.feed
                            },
                            ..old(self).motors
                        })
                    } else {
                        &&& r == CommandResult::Started
                        &&& final(self).motors == old(self).motors.started(
                            old(self).params,
                            old(self).kinematics,
                        )->Ok_0
                    }
                },
            },
    {
        match c {
            Command::Adjust(pc) => match self.params.apply(pc) {
                Ok(()) => CommandResult::Adjusted,
                Err(e) => CommandResult::Rejected(e),
            },
            Command::SelectField(f) => {
                self.selected = f;
                CommandResult::Selected
            },
            Command::StartStop => {
                if self.motors.is_running() {
                    self.motors.request_stop();
                    CommandResult::StopRequested
                } else if self.motors.coil.fault || self.motors.feed.fault {
                    self.motors.reset();
                    CommandResult::FaultsCleared
                } else {
                    let p = self.params.snapshot();
                    match self.motors.start(&p, &self.kinematics) {
                        Ok(()) => CommandResult::Started,
                        Err(e) => CommandResult::StartRefused(e),
                    }
                }
            },
        }
    }
}

} // verus!
