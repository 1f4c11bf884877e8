//! The operator's target for the coil: its length, radius, inductance and
//! turn count, kept within the machine's limits.

use vstd::prelude::*;
use crate::{MAX_INDUCTANCE_UH, MAX_LENGTH_UM, MAX_RADIUS_UM};

verus! {

/// Largest turn count the operator can ask for.
pub const MAX_TURNS: u32 = 2_147_483_647;

/// One adjustable field of [`MachineParameters`].
#[derive(Debug, Clone, Copy, PartialEq, Eq, Structural)]
pub enum Field {
    Length,
    Radius,
    Inductance,
    Turns,
}

/// A request to move one field by a signed amount.
#[derive(Debug, Clone, Copy, PartialEq, Eq, Structural)]
pub struct ParamCommand {
    pub field: Field,
    pub delta: i64,
}

/// A change refused because the field would leave its bounds.
#[derive(Debug, Clone, Copy, PartialEq, Eq, Structural)]
pub enum ValidationError {
    OutOfRange(Field),
}

/// The physical target of a winding run.
#[derive(Debug, Clone, Copy, PartialEq, Eq, Structural)]
pub struct MachineParameters {
    /// Coil length, in micrometres.
    pub length_um: u32,
    /// Coil radius, in micrometres.
    pub radius_um: u32,
    /// Target inductance, in microhenries.
    pub inductance_uh: u32,
    /// Turn target; zero asks for one full layer over the coil length.
    pub num_turns: u32,
}

/// Whether `v` is an allowed value of field `f`.
pub open spec fn in_bounds(f: Field, v: int) -> bool {
    match f {
        Field::Length => 0 < v <= MAX_LENGTH_UM,
        Field::Radius => 0 < v <= MAX_RADIUS_UM,
        Field::Inductance => 0 <= v <= MAX_INDUCTANCE_UH,
        Field::Turns => 0 <= v <= MAX_TURNS,
    }
}

/// Whether `v` is an allowed value of field `f`.
pub fn field_in_bounds(f: Field, v: i128) -> (r: bool)
    ensures
        r == in_bounds(f, v as int),
{
    match f {
        Field::Length => 0 < v && v <= MAX_LENGTH_UM as i128,
        Field::Radius => 0 < v && v <= MAX_RADIUS_UM as i128,
        Field::Inductance => 0 <= v && v <= MAX_INDUCTANCE_UH as i128,
        Field::Turns => 0 <= v && v <= MAX_TURNS as i128,
    }
}

impl MachineParameters {
    /// The value of field `f`.
    pub open spec fn field_value(&self, f: Field) -> int {
        match f {
            Field::Length => self.length_um as int,
            Field::Radius => self.radius_um as int,
            Field::Inductance => self.inductance_uh as int,
            Field::Turns => self.num_turns as int,
        }
    }

    /// Every field within its bounds.
    pub open spec fn valid(&self) -> bool {
        &&& in_bounds(Field::Length, self.length_um as int)
        &&& in_bounds(Field::Radius, self.radius_um as int)
        &&& in_bounds(Field::Inductance, self.inductance_uh as int)
        &&& in_bounds(Field::Turns, self.num_turns as int)
    }

    /// These parameters with field `f` set to `v`.
    pub open spec fn with_field(&self, f: Field, v: int) -> MachineParameters {
        match f {
            Field::Length => MachineParameters { length_um: v as u32, ..*self },
            Field::Radius => MachineParameters { radius_um: v as u32, ..*self },
            Field::Inductance => MachineParameters { inductance_uh: v as u32, ..*self },
            Field::Turns => MachineParameters { num_turns: v as u32, ..*self },
        }
    }

    pub open spec fn new_spec() -> MachineParameters {
        MachineParameters { length_um: 50_000, radius_um: 5_000, inductance_uh: 40_000, num_turns: 0 }
    }

    /// The parameters at power-on: 5 cm long, 0.5 cm radius, 40 mH, and a
    /// turn target of one layer.
    pub fn new() -> (r: MachineParameters)
        ensures
            r.valid(),
            r == MachineParameters::new_spec(),
    {
        MachineParameters { length_um: 50_000, radius_um: 5_000, inductance_uh: 40_000, num_turns: 0 }
    }

    /// The value of field `f`.
    pub fn get(&self, f: Field) -> (r: u32)
        ensures
            r as int == self.field_value(f),
    {
        match f {
            Field::Length => self.length_um,
            Field::Radius => self.radius_um,
            Field::Inductance => self.inductance_uh,
            Field::Turns => self.num_turns,
        }
    }

    /// Moves one field by `cmd.delta`. Where the result would leave the
    /// field's bounds, nothing changes and the change is refused.
    pub fn apply(&mut self, cmd: ParamCommand) -> (r: Result<(), ValidationError>)
        requires
            old(self).valid(),
        ensures
            final(self).valid(),
            r is Ok <==> in_bounds(cmd.field, old(self).field_value(cmd.field) + cmd.delta),
            r is Ok ==> *final(self) == old(self).with_field(
                cmd.field,
                old(self).field_value(cmd.field) + cmd.delta,
            ),
            r is Err ==> *final(self) == *old(self),
            r is Err ==> r->Err_0 == ValidationError::OutOfRange(cmd.field),
    {
        let v: i128 = self.get(cmd.field) as i128 + cmd.delta as i128;
        if !field_in_bounds(cmd.field, v) {
            return Err(ValidationError::OutOfRange(cmd.field));
        }
        let nv = v as u32;
        match cmd.field {
            Field::Length => self.length_um = nv,
            Field::Radius => self.radius_um = nv,
            Field::Inductance => self.inductance_uh = nv,
            Field::Turns => self.num_turns = nv,
        }
        Ok(())
    }

    /// A consistent copy for readers.
    pub fn snapshot(&self) -> (r: MachineParameters)
        ensures
            r == *self,
    {
        *self
    }
}

} // verus!
