//! Coordination core of a coil-winding machine: kinematic constants, machine
//! parameters, operator input decoding, two-axis step sequencing, a
//! priority-ceiling task scheduler and the status display text.
//!
//! Physical quantities are held as integers in fixed units: lengths in
//! micrometres, inductance in microhenries.

use vstd::prelude::*;

pub mod kinematics;
pub mod params;
pub mod motor;
pub mod debounce;
pub mod input;
pub mod queue;
pub mod control;
pub mod sched;
pub mod display;

verus! {

/// Largest coil length, in micrometres (20 cm).
pub const MAX_LENGTH_UM: u32 = 200_000;

/// Largest coil radius, in micrometres (5 cm).
pub const MAX_RADIUS_UM: u32 = 50_000;

/// Largest inductance, in microhenries (10 H).
pub const MAX_INDUCTANCE_UH: u32 = 10_000_000;

/// Wire diameter, in micrometres (0.0511 cm).
pub const WIRE_DIAMETER_UM: u32 = 511;

/// Motor steps in one full rotation.
pub const FULL_ROTATION: u16 = 200;

/// Feed travel for one full rotation of the feed motor, in micrometres (0.8 cm).
pub const FEED_PER_FULL_ROTATION_UM: u32 = 8_000;

/// Debounce settle time of a button, in milliseconds.
pub const BUTTON_DELAY_MS: u32 = 200;

/// Minimum width of each half of a step pulse, in milliseconds.
pub const MOTOR_DELAY_MS: u32 = 1;

} // verus!
