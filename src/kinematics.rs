//! Kinematic constants derived from the wire gauge and the motor resolution.

use vstd::prelude::*;

verus! {

/// `a / b` rounded to the nearest integer, halves away from zero.
pub open spec fn round_div(a: nat, b: nat) -> nat
    recommends
        b > 0,
{
    (2 * a + b) / (2 * b)
}

/// Feed travel of one feed step, as the exact fraction
/// `feed_per_rotation / (2 * full_rotation)` micrometres.
///
/// The number of coil steps per feed step is
/// `full_rotation / feed_steps_per_rotation`, where
/// `feed_steps_per_rotation = wire_diameter / feed_per_step`, rounded.
pub open spec fn coil_steps_per_feed_step_spec(
    wire_diameter_um: nat,
    full_rotation: nat,
    feed_per_rotation_um: nat,
) -> nat {
    // full_rotation / (wire / (fpr / (2 * full_rotation)))
    round_div(full_rotation * feed_per_rotation_um, 2 * full_rotation * wire_diameter_um)
}

/// Why a set of physical constants cannot drive the machine.
#[derive(Debug, Clone, Copy, PartialEq, Eq, Structural)]
pub enum ConfigurationError {
    /// The wire diameter, the steps per rotation or the feed per rotation is zero.
    ZeroConstant,
    /// The coil:feed step ratio rounds to zero: the wire is too thick for
    /// the feed resolution.
    RatioZero,
}

/// Constants that fix the coil:feed motion, derived once at start-up.
#[derive(Debug, Clone, Copy, PartialEq, Eq, Structural)]
pub struct KinematicConstants {
    /// Wire diameter, in micrometres.
    pub wire_diameter_um: u32,
    /// Motor steps per full rotation.
    pub full_rotation: u16,
    /// Feed travel per full rotation of the feed motor, in micrometres.
    pub feed_per_rotation_um: u32,
    /// Feed travel of one feed step, in nanometres, rounded down.
    pub feed_per_step_nm: u64,
    /// Coil steps for each feed step; always positive.
    pub coil_steps_per_feed_step: u32,
}

impl KinematicConstants {
    /// The constants agree with the physical inputs they were derived from.
    pub open spec fn wf(&self) -> bool {
        &&& self.wire_diameter_um > 0
        &&& self.full_rotation > 0
        &&& self.feed_per_rotation_um > 0
        &&& self.feed_per_step_nm == (self.feed_per_rotation_um as nat * 1000) / (2
            * self.full_rotation as nat)
        &&& self.coil_steps_per_feed_step as nat == coil_steps_per_feed_step_spec(
            self.wire_diameter_um as nat,
            self.full_rotation as nat,
            self.feed_per_rotation_um as nat,
        )
        &&& self.coil_steps_per_feed_step > 0
    }

    /// Derives the constants, or says why the inputs cannot drive the machine.
    pub fn derive(wire_diameter_um: u32, full_rotation: u16, feed_per_rotation_um: u32) -> (r:
        Result<KinematicConstants, ConfigurationError>)
        ensures
            r is Err <==> (wire_diameter_um == 0 || full_rotation == 0 || feed_per_rotation_um
                == 0 || coil_steps_per_feed_step_spec(
                wire_diameter_um as nat,
                full_rotation as nat,
                feed_per_rotation_um as nat,
            ) == 0),
            r is Err ==> r->Err_0 == (if wire_diameter_um == 0 || full_rotation == 0
                || feed_per_rotation_um == 0 {
                ConfigurationError::ZeroConstant
            } else {
                ConfigurationError::RatioZero
            }),
            r is Ok ==> {
                let k = r->Ok_0;
                &&& k.wf()
                &&& k.wire_diameter_um == wire_diameter_um
                &&& k.full_rotation == full_rotation
                &&& k.feed_per_rotation_um == feed_per_rotation_um
            },
    {
        if wire_diameter_um == 0 || full_rotation == 0 || feed_per_rotation_um == 0 {
            return Err(ConfigurationError::ZeroConstant);
        }
        let w = wire_diameter_um as u128;
        let f = full_rotation as u128;
        let p = feed_per_rotation_um as u128;
        assert(f * p <= 0xffff * 0xffff_ffffu128) by (nonlinear_arith)
            requires
                f <= 0xffff,
                p <= 0xffff_ffff,
        ;
        assert(2 * f * w <= 2 * 0xffff * 0xffff_ffffu128) by (nonlinear_arith)
            requires
                f <= 0xffff,
                w <= 0xffff_ffff,
        ;
        assert(2 * f * w > 0) by (nonlinear_arith)
            requires
                f > 0,
                w > 0,
        ;
        let num = f * p;
        let den = 2 * f * w;
        let ratio = (2 * num + den) / (2 * den);
        proof {
            lemma_ratio_cancels(w as nat, f as nat, p as nat);
        }
        if ratio == 0 {
            return Err(ConfigurationError::RatioZero);
        }
        let fps = (p * 1000) / (2 * f);
        assert(fps <= p * 1000);
        Ok(
            KinematicConstants {
                wire_diameter_um,
                full_rotation,
                feed_per_rotation_um,
                feed_per_step_nm: fps as u64,
                coil_steps_per_feed_step: ratio as u32,
            },
        )
    }

    /// The constants of this machine.
    pub fn machine_default() -> (r: Result<KinematicConstants, ConfigurationError>)
        ensures
            r is Ok,
            r->Ok_0.wire_diameter_um == crate::WIRE_DIAMETER_UM,
            r->Ok_0.full_rotation == crate::FULL_ROTATION,
            r->Ok_0.feed_per_rotation_um == crate::FEED_PER_FULL_ROTATION_UM,
            r->Ok_0.wf(),
    {
        proof {
            lemma_ratio_cancels(
                crate::WIRE_DIAMETER_UM as nat,
                crate::FULL_ROTATION as nat,
                crate::FEED_PER_FULL_ROTATION_UM as nat,
            );
            vstd::arithmetic::div_mod::lemma_fundamental_div_mod_converse(17022, 2044, 8, 670);
            assert(round_div(8000, 2 * 511) == 8);
        }
        KinematicConstants::derive(
            crate::WIRE_DIAMETER_UM,
            crate::FULL_ROTATION,
            crate::FEED_PER_FULL_ROTATION_UM,
        )
    }
}

/// The ratio depends only on the feed per rotation and the wire diameter:
/// the steps per rotation cancel out.
pub proof fn lemma_ratio_cancels(w: nat, f: nat, p: nat)
    requires
        w > 0,
        f > 0,
    ensures
        coil_steps_per_feed_step_spec(w, f, p) == round_div(p, 2 * w),
        round_div(p, 2 * w) <= p,
{
    assert(2 * (f * p) + 2 * f * w == f * (2 * p + 2 * w)) by (nonlinear_arith);
    assert(2 * (2 * f * w) == f * (4 * w)) by (nonlinear_arith);
    vstd::arithmetic::div_mod::lemma_div_multiples_vanish_quotient(
        f as int,
        (2 * p + 2 * w) as int,
        (4 * w) as int,
    );
    if p > 0 {
        assert(2 * p + 2 * w < (p + 1) * (4 * w)) by (nonlinear_arith)
            requires
                w > 0,
                p > 0,
        ;
        vstd::arithmetic::div_mod::lemma_div_by_multiple_is_strongly_ordered(
            (2 * p + 2 * w) as int,
            ((p + 1) * (4 * w)) as int,
            (p + 1) as int,
            (4 * w) as int,
        );
        vstd::arithmetic::div_mod::lemma_div_by_multiple((p + 1) as int, (4 * w) as int);
    } else {
        vstd::arithmetic::div_mod::lemma_fundamental_div_mod_converse(
            (2 * w) as int,
            (4 * w) as int,
            0,
            (2 * w) as int,
        );
    }
    assert(round_div(p, 2 * w) == (2 * p + 2 * w) / (4 * w));
}

/// For every positive wire diameter and step resolution, the derived ratio
/// is a positive integer exactly when the feed per rotation is at least the
/// wire diameter; otherwise the constants are refused.
pub proof fn lemma_ratio_positive(w: nat, f: nat, p: nat)
    requires
        w > 0,
        f > 0,
    ensures
        coil_steps_per_feed_step_spec(w, f, p) > 0 <==> p >= w,
{
    lemma_ratio_cancels(w, f, p);
    assert(round_div(p, 2 * w) == (2 * p + 2 * w) / (4 * w));
    if p >= w {
        vstd::arithmetic::div_mod::lemma_div_is_ordered((4 * w) as int, (2 * p + 2 * w) as int, (4
            * w) as int);
        vstd::arithmetic::div_mod::lemma_div_by_multiple(1, (4 * w) as int);
    } else {
        vstd::arithmetic::div_mod::lemma_fundamental_div_mod_converse(
            (2 * p + 2 * w) as int,
            (4 * w) as int,
            0,
            (2 * p + 2 * w) as int,
        );
    }
}

} // verus!
