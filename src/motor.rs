//! Two-axis step sequencing: the coil axis turns the bobbin, the feed axis
//! lays the wire along it, one feed step for every `coil_steps_per_feed_step`
//! coil steps, reversing at the ends of the coil to wind in layers.
//!
//! The sequencer decides one pulse cycle at a time, from the sensor levels
//! read before the cycle. Whoever drives the motors sets the feed direction,
//! raises the step lines for the minimum pulse width, lowers them for the
//! same time, then reads the sensors and asks for the next cycle. Stop
//! requests and faults are therefore only acted on between cycles, never in
//! the middle of a pulse.

use vstd::prelude::*;
use crate::kinematics::KinematicConstants;
use crate::params::MachineParameters;

verus! {

/// Feed positions stay within `0..=FEED_POSITION_LIMIT` steps.
pub const FEED_POSITION_LIMIT: i64 = 1_000_000_000;

#[derive(Debug, Clone, Copy, PartialEq, Eq, Structural)]
pub enum Direction {
    Forward,
    Reverse,
}

#[derive(Debug, Clone, Copy, PartialEq, Eq, Structural)]
pub enum Axis {
    Coil,
    Feed,
}

/// What the sequencer knows of one motor.
#[derive(Debug, Clone, Copy, PartialEq, Eq, Structural)]
pub struct MotorAxisState {
    pub position_steps: i64,
    pub direction: Direction,
    pub enabled: bool,
    /// Set by a driver fault; cleared only by [`Sequencer::reset`].
    pub fault: bool,
}

/// Sensor levels read between two pulse cycles.
#[derive(Debug, Clone, Copy, PartialEq, Eq, Structural)]
pub struct Sensors {
    pub coil_fault: bool,
    pub feed_fault: bool,
    pub limit_start: bool,
    pub limit_end: bool,
}

/// Why a winding session ended.
#[derive(Debug, Clone, Copy, PartialEq, Eq, Structural)]
pub enum EndReason {
    TargetReached,
    Stopped,
    MotorFault(Axis),
    LimitTripped,
}

#[derive(Debug, Clone, Copy, PartialEq, Eq, Structural)]
pub enum SessionStatus {
    /// No session has been started since power-on.
    Idle,
    Running,
    Completed(EndReason),
}

/// The decision for one pulse cycle.
#[derive(Debug, Clone, Copy, PartialEq, Eq, Structural)]
pub enum StepOutcome {
    /// No session runs: nothing to do.
    Idle,
    /// Pulse the coil axis once, and the feed axis too when `feed` holds,
    /// after setting the feed direction.
    Step { feed: bool, feed_direction: Direction },
    /// The session ended in this cycle; both axes were disabled.
    Halted(EndReason),
}

/// Why a session could not be started.
#[derive(Debug, Clone, Copy, PartialEq, Eq, Structural)]
pub enum StartError {
    AlreadyRunning,
    /// An axis is faulted: an operator reset is needed first.
    AxisFaulted,
}

/// The current winding session, or the last one.
#[derive(Debug, Clone, Copy, PartialEq, Eq, Structural)]
pub struct WindingSession {
    pub status: SessionStatus,
    pub target_turns: u32,
    pub target_coil_steps: u64,
    pub coil_steps: u64,
    pub feed_steps: u64,
    pub coil_steps_per_feed_step: u32,
    /// Feed travel of one layer, in feed steps.
    pub traverse_steps: u32,
    pub stop_requested: bool,
}

/// Both axes and the session that drives them.
#[derive(Debug, Clone, Copy, PartialEq, Eq, Structural)]
pub struct Sequencer {
    pub coil: MotorAxisState,
    pub feed: MotorAxisState,
    pub session: WindingSession,
}

/// Turns to wind: the operator's target, or one layer over the coil length
/// when that target is zero.
pub open spec fn target_turns_spec(p: MachineParameters, k: KinematicConstants) -> nat {
    if p.num_turns > 0 {
        p.num_turns as nat
    } else {
        p.length_um as nat / k.wire_diameter_um as nat
    }
}

/// Feed steps that cover the coil length.
pub open spec fn traverse_spec(p: MachineParameters, k: KinematicConstants) -> nat {
    if k.feed_per_step_nm == 0 {
        p.length_um as nat * 1000
    } else {
        (p.length_um as nat * 1000) / k.feed_per_step_nm as nat
    }
}

/// The feed direction for the next feed step: reverse at the far end of the
/// layer, go forward again at its start.
pub open spec fn next_feed_direction(pos: int, dir: Direction, traverse: int) -> Direction {
    match dir {
        Direction::Forward => if pos >= traverse && pos > 0 {
            Direction::Reverse
        } else {
            Direction::Forward
        },
        Direction::Reverse => if pos <= 0 {
            Direction::Forward
        } else {
            Direction::Reverse
        },
    }
}

pub open spec fn moved(pos: int, dir: Direction) -> int {
    match dir {
        Direction::Forward => pos + 1,
        Direction::Reverse => pos - 1,
    }
}

impl MotorAxisState {
    pub open spec fn halted(self) -> MotorAxisState {
        MotorAxisState { enabled: false, ..self }
    }
}

impl Sequencer {
    /// The sequencer's invariant.
    pub open spec fn wf(&self) -> bool {
        let s = self.session;
        &&& s.coil_steps_per_feed_step > 0
        &&& s.feed_steps as nat == s.coil_steps as nat / s.coil_steps_per_feed_step as nat
        &&& s.coil_steps <= s.target_coil_steps
        &&& s.target_coil_steps <= 0xffff_ffff_ffff
        &&& self.coil.position_steps == s.coil_steps
        &&& self.coil.direction == Direction::Forward
        &&& 0 <= self.feed.position_steps <= FEED_POSITION_LIMIT
        &&& s.traverse_steps <= FEED_POSITION_LIMIT
        &&& s.status == SessionStatus::Running ==> {
            &&& self.coil.enabled
            &&& self.feed.enabled
            &&& !self.coil.fault
            &&& !self.feed.fault
        }
        &&& s.status != SessionStatus::Running ==> !self.coil.enabled && !self.feed.enabled
    }

    pub open spec fn running(&self) -> bool {
        self.session.status == SessionStatus::Running
    }

    /// Ends the session for `reason`, disabling both axes.
    pub open spec fn ended(self, reason: EndReason) -> Sequencer {
        Sequencer {
            coil: self.coil.halted(),
            feed: self.feed.halted(),
            session: WindingSession { status: SessionStatus::Completed(reason), ..self.session },
        }
    }

    /// One coil step, with a feed step where the coil count reaches the next
    /// multiple of the ratio.
    pub open spec fn stepped(self) -> (Sequencer, StepOutcome) {
        let s = self.session;
        let c: nat = s.coil_steps as nat + 1;
        let coil = MotorAxisState { position_steps: (self.coil.position_steps + 1) as i64, ..self.coil };
        if c % s.coil_steps_per_feed_step as nat == 0 {
            let dir = next_feed_direction(
                self.feed.position_steps as int,
                self.feed.direction,
                s.traverse_steps as int,
            );
            let feed = MotorAxisState {
                position_steps: moved(self.feed.position_steps as int, dir) as i64,
                direction: dir,
                ..self.feed
            };
            (
                Sequencer {
                    coil,
                    feed,
                    session: WindingSession {
                        coil_steps: c as u64,
                        feed_steps: (s.feed_steps + 1) as u64,
                        ..s
                    },
                },
                StepOutcome::Step { feed: true, feed_direction: dir },
            )
        } else {
            (
                Sequencer {
                    coil,
                    feed: self.feed,
                    session: WindingSession { coil_steps: c as u64, ..s },
                },
                StepOutcome::Step { feed: false, feed_direction: self.feed.direction },
            )
        }
    }

    /// The decision for one pulse cycle given the sensor levels, and the
    /// state after it.
    pub open spec fn next(self, x: Sensors) -> (Sequencer, StepOutcome) {
        if !self.running() {
            (self, StepOutcome::Idle)
        } else if x.coil_fault || x.feed_fault {
            let axis = if x.coil_fault { Axis::Coil } else { Axis::Feed };
            let e = self.ended(EndReason::MotorFault(axis));
            (
                Sequencer {
                    coil: MotorAxisState { fault: x.coil_fault, ..e.coil },
                    feed: MotorAxisState { fault: x.feed_fault, ..e.feed },
                    session: e.session,
                },
                StepOutcome::Halted(EndReason::MotorFault(axis)),
            )
        } else if x.limit_start || x.limit_end {
            (self.ended(EndReason::LimitTripped), StepOutcome::Halted(EndReason::LimitTripped))
        } else if self.session.stop_requested {
            (self.ended(EndReason::Stopped), StepOutcome::Halted(EndReason::Stopped))
        } else if self.session.coil_steps >= self.session.target_coil_steps {
            (self.ended(EndReason::TargetReached), StepOutcome::Halted(EndReason::TargetReached))
        } else {
            self.stepped()
        }
    }

    /// The outcome of starting a session with these parameters.
    pub open spec fn started(
        self,
        p: MachineParameters,
        k: KinematicConstants,
    ) -> Result<Sequencer, StartError> {
        if self.running() {
            Err(StartError::AlreadyRunning)
        } else if self.coil.fault || self.feed.fault {
            Err(StartError::AxisFaulted)
        } else {
            let turns = target_turns_spec(p, k);
            Ok(
                Sequencer {
                    coil: MotorAxisState {
                        position_steps: 0,
                        direction: Direction::Forward,
                        enabled: true,
                        fault: false,
                    },
                    feed: MotorAxisState { enabled: true, ..self.feed },
                    session: WindingSession {
                        status: SessionStatus::Running,
                        target_turns: turns as u32,
                        target_coil_steps: (turns * k.full_rotation as nat) as u64,
                        coil_steps: 0,
                        feed_steps: 0,
                        coil_steps_per_feed_step: k.coil_steps_per_feed_step,
                        traverse_steps: traverse_spec(p, k) as u32,
                        stop_requested: false,
                    },
                },
            )
        }
    }
}

impl Sequencer {
    /// Both axes at rest and disabled; no session yet.
    pub fn new(k: &KinematicConstants) -> (r: Sequencer)
        requires
            k.wf(),
        ensures
            r.wf(),
            r.session.status == SessionStatus::Idle,
            r.coil.position_steps == 0,
            r.feed.position_steps == 0,
            !r.coil.fault && !r.feed.fault,
    {
        let axis = MotorAxisState {
            position_steps: 0,
            direction: Direction::Forward,
            enabled: false,
            fault: false,
        };
        Sequencer {
            coil: axis,
            feed: axis,
            session: WindingSession {
                status: SessionStatus::Idle,
                target_turns: 0,
                target_coil_steps: 0,
                coil_steps: 0,
                feed_steps: 0,
                coil_steps_per_feed_step: k.coil_steps_per_feed_step,
                traverse_steps: 0,
                stop_requested: false,
            },
        }
    }

    /// Whether a session is running.
    pub fn is_running(&self) -> (r: bool)
        ensures
            r == self.running(),
    {
        match self.session.status {
            SessionStatus::Running => true,
            _ => false,
        }
    }

    /// Starts a session winding the turns that `p` asks for. Refused while a
    /// session runs, and while an axis is faulted.
    pub fn start(&mut self, p: &MachineParameters, k: &KinematicConstants) -> (r: Result<
        (),
        StartError,
    >)
        requires
            old(self).wf(),
            p.valid(),
            k.wf(),
        ensures
            final(self).wf(),
            old(self).started(*p, *k) is Ok ==> r is Ok && *final(self) == old(
                self,
            ).started(*p, *k)->Ok_0,
            old(self).started(*p, *k) is Err ==> r == Err::<(), StartError>(
                old(self).started(*p, *k)->Err_0,
            ) && *final(self) == *old(self),
    {
        if self.is_running() {
            return Err(StartError::AlreadyRunning);
        }
        if self.coil.fault || self.feed.fault {
            return Err(StartError::AxisFaulted);
        }
        let turns: u32 = if p.num_turns > 0 {
            p.num_turns
        } else {
            p.length_um / k.wire_diameter_um
        };
        let len_nm: u64 = p.length_um as u64 * 1000;
        let traverse: u64 = if k.feed_per_step_nm == 0 {
            len_nm
        } else {
            len_nm / k.feed_per_step_nm
        };
        assert(traverse <= len_nm);
        assert(turns as nat * k.full_rotation as nat <= 0xffff_ffff_ffff) by (nonlinear_arith)
            requires
                turns <= 0xffff_ffff,
                k.full_rotation <= 0xffff,
        ;
        self.coil = MotorAxisState {
            position_steps: 0,
            direction: Direction::Forward,
            enabled: true,
            fault: false,
        };
        self.feed.enabled = true;
        self.session = WindingSession {
            status: SessionStatus::Running,
            target_turns: turns,
            target_coil_steps: turns as u64 * k.full_rotation as u64,
            coil_steps: 0,
            feed_steps: 0,
            coil_steps_per_feed_step: k.coil_steps_per_feed_step,
            traverse_steps: traverse as u32,
            stop_requested: false,
        };
        Ok(())
    }

    /// Asks the running session to stop at the end of the current pulse
    /// cycle.
    pub fn request_stop(&mut self)
        requires
            old(self).wf(),
        ensures
            final(self).wf(),
            old(self).running() ==> *final(self) == (Sequencer {
                session: WindingSession { stop_requested: true, ..old(self).session },
                ..*old(self)
            }),
            !old(self).running() ==> *final(self) == *old(self),
    {
        if self.is_running() {
            self.session.stop_requested = true;
        }
    }

    /// The operator's reset after a driver fault: clears the fault flags.
    pub fn reset(&mut self)
        requires
            old(self).wf(),
        ensures
            final(self).wf(),
            *final(self) == (Sequencer {
                coil: MotorAxisState { fault: false, ..old(self).coil },
                feed: MotorAxisState { fault: false, ..old(self).feed },
                ..*old(self)
            }),
    {
        self.coil.fault = false;
        self.feed.fault = false;
    }

    fn end(&mut self, reason: EndReason)
        requires
            old(self).wf(),
            old(self).running(),
        ensures
            final(self).wf(),
            *final(self) == old(self).ended(reason),
    {
        self.coil.enabled = false;
        self.feed.enabled = false;
        self.session.status = SessionStatus::Completed(reason);
    }

    /// Decides one pulse cycle from the sensor levels read before it.
    pub fn tick(&mut self, x: Sensors) -> (r: StepOutcome)
        requires
            old(self).wf(),
        ensures
            final(self).wf(),
            (*final(self), r) == old(self).next(x),
    {
        if !self.is_running() {
            return StepOutcome::Idle;
        }
        if x.coil_fault || x.feed_fault {
            let axis = if x.coil_fault {
                Axis::Coil
            } else {
                Axis::Feed
            };
            self.end(EndReason::MotorFault(axis));
            self.coil.fault = x.coil_fault;
            self.feed.fault = x.feed_fault;
            return StepOutcome::Halted(EndReason::MotorFault(axis));
        }
        if x.limit_start || x.limit_end {
            self.end(EndReason::LimitTripped);
            return StepOutcome::Halted(EndReason::LimitTripped);
        }
        if self.session.stop_requested {
            self.end(EndReason::Stopped);
            return StepOutcome::Halted(EndReason::Stopped);
        }
        if self.session.coil_steps >= self.session.target_coil_steps {
            self.end(EndReason::TargetReached);
            return StepOutcome::Halted(EndReason::TargetReached);
        }
        let ratio = self.session.coil_steps_per_feed_step as u64;
        let c = self.session.coil_steps + 1;
        proof {
            lemma_count_step(self.session.coil_steps as nat, ratio as nat);
        }
        self.session.coil_steps = c;
        self.coil.position_steps = self.coil.position_steps + 1;
        if c % ratio == 0 {
            let pos = self.feed.position_steps;
            let traverse = self.session.traverse_steps as i64;
            let dir = match self.feed.direction {
                Direction::Forward => if pos >= traverse && pos > 0 {
                    Direction::Reverse
                } else {
                    Direction::Forward
                },
                Direction::Reverse => if pos <= 0 {
                    Direction::Forward
                } else {
                    Direction::Reverse
                },
            };
            self.feed.direction = dir;
            self.feed.position_steps = match dir {
                Direction::Forward => pos + 1,
                Direction::Reverse => pos - 1,
            };
            self.session.feed_steps = self.session.feed_steps + 1;
            StepOutcome::Step { feed: true, feed_direction: dir }
        } else {
            StepOutcome::Step { feed: false, feed_direction: self.feed.direction }
        }
    }
}

/// One phase of the motor outputs within a pulse cycle.
#[derive(Debug, Clone, Copy, PartialEq, Eq, Structural)]
pub enum PulsePhase {
    SetFeedDirection(Direction),
    /// Raise the step lines of the named axes.
    Raise { coil: bool, feed: bool },
    /// Lower the step lines of the named axes.
    Lower { coil: bool, feed: bool },
    /// A suspension point of at least this many milliseconds.
    Wait(u32),
    /// Put both drivers to sleep.
    DisableBoth,
}

/// What the motor outputs do for one decision: set the feed direction, a
/// high pulse and a low pulse each held for `delay_ms`; or disable both
/// drivers when the session ended; or nothing.
pub open spec fn pulse_phases(o: StepOutcome, delay_ms: u32) -> Seq<PulsePhase> {
    match o {
        StepOutcome::Step { feed, feed_direction } => seq![
            PulsePhase::SetFeedDirection(feed_direction),
            PulsePhase::Raise { coil: true, feed },
            PulsePhase::Wait(delay_ms),
            PulsePhase::Lower { coil: true, feed },
            PulsePhase::Wait(delay_ms),
        ],
        StepOutcome::Halted(_) => seq![PulsePhase::DisableBoth],
        StepOutcome::Idle => Seq::empty(),
    }
}

/// The output phases for one decision, in the order they are carried out.
pub fn pulse_plan(o: StepOutcome, delay_ms: u32) -> (r: Vec<PulsePhase>)
    ensures
        r@ == pulse_phases(o, delay_ms),
{
    let mut v: Vec<PulsePhase> = Vec::new();
    match o {
        StepOutcome::Step { feed, feed_direction } => {
            v.push(PulsePhase::SetFeedDirection(feed_direction));
            v.push(PulsePhase::Raise { coil: true, feed });
            v.push(PulsePhase::Wait(delay_ms));
            v.push(PulsePhase::Lower { coil: true, feed });
            v.push(PulsePhase::Wait(delay_ms));
        },
        StepOutcome::Halted(_) => {
            v.push(PulsePhase::DisableBoth);
        },
        StepOutcome::Idle => {},
    }
    assert(v@ =~= pulse_phases(o, delay_ms));
    v
}

/// The state after one pulse cycle for each sensor reading of `xs`, in order.
pub open spec fn run(s: Sequencer, xs: Seq<Sensors>) -> Sequencer
    decreases xs.len(),
{
    if xs.len() == 0 {
        s
    } else {
        run(s, xs.drop_last()).next(xs.last()).0
    }
}

/// The decisions of those pulse cycles, in order.
pub open spec fn outcomes(s: Sequencer, xs: Seq<Sensors>) -> Seq<StepOutcome>
    decreases xs.len(),
{
    if xs.len() == 0 {
        Seq::empty()
    } else {
        outcomes(s, xs.drop_last()).push(run(s, xs.drop_last()).next(xs.last()).1)
    }
}

impl Sequencer {
    /// Runs one pulse cycle for each sensor reading, in order, and returns
    /// the decisions.
    pub fn run_cycles(&mut self, xs: &Vec<Sensors>) -> (r: Vec<StepOutcome>)
        requires
            old(self).wf(),
        ensures
            final(self).wf(),
            *final(self) == run(*old(self), xs@),
            r@ == outcomes(*old(self), xs@),
    {
        let ghost s0 = *self;
        let mut out: Vec<StepOutcome> = Vec::new();
        let mut i: usize = 0;
        while i < xs.len()
            invariant
                i <= xs.len(),
                self.wf(),
                *self == run(s0, xs@.subrange(0, i as int)),
                out@ == outcomes(s0, xs@.subrange(0, i as int)),
            decreases xs.len() - i,
        {
            let o = self.tick(xs[i]);
            out.push(o);
            i = i + 1;
            assert(xs@.subrange(0, i as int).drop_last() =~= xs@.subrange(0, i - 1));
        }
        assert(xs@.subrange(0, xs@.len() as int) =~= xs@);
        out
    }
}

/// One pulse cycle keeps the invariant.
pub proof fn lemma_next_wf(s: Sequencer, x: Sensors)
    requires
        s.wf(),
    ensures
        s.next(x).0.wf(),
        s.next(x).0.session.coil_steps_per_feed_step == s.session.coil_steps_per_feed_step,
{
    if s.running() && !(x.coil_fault || x.feed_fault || x.limit_start || x.limit_end
        || s.session.stop_requested) && s.session.coil_steps < s.session.target_coil_steps {
        lemma_count_step(s.session.coil_steps as nat, s.session.coil_steps_per_feed_step as nat);
    }
}

/// Any run of pulse cycles keeps the invariant.
pub proof fn lemma_run_wf(s: Sequencer, xs: Seq<Sensors>)
    requires
        s.wf(),
    ensures
        run(s, xs).wf(),
        run(s, xs).session.coil_steps_per_feed_step == s.session.coil_steps_per_feed_step,
    decreases xs.len(),
{
    if xs.len() > 0 {
        lemma_run_wf(s, xs.drop_last());
        lemma_next_wf(run(s, xs.drop_last()), xs.last());
    }
}

/// Whatever the sensors read, after every pulse cycle the feed steps issued
/// in the session are the coil steps issued divided by the coil:feed ratio,
/// rounded down.
pub proof fn lemma_feed_steps_follow_coil_steps(s: Sequencer, xs: Seq<Sensors>)
    requires
        s.wf(),
    ensures
        ({
            let t = run(s, xs).session;
            t.feed_steps as nat == t.coil_steps as nat / s.session.coil_steps_per_feed_step as nat
        }),
{
    lemma_run_wf(s, xs);
}

/// A sequencer with no running session stays as it is, whatever the sensors read.
pub proof fn lemma_stopped_stays(s: Sequencer, xs: Seq<Sensors>)
    requires
        !s.running(),
    ensures
        run(s, xs) == s,
        forall|i: int| 0 <= i < xs.len() ==> #[trigger] outcomes(s, xs)[i] == StepOutcome::Idle,
        outcomes(s, xs).len() == xs.len(),
    decreases xs.len(),
{
    if xs.len() > 0 {
        lemma_stopped_stays(s, xs.drop_last());
    }
}

/// A driver fault on either axis, seen between two pulse cycles, ends the
/// session at once: no axis is pulsed in that cycle, both are disabled, the
/// faulted axis is marked, no later cycle moves either axis, and no session
/// can start until an operator reset.
pub proof fn lemma_fault_halts_both_axes(
    s: Sequencer,
    x: Sensors,
    later: Seq<Sensors>,
    p: MachineParameters,
    k: KinematicConstants,
)
    requires
        s.wf(),
        s.running(),
        x.coil_fault || x.feed_fault,
    ensures
        ({
            let (s1, o) = s.next(x);
            &&& o == StepOutcome::Halted(
                EndReason::MotorFault(if x.coil_fault { Axis::Coil } else { Axis::Feed }),
            )
            &&& s1.coil.position_steps == s.coil.position_steps
            &&& s1.feed.position_steps == s.feed.position_steps
            &&& !s1.coil.enabled && !s1.feed.enabled
            &&& s1.coil.fault == x.coil_fault && s1.feed.fault == x.feed_fault
            &&& run(s1, later) == s1
            &&& run(s1, later).started(p, k) == Err::<Sequencer, StartError>(
                StartError::AxisFaulted,
            )
        }),
{
    lemma_stopped_stays(s.next(x).0, later);
}

/// The start or end limit switch, seen between two pulse cycles, ends the
/// session as limited: no axis is pulsed in that cycle and the feed axis
/// advances no further in any later cycle.
pub proof fn lemma_limit_halts_feed(s: Sequencer, x: Sensors, later: Seq<Sensors>)
    requires
        s.wf(),
        s.running(),
        !x.coil_fault && !x.feed_fault,
        x.limit_start || x.limit_end,
    ensures
        ({
            let (s1, o) = s.next(x);
            &&& o == StepOutcome::Halted(EndReason::LimitTripped)
            &&& s1.session.status == SessionStatus::Completed(EndReason::LimitTripped)
            &&& s1.feed.position_steps == s.feed.position_steps
            &&& s1.session.feed_steps == s.session.feed_steps
            &&& run(s1, later) == s1
        }),
{
    lemma_stopped_stays(s.next(x).0, later);
}

/// Counting one more coil step adds one feed step exactly when the new
/// count is a multiple of the ratio.
proof fn lemma_count_step(c: nat, ratio: nat)
    requires
        ratio > 0,
    ensures
        (c + 1) % ratio == 0 ==> (c + 1) / ratio == c / ratio + 1,
        (c + 1) % ratio != 0 ==> (c + 1) / ratio == c / ratio,
        c / ratio <= c,
{
    vstd::arithmetic::div_mod::lemma_fundamental_div_mod(c as int, ratio as int);
    vstd::arithmetic::div_mod::lemma_fundamental_div_mod((c + 1) as int, ratio as int);
    vstd::arithmetic::div_mod::lemma_div_is_ordered_by_denominator(c as int, 1, ratio as int);
    let q = c / ratio;
    let m = c % ratio;
    assert(q * ratio == ratio * q) by (nonlinear_arith);
    if m + 1 == ratio {
        assert((q + 1) * ratio == ratio * q + ratio) by (nonlinear_arith);
        assert(c + 1 == (q + 1) * ratio);
        vstd::arithmetic::div_mod::lemma_fundamental_div_mod_converse(
            (c + 1) as int,
            ratio as int,
            (q + 1) as int,
            0,
        );
    } else {
        vstd::arithmetic::div_mod::lemma_fundamental_div_mod_converse(
            (c + 1) as int,
            ratio as int,
            q as int,
            (m + 1) as int,
        );
    }
}

} // verus!
