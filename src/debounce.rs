//! Button debouncing: a new level is reported only once it has been read
//! on a fixed number of consecutive polls.

use vstd::prelude::*;

verus! {

#[derive(Debug, Clone, Copy, PartialEq, Eq, Structural)]
pub enum ButtonEdge {
    Pressed,
    Released,
}

/// One button's debouncer. A `true` level is a pressed button.
#[derive(Debug, Clone, Copy, PartialEq, Eq, Structural)]
pub struct Debouncer {
    /// The last level reported.
    pub stable: bool,
    /// Consecutive polls, up to now, that read the other level.
    pub run: u32,
    /// Consecutive polls a new level needs before it is reported.
    pub settle: u32,
}

pub open spec fn edge_of(level: bool) -> ButtonEdge {
    if level {
        ButtonEdge::Pressed
    } else {
        ButtonEdge::Released
    }
}

/// `n` polls that all read `level`.
pub open spec fn held(level: bool, n: nat) -> Seq<bool> {
    Seq::new(n, |i: int| level)
}

impl Debouncer {
    pub open spec fn wf(&self) -> bool {
        self.settle > 0 && self.run < self.settle
    }

    /// The state after one poll that read `level`, and the edge reported.
    pub open spec fn step(self, level: bool) -> (Debouncer, Option<ButtonEdge>) {
        if level == self.stable {
            (Debouncer { run: 0, ..self }, None)
        } else if self.run + 1 >= self.settle {
            (Debouncer { stable: level, run: 0, ..self }, Some(edge_of(level)))
        } else {
            (Debouncer { run: (self.run + 1) as u32, ..self }, None)
        }
    }

    /// A released button that reports a change after `settle` polls.
    pub fn new(settle: u32) -> (r: Debouncer)
        requires
            settle > 0,
        ensures
            r.wf(),
            r == (Debouncer { stable: false, run: 0, settle }),
    {
        Debouncer { stable: false, run: 0, settle }
    }

    /// Takes one poll of the button.
    pub fn sample(&mut self, level: bool) -> (r: Option<ButtonEdge>)
        requires
            old(self).wf(),
        ensures
            final(self).wf(),
            (*final(self), r) == old(self).step(level),
    {
        if level == self.stable {
            self.run = 0;
            None
        } else if self.run + 1 >= self.settle {
            self.stable = level;
            self.run = 0;
            Some(if level {
                ButtonEdge::Pressed
            } else {
                ButtonEdge::Released
            })
        } else {
            self.run = self.run + 1;
            None
        }
    }
}

/// Polls for a settle time of `settle_ms` at one poll every `poll_ms`:
/// the settle time divided by the poll interval, rounded up, and at least one.
pub fn settle_samples(settle_ms: u32, poll_ms: u32) -> (r: u32)
    requires
        poll_ms > 0,
    ensures
        r > 0,
        settle_ms == 0 ==> r == 1,
        settle_ms > 0 ==> r as int == (settle_ms as int + poll_ms as int - 1) / poll_ms as int,
{
    if settle_ms == 0 {
        1
    } else {
        let n = (settle_ms as u64 + poll_ms as u64 - 1) / poll_ms as u64;
        assert(n >= 1) by {
            vstd::arithmetic::div_mod::lemma_div_is_ordered(
                poll_ms as int,
                settle_ms as int + poll_ms as int - 1,
                poll_ms as int,
            );
            vstd::arithmetic::div_mod::lemma_div_by_multiple(1, poll_ms as int);
        }
        assert(n <= settle_ms as u64 + poll_ms as u64 - 1);
        assert(n <= settle_ms) by {
            vstd::arithmetic::div_mod::lemma_div_is_ordered_by_denominator(
                settle_ms as int + poll_ms as int - 1,
                1,
                poll_ms as int,
            );
            vstd::arithmetic::div_mod::lemma_fundamental_div_mod(
                settle_ms as int + poll_ms as int - 1,
                poll_ms as int,
            );
            if n > settle_ms {
                assert(poll_ms as int * n >= poll_ms as int * (settle_ms as int + 1))
                    by (nonlinear_arith)
                    requires
                        n >= settle_ms + 1,
                        poll_ms > 0,
                ;
                assert(poll_ms as int * (settle_ms as int + 1) == poll_ms as int * settle_ms as int
                    + poll_ms as int) by (nonlinear_arith);
                assert(poll_ms as int * settle_ms as int >= settle_ms as int) by (nonlinear_arith)
                    requires
                        poll_ms >= 1,
                ;
            }
        }
        n as u32
    }
}

/// The debouncer after each poll of `levels`, in order.
pub open spec fn debounce_run(d: Debouncer, levels: Seq<bool>) -> Debouncer
    decreases levels.len(),
{
    if levels.len() == 0 {
        d
    } else {
        debounce_run(d, levels.drop_last()).step(levels.last()).0
    }
}

/// The edges reported over those polls, in order.
pub open spec fn debounce_edges(d: Debouncer, levels: Seq<bool>) -> Seq<ButtonEdge>
    decreases levels.len(),
{
    if levels.len() == 0 {
        Seq::empty()
    } else {
        let prev = debounce_edges(d, levels.drop_last());
        match debounce_run(d, levels.drop_last()).step(levels.last()).1 {
            Some(e) => prev.push(e),
            None => prev,
        }
    }
}

proof fn lemma_run_concat(d: Debouncer, a: Seq<bool>, b: Seq<bool>)
    ensures
        debounce_run(d, a + b) == debounce_run(debounce_run(d, a), b),
        debounce_edges(d, a + b) == debounce_edges(d, a) + debounce_edges(debounce_run(d, a), b),
    decreases b.len(),
{
    if b.len() == 0 {
        assert(a + b =~= a);
        assert(debounce_edges(d, a) + Seq::<ButtonEdge>::empty() =~= debounce_edges(d, a));
    } else {
        assert((a + b).drop_last() =~= a + b.drop_last());
        assert((a + b).last() == b.last());
        lemma_run_concat(d, a, b.drop_last());
        let prev = debounce_edges(d, a);
        let mid = debounce_edges(debounce_run(d, a), b.drop_last());
        match debounce_run(d, a + b.drop_last()).step(b.last()).1 {
            Some(e) => {
                assert((prev + mid).push(e) =~= prev + mid.push(e));
            },
            None => {},
        }
    }
}

/// Holding one level for `n` polls from a debouncer with no pending run.
proof fn lemma_held(d: Debouncer, level: bool, n: nat)
    requires
        d.wf(),
        d.run == 0,
    ensures
        level == d.stable ==> debounce_run(d, held(level, n)) == d && debounce_edges(
            d,
            held(level, n),
        ) == Seq::<ButtonEdge>::empty(),
        level != d.stable && n < d.settle ==> debounce_run(d, held(level, n)) == (Debouncer {
            run: n as u32,
            ..d
        }) && debounce_edges(d, held(level, n)) == Seq::<ButtonEdge>::empty(),
        level != d.stable && n >= d.settle ==> debounce_run(d, held(level, n)) == (Debouncer {
            stable: level,
            run: 0,
            ..d
        }) && debounce_edges(d, held(level, n)) == seq![edge_of(level)],
    decreases n,
{
    if n > 0 {
        assert(held(level, n).drop_last() =~= held(level, (n - 1) as nat));
        assert(held(level, n).last() == level);
        lemma_held(d, level, (n - 1) as nat);
        if level != d.stable && n == d.settle {
            assert(Seq::<ButtonEdge>::empty().push(edge_of(level)) =~= seq![edge_of(level)]);
        }
    } else {
        assert(held(level, 0) =~= Seq::<bool>::empty());
    }
}

/// A press shorter than the settle time reports nothing, neither while held
/// nor once released. A longer one reports exactly one press, and, once the
/// button has stayed released for the settle time, exactly one release.
pub proof fn lemma_press_release(d: Debouncer, pressed_polls: nat, released_polls: nat)
    requires
        d.wf(),
        !d.stable,
        d.run == 0,
    ensures
        debounce_edges(d, held(true, pressed_polls) + held(false, released_polls)) == if
        pressed_polls < d.settle {
            Seq::<ButtonEdge>::empty()
        } else if released_polls < d.settle {
            seq![ButtonEdge::Pressed]
        } else {
            seq![ButtonEdge::Pressed, ButtonEdge::Released]
        },
{
    let a = held(true, pressed_polls);
    let b = held(false, released_polls);
    lemma_run_concat(d, a, b);
    lemma_held(d, true, pressed_polls);
    let m = debounce_run(d, a);
    if pressed_polls < d.settle {
        // the pending run is dropped by the first released poll
        if released_polls > 0 {
            let m0 = Debouncer { run: 0, ..m };
            assert(b =~= seq![false] + held(false, (released_polls - 1) as nat));
            lemma_run_concat(m, seq![false], held(false, (released_polls - 1) as nat));
            assert(seq![false].drop_last() =~= Seq::<bool>::empty());
            assert(seq![false].last() == false);
            assert(debounce_run(m, Seq::<bool>::empty()) == m);
            assert(debounce_edges(m, Seq::<bool>::empty()) == Seq::<ButtonEdge>::empty());
            assert(debounce_run(m, seq![false]) == m0);
            assert(debounce_edges(m, seq![false]) == Seq::<ButtonEdge>::empty());
            lemma_held(m0, false, (released_polls - 1) as nat);
            assert(Seq::<ButtonEdge>::empty() + Seq::<ButtonEdge>::empty() =~= Seq::<
                ButtonEdge,
            >::empty());
        } else {
            assert(b =~= Seq::<bool>::empty());
        }
        assert(Seq::<ButtonEdge>::empty() + Seq::<ButtonEdge>::empty() =~= Seq::<
            ButtonEdge,
        >::empty());
    } else {
        lemma_held(m, false, released_polls);
        assert(seq![ButtonEdge::Pressed] + Seq::<ButtonEdge>::empty() =~= seq![
            ButtonEdge::Pressed,
        ]);
        assert(seq![ButtonEdge::Pressed] + seq![ButtonEdge::Released] =~= seq![
            ButtonEdge::Pressed,
            ButtonEdge::Released,
        ]);
    }
}

} // verus!
