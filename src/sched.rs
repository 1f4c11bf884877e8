//! A cooperative priority scheduler with priority-ceiling locks.
//!
//! Tasks change state `Idle -> Ready -> Running -> (Suspended <-> Ready ->
//! Running) -> Completed`. The running task gives up the processor only at
//! its suspension points: a timed delay, completion, or a call to
//! [`Scheduler::dispatch`]. A lock on a shared resource records the
//! resource's ceiling, the highest priority of any task that uses it; a
//! ready task may start only when its priority is above the ceiling of
//! every lock that other tasks hold, so a task holding a lock is never
//! kept waiting by a task of middle priority.

use vstd::prelude::*;

verus! {

#[derive(Debug, Clone, Copy, PartialEq, Eq, Structural)]
pub enum TaskState {
    Idle,
    Ready,
    Running,
    /// Waiting for the time `wake_at` of its task.
    Suspended,
    Completed,
}

#[derive(Debug, Clone, Copy, PartialEq, Eq, Structural)]
pub struct Task {
    pub priority: u8,
    pub state: TaskState,
    pub wake_at: u64,
}

/// A lock held by task `owner` on a resource of ceiling `ceiling`.
#[derive(Debug, Clone, Copy, PartialEq, Eq, Structural)]
pub struct HeldLock {
    pub owner: usize,
    pub ceiling: u8,
}

#[derive(Debug, Clone, Copy, PartialEq, Eq, Structural)]
pub enum SchedError {
    /// No task is running.
    NoRunningTask,
    /// The running task's priority is above the resource's ceiling.
    CeilingBelowPriority,
    /// The running task holds no lock.
    NotLocked,
    /// The running task still holds a lock.
    LockHeld,
}

/// The highest ceiling of the locks in `locks` that task `t` does not own,
/// or -1 where there is none.
pub open spec fn ceiling_excluding(locks: Seq<HeldLock>, t: int) -> int
    decreases locks.len(),
{
    if locks.len() == 0 {
        -1
    } else {
        let rest = ceiling_excluding(locks.drop_last(), t);
        let top = if locks.last().owner as int == t {
            -1
        } else {
            locks.last().ceiling as int
        };
        if rest >= top {
            rest
        } else {
            top
        }
    }
}

pub struct Scheduler {
    pub tasks: Vec<Task>,
    pub running: Option<usize>,
    /// Locks held, the latest last.
    pub locks: Vec<HeldLock>,
}

impl Scheduler {
    pub open spec fn wf(&self) -> bool {
        &&& self.running is Some ==> {
            let r = self.running->Some_0;
            &&& r < self.tasks@.len()
            &&& self.tasks@[r as int].state == TaskState::Running
        }
        &&& forall|i: int|
            0 <= i < self.tasks@.len() && self.tasks@[i].state == TaskState::Running
                ==> self.running is Some && self.running->Some_0 as int == i
        &&& forall|k: int| 0 <= k < self.locks@.len() ==> #[trigger] self.locks@[k].owner < self.tasks@.len()
    }

    /// Whether task `i` may be switched to now.
    pub open spec fn eligible(&self, i: int) -> bool {
        &&& 0 <= i < self.tasks@.len()
        &&& self.tasks@[i].state == TaskState::Ready
        &&& self.tasks@[i].priority as int > ceiling_excluding(self.locks@, i)
        &&& self.running is Some ==> self.tasks@[i].priority > self.tasks@[self.running->Some_0 as int].priority
    }

    /// Task `i` is the one to switch to: eligible, of the highest priority,
    /// and first in the table among equals.
    pub open spec fn best(&self, i: int) -> bool {
        &&& self.eligible(i)
        &&& forall|j: int|
            #![trigger self.eligible(j)]
            self.eligible(j) ==> self.tasks@[j].priority < self.tasks@[i].priority || (
            self.tasks@[j].priority == self.tasks@[i].priority && i <= j)
    }

    pub fn new() -> (r: Scheduler)
        ensures
            r.wf(),
            r.tasks@ == Seq::<Task>::empty(),
            r.running is None,
            r.locks@ == Seq::<HeldLock>::empty(),
    {
        Scheduler { tasks: Vec::new(), running: None, locks: Vec::new() }
    }

    /// Adds an idle task of the given priority and returns its index.
    pub fn add_task(&mut self, priority: u8) -> (r: usize)
        requires
            old(self).wf(),
            old(self).tasks@.len() < usize::MAX,
        ensures
            final(self).wf(),
            r == old(self).tasks@.len(),
            final(self).tasks@ == old(self).tasks@.push(
                Task { priority, state: TaskState::Idle, wake_at: 0 },
            ),
            final(self).running == old(self).running,
            final(self).locks@ == old(self).locks@,
    {
        let r = self.tasks.len();
        self.tasks.push(Task { priority, state: TaskState::Idle, wake_at: 0 });
        r
    }

    /// The trigger of task `i` fired: an idle or completed task becomes ready.
    pub fn trigger(&mut self, i: usize)
        requires
            old(self).wf(),
            i < old(self).tasks@.len(),
        ensures
            final(self).wf(),
            final(self).running == old(self).running,
            final(self).locks@ == old(self).locks@,
            final(self).tasks@ == (if old(self).tasks@[i as int].state == TaskState::Idle
                || old(self).tasks@[i as int].state == TaskState::Completed {
                old(self).tasks@.update(i as int, Task { state: TaskState::Ready, ..old(self).tasks@[i as int] })
            } else {
                old(self).tasks@
            }),
    {
        let t = self.tasks[i];
        match t.state {
            TaskState::Idle | TaskState::Completed => {
                self.tasks.set(i, Task { state: TaskState::Ready, ..t });
            },
            _ => {},
        }
    }

    fn ceiling_without(&self, t: usize) -> (r: i16)
        ensures
            r as int == ceiling_excluding(self.locks@, t as int),
    {
        let mut c: i16 = -1;
        let mut k: usize = 0;
        while k < self.locks.len()
            invariant
                k <= self.locks@.len(),
                c as int == ceiling_excluding(self.locks@.subrange(0, k as int), t as int),
                -1 <= c <= 255,
            decreases self.locks@.len() - k,
        {
            let l = self.locks[k];
            assert(self.locks@.subrange(0, k + 1).drop_last() =~= self.locks@.subrange(0, k as int));
            if l.owner != t && l.ceiling as i16 > c {
                c = l.ceiling as i16;
            }
            k = k + 1;
        }
        assert(self.locks@.subrange(0, self.locks@.len() as int) =~= self.locks@);
        c
    }

    fn is_eligible(&self, i: usize) -> (r: bool)
        requires
            self.wf(),
            i < self.tasks@.len(),
        ensures
            r == self.eligible(i as int),
    {
        let t = self.tasks[i];
        match t.state {
            TaskState::Ready => {},
            _ => {
                return false;
            },
        }
        if t.priority as i16 <= self.ceiling_without(i) {
            return false;
        }
        match self.running {
            Some(c) => t.priority > self.tasks[c].priority,
            None => true,
        }
    }

    /// The task to switch to, if any: the first of the highest priority
    /// among the ready tasks that the held locks and the running task let run.
    pub fn select(&self) -> (r: Option<usize>)
        requires
            self.wf(),
        ensures
            r is Some ==> self.best(r->Some_0 as int),
            r is None ==> forall|j: int| !#[trigger] self.eligible(j),
    {
        let mut best: Option<usize> = None;
        let mut i: usize = 0;
        while i < self.tasks.len()
            invariant
                self.wf(),
                i <= self.tasks@.len(),
                best is Some ==> best->Some_0 < i && self.eligible(best->Some_0 as int),
                forall|j: int|
                    #![trigger self.eligible(j)]
                    0 <= j < i && self.eligible(j) ==> best is Some && (self.tasks@[j].priority
                        < self.tasks@[best->Some_0 as int].priority || (self.tasks@[j].priority
                        == self.tasks@[best->Some_0 as int].priority && best->Some_0 <= j)),
            decreases self.tasks@.len() - i,
        {
            if self.is_eligible(i) {
                match best {
                    Some(b) => {
                        if self.tasks[i].priority > self.tasks[b].priority {
                            best = Some(i);
                        }
                    },
                    None => {
                        best = Some(i);
                    },
                }
            }
            i = i + 1;
        }
        best
    }

    /// A suspension point: switches to the task that [`Scheduler::select`]
    /// picks, if any. A running task that is switched away from is ready
    /// again and resumes later where it stopped.
    pub fn dispatch(&mut self) -> (r: Option<usize>)
        requires
            old(self).wf(),
        ensures
            final(self).wf(),
            final(self).locks@ == old(self).locks@,
            r is None ==> *final(self) == *old(self) && forall|j: int| !#[trigger] old(self).eligible(j),
            r is Some ==> {
                let n = r->Some_0 as int;
                &&& old(self).best(n)
                &&& final(self).running == r
                &&& final(self).tasks@ == match old(self).running {
                    Some(c) => old(self).tasks@.update(
                        c as int,
                        Task { state: TaskState::Ready, ..old(self).tasks@[c as int] },
                    ).update(n, Task { state: TaskState::Running, ..old(self).tasks@[n] }),
                    None => old(self).tasks@.update(
                        n,
                        Task { state: TaskState::Running, ..old(self).tasks@[n] },
                    ),
                }
            },
    {
        match self.select() {
            None => None,
            Some(n) => {
                match self.running {
                    Some(c) => {
                        let t = self.tasks[c];
                        self.tasks.set(c, Task { state: TaskState::Ready, ..t });
                    },
                    None => {},
                }
                let t = self.tasks[n];
                self.tasks.set(n, Task { state: TaskState::Running, ..t });
                self.running = Some(n);
                assert forall|i: int|
                    0 <= i < self.tasks@.len() && self.tasks@[i].state
                        == TaskState::Running implies self.running is Some && self.running->Some_0 as int
                        == i by {
                    if i == n as int {
                        assert(self.running == Some(n));
                    } else {
                        if old(self).running is Some && i == old(self).running->Some_0 as int {
                            assert(self.tasks@[i].state == TaskState::Ready);
                        } else {
                            assert(self.tasks@[i] == old(self).tasks@[i]);
                            assert(old(self).tasks@[i].state == TaskState::Running ==> old(
                                self,
                            ).running is Some && old(self).running->Some_0 as int == i);
                        }
                    }
                }
                Some(n)
            },
        }
    }

    /// Whether task `t` holds a lock.
    pub open spec fn holds_lock(&self, t: int) -> bool {
        exists|k: int| 0 <= k < self.locks@.len() && #[trigger] self.locks@[k].owner as int == t
    }

    fn owns_any(&self, t: usize) -> (r: bool)
        ensures
            r == self.holds_lock(t as int),
    {
        let mut k: usize = 0;
        while k < self.locks.len()
            invariant
                k <= self.locks@.len(),
                forall|j: int| 0 <= j < k ==> #[trigger] self.locks@[j].owner != t,
            decreases self.locks@.len() - k,
        {
            if self.locks[k].owner == t {
                return true;
            }
            k = k + 1;
        }
        false
    }

    /// The running task locks a resource of ceiling `ceiling`.
    pub fn lock(&mut self, ceiling: u8) -> (r: Result<(), SchedError>)
        requires
            old(self).wf(),
        ensures
            final(self).wf(),
            final(self).tasks@ == old(self).tasks@,
            final(self).running == old(self).running,
            old(self).running is None ==> r == Err::<(), SchedError>(SchedError::NoRunningTask),
            old(self).running is Some && old(self).tasks@[old(self).running->Some_0 as int].priority
                > ceiling ==> r == Err::<(), SchedError>(SchedError::CeilingBelowPriority),
            r is Err ==> final(self).locks@ == old(self).locks@,
            r is Ok <==> old(self).running is Some && old(self).tasks@[old(
                self,
            ).running->Some_0 as int].priority <= ceiling,
            r is Ok ==> final(self).locks@ == old(self).locks@.push(
                HeldLock { owner: old(self).running->Some_0, ceiling },
            ),
    {
        match self.running {
            None => Err(SchedError::NoRunningTask),
            Some(t) => {
                if self.tasks[t].priority > ceiling {
                    return Err(SchedError::CeilingBelowPriority);
                }
                self.locks.push(HeldLock { owner: t, ceiling });
                assert forall|k: int| 0 <= k < self.locks@.len() implies #[trigger] self.locks@[k].owner
                    < self.tasks@.len() by {
                    if k < old(self).locks@.len() {
                        assert(self.locks@[k] == old(self).locks@[k]);
                    }
                }
                Ok(())
            },
        }
    }

    /// The running task releases its latest lock.
    pub fn unlock(&mut self) -> (r: Result<(), SchedError>)
        requires
            old(self).wf(),
        ensures
            final(self).wf(),
            final(self).tasks@ == old(self).tasks@,
            final(self).running == old(self).running,
            old(self).running is None ==> r == Err::<(), SchedError>(SchedError::NoRunningTask),
            r is Ok <==> old(self).running is Some && old(self).locks@.len() > 0
                && old(self).locks@.last().owner == old(self).running->Some_0,
            old(self).running is Some && !(r is Ok) ==> r == Err::<(), SchedError>(
                SchedError::NotLocked,
            ),
            r is Ok ==> final(self).locks@ == old(self).locks@.drop_last(),
            r is Err ==> final(self).locks@ == old(self).locks@,
    {
        match self.running {
            None => Err(SchedError::NoRunningTask),
            Some(t) => {
                let n = self.locks.len();
                if n == 0 || self.locks[n - 1].owner != t {
                    return Err(SchedError::NotLocked);
                }
                self.locks.pop();
                assert(self.locks@ =~= old(self).locks@.drop_last());
                assert forall|k: int| 0 <= k < self.locks@.len() implies #[trigger] self.locks@[k].owner
                    < self.tasks@.len() by {
                    assert(self.locks@[k] == old(self).locks@[k]);
                }
                Ok(())
            },
        }
    }

    /// Takes the running task off the processor into state `st`; it may not
    /// hold a lock.
    fn leave(&mut self, st: TaskState, wake_at: u64) -> (r: Result<(), SchedError>)
        requires
            old(self).wf(),
            st != TaskState::Running,
        ensures
            final(self).wf(),
            final(self).locks@ == old(self).locks@,
            old(self).running is None ==> r == Err::<(), SchedError>(SchedError::NoRunningTask),
            old(self).running is Some && old(self).holds_lock(old(self).running->Some_0 as int)
                ==> r == Err::<(), SchedError>(SchedError::LockHeld),
            r is Ok <==> old(self).running is Some && !old(self).holds_lock(
                old(self).running->Some_0 as int,
            ),
            r is Err ==> *final(self) == *old(self),
            r is Ok ==> final(self).running is None && final(self).tasks@ == old(self).tasks@.update(
                old(self).running->Some_0 as int,
                Task { state: st, wake_at, ..old(self).tasks@[old(self).running->Some_0 as int] },
            ),
    {
        match self.running {
            None => Err(SchedError::NoRunningTask),
            Some(t) => {
                if self.owns_any(t) {
                    return Err(SchedError::LockHeld);
                }
                let task = self.tasks[t];
                self.tasks.set(t, Task { state: st, wake_at, ..task });
                self.running = None;
                assert forall|i: int|
                    0 <= i < self.tasks@.len() && self.tasks@[i].state
                        == TaskState::Running implies self.running is Some && self.running->Some_0 as int
                        == i by {
                    if i != t as int {
                        assert(self.tasks@[i] == old(self).tasks@[i]);
                    }
                }
                Ok(())
            },
        }
    }

    /// The running task waits until time `deadline`.
    pub fn suspend_until(&mut self, deadline: u64) -> (r: Result<(), SchedError>)
        requires
            old(self).wf(),
        ensures
            final(self).wf(),
            final(self).locks@ == old(self).locks@,
            old(self).running is None ==> r == Err::<(), SchedError>(SchedError::NoRunningTask),
            old(self).running is Some && old(self).holds_lock(old(self).running->Some_0 as int)
                ==> r == Err::<(), SchedError>(SchedError::LockHeld),
            r is Ok <==> old(self).running is Some && !old(self).holds_lock(
                old(self).running->Some_0 as int,
            ),
            r is Err ==> *final(self) == *old(self),
            r is Ok ==> final(self).running is None && final(self).tasks@ == old(self).tasks@.update(
                old(self).running->Some_0 as int,
                Task {
                    state: TaskState::Suspended,
                    wake_at: deadline,
                    ..old(self).tasks@[old(self).running->Some_0 as int]
                },
            ),
    {
        self.leave(TaskState::Suspended, deadline)
    }

    /// The running task has finished.
    pub fn complete(&mut self) -> (r: Result<(), SchedError>)
        requires
            old(self).wf(),
        ensures
            final(self).wf(),
            final(self).locks@ == old(self).locks@,
            old(self).running is None ==> r == Err::<(), SchedError>(SchedError::NoRunningTask),
            old(self).running is Some && old(self).holds_lock(old(self).running->Some_0 as int)
                ==> r == Err::<(), SchedError>(SchedError::LockHeld),
            r is Ok <==> old(self).running is Some && !old(self).holds_lock(
                old(self).running->Some_0 as int,
            ),
            r is Err ==> *final(self) == *old(self),
            r is Ok ==> final(self).running is None && final(self).tasks@ == old(self).tasks@.update(
                old(self).running->Some_0 as int,
                Task {
                    state: TaskState::Completed,
                    ..old(self).tasks@[old(self).running->Some_0 as int]
                },
            ),
    {
        let w = match self.running {
            Some(t) => self.tasks[t].wake_at,
            None => 0,
        };
        self.leave(TaskState::Completed, w)
    }

    /// The timer reads `now`: every suspended task whose time has come is
    /// ready again.
    pub fn wake(&mut self, now: u64)
        requires
            old(self).wf(),
        ensures
            final(self).wf(),
            final(self).running == old(self).running,
            final(self).locks@ == old(self).locks@,
            final(self).tasks@.len() == old(self).tasks@.len(),
            forall|i: int|
                0 <= i < old(self).tasks@.len() ==> #[trigger] final(self).tasks@[i] == if old(
                    self,
                ).tasks@[i].state == TaskState::Suspended && old(self).tasks@[i].wake_at <= now {
                    Task { state: TaskState::Ready, ..old(self).tasks@[i] }
                } else {
                    old(self).tasks@[i]
                },
    {
        let mut i: usize = 0;
        while i < self.tasks.len()
            invariant
                self.wf(),
                i <= self.tasks@.len(),
                self.running == old(self).running,
                self.locks@ == old(self).locks@,
                self.tasks@.len() == old(self).tasks@.len(),
                forall|j: int|
                    0 <= j < old(self).tasks@.len() ==> #[trigger] self.tasks@[j] == if j < i && old(
                        self,
                    ).tasks@[j].state == TaskState::Suspended && old(self).tasks@[j].wake_at
                        <= now {
                        Task { state: TaskState::Ready, ..old(self).tasks@[j] }
                    } else {
                        old(self).tasks@[j]
                    },
            decreases self.tasks@.len() - i,
        {
            let t = self.tasks[i];
            match t.state {
                TaskState::Suspended => {
                    if t.wake_at <= now {
                        self.tasks.set(i, Task { state: TaskState::Ready, ..t });
                        assert forall|j: int|
                            0 <= j < self.tasks@.len() && self.tasks@[j].state
                                == TaskState::Running implies self.running is Some
                            && self.running->Some_0 as int == j by {
                            assert(j != i as int ==> self.tasks@[j] == old(self).tasks@[j]);
                        }
                    }
                },
                _ => {},
            }
            i = i + 1;
        }
    }

    /// Nothing runs and nothing can be switched to: the processor may wait
    /// for the next interrupt in low-power mode.
    pub fn is_idle(&self) -> (r: bool)
        requires
            self.wf(),
        ensures
            r == (self.running is None && forall|j: int| !#[trigger] self.eligible(j)),
    {
        match self.running {
            Some(_) => false,
            None => self.select().is_none(),
        }
    }
}

/// The highest ceiling excluding `t` is at least the ceiling of every lock
/// that another task holds.
proof fn lemma_ceiling_bound(locks: Seq<HeldLock>, t: int, k: int)
    requires
        0 <= k < locks.len(),
        locks[k].owner as int != t,
    ensures
        ceiling_excluding(locks, t) >= locks[k].ceiling as int,
    decreases locks.len(),
{
    if k < locks.len() - 1 {
        lemma_ceiling_bound(locks.drop_last(), t, k);
    }
}

/// While a task holds a lock on a resource, no other task of a priority up
/// to that resource's ceiling can be switched to, whatever its priority
/// relative to the holder's: the holder is never kept waiting by a task of
/// middle priority.
pub proof fn lemma_ceiling_blocks(s: Scheduler, k: int, m: int)
    requires
        s.wf(),
        0 <= k < s.locks@.len(),
        0 <= m < s.tasks@.len(),
        s.locks@[k].owner as int != m,
        s.tasks@[m].priority <= s.locks@[k].ceiling,
    ensures
        !s.eligible(m),
{
    lemma_ceiling_bound(s.locks@, m, k);
}

} // verus!