use swinder::sched::{HeldLock, SchedError, Scheduler, TaskState};

#[test]
fn highest_priority_ready_task_runs() {
    let mut s = Scheduler::new();
    let idle = s.add_task(1);
    let wind = s.add_task(2);
    let fault = s.add_task(3);
    assert!(s.is_idle());
    s.trigger(idle);
    s.trigger(wind);
    assert_eq!(s.dispatch(), Some(wind));
    assert_eq!(s.tasks[wind].state, TaskState::Running);
    assert_eq!(s.dispatch(), None);
    s.trigger(fault);
    assert_eq!(s.dispatch(), Some(fault));
    assert_eq!(s.tasks[wind].state, TaskState::Ready);
    assert_eq!(s.complete(), Ok(()));
    assert_eq!(s.dispatch(), Some(wind));
}

#[test]
fn equal_priorities_go_in_table_order() {
    let mut s = Scheduler::new();
    let a = s.add_task(2);
    let b = s.add_task(2);
    s.trigger(b);
    s.trigger(a);
    assert_eq!(s.select(), Some(a));
}

#[test]
fn lock_ceiling_keeps_middle_priority_out() {
    let mut s = Scheduler::new();
    let low = s.add_task(1);
    let mid = s.add_task(2);
    let high = s.add_task(4);
    s.trigger(low);
    assert_eq!(s.dispatch(), Some(low));
    assert_eq!(s.lock(3), Ok(()));
    assert_eq!(s.locks, vec![HeldLock { owner: low, ceiling: 3 }]);
    s.trigger(mid);
    assert_eq!(s.dispatch(), None);
    s.trigger(high);
    assert_eq!(s.dispatch(), Some(high));
    assert_eq!(s.complete(), Ok(()));
    // the holder resumes before the middle task
    assert_eq!(s.dispatch(), Some(low));
    assert_eq!(s.unlock(), Ok(()));
    assert_eq!(s.dispatch(), Some(mid));
}

#[test]
fn lock_errors() {
    let mut s = Scheduler::new();
    assert_eq!(s.lock(3), Err(SchedError::NoRunningTask));
    let t = s.add_task(5);
    s.trigger(t);
    s.dispatch();
    assert_eq!(s.lock(3), Err(SchedError::CeilingBelowPriority));
    assert_eq!(s.unlock(), Err(SchedError::NotLocked));
    assert_eq!(s.lock(5), Ok(()));
    assert_eq!(s.suspend_until(10), Err(SchedError::LockHeld));
    assert_eq!(s.complete(), Err(SchedError::LockHeld));
}

#[test]
fn suspended_task_wakes_at_deadline() {
    let mut s = Scheduler::new();
    let t = s.add_task(2);
    s.trigger(t);
    s.dispatch();
    assert_eq!(s.suspend_until(100), Ok(()));
    assert_eq!(s.tasks[t].state, TaskState::Suspended);
    assert!(s.is_idle());
    s.wake(99);
    assert_eq!(s.tasks[t].state, TaskState::Suspended);
    s.wake(100);
    assert_eq!(s.tasks[t].state, TaskState::Ready);
    assert_eq!(s.dispatch(), Some(t));
}
