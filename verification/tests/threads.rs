use preempt_core::scheduler::Scheduler;
use preempt_core::thread::{Error, State, ThreadRef};

#[test]
fn fresh_handle_is_ready_with_one_reference() {
    let thread = ThreadRef::new(4096, 7).unwrap();
    assert_eq!(thread.state(), State::Ready);
    assert_eq!(thread.ref_count(), 1);
    assert_eq!(thread.id(), 7);
    assert_eq!(thread.stack_size(), 4096);
}

#[test]
fn set_state_is_applied_whole() {
    let mut thread = ThreadRef::new(1024, 0).unwrap();
    for state in [
        State::Blocked,
        State::Suspended,
        State::Running,
        State::Exited,
        State::Ready,
    ] {
        thread.set_state(state);
        assert_eq!(thread.state(), state);
        assert_eq!(thread.ref_count(), 1);
    }
}

#[test]
fn resume_from_blocked_then_exit() {
    // A thread created Blocked with one reference; resume must leave it
    // Ready with two, its identifier visible in the scheduler's push log,
    // and the later exit must give the run queue's reference back.
    let mut scheduler = Scheduler::new();
    let mut thread = ThreadRef::new(4096, 7).unwrap();
    thread.set_state(State::Blocked);
    assert_eq!(thread.ref_count(), 1);

    assert_eq!(thread.resume(&mut scheduler), Ok(()));
    assert_eq!(thread.state(), State::Ready);
    assert_eq!(thread.ref_count(), 2);
    assert_eq!(scheduler.len(), 1);
    assert_eq!(scheduler.get(0), 7);

    assert_eq!(thread.exit(), Ok(()));
    assert_eq!(thread.ref_count(), 1);
}

#[test]
fn resume_from_suspended() {
    let mut scheduler = Scheduler::new();
    let mut thread = ThreadRef::new(2048, 11).unwrap();
    thread.set_state(State::Suspended);

    assert_eq!(thread.resume(&mut scheduler), Ok(()));
    assert_eq!(thread.state(), State::Ready);
    assert_eq!(thread.ref_count(), 2);
    assert_eq!(scheduler.len(), 1);
    assert_eq!(scheduler.get(0), 11);
}

#[test]
fn resume_exit_pair_is_count_neutral() {
    let mut scheduler = Scheduler::new();
    let mut thread = ThreadRef::new(8192, 3).unwrap();
    thread.set_state(State::Blocked);
    let before = thread.ref_count();

    thread.resume(&mut scheduler).unwrap();
    thread.exit().unwrap();

    assert_eq!(thread.ref_count(), before);
}

#[test]
fn exit_on_released_handle_is_a_noop_error() {
    let mut thread = ThreadRef::new(1024, 1).unwrap();
    assert_eq!(thread.exit(), Ok(()));
    assert_eq!(thread.ref_count(), 0);
    assert_eq!(thread.exit(), Err(Error::Released));
    assert_eq!(thread.ref_count(), 0);
}

#[test]
fn push_log_keeps_resume_order() {
    let mut scheduler = Scheduler::new();
    let mut first = ThreadRef::new(1024, 21).unwrap();
    let mut second = ThreadRef::new(1024, 22).unwrap();
    first.set_state(State::Blocked);
    second.set_state(State::Suspended);

    first.resume(&mut scheduler).unwrap();
    second.resume(&mut scheduler).unwrap();

    assert_eq!(scheduler.len(), 2);
    assert_eq!(scheduler.get(0), 21);
    assert_eq!(scheduler.get(1), 22);
}

#[test]
fn empty_scheduler_has_no_log() {
    let scheduler = Scheduler::new();
    assert_eq!(scheduler.len(), 0);
}
