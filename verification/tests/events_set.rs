use papi_bindings::counter::Counter;
use papi_bindings::events_set::EventsSet;
use papi_bindings::events_set::SetState;
use papi_bindings::ErrorKind;
use papi_bindings::PapiError;

fn two_counters() -> Vec<Counter> {
    vec![
        Counter::from_resolution("ix86arch::INSTRUCTION_RETIRED", 0, 101).unwrap(),
        Counter::from_resolution("ix86arch::MISPREDICTED_BRANCH_RETIRED", 0, 102).unwrap(),
    ]
}

#[test]
fn resolution_failure_is_event_not_found() {
    let r = Counter::from_resolution("nonexistent::EVENT", -7, 0);
    let err = r.unwrap_err();
    assert_eq!(err, PapiError { code: -7 });
    assert_eq!(err.kind(), ErrorKind::EventNotFound);
}

#[test]
fn resolution_success_keeps_name_and_code() {
    let c = Counter::from_resolution("ix86arch::INSTRUCTION_RETIRED", 0, 17).unwrap();
    assert_eq!(c.name, "ix86arch::INSTRUCTION_RETIRED");
    assert_eq!(c.code, 17);
    let copy = c.clone();
    assert_eq!(copy.name, c.name);
    assert_eq!(copy.code, c.code);
}

#[test]
fn new_set_is_created_with_counters_in_order() {
    let set = EventsSet::new(&two_counters());
    assert_eq!(set.state(), SetState::Created);
    assert_eq!(set.len(), 2);
    assert_eq!(set.codes(), vec![101, 102]);
}

#[test]
fn stop_before_start_is_rejected() {
    let set = EventsSet::new(&two_counters());
    let err = set.request_stop().unwrap_err();
    assert_eq!(err, PapiError { code: -9 });
    assert_eq!(err.kind(), ErrorKind::InvalidStateTransition);
}

#[test]
fn double_start_is_rejected() {
    let mut set = EventsSet::new(&two_counters());
    assert_eq!(set.request_start(), Ok(()));
    assert_eq!(set.confirm_start(0), Ok(()));
    assert_eq!(set.state(), SetState::Running);
    let err = set.request_start().unwrap_err();
    assert_eq!(err, PapiError { code: -10 });
    assert_eq!(err.kind(), ErrorKind::InvalidStateTransition);
}

#[test]
fn stop_after_stop_is_rejected() {
    let mut set = EventsSet::new(&two_counters());
    set.request_start().unwrap();
    set.confirm_start(0).unwrap();
    set.request_stop().unwrap();
    set.confirm_stop(0, vec![1, 2]).unwrap();
    assert_eq!(set.state(), SetState::Stopped);
    let err = set.request_stop().unwrap_err();
    assert_eq!(err, PapiError { code: -9 });
    assert_eq!(err.kind(), ErrorKind::InvalidStateTransition);
}

#[test]
fn stop_returns_one_count_per_counter_in_order() {
    let counters = two_counters();
    let mut set = EventsSet::new(&counters);
    set.request_start().unwrap();
    set.confirm_start(0).unwrap();
    set.request_stop().unwrap();
    let counts = set.confirm_stop(0, vec![31415, 27]).unwrap();
    assert_eq!(counts.len(), counters.len());
    assert_eq!(counts, vec![31415, 27]);
    assert_eq!(set.codes(), vec![101, 102]);
}

#[test]
fn failed_start_leaves_the_set_startable() {
    let mut set = EventsSet::new(&two_counters());
    set.request_start().unwrap();
    // Slot saturation: the documented response is to retry.
    let err = set.confirm_start(-8).unwrap_err();
    assert_eq!(err, PapiError { code: -8 });
    assert!(err.is_retryable());
    assert_eq!(set.state(), SetState::Created);
    assert_eq!(set.request_start(), Ok(()));
    assert_eq!(set.confirm_start(0), Ok(()));
    assert_eq!(set.state(), SetState::Running);
}

#[test]
fn failed_stop_leaves_the_set_running() {
    let mut set = EventsSet::new(&two_counters());
    set.request_start().unwrap();
    set.confirm_start(0).unwrap();
    set.request_stop().unwrap();
    let err = set.confirm_stop(-3, vec![0, 0]).unwrap_err();
    assert_eq!(err, PapiError { code: -3 });
    assert_eq!(set.state(), SetState::Running);
}

#[test]
fn restart_after_stop_counts_again() {
    let mut set = EventsSet::new(&two_counters());
    for round in 1..4u64 {
        set.request_start().unwrap();
        set.confirm_start(0).unwrap();
        set.request_stop().unwrap();
        let counts = set.confirm_stop(0, vec![round, round * 10]).unwrap();
        assert_eq!(counts, vec![round, round * 10]);
    }
    assert_eq!(set.state(), SetState::Stopped);
}

#[test]
fn release_is_allowed_only_while_not_running() {
    let mut set = EventsSet::new(&two_counters());
    assert!(set.release_allowed());
    set.request_start().unwrap();
    set.confirm_start(0).unwrap();
    assert!(!set.release_allowed());
    set.request_stop().unwrap();
    set.confirm_stop(0, vec![0, 0]).unwrap();
    assert!(set.release_allowed());
}
