use derived_authority::errors::InvocationError;
use derived_authority::handler::{handle, HandlerState, TraceEvent, MAX_WORK};

#[test]
fn nine_units_of_work() {
    let mut trace = Vec::new();
    let r = handle(9, MAX_WORK, &mut trace);
    assert_eq!(r, Ok(HandlerState::Done));
    assert_eq!(trace.len(), 9);
    let expected: Vec<TraceEvent> =
        (1..=9).rev().map(|counter| TraceEvent::Work { counter }).collect();
    assert_eq!(trace, expected);
}

#[test]
fn boundary_counter_is_accepted() {
    let mut trace = Vec::new();
    let r = handle(10, MAX_WORK, &mut trace);
    assert_eq!(r, Ok(HandlerState::Done));
    assert_eq!(trace.len(), 10);
}

#[test]
fn counter_over_the_ceiling_is_rejected_before_any_work() {
    let mut trace = Vec::new();
    let r = handle(11, MAX_WORK, &mut trace);
    assert_eq!(r, Err(InvocationError::PolicyViolation));
    assert!(trace.is_empty());
}

#[test]
fn terminal_counter_performs_one_unit() {
    let mut trace = Vec::new();
    let r = handle(0, MAX_WORK, &mut trace);
    assert_eq!(r, Ok(HandlerState::Done));
    assert_eq!(trace, vec![TraceEvent::Work { counter: 0 }]);
}

#[test]
fn ceiling_is_overridable() {
    let mut trace = Vec::new();
    let r = handle(5, 3, &mut trace);
    assert_eq!(r, Err(InvocationError::PolicyViolation));
    assert!(trace.is_empty());
    let r = handle(3, 3, &mut trace);
    assert_eq!(r, Ok(HandlerState::Done));
    assert_eq!(trace.len(), 3);
}
