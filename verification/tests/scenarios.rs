//! Scenario and component tests: concrete schedules with known decisions,
//! the validators' edges, each refusal kind, and the response rendering.

use arbiter::evaluate_reservation_request;
use arbiter::process_reservation;
use arbiter::reservation_response_for;
use arbiter::schedule_one;
use arbiter::schedule_two;
use arbiter::starts_in_future;
use arbiter::test_reservation_alpha;
use arbiter::validate_unix_epoch;
use arbiter::CapacitySchedule;
use arbiter::ReservationError;
use arbiter::ReservationRequest;

fn empty_schedule() -> CapacitySchedule {
    CapacitySchedule { reservations: Vec::new() }
}

fn single_window_schedule() -> CapacitySchedule {
    CapacitySchedule { reservations: vec![ReservationRequest::new(1000, 2000, 64, 7)] }
}

fn two_window_schedule() -> CapacitySchedule {
    CapacitySchedule {
        reservations: vec![
            ReservationRequest::new(1000, 2000, 96, 7),
            ReservationRequest::new(2000, 3000, 32, 7),
        ],
    }
}

// An exact fit is admitted: 64 requested of a 64-unit window.
#[test]
fn test_exact_fit_admitted() {
    let request = ReservationRequest::new(1000, 2000, 64, 1);
    let decision =
        evaluate_reservation_request(&request, &single_window_schedule(), &empty_schedule());
    assert_eq!(decision, Ok(true));
}

// One unit over the ceiling is denied.
#[test]
fn test_one_over_ceiling_denied() {
    let request = ReservationRequest::new(1000, 2000, 65, 1);
    let decision =
        evaluate_reservation_request(&request, &single_window_schedule(), &empty_schedule());
    assert_eq!(decision, Ok(false));
}

// A request spanning two windows is bound by the tighter one: the binding
// ceiling is 32, from the second window, so 32 fits...
#[test]
fn test_spanning_request_bound_by_tighter_window() {
    let request = ReservationRequest::new(1500, 2500, 32, 1);
    let decision =
        evaluate_reservation_request(&request, &two_window_schedule(), &empty_schedule());
    assert_eq!(decision, Ok(true));
}

// ...and 33 does not, even though the first window alone could carry it.
#[test]
fn test_spanning_request_over_tighter_window_denied() {
    let request = ReservationRequest::new(1500, 2500, 33, 1);
    let decision =
        evaluate_reservation_request(&request, &two_window_schedule(), &empty_schedule());
    assert_eq!(decision, Ok(false));
}

// A request beginning before the schedule's coverage is out of scope.
#[test]
fn test_before_coverage_out_of_scope() {
    let request = ReservationRequest::new(500, 1500, 10, 1);
    let decision =
        evaluate_reservation_request(&request, &two_window_schedule(), &empty_schedule());
    assert_eq!(decision, Err(ReservationError::OutOfScope));
}

// Two admissible-looking requests of 20 each against a 30-unit window: the
// store is borrowed exclusively for each evaluate-and-commit, so the second
// request sees the first one's consumption and exactly one is admitted.
#[test]
fn test_serialized_admissions_exclude_each_other() {
    let schedule =
        CapacitySchedule { reservations: vec![ReservationRequest::new(1000, 2000, 30, 7)] };
    let mut user_reservations = empty_schedule();
    let first = ReservationRequest::new(1000, 2000, 20, 1);
    let second = ReservationRequest::new(1000, 2000, 20, 2);
    let first_admitted = process_reservation(&first, &schedule, &mut user_reservations).unwrap();
    let second_admitted = process_reservation(&second, &schedule, &mut user_reservations).unwrap();
    assert!(first_admitted);
    assert!(!second_admitted);
    assert_eq!(user_reservations.reservations.len(), 1);
}

// Evaluating the same request twice against an unchanged store yields the
// same decision.
#[test]
fn test_evaluation_is_idempotent() {
    let request = ReservationRequest::new(1500, 2500, 32, 1);
    let schedule = two_window_schedule();
    let store = empty_schedule();
    let first = evaluate_reservation_request(&request, &schedule, &store);
    let second = evaluate_reservation_request(&request, &schedule, &store);
    assert_eq!(first, second);
}

// Overlap is half-open: a window ending exactly at the request's start does
// not bind it. With windows of 16 and 32 units meeting at 2000, a request
// for [2000, 3000) is bound only by the 32-unit window.
#[test]
fn test_touching_window_does_not_bind() {
    let schedule = CapacitySchedule {
        reservations: vec![
            ReservationRequest::new(1000, 2000, 16, 7),
            ReservationRequest::new(2000, 3000, 32, 7),
        ],
    };
    let request = ReservationRequest::new(2000, 3000, 32, 1);
    let decision = evaluate_reservation_request(&request, &schedule, &empty_schedule());
    assert_eq!(decision, Ok(true));
}

// Overlap is half-open on the store side too: a reservation ending exactly
// at the request's start, or starting exactly at its end, consumes nothing
// of it.
#[test]
fn test_touching_reservations_consume_nothing() {
    let schedule = CapacitySchedule {
        reservations: vec![ReservationRequest::new(1000, 4000, 40, 7)],
    };
    let store = CapacitySchedule {
        reservations: vec![
            ReservationRequest::new(1000, 2000, 40, 2),
            ReservationRequest::new(3000, 4000, 40, 3),
        ],
    };
    let request = ReservationRequest::new(2000, 3000, 40, 1);
    let decision = evaluate_reservation_request(&request, &schedule, &store);
    assert_eq!(decision, Ok(true));
}

// A request whose window ends at or before it begins is an invalid
// timeframe, whatever else is wrong with it.
#[test]
fn test_empty_window_invalid_timeframe() {
    let request = ReservationRequest::new(1000, 1000, 10, 1);
    let decision =
        evaluate_reservation_request(&request, &single_window_schedule(), &empty_schedule());
    assert_eq!(decision, Err(ReservationError::InvalidTimeframe));
}

// A zero start time is not a valid epoch.
#[test]
fn test_zero_start_invalid_epoch() {
    let request = ReservationRequest::new(0, 1000, 10, 1);
    let decision =
        evaluate_reservation_request(&request, &single_window_schedule(), &empty_schedule());
    assert_eq!(decision, Err(ReservationError::InvalidEpoch));
}

// An end time at the 100-year ceiling is not a valid epoch.
#[test]
fn test_century_end_invalid_epoch() {
    let request = ReservationRequest::new(1000, 3153600000, 10, 1);
    let decision =
        evaluate_reservation_request(&request, &single_window_schedule(), &empty_schedule());
    assert_eq!(decision, Err(ReservationError::InvalidEpoch));
}

// A schedule with no windows cannot evaluate anything.
#[test]
fn test_empty_schedule_rejected() {
    let request = ReservationRequest::new(1000, 2000, 10, 1);
    let decision = evaluate_reservation_request(&request, &empty_schedule(), &empty_schedule());
    assert_eq!(decision, Err(ReservationError::EmptySchedule));
}

// A gap between windows leaves a request in scope but with nothing
// overlapping: a configuration error, surfaced distinctly.
#[test]
fn test_gap_yields_no_applicable_capacity() {
    let gapped = CapacitySchedule {
        reservations: vec![
            ReservationRequest::new(1000, 2000, 64, 7),
            ReservationRequest::new(3000, 4000, 64, 7),
        ],
    };
    let request = ReservationRequest::new(2000, 3000, 10, 1);
    let decision = evaluate_reservation_request(&request, &gapped, &empty_schedule());
    assert_eq!(decision, Err(ReservationError::NoApplicableCapacity));
}

// The epoch validator accepts exactly the open range between zero and the
// 100-year ceiling.
#[test]
fn test_validate_unix_epoch_edges() {
    assert_eq!(validate_unix_epoch(0), Err(ReservationError::InvalidEpoch));
    assert_eq!(validate_unix_epoch(1), Ok(()));
    assert_eq!(validate_unix_epoch(3153599999), Ok(()));
    assert_eq!(validate_unix_epoch(3153600000), Err(ReservationError::InvalidEpoch));
}

// A reservation must begin strictly after the supplied current time.
#[test]
fn test_starts_in_future_edges() {
    assert_eq!(starts_in_future(100, 50), Ok(()));
    assert_eq!(starts_in_future(100, 100), Err(ReservationError::InvalidTimeframe));
    assert_eq!(starts_in_future(50, 100), Err(ReservationError::InvalidTimeframe));
}

// The sample schedules hold what their descriptions say.
#[test]
fn test_sample_schedules_contents() {
    let alpha = test_reservation_alpha();
    assert_eq!(alpha, ReservationRequest::new(1707165008, 1708374608, 64, 42));

    let one = schedule_one();
    assert_eq!(one.reservations.len(), 4);
    assert_eq!(one.reservations[0], alpha);
    assert_eq!(one.reservations[1], ReservationRequest::new(1708374608, 1710793808, 96, 88));
    assert_eq!(one.reservations[2], ReservationRequest::new(1710793808, 1711398608, 32, 88));
    assert_eq!(one.reservations[3], ReservationRequest::new(1711398608, 1713213008, 128, 88));

    let two = schedule_two();
    assert_eq!(two.reservations.len(), 6);
    assert_eq!(two.reservations[0], alpha);
    assert_eq!(two.reservations[5], ReservationRequest::new(1712608208, 1714422608, 60, 88));
}

// Outcomes are rendered with the decision and a message naming it.
#[test]
fn test_reservation_response_rendering() {
    let created = reservation_response_for(&Ok(true));
    assert!(created.is_reserved);
    assert_eq!(created.user_message, "reservation created");

    let denied = reservation_response_for(&Ok(false));
    assert!(!denied.is_reserved);
    assert_eq!(denied.user_message, "reservation not created");

    let refused = reservation_response_for(&Err(ReservationError::InvalidTimeframe));
    assert!(!refused.is_reserved);
    assert_eq!(refused.user_message, "reservation request begins at or after it ends");

    let out_of_scope = reservation_response_for(&Err(ReservationError::OutOfScope));
    assert!(!out_of_scope.is_reserved);
    assert_eq!(out_of_scope.user_message, "reservation request is outside the schedule's scope");
}
