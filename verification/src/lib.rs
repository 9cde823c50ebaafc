//! Arbiter: an admission-control engine for a finite, time-varying resource.
//!
//! A capacity schedule describes, window by window, how much total capacity
//! exists; accepted user reservations consume it. The engine decides whether a
//! new request can be admitted without over-committing any instant of its
//! window.

pub mod common;
pub mod datastore;
pub mod hostess;
pub mod laws;
pub mod restful_api;

pub use common::CapacitySchedule;
pub use common::ReservationError;
pub use common::ReservationRequest;
pub use datastore::schedule_one;
pub use datastore::schedule_two;
pub use datastore::test_reservation_alpha;
pub use hostess::evaluate_reservation_request;
pub use hostess::in_schedule_scope;
pub use hostess::process_reservation;
pub use hostess::starts_in_future;
pub use hostess::validate_unix_epoch;
pub use restful_api::reservation_response_for;
pub use restful_api::ReservationResponse;
