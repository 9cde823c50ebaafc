//! Common structs for Arbiter: requests, schedules, and the error taxonomy.

use vstd::prelude::*;

verus! {

/// A capacity reservation request.
///
/// This is used for reservation logic, test creation, and datastore retrieval.
/// It can represent a request for a portion of a resource or a portion that's
/// already been allocated. Timestamps are seconds since the Unix epoch; the
/// window is half-open: `[start_time, end_time)`.
#[derive(Clone, Copy, Debug, PartialEq, Eq, Structural)]
pub struct ReservationRequest {
    pub start_time: u32,
    pub end_time: u32,
    pub capacity_amount: u32,
    pub user_id: u32,
}

impl ReservationRequest {
    /// Create a new `ReservationRequest`.
    ///
    /// # Arguments
    /// - `start_time`: Reservation start time, in Unix epoch format.
    /// - `end_time`: Reservation end time, in Unix epoch format.
    /// - `capacity_amount`: Amount of resource the user would like allocated.
    /// - `user_id`: The requester's unique identifier.
    pub fn new(start_time: u32, end_time: u32, capacity_amount: u32, user_id: u32) -> (r: Self)
        ensures
            r == (ReservationRequest { start_time, end_time, capacity_amount, user_id }),
    {
        Self { start_time, end_time, capacity_amount, user_id }
    }
}

/// A capacity schedule for a resource: an order-irrelevant collection of
/// capacity windows (or of accepted user reservations, which share the shape).
pub struct CapacitySchedule {
    pub reservations: Vec<ReservationRequest>,
}

impl View for CapacitySchedule {
    type V = Seq<ReservationRequest>;

    open spec fn view(&self) -> Seq<ReservationRequest> {
        self.reservations@
    }
}

/// Why a reservation request was refused outright, as opposed to denied for
/// want of capacity.
#[derive(Clone, Copy, Debug, PartialEq, Eq, Structural)]
pub enum ReservationError {
    /// The request ends at or before it begins.
    InvalidTimeframe,
    /// A timestamp lies outside the valid epoch range.
    InvalidEpoch,
    /// The capacity schedule holds no windows at all.
    EmptySchedule,
    /// The request falls outside the schedule's temporal coverage.
    OutOfScope,
    /// No capacity window overlaps the request, despite it being in scope:
    /// the schedule has a gap, which is a configuration error.
    NoApplicableCapacity,
    /// The backing store failed while reading or committing.
    StoreFailure,
}

impl ReservationError {
    /// A short human-readable description, for rationale strings.
    pub fn message(&self) -> (m: &'static str)
        ensures
            m@ == self.spec_message(),
    {
        match self {
            ReservationError::InvalidTimeframe => "reservation request begins at or after it ends",
            ReservationError::InvalidEpoch => "timestamp is not a valid Unix epoch",
            ReservationError::EmptySchedule => "capacity schedule has no reservations",
            ReservationError::OutOfScope => "reservation request is outside the schedule's scope",
            ReservationError::NoApplicableCapacity => "no applicable reservation capacities were found",
            ReservationError::StoreFailure => "the reservation store failed",
        }
    }

    /// What `message` returns, variant by variant.
    pub open spec fn spec_message(&self) -> Seq<char> {
        match self {
            ReservationError::InvalidTimeframe => "reservation request begins at or after it ends"@,
            ReservationError::InvalidEpoch => "timestamp is not a valid Unix epoch"@,
            ReservationError::EmptySchedule => "capacity schedule has no reservations"@,
            ReservationError::OutOfScope => "reservation request is outside the schedule's scope"@,
            ReservationError::NoApplicableCapacity => "no applicable reservation capacities were found"@,
            ReservationError::StoreFailure => "the reservation store failed"@,
        }
    }
}

} // verus!
