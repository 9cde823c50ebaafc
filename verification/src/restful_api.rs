//! The response a reservation attempt is answered with, and how a decision
//! or refusal is rendered into one.

use vstd::prelude::*;

use crate::common::ReservationError;

verus! {

/// RESTful API JSON response concerning a reservation attempt.
pub struct ReservationResponse {
    pub is_reserved: bool,
    pub user_message: String,
}

impl ReservationResponse {
    pub fn new(is_reserved: bool, user_message: String) -> (resp: Self)
        ensures
            resp.is_reserved == is_reserved,
            resp.user_message@ == user_message@,
    {
        Self { is_reserved, user_message }
    }
}

/// The message a reservation outcome is reported with.
pub open spec fn spec_outcome_message(outcome: Result<bool, ReservationError>) -> Seq<char> {
    match outcome {
        Ok(true) => "reservation created"@,
        Ok(false) => "reservation not created"@,
        Err(refusal) => refusal.spec_message(),
    }
}

/// Render a processing outcome as a response: reserved only on an admitted
/// decision, with a message naming the decision or the refusal.
pub fn reservation_response_for(outcome: &Result<bool, ReservationError>) -> (resp:
    ReservationResponse)
    ensures
        resp.is_reserved == (*outcome == Ok::<bool, ReservationError>(true)),
        resp.user_message@ == spec_outcome_message(*outcome),
{
    match outcome {
        Ok(true) => ReservationResponse::new(true, "reservation created".to_owned()),
        Ok(false) => ReservationResponse::new(false, "reservation not created".to_owned()),
        Err(refusal) => ReservationResponse::new(false, refusal.message().to_owned()),
    }
}

} // verus!
