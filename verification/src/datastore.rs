//! Known capacity schedules: the sample data the store is seeded with, and
//! the reservation the tests lean on.

use vstd::prelude::*;

use crate::common::CapacitySchedule;
use crate::common::ReservationRequest;

verus! {

/// Test reservation request.
///
/// This is based off Schedule 1's first reservation.
pub fn test_reservation_alpha() -> (r: ReservationRequest)
    ensures
        r == (ReservationRequest {
            start_time: 1707165008,
            end_time: 1708374608,
            capacity_amount: 64,
            user_id: 42,
        }),
{
    ReservationRequest::new(1707165008, 1708374608, 64, 42)
}

/// What Schedule 1 holds, window by window.
pub open spec fn spec_schedule_one() -> Seq<ReservationRequest> {
    seq![
        ReservationRequest {
            start_time: 1707165008,
            end_time: 1708374608,
            capacity_amount: 64,
            user_id: 42,
        },
        ReservationRequest {
            start_time: 1708374608,
            end_time: 1710793808,
            capacity_amount: 96,
            user_id: 88,
        },
        ReservationRequest {
            start_time: 1710793808,
            end_time: 1711398608,
            capacity_amount: 32,
            user_id: 88,
        },
        ReservationRequest {
            start_time: 1711398608,
            end_time: 1713213008,
            capacity_amount: 128,
            user_id: 88,
        },
    ]
}

/// - Schedule 1
///    - `{1707165008, 1708374608, 64}`
///    - `{1708374608, 1710793808, 96}`
///    - `{1710793808, 1711398608, 32}`
///    - `{1711398608, 1713213008, 128}`
pub fn schedule_one() -> (s: CapacitySchedule)
    ensures
        s@ == spec_schedule_one(),
{
    // Assume that `user_id` "88" is the on-site maintenance team.
    let mut reservations: Vec<ReservationRequest> = Vec::new();
    reservations.push(test_reservation_alpha());
    reservations.push(ReservationRequest::new(1708374608, 1710793808, 96, 88));
    reservations.push(ReservationRequest::new(1710793808, 1711398608, 32, 88));
    reservations.push(ReservationRequest::new(1711398608, 1713213008, 128, 88));
    proof {
        assert(reservations@ =~= spec_schedule_one());
    }
    CapacitySchedule { reservations }
}

/// What Schedule 2 holds, window by window.
pub open spec fn spec_schedule_two() -> Seq<ReservationRequest> {
    seq![
        ReservationRequest {
            start_time: 1707165008,
            end_time: 1708374608,
            capacity_amount: 64,
            user_id: 42,
        },
        ReservationRequest {
            start_time: 1707769808,
            end_time: 1708979408,
            capacity_amount: 80,
            user_id: 88,
        },
        ReservationRequest {
            start_time: 1708979408,
            end_time: 1709584208,
            capacity_amount: 40,
            user_id: 88,
        },
        ReservationRequest {
            start_time: 1709584208,
            end_time: 1712003408,
            capacity_amount: 100,
            user_id: 88,
        },
        ReservationRequest {
            start_time: 1712003408,
            end_time: 1712608208,
            capacity_amount: 20,
            user_id: 88,
        },
        ReservationRequest {
            start_time: 1712608208,
            end_time: 1714422608,
            capacity_amount: 60,
            user_id: 88,
        },
    ]
}

/// - Schedule 2
///    - `{1707165008, 1708374608, 64}`
///    - `{1707769808, 1708979408, 80}`
///    - `{1708979408, 1709584208, 40}`
///    - `{1709584208, 1712003408, 100}`
///    - `{1712003408, 1712608208, 20}`
///    - `{1712608208, 1714422608, 60}`
pub fn schedule_two() -> (s: CapacitySchedule)
    ensures
        s@ == spec_schedule_two(),
{
    // Assume that `user_id` "88" is the on-site maintenance team.
    let mut reservations: Vec<ReservationRequest> = Vec::new();
    reservations.push(test_reservation_alpha());
    reservations.push(ReservationRequest::new(1707769808, 1708979408, 80, 88));
    reservations.push(ReservationRequest::new(1708979408, 1709584208, 40, 88));
    reservations.push(ReservationRequest::new(1709584208, 1712003408, 100, 88));
    reservations.push(ReservationRequest::new(1712003408, 1712608208, 20, 88));
    reservations.push(ReservationRequest::new(1712608208, 1714422608, 60, 88));
    proof {
        assert(reservations@ =~= spec_schedule_two());
    }
    CapacitySchedule { reservations }
}

} // verus!
