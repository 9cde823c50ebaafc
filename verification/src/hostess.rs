//! The admission-control engine: request validation, scope checking, overlap
//! resolution, and the capacity arbitration that admits or denies a request.

use vstd::prelude::*;

use crate::common::CapacitySchedule;
use crate::common::ReservationError;
use crate::common::ReservationRequest;

verus! {

/// Validity ceiling for timestamps: 100 years of seconds from the Unix epoch.
///
/// 365 * 24 * 60 * 60 = 31,536,000 seconds in a year; times 100 is
/// 3,153,600,000 seconds, which keeps timestamps within a `u32`.
pub const EPOCH_CENTURY: u32 = 3153600000;

/// A timestamp is a valid Unix epoch when it is positive and lies before the
/// 100-year ceiling.
pub open spec fn spec_valid_epoch(suspect_epoch: u32) -> bool {
    0 < suspect_epoch < EPOCH_CENTURY
}

/// Half-open interval overlap: the request window `[request_start,
/// request_end)` intersects the existing window `[start_time, end_time)`.
/// Touching endpoints do not count as overlap.
pub open spec fn spec_overlaps(
    existing: ReservationRequest,
    request_start: u32,
    request_end: u32,
) -> bool {
    request_start < existing.end_time && request_end > existing.start_time
}

/// The earliest start time over a non-empty collection of reservations.
pub open spec fn spec_schedule_begin(reservations: Seq<ReservationRequest>) -> int
    recommends
        reservations.len() > 0,
    decreases reservations.len(),
{
    if reservations.len() <= 1 {
        reservations[0].start_time as int
    } else {
        let rest = spec_schedule_begin(reservations.drop_last());
        if (reservations.last().start_time as int) < rest {
            reservations.last().start_time as int
        } else {
            rest
        }
    }
}

/// The latest end time over a non-empty collection of reservations.
pub open spec fn spec_schedule_end(reservations: Seq<ReservationRequest>) -> int
    recommends
        reservations.len() > 0,
    decreases reservations.len(),
{
    if reservations.len() <= 1 {
        reservations[0].end_time as int
    } else {
        let rest = spec_schedule_end(reservations.drop_last());
        if (reservations.last().end_time as int) > rest {
            reservations.last().end_time as int
        } else {
            rest
        }
    }
}

/// A request is in scope when its window lies within the schedule's temporal
/// coverage, from the earliest start to the latest end.
pub open spec fn spec_in_scope(
    request: ReservationRequest,
    schedule: Seq<ReservationRequest>,
) -> bool
    recommends
        schedule.len() > 0,
{
    spec_schedule_begin(schedule) <= request.start_time as int
        && request.end_time as int <= spec_schedule_end(schedule)
}

/// What the scope checker decides: `EmptySchedule` on a schedule with no
/// reservations (checked before the bounds, which are undefined on empty
/// input), `OutOfScope` on a window outside the schedule's coverage, and
/// `Ok(true)` otherwise.
pub open spec fn spec_scope_result(
    request: ReservationRequest,
    schedule: Seq<ReservationRequest>,
) -> Result<bool, ReservationError> {
    if schedule.len() == 0 {
        Err(ReservationError::EmptySchedule)
    } else if !spec_in_scope(request, schedule) {
        Err(ReservationError::OutOfScope)
    } else {
        Ok(true)
    }
}

/// The binding capacity constraint: the minimum capacity amount over the
/// reservations whose windows overlap `[request_start, request_end)`, or
/// `None` when nothing overlaps.
pub open spec fn spec_capacity_ceiling(
    reservations: Seq<ReservationRequest>,
    request_start: u32,
    request_end: u32,
) -> Option<u32>
    decreases reservations.len(),
{
    if reservations.len() == 0 {
        None
    } else {
        let rest = spec_capacity_ceiling(reservations.drop_last(), request_start, request_end);
        if spec_overlaps(reservations.last(), request_start, request_end) {
            match rest {
                None => Some(reservations.last().capacity_amount),
                Some(m) => if reservations.last().capacity_amount < m {
                    Some(reservations.last().capacity_amount)
                } else {
                    Some(m)
                },
            }
        } else {
            rest
        }
    }
}

/// The capacity already consumed during `[request_start, request_end)`: the
/// sum of the amounts of the reservations whose windows overlap it.
pub open spec fn spec_consumed(
    reservations: Seq<ReservationRequest>,
    request_start: u32,
    request_end: u32,
) -> int
    decreases reservations.len(),
{
    if reservations.len() == 0 {
        0
    } else {
        spec_consumed(reservations.drop_last(), request_start, request_end) + if spec_overlaps(
            reservations.last(),
            request_start,
            request_end,
        ) {
            reservations.last().capacity_amount as int
        } else {
            0
        }
    }
}

/// What one whole evaluation decides, stage by stage: timeframe validation,
/// epoch validation, scope checking against the schedule, then arbitration of
/// the binding ceiling against consumption plus the requested amount.
pub open spec fn spec_evaluate(
    request: ReservationRequest,
    schedule: Seq<ReservationRequest>,
    user_reservations: Seq<ReservationRequest>,
) -> Result<bool, ReservationError> {
    if request.start_time >= request.end_time {
        Err(ReservationError::InvalidTimeframe)
    } else if !spec_valid_epoch(request.start_time) || !spec_valid_epoch(request.end_time) {
        Err(ReservationError::InvalidEpoch)
    } else {
        match spec_scope_result(request, schedule) {
            Err(scope_error) => Err(scope_error),
            Ok(_) => match spec_capacity_ceiling(schedule, request.start_time, request.end_time) {
                None => Err(ReservationError::NoApplicableCapacity),
                Some(ceiling) => Ok(
                    ceiling as int >= spec_consumed(
                        user_reservations,
                        request.start_time,
                        request.end_time,
                    ) + request.capacity_amount as int,
                ),
            },
        }
    }
}

/// Ensure that start and end times are valid Unix epochs.
///
/// Since there's no maximum or minimum number of seconds before or after
/// Jan 1, 1970, everything from just after the epoch up to 100 years later is
/// treated as a valid epoch date. No one wants to reserve capacity in the
/// past, so zero and anything before it is rejected.
pub fn validate_unix_epoch(suspect_epoch: u32) -> (r: Result<(), ReservationError>)
    ensures
        r == (if spec_valid_epoch(suspect_epoch) {
            Ok::<(), ReservationError>(())
        } else {
            Err::<(), ReservationError>(ReservationError::InvalidEpoch)
        }),
{
    if suspect_epoch > 0 && suspect_epoch < EPOCH_CENTURY {
        Ok(())
    } else {
        Err(ReservationError::InvalidEpoch)
    }
}

/// Ensure that a reservation's begin time is in the future.
///
/// No one has a time machine for using capacity reserved in the past. The
/// current time is supplied by the caller as seconds since the Unix epoch,
/// since reading a clock is the surrounding service's business.
pub fn starts_in_future(start_time: u32, epoch_now: u64) -> (r: Result<(), ReservationError>)
    ensures
        r == (if start_time as u64 > epoch_now {
            Ok::<(), ReservationError>(())
        } else {
            Err::<(), ReservationError>(ReservationError::InvalidTimeframe)
        }),
{
    if start_time as u64 > epoch_now {
        Ok(())
    } else {
        Err(ReservationError::InvalidTimeframe)
    }
}

/// Validate a capacity request as being in Arbiter's purview.
///
/// Helper for `evaluate_reservation_request` that rejects requests whose
/// windows fall outside the schedule's temporal coverage, and schedules with
/// nothing in them, whose coverage is undefined.
pub fn in_schedule_scope(
    reservation_request: &ReservationRequest,
    capacity_schedule: &CapacitySchedule,
) -> (r: Result<bool, ReservationError>)
    ensures
        r == spec_scope_result(*reservation_request, capacity_schedule@),
{
    let schedule_len = capacity_schedule.reservations.len();
    if schedule_len == 0 {
        return Err(ReservationError::EmptySchedule);
    }

    let mut schedule_begin: u32 = capacity_schedule.reservations[0].start_time;
    let mut i: usize = 1;
    while i < schedule_len
        invariant
            1 <= i <= schedule_len,
            schedule_len == capacity_schedule@.len(),
            schedule_begin as int == spec_schedule_begin(capacity_schedule@.take(i as int)),
        decreases schedule_len - i,
    {
        let candidate = capacity_schedule.reservations[i].start_time;
        if candidate < schedule_begin {
            schedule_begin = candidate;
        }
        proof {
            assert(capacity_schedule@.take(i as int + 1).drop_last() =~= capacity_schedule@.take(
                i as int,
            ));
        }
        i = i + 1;
    }
    proof {
        assert(capacity_schedule@.take(schedule_len as int) =~= capacity_schedule@);
    }

    let mut schedule_end: u32 = capacity_schedule.reservations[0].end_time;
    let mut j: usize = 1;
    while j < schedule_len
        invariant
            1 <= j <= schedule_len,
            schedule_len == capacity_schedule@.len(),
            schedule_end as int == spec_schedule_end(capacity_schedule@.take(j as int)),
        decreases schedule_len - j,
    {
        let candidate = capacity_schedule.reservations[j].end_time;
        if candidate > schedule_end {
            schedule_end = candidate;
        }
        proof {
            assert(capacity_schedule@.take(j as int + 1).drop_last() =~= capacity_schedule@.take(
                j as int,
            ));
        }
        j = j + 1;
    }
    proof {
        assert(capacity_schedule@.take(schedule_len as int) =~= capacity_schedule@);
    }

    if reservation_request.start_time < schedule_begin {
        return Err(ReservationError::OutOfScope);
    }
    if reservation_request.end_time > schedule_end {
        return Err(ReservationError::OutOfScope);
    }
    Ok(true)
}

/// The consumed sum never exceeds one maximal amount per reservation, so an
/// accumulator wide enough for `len * u32::MAX` cannot overflow.
proof fn lemma_consumed_bounded(reservations: Seq<ReservationRequest>, request_start: u32, request_end: u32)
    ensures
        0 <= spec_consumed(reservations, request_start, request_end) <= reservations.len() * (
        u32::MAX as int),
    decreases reservations.len(),
{
    if reservations.len() == 0 {
    } else {
        lemma_consumed_bounded(reservations.drop_last(), request_start, request_end);
        assert((reservations.len() - 1) * (u32::MAX as int) + u32::MAX as int == reservations.len()
            * (u32::MAX as int)) by (nonlinear_arith);
    }
}

/// Decide if a user reservation request can be fulfilled.
///
/// The given timeslot is checked against the capacity schedule to see whether
/// enough idle capacity is available throughout that timeframe: the binding
/// ceiling is the minimum capacity over the overlapping schedule windows, and
/// the request is admitted exactly when that ceiling covers the overlapping
/// user reservations plus the requested amount.
///
/// While there are more efficient algorithms for finding a timeslot, here we
/// prioritize a solution that's easy to modify and reason about. The most
/// likely question to follow a denial is "why not?", so each kind of refusal
/// gets its own error.
pub fn evaluate_reservation_request(
    reservation_request: &ReservationRequest,
    capacity_schedule: &CapacitySchedule,
    user_reservations: &CapacitySchedule,
) -> (r: Result<bool, ReservationError>)
    ensures
        r == spec_evaluate(*reservation_request, capacity_schedule@, user_reservations@),
{
    // Ensure the reservation request begins before it ends.
    if reservation_request.start_time >= reservation_request.end_time {
        return Err(ReservationError::InvalidTimeframe);
    }

    // Ensure start and stop times are valid unix epochs.
    if let Err(epoch_error) = validate_unix_epoch(reservation_request.start_time) {
        return Err(epoch_error);
    }
    if let Err(epoch_error) = validate_unix_epoch(reservation_request.end_time) {
        return Err(epoch_error);
    }

    // Ensure the requested period is in scope of the capacity schedule.
    if let Err(scope_error) = in_schedule_scope(reservation_request, capacity_schedule) {
        return Err(scope_error);
    }

    let request_start = reservation_request.start_time;
    let request_end = reservation_request.end_time;

    // Find the most limiting capacity among schedule windows overlapping the
    // request's timeframe.
    let schedule_len = capacity_schedule.reservations.len();
    let mut capacity_floor: Option<u32> = None;
    let mut i: usize = 0;
    while i < schedule_len
        invariant
            i <= schedule_len,
            schedule_len == capacity_schedule@.len(),
            request_start == reservation_request.start_time,
            request_end == reservation_request.end_time,
            capacity_floor == spec_capacity_ceiling(
                capacity_schedule@.take(i as int),
                request_start,
                request_end,
            ),
        decreases schedule_len - i,
    {
        let existing_reservation = capacity_schedule.reservations[i];
        let starts_during: bool = request_start < existing_reservation.end_time;
        let ends_during: bool = request_end > existing_reservation.start_time;
        // If the requested timeframe overlaps with this schedule window...
        if starts_during && ends_during {
            capacity_floor = Some(
                match capacity_floor {
                    None => existing_reservation.capacity_amount,
                    Some(current_floor) => if existing_reservation.capacity_amount < current_floor {
                        existing_reservation.capacity_amount
                    } else {
                        current_floor
                    },
                },
            );
        }
        proof {
            assert(capacity_schedule@.take(i as int + 1).drop_last() =~= capacity_schedule@.take(
                i as int,
            ));
        }
        i = i + 1;
    }
    proof {
        assert(capacity_schedule@.take(schedule_len as int) =~= capacity_schedule@);
    }

    // Find the sum of overlapping user reservations so we can check it
    // against the total capacity ceiling.
    let user_len = user_reservations.reservations.len();
    let mut total_user_reservations: u128 = 0;
    let mut j: usize = 0;
    while j < user_len
        invariant
            j <= user_len,
            user_len == user_reservations@.len(),
            request_start == reservation_request.start_time,
            request_end == reservation_request.end_time,
            total_user_reservations as int == spec_consumed(
                user_reservations@.take(j as int),
                request_start,
                request_end,
            ),
        decreases user_len - j,
    {
        let user_reservation = user_reservations.reservations[j];
        let starts_during: bool = request_start < user_reservation.end_time;
        let ends_during: bool = request_end > user_reservation.start_time;
        // If the requested timeframe overlaps with this user reservation...
        if starts_during && ends_during {
            proof {
                assert(user_reservations@.take(j as int + 1).drop_last()
                    =~= user_reservations@.take(j as int));
                lemma_consumed_bounded(
                    user_reservations@.take(j as int + 1),
                    request_start,
                    request_end,
                );
                assert((j as int + 1) * (u32::MAX as int) <= 0xFFFF_FFFF_FFFF_FFFF * (
                u32::MAX as int)) by (nonlinear_arith)
                    requires
                        j as int + 1 <= 0xFFFF_FFFF_FFFF_FFFF,
                ;
            }
            total_user_reservations = total_user_reservations
                + user_reservation.capacity_amount as u128;
        } else {
            proof {
                assert(user_reservations@.take(j as int + 1).drop_last()
                    =~= user_reservations@.take(j as int));
            }
        }
        j = j + 1;
    }
    proof {
        assert(user_reservations@.take(user_len as int) =~= user_reservations@);
    }

    // The most limiting resource capacity among schedule windows during the
    // request's timeframe. Nothing overlapping is impossible inside the
    // schedule's bounds unless the schedule has gaps, which is a
    // configuration error to surface.
    let capacity_ceiling: u32 = match capacity_floor {
        Some(min_found) => min_found,
        None => {
            return Err(ReservationError::NoApplicableCapacity);
        },
    };

    // Check if the lowest available capacity across concurrent reservations
    // can sate the request.
    let is_reservable: bool = if total_user_reservations > capacity_ceiling as u128 {
        false
    } else {
        capacity_ceiling as u128 - total_user_reservations
            >= reservation_request.capacity_amount as u128
    };

    Ok(is_reservable)
}

/// Decide one reservation request against the live schedule and store, and
/// commit it when admitted.
///
/// The caller hands over the active schedule, and exclusive access to the
/// accepted-reservation store for the whole evaluate-and-commit step: that
/// exclusive borrow is what serializes concurrent admissions, so two requests
/// against the same window can never both read a consumption that excludes
/// the other.
pub fn process_reservation(
    reservation_request: &ReservationRequest,
    active_schedule: &CapacitySchedule,
    user_reservations: &mut CapacitySchedule,
) -> (r: Result<bool, ReservationError>)
    ensures
        r == spec_evaluate(*reservation_request, active_schedule@, old(user_reservations)@),
        r == Ok::<bool, ReservationError>(true) ==> final(user_reservations)@ == old(
            user_reservations,
        )@.push(*reservation_request),
        r != Ok::<bool, ReservationError>(true) ==> final(user_reservations)@ == old(
            user_reservations,
        )@,
{
    // See if we're able to meet the reservation request's requirements.
    let is_reservable = evaluate_reservation_request(
        reservation_request,
        active_schedule,
        user_reservations,
    );
    match is_reservable {
        Ok(true) => user_reservations.reservations.push(*reservation_request),
        _ => (),
    }
    is_reservable
}

} // verus!
