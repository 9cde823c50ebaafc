//! Laws the admission-control engine obeys, stated over the same spec
//! functions its contracts use and proved once and for all.

use vstd::prelude::*;

use crate::common::ReservationError;
use crate::common::ReservationRequest;
use crate::hostess::spec_capacity_ceiling;
use crate::hostess::spec_consumed;
use crate::hostess::spec_evaluate;
use crate::hostess::spec_in_scope;
use crate::hostess::spec_overlaps;
use crate::hostess::spec_schedule_begin;
use crate::hostess::spec_schedule_end;
use crate::hostess::spec_valid_epoch;

verus! {

/// Admission respects the binding ceiling, and nothing but the ceiling:
/// whenever an evaluation reaches a decision at all, it admits exactly when
/// the minimum overlapping capacity covers the consumed amount plus the
/// requested amount — it never admits past the ceiling, and never denies
/// within it.
pub proof fn lemma_admission_respects_ceiling(
    request: ReservationRequest,
    schedule: Seq<ReservationRequest>,
    user_reservations: Seq<ReservationRequest>,
)
    requires
        spec_evaluate(request, schedule, user_reservations) is Ok,
    ensures
        spec_capacity_ceiling(schedule, request.start_time, request.end_time) is Some,
        spec_evaluate(request, schedule, user_reservations) == Ok::<bool, ReservationError>(
            spec_capacity_ceiling(
                schedule,
                request.start_time,
                request.end_time,
            ).unwrap() as int >= spec_consumed(user_reservations, request.start_time, request.end_time)
                + request.capacity_amount as int,
        ),
{
}

/// A decision — admitted or denied, as opposed to a refusal — is owed
/// exactly to the requests that pass every stage: a well-ordered window with
/// valid epochs, a schedule with something in it, a window inside its
/// coverage, and at least one schedule window overlapping the request.
pub proof fn lemma_decision_reached_exactly_when(
    request: ReservationRequest,
    schedule: Seq<ReservationRequest>,
    user_reservations: Seq<ReservationRequest>,
)
    ensures
        spec_evaluate(request, schedule, user_reservations) is Ok <==> (request.start_time
            < request.end_time && spec_valid_epoch(request.start_time) && spec_valid_epoch(
            request.end_time,
        ) && schedule.len() > 0 && spec_in_scope(request, schedule) && spec_capacity_ceiling(
            schedule,
            request.start_time,
            request.end_time,
        ) is Some),
{
}

/// Some schedule window covers an instant `t` of time.
pub open spec fn spec_covers(schedule: Seq<ReservationRequest>, t: u32) -> bool {
    exists|k: int|
        0 <= k < schedule.len() && (#[trigger] schedule[k]).start_time <= t < schedule[k].end_time
}

/// In a schedule without gaps there is always a binding ceiling: whenever
/// some window covers the first instant of a (non-empty) request window, at
/// least one window overlaps the request, so arbitration never fails with
/// `NoApplicableCapacity`.
pub proof fn lemma_coverage_yields_ceiling(
    schedule: Seq<ReservationRequest>,
    request_start: u32,
    request_end: u32,
)
    requires
        request_start < request_end,
        spec_covers(schedule, request_start),
    ensures
        spec_capacity_ceiling(schedule, request_start, request_end) is Some,
    decreases schedule.len(),
{
    let k = choose|k: int|
        0 <= k < schedule.len() && (#[trigger] schedule[k]).start_time <= request_start
            < schedule[k].end_time;
    if k == schedule.len() - 1 {
        assert(spec_overlaps(schedule.last(), request_start, request_end));
    } else {
        assert(schedule.drop_last()[k] == schedule[k]);
        lemma_coverage_yields_ceiling(schedule.drop_last(), request_start, request_end);
    }
}

/// Idempotence: evaluation is a function of the request, the schedule, and
/// the store alone, so evaluating the same request twice against an
/// unchanged store yields the same decision.
pub proof fn lemma_evaluation_idempotent(
    request: ReservationRequest,
    schedule: Seq<ReservationRequest>,
    user_reservations: Seq<ReservationRequest>,
    first: Result<bool, ReservationError>,
    second: Result<bool, ReservationError>,
)
    requires
        first == spec_evaluate(request, schedule, user_reservations),
        second == spec_evaluate(request, schedule, user_reservations),
    ensures
        first == second,
{
}

/// Interval overlap is half-open: a request `[a, b)` does not overlap an
/// allocation that ends exactly at `a` or starts exactly at `b`.
pub proof fn lemma_half_open_overlap(
    existing: ReservationRequest,
    request_start: u32,
    request_end: u32,
)
    requires
        existing.end_time == request_start || existing.start_time == request_end,
    ensures
        !spec_overlaps(existing, request_start, request_end),
{
}

/// A reservation that does not overlap the request's window affects neither
/// the capacity ceiling nor the consumed sum.
pub proof fn lemma_non_overlap_changes_nothing(
    reservations: Seq<ReservationRequest>,
    untouched: ReservationRequest,
    request_start: u32,
    request_end: u32,
)
    requires
        !spec_overlaps(untouched, request_start, request_end),
    ensures
        spec_capacity_ceiling(reservations.push(untouched), request_start, request_end)
            == spec_capacity_ceiling(reservations, request_start, request_end),
        spec_consumed(reservations.push(untouched), request_start, request_end) == spec_consumed(
            reservations,
            request_start,
            request_end,
        ),
{
    assert(reservations.push(untouched).drop_last() =~= reservations);
}

/// A request whose window ends at or before it begins is rejected as
/// `InvalidTimeframe`, whatever the schedule and the store hold.
pub proof fn lemma_inverted_timeframe_rejected(
    request: ReservationRequest,
    schedule: Seq<ReservationRequest>,
    user_reservations: Seq<ReservationRequest>,
)
    requires
        request.start_time >= request.end_time,
    ensures
        spec_evaluate(request, schedule, user_reservations) == Err::<bool, ReservationError>(
            ReservationError::InvalidTimeframe,
        ),
{
}

/// A well-formed request whose window starts before the schedule's earliest
/// start, or ends after its latest end, is rejected as `OutOfScope`.
///
/// Validation comes first, so the law speaks of requests that pass it: a
/// malformed window is rejected as `InvalidTimeframe` or `InvalidEpoch`
/// before scope is ever examined, and an empty schedule has no bounds to be
/// out of.
pub proof fn lemma_out_of_scope_rejected(
    request: ReservationRequest,
    schedule: Seq<ReservationRequest>,
    user_reservations: Seq<ReservationRequest>,
)
    requires
        request.start_time < request.end_time,
        spec_valid_epoch(request.start_time),
        spec_valid_epoch(request.end_time),
        schedule.len() > 0,
        (request.start_time as int) < spec_schedule_begin(schedule) || (request.end_time as int)
            > spec_schedule_end(schedule),
    ensures
        spec_evaluate(request, schedule, user_reservations) == Err::<bool, ReservationError>(
            ReservationError::OutOfScope,
        ),
{
}

/// Committing an admitted reservation consumes capacity for every later
/// overlapping request: appending it to the store grows the consumed sum by
/// its amount exactly when its window overlaps, so a window with remaining
/// room for one such request, but not two, admits exactly one of two
/// identical requests processed in sequence.
pub proof fn lemma_commit_consumes(
    user_reservations: Seq<ReservationRequest>,
    committed: ReservationRequest,
    request_start: u32,
    request_end: u32,
)
    ensures
        spec_consumed(user_reservations.push(committed), request_start, request_end)
            == spec_consumed(user_reservations, request_start, request_end) + (if spec_overlaps(
            committed,
            request_start,
            request_end,
        ) {
            committed.capacity_amount as int
        } else {
            0
        }),
{
    assert(user_reservations.push(committed).drop_last() =~= user_reservations);
}

} // verus!
