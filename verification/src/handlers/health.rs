//! Report on the health of the service and of its store.

use crate::fresh::current_time;
use crate::response::{ApiResponse, ApiResponseView};
use crate::store::{PingOutcome, PingOutcomeView};
use vstd::prelude::*;

verus! {

/// The health report for a round trip to the store that came to `outcome`,
/// made at `timestamp`.
pub open spec fn health_response(
    outcome: PingOutcomeView,
    timestamp: chrono::NaiveDateTime,
) -> ApiResponseView {
    match outcome {
        PingOutcomeView::Alive => ApiResponseView::healthy(timestamp),
        PingOutcomeView::Failed(reason) => ApiResponseView::unhealthy(reason, timestamp),
    }
}

/// The time that a health report carries.
pub open spec fn report_time(response: ApiResponseView) -> chrono::NaiveDateTime {
    response.body->Health_timestamp
}

/// The health report for `outcome`, made at `timestamp`.
pub fn health_report(outcome: PingOutcome, timestamp: chrono::NaiveDateTime) -> (response:
    ApiResponse)
    ensures
        response@ == health_response(outcome@, timestamp),
{
    match outcome {
        PingOutcome::Alive => ApiResponse::healthy(timestamp),
        PingOutcome::Failed(reason) => ApiResponse::unhealthy(reason, timestamp),
    }
}

/// Reports on the service after a round trip to the store, at the current
/// time. A store that does not answer is reported, with the reason; it is
/// no failure of the report.
pub fn health_check(outcome: PingOutcome) -> (response: ApiResponse)
    ensures
        response@ == health_response(outcome@, report_time(response@)),
{
    health_report(outcome, current_time())
}

/// The health report is made whatever the store does: it is in the 200s
/// if the store answers, and 503 with the reason if it does not.
pub proof fn lemma_health_follows_ping(outcome: PingOutcomeView, timestamp: chrono::NaiveDateTime)
    ensures
        outcome is Alive <==> health_response(outcome, timestamp).is_success(),
        outcome is Failed <==> health_response(outcome, timestamp).status == 503,
        outcome matches PingOutcomeView::Failed(reason) ==> health_response(
            outcome,
            timestamp,
        ).body->Health_error == Some(reason),
{
}

} // verus!
