use vstd::prelude::*;
use vstd::string::*;

use crate::models::PersistentState;
use crate::scheduler::update_reason_at;
use crate::status::{leading_digit, starts_with_two, status_starts_with_two};
use crate::timestamp::{age_seconds, Timestamp, MAX_UNIX_NANOS, MIN_UNIX_NANOS};

verus! {

/// Why the service does not count as in sync with the tracker.
#[derive(Clone, Copy, Debug, PartialEq, Eq, Structural)]
pub enum HealthProblem {
    /// No session cookie is configured.
    NoCookie,
    /// No answer to a report has been recorded yet.
    NoSuccessfulUpdate,
    /// The last recorded answer has a status that does not begin with `2`.
    LastResponseError,
    /// The last recorded answer is at least the stale threshold old.
    Stale,
}

/// The health verdict at instant `now`: in sync, or the first problem found,
/// checked in the order cookie, answer present, answer status, answer age.
pub open spec fn health_at(
    state: PersistentState,
    stale_threshold: u64,
    now: Timestamp,
) -> Result<(), HealthProblem> {
    if state.cookie is None {
        Err(HealthProblem::NoCookie)
    } else {
        match state.last_mam_response {
            None => Err(HealthProblem::NoSuccessfulUpdate),
            Some(resp) => {
                if !starts_with_two(resp.http_status) {
                    Err(HealthProblem::LastResponseError)
                } else if age_seconds(now, resp.at) >= stale_threshold {
                    Err(HealthProblem::Stale)
                } else {
                    Ok(())
                }
            },
        }
    }
}

/// Checks whether the service is in sync at instant `now`.
pub fn health_check_at(state: &PersistentState, stale_threshold: u64, now: Timestamp) -> (r: Result<
    (),
    HealthProblem,
>)
    ensures
        r == health_at(*state, stale_threshold, now),
        state.cookie is None ==> r == Err::<(), HealthProblem>(HealthProblem::NoCookie),
        state.cookie is Some && state.last_mam_response is Some && !starts_with_two(
            state.last_mam_response->0.http_status,
        ) ==> r == Err::<(), HealthProblem>(HealthProblem::LastResponseError),
{
    if state.cookie.is_none() {
        return Err(HealthProblem::NoCookie);
    }
    match &state.last_mam_response {
        None => Err(HealthProblem::NoSuccessfulUpdate),
        Some(resp) => {
            if !status_starts_with_two(resp.http_status) {
                Err(HealthProblem::LastResponseError)
            } else if now.seconds_between(&resp.at) >= stale_threshold as u128 {
                Err(HealthProblem::Stale)
            } else {
                Ok(())
            }
        },
    }
}

/// Checks whether the service is in sync now, reading the clock.
pub fn health_check(state: &PersistentState, stale_threshold: u64) -> (r: Result<(), HealthProblem>)
    ensures
        exists|now: Timestamp|
            MIN_UNIX_NANOS <= now.unix_nanos <= MAX_UNIX_NANOS && r == health_at(
                *state,
                stale_threshold,
                now,
            ),
{
    let now = Timestamp::now();
    health_check_at(state, stale_threshold, now)
}

impl HealthProblem {
    /// The HTTP status the health endpoint answers with for this problem.
    pub fn status_code(&self) -> (code: u16)
        ensures
            code == 503,
    {
        503
    }

    /// A short explanation of the problem.
    pub fn message(&self) -> (m: String)
        ensures
            m@ == (match *self {
                HealthProblem::NoCookie => "no cookie configured"@,
                HealthProblem::NoSuccessfulUpdate => "no successful update yet"@,
                HealthProblem::LastResponseError => "last MAM response was an error"@,
                HealthProblem::Stale => "last MAM response is stale"@,
            }),
    {
        match self {
            HealthProblem::NoCookie => String::from_str("no cookie configured"),
            HealthProblem::NoSuccessfulUpdate => String::from_str("no successful update yet"),
            HealthProblem::LastResponseError => String::from_str("last MAM response was an error"),
            HealthProblem::Stale => String::from_str("last MAM response is stale"),
        }
    }
}

/// A service in sync whose last answer carried a body has no report due, and
/// a service with a cookie and no report due is in sync.
pub proof fn lemma_healthy_iff_nothing_due(state: PersistentState, stale_threshold: u64, now: Timestamp)
    requires
        state.cookie is Some,
        state.last_mam_response is Some ==> state.last_mam_response->0.body is Some,
    ensures
        health_at(state, stale_threshold, now) is Ok <==> update_reason_at(
            state,
            stale_threshold,
            now,
        ) is None,
{
}

/// With a cookie, a last answer whose status does not begin with `2` makes the
/// service unhealthy with `LastResponseError`, whether or not that answer
/// carried a body and whatever its age; with no cookie the verdict is
/// `NoCookie`; and the service is healthy only with a cookie and an answer
/// whose status begins with `2` and that is younger than the threshold.
pub proof fn lemma_health_verdicts(state: PersistentState, stale_threshold: u64, now: Timestamp)
    ensures
        state.cookie is None ==> health_at(state, stale_threshold, now) == Err::<(), HealthProblem>(
            HealthProblem::NoCookie,
        ),
        state.cookie is Some && state.last_mam_response is Some && !starts_with_two(
            state.last_mam_response->0.http_status,
        ) ==> health_at(state, stale_threshold, now) == Err::<(), HealthProblem>(
            HealthProblem::LastResponseError,
        ),
        health_at(state, stale_threshold, now) is Ok ==> state.cookie is Some
            && state.last_mam_response is Some && starts_with_two(
            state.last_mam_response->0.http_status,
        ) && age_seconds(now, state.last_mam_response->0.at) < stale_threshold,
{
}

/// Informational (1xx) and redirect, client and server error statuses
/// (3xx to 9xx) do not begin with `2`, so a last answer with one of them makes
/// the service unhealthy.
pub proof fn lemma_non_success_statuses_are_unhealthy(
    state: PersistentState,
    stale_threshold: u64,
    now: Timestamp,
)
    requires
        state.cookie is Some,
        state.last_mam_response is Some,
        100 <= state.last_mam_response->0.http_status < 200 || 300
            <= state.last_mam_response->0.http_status < 1000,
    ensures
        health_at(state, stale_threshold, now) == Err::<(), HealthProblem>(
            HealthProblem::LastResponseError,
        ),
{
    let n = state.last_mam_response->0.http_status as nat;
    assert(n / 10 / 10 == n / 100);
    assert(n / 100 >= 1 && n / 100 <= 9 && n / 100 != 2);
    assert(leading_digit(n) == n / 100) by {
        reveal_with_fuel(leading_digit, 3);
    }
}

} // verus!
