use vstd::prelude::*;

use crate::models::{IpResponse, LastUpdate, MamResponse, PersistentState, SeedboxResponse, UpdateReason};
use crate::status::{is_success, lemma_success_starts_with_two, starts_with_two, status_starts_with_two};
use crate::timestamp::{age_seconds, Timestamp, MAX_UNIX_NANOS, MIN_UNIX_NANOS};

verus! {

/// Why a report is due at instant `now`, or `None` when none is.
///
/// A report is due when there is no earlier answer, when the earlier answer's
/// status does not begin with `2` or it carried no body, or when it is at least
/// `stale_threshold` seconds old.
pub open spec fn update_reason_at(
    state: PersistentState,
    stale_threshold: u64,
    now: Timestamp,
) -> Option<UpdateReason> {
    match state.last_mam_response {
        None => Some(UpdateReason::NoPreviousResponse),
        Some(resp) => {
            if !starts_with_two(resp.http_status) {
                Some(UpdateReason::PreviousHttpError)
            } else if resp.body is None {
                Some(UpdateReason::PreviousHttpError)
            } else if age_seconds(now, resp.at) >= stale_threshold {
                Some(UpdateReason::Stale)
            } else {
                None
            }
        },
    }
}

/// Decides whether a report is due at instant `now`, and why.
pub fn should_update_at(state: &PersistentState, stale_threshold: u64, now: Timestamp) -> (r:
    Option<UpdateReason>)
    ensures
        r == update_reason_at(*state, stale_threshold, now),
{
    match &state.last_mam_response {
        None => Some(UpdateReason::NoPreviousResponse),
        Some(resp) => {
            if !status_starts_with_two(resp.http_status) {
                Some(UpdateReason::PreviousHttpError)
            } else if resp.body.is_none() {
                Some(UpdateReason::PreviousHttpError)
            } else if now.seconds_between(&resp.at) >= stale_threshold as u128 {
                Some(UpdateReason::Stale)
            } else {
                None
            }
        },
    }
}

/// Decides whether a report is due now, reading the clock.
///
/// The answer is what `should_update_at` gives for the instant the clock
/// returned; which instant that is, nothing here can say.
pub fn should_update(state: &PersistentState, stale_threshold: u64) -> (r: Option<UpdateReason>)
    ensures
        exists|now: Timestamp|
            MIN_UNIX_NANOS <= now.unix_nanos <= MAX_UNIX_NANOS && r == update_reason_at(
                *state,
                stale_threshold,
                now,
            ),
{
    let now = Timestamp::now();
    should_update_at(state, stale_threshold, now)
}


/// Where a scheduler tick stands: what to do next, or how it ended.
#[derive(Clone, Debug, PartialEq, Eq)]
pub enum TickStep {
    /// No session cookie and nothing due: nothing to do.
    UpToDate,
    /// A report is due but there is no session cookie to send it with.
    CookieMissing { reason: UpdateReason },
    /// Fetch the current address; `due` is why a report is due already, if it is.
    FetchIp { cookie: String, due: Option<UpdateReason> },
    /// Report to the service with `cookie`, giving `reason`.
    Report { cookie: String, reason: UpdateReason },
    /// The stored state changed: write it out; the tick is over.
    Save,
    /// The tick is over and the stored state is as it was.
    Done,
}

/// The first step of a tick, given why a report is due (if it is) and the
/// stored cookie. Every tick that has a cookie fetches the current address.
pub open spec fn tick_plan_for(reason: Option<UpdateReason>, cookie: Option<String>) -> TickStep {
    match cookie {
        Some(c) => TickStep::FetchIp { cookie: c, due: reason },
        None => match reason {
            Some(r) => TickStep::CookieMissing { reason: r },
            None => TickStep::UpToDate,
        },
    }
}

/// The first step of a tick for a given answer to "is a report due".
fn plan_for(reason: Option<UpdateReason>, cookie: &Option<String>) -> (p: TickStep)
    ensures
        p == tick_plan_for(reason, *cookie),
{
    match cookie {
        Some(c) => TickStep::FetchIp { cookie: c.clone(), due: reason },
        None => match reason {
            Some(r) => TickStep::CookieMissing { reason: r },
            None => TickStep::UpToDate,
        },
    }
}

/// Plans a scheduler tick at instant `now`.
pub fn plan_tick_at(state: &PersistentState, stale_threshold: u64, now: Timestamp) -> (p: TickStep)
    ensures
        p == tick_plan_for(update_reason_at(*state, stale_threshold, now), state.cookie),
        state.cookie is Some ==> p == (TickStep::FetchIp {
            cookie: state.cookie->0,
            due: update_reason_at(*state, stale_threshold, now),
        }),
{
    plan_for(should_update_at(state, stale_threshold, now), &state.cookie)
}

/// Plans a scheduler tick now, reading the clock through `should_update`.
pub fn plan_tick(state: &PersistentState, stale_threshold: u64) -> (p: TickStep)
    ensures
        exists|now: Timestamp|
            MIN_UNIX_NANOS <= now.unix_nanos <= MAX_UNIX_NANOS && p == tick_plan_for(
                update_reason_at(*state, stale_threshold, now),
                state.cookie,
            ),
{
    plan_for(should_update(state, stale_threshold), &state.cookie)
}

/// The body of the last answer the service gave, if there is one: the
/// address and network it last acknowledged.
pub open spec fn acknowledged_body(state: PersistentState) -> Option<SeedboxResponse> {
    match state.last_mam_response {
        Some(resp) => resp.body,
        None => None,
    }
}

/// The reason given with a report, once the current address is known: a
/// changed address wins over a changed network, which wins over `reason`.
pub open spec fn refined_reason(
    state: PersistentState,
    reason: UpdateReason,
    ip: IpResponse,
) -> UpdateReason {
    match state.last_mam_response {
        Some(resp) => match resp.body {
            Some(prev) => {
                if prev.ip@ != ip.ip@ {
                    UpdateReason::IpChanged
                } else if prev.asn != ip.asn {
                    UpdateReason::AsnChanged
                } else {
                    reason
                }
            },
            None => reason,
        },
        None => reason,
    }
}

/// Refines why a report is made, comparing the fetched address with the one
/// the service last acknowledged.
pub fn refine_update_reason(state: &PersistentState, reason: UpdateReason, ip: &IpResponse) -> (r:
    UpdateReason)
    ensures
        r == refined_reason(*state, reason, *ip),
        acknowledged_body(*state) is None ==> r == reason,
        acknowledged_body(*state) is Some && acknowledged_body(*state)->0.ip@ != ip.ip@ ==> r
            == UpdateReason::IpChanged,
        acknowledged_body(*state) is Some && acknowledged_body(*state)->0.ip@ == ip.ip@ && acknowledged_body(*state)->0.asn != ip.asn
            ==> r == UpdateReason::AsnChanged,
        acknowledged_body(*state) is Some && acknowledged_body(*state)->0.ip@ == ip.ip@ && acknowledged_body(*state)->0.asn == ip.asn
            ==> r == reason,
{
    match &state.last_mam_response {
        Some(resp) => match &resp.body {
            Some(prev) => {
                if prev.ip != ip.ip {
                    UpdateReason::IpChanged
                } else if prev.asn != ip.asn {
                    UpdateReason::AsnChanged
                } else {
                    reason
                }
            },
            None => reason,
        },
        None => reason,
    }
}

/// A change of address or network against the last acknowledged body, if
/// there is one: a changed address wins over a changed network.
pub open spec fn address_change(state: PersistentState, ip: IpResponse) -> Option<UpdateReason> {
    match state.last_mam_response {
        Some(resp) => match resp.body {
            Some(prev) => {
                if prev.ip@ != ip.ip@ {
                    Some(UpdateReason::IpChanged)
                } else if prev.asn != ip.asn {
                    Some(UpdateReason::AsnChanged)
                } else {
                    None
                }
            },
            None => None,
        },
        None => None,
    }
}

/// Why a report is made once the current address is known, or `None` when
/// none is: a report already `due` is made, with its reason refined; otherwise
/// a report is made only for a changed address or network.
pub open spec fn report_reason_for(
    state: PersistentState,
    due: Option<UpdateReason>,
    ip: IpResponse,
) -> Option<UpdateReason> {
    match due {
        Some(x) => Some(refined_reason(state, x, ip)),
        None => address_change(state, ip),
    }
}

/// Decides whether to report, and why, once the current address `ip` is
/// known and `due` says whether a report was due already.
pub fn report_reason(state: &PersistentState, due: Option<UpdateReason>, ip: &IpResponse) -> (r:
    Option<UpdateReason>)
    ensures
        r == report_reason_for(*state, due, *ip),
        due is Some ==> r is Some,
        acknowledged_body(*state) is None ==> r == due,
        acknowledged_body(*state) is Some && acknowledged_body(*state)->0.ip@ != ip.ip@ ==> r == Some(
            UpdateReason::IpChanged,
        ),
        acknowledged_body(*state) is Some && acknowledged_body(*state)->0.ip@ == ip.ip@ && acknowledged_body(*state)->0.asn != ip.asn
            ==> r == Some(UpdateReason::AsnChanged),
        acknowledged_body(*state) is Some && acknowledged_body(*state)->0.ip@ == ip.ip@ && acknowledged_body(*state)->0.asn == ip.asn
            ==> r == due,
{
    match due {
        Some(x) => Some(refine_update_reason(state, x, ip)),
        None => match &state.last_mam_response {
            Some(resp) => match &resp.body {
                Some(prev) => {
                    if prev.ip != ip.ip {
                        Some(UpdateReason::IpChanged)
                    } else if prev.asn != ip.asn {
                        Some(UpdateReason::AsnChanged)
                    } else {
                        None
                    }
                },
                None => None,
            },
            None => None,
        },
    }
}

/// Decides whether to report at instant `now`, and why, once the current
/// address `ip` is known.
pub fn report_reason_at(
    state: &PersistentState,
    stale_threshold: u64,
    now: Timestamp,
    ip: &IpResponse,
) -> (r: Option<UpdateReason>)
    ensures
        r == (match update_reason_at(*state, stale_threshold, now) {
            Some(x) => Some(refined_reason(*state, x, *ip)),
            None => address_change(*state, *ip),
        }),
{
    report_reason(state, should_update_at(state, stale_threshold, now), ip)
}

/// The stored state after the service answered a report made for `reason`
/// and the answer was recorded at instant `now`.
pub open spec fn after_report(
    state: PersistentState,
    resp: MamResponse,
    reason: UpdateReason,
    now: Timestamp,
) -> PersistentState {
    PersistentState {
        cookie: match resp.cookie_received {
            Some(c) => Some(c),
            None => state.cookie,
        },
        last_mam_response: Some(resp),
        last_update: Some(LastUpdate { at: now, mam_updated: true, reason }),
    }
}

/// Records the service's answer to a report: adopts a rotated cookie, keeps
/// the answer, and notes the report made at instant `now`.
pub fn record_mam_response_at(
    state: &mut PersistentState,
    resp: MamResponse,
    reason: UpdateReason,
    now: Timestamp,
)
    ensures
        *final(state) == after_report(*old(state), resp, reason, now),
{
    if let Some(new_cookie) = &resp.cookie_received {
        state.cookie = Some(new_cookie.clone());
    }
    state.last_mam_response = Some(resp);
    state.last_update = Some(LastUpdate { at: now, mam_updated: true, reason });
}

/// Records the service's answer to a report, stamping the record with the
/// current instant read from the clock.
pub fn record_mam_response(state: &mut PersistentState, resp: MamResponse, reason: UpdateReason)
    ensures
        exists|now: Timestamp|
            MIN_UNIX_NANOS <= now.unix_nanos <= MAX_UNIX_NANOS && *final(state) == after_report(
                *old(state),
                resp,
                reason,
                now,
            ),
{
    let now = Timestamp::now();
    record_mam_response_at(state, resp, reason, now);
}


/// What happened during the step a tick asked for.
#[derive(Clone, Debug, PartialEq, Eq)]
pub enum TickEvent {
    /// The current address was fetched.
    IpFetched(IpResponse),
    /// Fetching the current address failed.
    IpFetchFailed,
    /// The service answered the report.
    Reported(MamResponse),
    /// The report could not be made.
    ReportFailed,
}

/// The next step of a tick and the stored state after `event` happened in
/// `step`, at instant `now`. Only an answered report changes the state; an
/// event that does not belong to the step ends the tick.
pub open spec fn next_step(
    step: TickStep,
    state: PersistentState,
    event: TickEvent,
    now: Timestamp,
) -> (TickStep, PersistentState) {
    match step {
        TickStep::FetchIp { cookie, due } => match event {
            TickEvent::IpFetched(ip) => match report_reason_for(state, due, ip) {
                Some(reason) => (TickStep::Report { cookie, reason }, state),
                None => (TickStep::Done, state),
            },
            _ => (TickStep::Done, state),
        },
        TickStep::Report { cookie, reason } => match event {
            TickEvent::Reported(resp) => (TickStep::Save, after_report(state, resp, reason, now)),
            _ => (TickStep::Done, state),
        },
        _ => (TickStep::Done, state),
    }
}

/// Advances a tick: given the step it was at and what happened, updates the
/// stored state and returns the next step. `now` stamps a recorded answer.
pub fn tick_step_at(step: TickStep, state: &mut PersistentState, event: TickEvent, now: Timestamp) -> (next:
    TickStep)
    ensures
        (next, *final(state)) == next_step(step, *old(state), event, now),
        step is FetchIp && step->FetchIp_due is Some && event is IpFetched ==> next is Report
            && next->Report_cookie == step->FetchIp_cookie,
        next is Report ==> step is FetchIp && event is IpFetched && next->Report_cookie
            == step->FetchIp_cookie,
        !(step is Report && event is Reported) ==> *final(state) == *old(state),
{
    match step {
        TickStep::FetchIp { cookie, due } => match event {
            TickEvent::IpFetched(ip) => match report_reason(state, due, &ip) {
                Some(reason) => TickStep::Report { cookie, reason },
                None => TickStep::Done,
            },
            _ => TickStep::Done,
        },
        TickStep::Report { cookie, reason } => match event {
            TickEvent::Reported(resp) => {
                record_mam_response_at(state, resp, reason, now);
                TickStep::Save
            },
            _ => TickStep::Done,
        },
        _ => TickStep::Done,
    }
}

/// Advances a tick, stamping a recorded answer with the instant read from
/// the clock.
pub fn tick_step(step: TickStep, state: &mut PersistentState, event: TickEvent) -> (next: TickStep)
    ensures
        exists|now: Timestamp|
            MIN_UNIX_NANOS <= now.unix_nanos <= MAX_UNIX_NANOS && (next, *final(state)) == next_step(
                step,
                *old(state),
                event,
                now,
            ),
{
    let now = Timestamp::now();
    tick_step_at(step, state, event, now)
}

/// Every tick with a cookie fetches the current address, and once it is
/// fetched, an address or network that differs from the last acknowledged
/// one is reported at once, as `IpChanged` or `AsnChanged`, whatever the age
/// of the last answer; the report, once answered, is recorded with that reason.
pub proof fn lemma_changed_address_is_reported(
    state: PersistentState,
    stale_threshold: u64,
    now: Timestamp,
    ip: IpResponse,
    resp: MamResponse,
    later: Timestamp,
)
    requires
        state.cookie is Some,
        address_change(state, ip) is Some,
    ensures
        ({
            let plan = tick_plan_for(update_reason_at(state, stale_threshold, now), state.cookie);
            let reason = address_change(state, ip)->0;
            let cookie = state.cookie->0;
            &&& plan is FetchIp
            &&& next_step(plan, state, TickEvent::IpFetched(ip), now) == (
                TickStep::Report { cookie, reason },
                state,
            )
            &&& next_step(TickStep::Report { cookie, reason }, state, TickEvent::Reported(resp), later)
                == (TickStep::Save, after_report(state, resp, reason, later))
            &&& after_report(state, resp, reason, later).last_update == Some(
                LastUpdate { at: later, mam_updated: true, reason },
            )
        }),
{
}

/// With no report due and an unchanged address and network, a tick makes no
/// report and leaves the stored state as it was.
pub proof fn lemma_unchanged_address_is_quiet(
    state: PersistentState,
    stale_threshold: u64,
    now: Timestamp,
    ip: IpResponse,
)
    requires
        state.cookie is Some,
        update_reason_at(state, stale_threshold, now) is None,
        address_change(state, ip) is None,
    ensures
        next_step(
            tick_plan_for(update_reason_at(state, stale_threshold, now), state.cookie),
            state,
            TickEvent::IpFetched(ip),
            now,
        ) == (TickStep::Done, state),
{
}

/// No step of a tick clears the cookie, and only an answered report changes
/// the stored state: a failed fetch or a failed report leaves it as it was.
pub proof fn lemma_tick_keeps_state_unless_answered(
    step: TickStep,
    state: PersistentState,
    event: TickEvent,
    now: Timestamp,
)
    ensures
        next_step(step, state, event, now).1.cookie is None ==> state.cookie is None,
        !(event is Reported) ==> next_step(step, state, event, now).1 == state,
        (next_step(step, state, event, now).0 is Save) <==> (step is Report && event is Reported),
{
}

/// After a successful answer with a body is recorded, the next report falls
/// due exactly when that answer has become `stale_threshold` seconds old.
pub proof fn lemma_successful_report_defers_next(
    state: PersistentState,
    resp: MamResponse,
    reason: UpdateReason,
    recorded_at: Timestamp,
    stale_threshold: u64,
    later: Timestamp,
)
    requires
        is_success(resp.http_status),
        resp.body is Some,
    ensures
        update_reason_at(after_report(state, resp, reason, recorded_at), stale_threshold, later)
            == (if age_seconds(later, resp.at) >= stale_threshold {
            Some(UpdateReason::Stale)
        } else {
            None
        }),
{
    lemma_success_starts_with_two(resp.http_status);
}

/// After an answer whose status does not begin with `2`, or that carried no
/// body, is recorded, a report is due again at once, whatever the time.
pub proof fn lemma_failed_report_is_retried(
    state: PersistentState,
    resp: MamResponse,
    reason: UpdateReason,
    recorded_at: Timestamp,
    stale_threshold: u64,
    later: Timestamp,
)
    requires
        !starts_with_two(resp.http_status) || resp.body is None,
    ensures
        update_reason_at(after_report(state, resp, reason, recorded_at), stale_threshold, later)
            == Some(UpdateReason::PreviousHttpError),
{
}

/// Recording an answer keeps the stored cookie unless the answer rotated it,
/// in which case the rotated cookie is kept instead.
pub proof fn lemma_report_keeps_or_rotates_cookie(
    state: PersistentState,
    resp: MamResponse,
    reason: UpdateReason,
    recorded_at: Timestamp,
)
    ensures
        after_report(state, resp, reason, recorded_at).cookie == (if resp.cookie_received is Some {
            resp.cookie_received
        } else {
            state.cookie
        }),
        after_report(state, resp, reason, recorded_at).cookie is None ==> state.cookie is None,
{
}

/// A tick for which a report is already due makes that report once the
/// address is fetched, whatever the address: the next step is a report with
/// the tick's cookie, the stored state is untouched, and the reason is the due
/// one unless the last acknowledged address or network differs from the
/// fetched one (address first, then network).
pub proof fn lemma_due_report_is_always_made(
    cookie: String,
    due: UpdateReason,
    state: PersistentState,
    ip: IpResponse,
    now: Timestamp,
)
    ensures
        ({
            let (next, after) = next_step(
                TickStep::FetchIp { cookie, due: Some(due) },
                state,
                TickEvent::IpFetched(ip),
                now,
            );
            &&& after == state
            &&& next is Report
            &&& next->Report_cookie == cookie
            &&& acknowledged_body(state) is None ==> next->Report_reason == due
            &&& acknowledged_body(state) is Some && acknowledged_body(state)->0.ip@ != ip.ip@
                ==> next->Report_reason == UpdateReason::IpChanged
            &&& acknowledged_body(state) is Some && acknowledged_body(state)->0.ip@ == ip.ip@ && acknowledged_body(state)->0.asn
                != ip.asn ==> next->Report_reason == UpdateReason::AsnChanged
            &&& acknowledged_body(state) is Some && acknowledged_body(state)->0.ip@ == ip.ip@ && acknowledged_body(state)->0.asn
                == ip.asn ==> next->Report_reason == due
        }),
{
}

/// With a cookie, a tick always starts by fetching the address, carrying the
/// cookie and why a report is due: none for a good answer younger than the
/// threshold, `Stale` for a good answer at least that old, `PreviousHttpError`
/// for an answer whose status does not begin with `2` or that had no body,
/// `NoPreviousResponse` when there is no answer.
pub proof fn lemma_plan_carries_due_reason(state: PersistentState, stale_threshold: u64, now: Timestamp)
    requires
        state.cookie is Some,
    ensures
        ({
            let plan = tick_plan_for(update_reason_at(state, stale_threshold, now), state.cookie);
            let r = state.last_mam_response->0;
            &&& plan is FetchIp
            &&& plan->FetchIp_cookie == state.cookie->0
            &&& state.last_mam_response is None ==> plan->FetchIp_due == Some(
                UpdateReason::NoPreviousResponse,
            )
            &&& state.last_mam_response is Some && (!starts_with_two(r.http_status)
                || r.body is None) ==> plan->FetchIp_due == Some(UpdateReason::PreviousHttpError)
            &&& state.last_mam_response is Some && starts_with_two(r.http_status)
                && r.body is Some && age_seconds(now, r.at) >= stale_threshold
                ==> plan->FetchIp_due == Some(UpdateReason::Stale)
            &&& state.last_mam_response is Some && starts_with_two(r.http_status)
                && r.body is Some && age_seconds(now, r.at) < stale_threshold
                ==> plan->FetchIp_due is None
        }),
{
}

/// A fetched address that differs, as text, from the last acknowledged one
/// gives `IpChanged`, whether or not a report was due; the same address on a
/// different network gives `AsnChanged`; the same address and network give
/// the due reason back, and no report when none was due.
pub proof fn lemma_address_comparison(
    state: PersistentState,
    reason: UpdateReason,
    due: Option<UpdateReason>,
    ip: IpResponse,
)
    requires
        acknowledged_body(state) is Some,
    ensures
        ({
            let prev = acknowledged_body(state)->0;
            &&& prev.ip@ != ip.ip@ ==> refined_reason(state, reason, ip) == UpdateReason::IpChanged
                && address_change(state, ip) == Some(UpdateReason::IpChanged)
                && report_reason_for(state, due, ip) == Some(UpdateReason::IpChanged)
            &&& prev.ip@ == ip.ip@ && prev.asn != ip.asn ==> refined_reason(state, reason, ip)
                == UpdateReason::AsnChanged && address_change(state, ip) == Some(
                UpdateReason::AsnChanged,
            ) && report_reason_for(state, due, ip) == Some(UpdateReason::AsnChanged)
            &&& prev.ip@ == ip.ip@ && prev.asn == ip.asn ==> refined_reason(state, reason, ip)
                == reason && address_change(state, ip) is None && report_reason_for(state, due, ip)
                == due
        }),
{
}

/// Without an acknowledged body there is nothing to compare: the reason
/// stays as it was, no address change is seen, and only a due report is made.
pub proof fn lemma_no_body_keeps_reason(
    state: PersistentState,
    reason: UpdateReason,
    due: Option<UpdateReason>,
    ip: IpResponse,
)
    requires
        acknowledged_body(state) is None,
    ensures
        refined_reason(state, reason, ip) == reason,
        address_change(state, ip) is None,
        report_reason_for(state, due, ip) == due,
{
}

} // verus!
