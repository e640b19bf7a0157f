//! The judgements of the smoke host's diagnostics: what each step of a
//! diagnostic must observe, the failure it reports otherwise, and the
//! report of a diagnostic that passed.
use vstd::prelude::*;

use super::events::{
    event_record_text, event_records_text, format_event_records, has_event_type, EventRecord, FfiEventKind, RequestStateSnapshot,
};
use super::names::{release_disposition_name, release_disposition_text, status_name, status_text, ReleaseDisposition};
use super::snapshot::bool_text;
use crate::text::{append_i64, append_str, append_u64, decimal, signed_decimal};

verus! {

/// How the texture service answered an acquire.
#[derive(Clone, Copy, Debug, PartialEq, Eq, Structural)]
pub enum AcquireDecision {
    Accepted,
    Reused,
    Rejected,
    /// A decision code that names none of the above.
    Other,
}

/// The answer to an acquire.
#[derive(Clone, Copy, Debug, PartialEq, Eq, Structural)]
pub struct AcquireResponse {
    pub decision: AcquireDecision,
    pub decision_code: u32,
    pub request_id: u64,
    pub status: u32,
    pub texture_id: i64,
    pub error_code: u32,
}

/// The answer to registering or unregistering an engine.
#[derive(Clone, Copy, Debug, PartialEq, Eq, Structural)]
pub struct EngineCommandResult {
    pub success: bool,
    pub is_registered: bool,
    pub error_code: u32,
}

/// The answer to pausing, resuming or canceling a request.
#[derive(Clone, Copy, Debug, PartialEq, Eq, Structural)]
pub struct RequestCommandResult {
    pub success: bool,
    pub status: u32,
    pub error_code: u32,
}

/// The answer to releasing a texture.
#[derive(Clone, Copy, Debug, PartialEq, Eq, Structural)]
pub struct ReleaseResult {
    pub release_disposition: ReleaseDisposition,
    pub error_code: u32,
}

/// The request states the diagnostics expect.
pub const STATUS_LOADING: u32 = 2;
pub const STATUS_REGISTERED: u32 = 5;
pub const STATUS_READY: u32 = 6;
pub const STATUS_UNLOADED: u32 = 9;
pub const STATUS_CANCELING: u32 = 11;

pub open spec fn events_have(events: Seq<EventRecord>, kind: FfiEventKind) -> bool {
    exists|i: int| 0 <= i < events.len() && events[i].kind == kind
}

/// True when `r` succeeded with the report `text`.
pub open spec fn passed_with(r: Result<String, String>, text: Seq<char>) -> bool {
    &&& r matches Ok(s)
    &&& s@ == text
}

/// True when `r` failed with the text `text`.
pub open spec fn failed_with<T>(r: Result<T, String>, text: Seq<char>) -> bool {
    &&& r matches Err(e)
    &&& e@ == text
}

fn text_of(s: &str) -> (r: String)
    ensures
        r@ == s@,
{
    String::from_str(s)
}

fn append_bool(out: &mut String, b: bool)
    ensures
        final(out)@ == old(out)@ + bool_text(b),
{
    append_str(out, if b { "true" } else { "false" });
}

// ---------------------------------------------------------------------
// Steps shared by the diagnostics.

/// An engine registration must succeed; `diagnostic` names the diagnostic.
pub fn check_registered(diagnostic: &str, register: EngineCommandResult) -> (r: Result<(), String>)
    ensures
        register.success ==> r is Ok,
        !register.success ==> failed_with(
            r,
            diagnostic@ + " register_engine failed with error_code="@ + decimal(register.error_code as nat),
        ),
{
    if !register.success {
        let mut s = text_of(diagnostic);
        append_str(&mut s, " register_engine failed with error_code=");
        append_u64(&mut s, register.error_code as u64);
        return Err(s);
    }
    Ok(())
}

/// The failure text of an acquire answered otherwise than `expectation`
/// says it should be.
pub open spec fn unexpected_decision_text(expectation: Seq<char>, response: AcquireResponse) -> Seq<char> {
    expectation + ", got decision="@ + decimal(response.decision_code as nat) + " error_code="@
        + decimal(response.error_code as nat)
}

fn unexpected_decision(expectation: &str, response: AcquireResponse) -> (s: String)
    ensures
        s@ == unexpected_decision_text(expectation@, response),
{
    let mut s = text_of(expectation);
    append_str(&mut s, ", got decision=");
    append_u64(&mut s, response.decision_code as u64);
    append_str(&mut s, " error_code=");
    append_u64(&mut s, response.error_code as u64);
    s
}

/// An acquire must have been answered with `decision`; `expectation`
/// says so in the failure.
pub fn check_decision(expectation: &str, response: AcquireResponse, decision: AcquireDecision) -> (r: Result<(), String>)
    ensures
        response.decision == decision ==> r is Ok,
        response.decision != decision ==> failed_with(r, unexpected_decision_text(expectation@, response)),
{
    if response.decision != decision {
        return Err(unexpected_decision(expectation, response));
    }
    Ok(())
}

/// A request's state must be readable; `what` names the reader in the
/// failure.
pub fn require_state<T>(what: &str, request_id: u64, state: Option<T>) -> (r: Result<T, String>)
    ensures
        state matches Some(s) ==> r == Ok::<T, String>(s),
        state is None ==> failed_with(r, what@ + " for request_id="@ + decimal(request_id as nat)),
{
    match state {
        Some(s) => Ok(s),
        None => {
            let mut s = text_of(what);
            append_str(&mut s, " for request_id=");
            append_u64(&mut s, request_id);
            Err(s)
        },
    }
}

// ---------------------------------------------------------------------
// The single-texture acquire and release of the smoke host.

/// The failure text of a refused engine registration in the acquire path.
pub open spec fn acquire_register_failed_text(engine_handle: i64, error_code: u32) -> Seq<char> {
    "register_engine failed for handle "@ + signed_decimal(engine_handle as int) + " with error_code="@
        + decimal(error_code as nat)
}

pub fn check_acquire_registered(engine_handle: i64, register: EngineCommandResult) -> (r: Result<(), String>)
    ensures
        register.success ==> r is Ok,
        !register.success ==> failed_with(r, acquire_register_failed_text(engine_handle, register.error_code)),
{
    if !register.success {
        let mut s = text_of("register_engine failed for handle ");
        append_i64(&mut s, engine_handle);
        append_str(&mut s, " with error_code=");
        append_u64(&mut s, register.error_code as u64);
        return Err(s);
    }
    Ok(())
}

/// An acquire must not be rejected.
pub fn check_acquire_not_rejected(response: AcquireResponse) -> (r: Result<(), String>)
    ensures
        response.decision != AcquireDecision::Rejected ==> r is Ok,
        response.decision == AcquireDecision::Rejected ==> failed_with(
            r,
            "acquire_shared_texture rejected with error_code="@ + decimal(response.error_code as nat),
        ),
{
    if response.decision == AcquireDecision::Rejected {
        let mut s = text_of("acquire_shared_texture rejected with error_code=");
        append_u64(&mut s, response.error_code as u64);
        return Err(s);
    }
    Ok(())
}

/// The texture of a request after one pump: the one a ready event
/// reported, else the one its state names, if not negative.
pub fn texture_after_pump(
    request_id: u64,
    event_texture_id: Option<i64>,
    state_texture_id: Option<i64>,
) -> (r: Result<i64, String>)
    ensures
        event_texture_id matches Some(t) ==> r == Ok::<i64, String>(t),
        event_texture_id is None && (state_texture_id matches Some(t) && t >= 0) ==> r
            == Ok::<i64, String>(state_texture_id.unwrap()),
        event_texture_id is None && !(state_texture_id matches Some(t) && t >= 0) ==> failed_with(
            r,
            "smoke request "@ + decimal(request_id as nat) + " did not reach TextureReady after one pump"@,
        ),
{
    match event_texture_id {
        Some(t) => return Ok(t),
        None => {},
    }
    match state_texture_id {
        Some(t) => {
            if t >= 0 {
                return Ok(t);
            }
        },
        None => {},
    }
    let mut s = text_of("smoke request ");
    append_u64(&mut s, request_id);
    append_str(&mut s, " did not reach TextureReady after one pump");
    Err(s)
}

/// What releasing a session's texture comes to: a failure for a non-zero
/// error code, else whether the texture is gone (released, or not found).
pub fn release_outcome(request_id: u64, release: ReleaseResult) -> (r: Result<bool, String>)
    ensures
        release.error_code != 0 ==> failed_with(
            r,
            "release_texture failed for request "@ + decimal(request_id as nat) + " with error_code="@
                + decimal(release.error_code as nat),
        ),
        release.error_code == 0 ==> r == Ok::<bool, String>(
            release.release_disposition == ReleaseDisposition::Released
                || release.release_disposition == ReleaseDisposition::NotFound,
        ),
{
    if release.error_code != 0 {
        let mut s = text_of("release_texture failed for request ");
        append_u64(&mut s, request_id);
        append_str(&mut s, " with error_code=");
        append_u64(&mut s, release.error_code as u64);
        return Err(s);
    }
    Ok(match release.release_disposition {
        ReleaseDisposition::Released => true,
        ReleaseDisposition::NotFound => true,
        _ => false,
    })
}

// ---------------------------------------------------------------------
// The reject diagnostic.

pub open spec fn reject_report_text(accepted_request_id: u64, rejected_error_code: u32) -> Seq<char> {
    "已在真机命中 acquire rejected；accepted_request_id="@ + decimal(accepted_request_id as nat)
        + "，error_code="@ + decimal(rejected_error_code as nat)
        + "。请查看 flutter 日志中的 FFI acquire rejected。"@
}

pub fn reject_report(accepted_request_id: u64, rejected_error_code: u32) -> (s: String)
    ensures
        s@ == reject_report_text(accepted_request_id, rejected_error_code),
{
    let mut s = text_of("已在真机命中 acquire rejected；accepted_request_id=");
    append_u64(&mut s, accepted_request_id);
    append_str(&mut s, "，error_code=");
    append_u64(&mut s, rejected_error_code as u64);
    append_str(&mut s, "。请查看 flutter 日志中的 FFI acquire rejected。");
    s
}

// ---------------------------------------------------------------------
// The bridge-failure diagnostic.

pub fn check_bridge_acquire_not_rejected(response: AcquireResponse) -> (r: Result<(), String>)
    ensures
        response.decision != AcquireDecision::Rejected ==> r is Ok,
        response.decision == AcquireDecision::Rejected ==> failed_with(
            r,
            "bridge diagnostic acquire was unexpectedly rejected with error_code="@ + decimal(
                response.error_code as nat,
            ),
        ),
{
    if response.decision == AcquireDecision::Rejected {
        let mut s = text_of("bridge diagnostic acquire was unexpectedly rejected with error_code=");
        append_u64(&mut s, response.error_code as u64);
        return Err(s);
    }
    Ok(())
}

pub open spec fn bridge_failure_text(status: u32, texture_id: i64, error_code: u32) -> Seq<char> {
    "bridge diagnostic expected Registered state after failed bridge, got status="@ + decimal(
        status as nat,
    ) + " texture_id="@ + signed_decimal(texture_id as int) + " error_code="@ + decimal(
        error_code as nat,
    )
}

pub open spec fn bridge_report_text(request_id: u64, texture_id: i64, status: u32) -> Seq<char> {
    "已在真机命中 frame bridge failed；request_id="@ + decimal(request_id as nat) + "，texture_id="@
        + signed_decimal(texture_id as int) + "，status="@ + decimal(status as nat)
        + "。请查看 flutter 日志中的 FFI Android frame bridge failed。"@
}

/// After a failed bridge the request must stay registered with a texture.
pub fn bridge_failure_verdict(request_id: u64, status: u32, texture_id: i64, error_code: u32) -> (r: Result<String, String>)
    ensures
        status != STATUS_REGISTERED || texture_id < 0 ==> failed_with(
            r,
            bridge_failure_text(status, texture_id, error_code),
        ),
        status == STATUS_REGISTERED && texture_id >= 0 ==> passed_with(
            r,
            bridge_report_text(request_id, texture_id, status),
        ),
{
    if status != STATUS_REGISTERED || texture_id < 0 {
        let mut s = text_of(
            "bridge diagnostic expected Registered state after failed bridge, got status=",
        );
        append_u64(&mut s, status as u64);
        append_str(&mut s, " texture_id=");
        append_i64(&mut s, texture_id);
        append_str(&mut s, " error_code=");
        append_u64(&mut s, error_code as u64);
        return Err(s);
    }
    let mut s = text_of("已在真机命中 frame bridge failed；request_id=");
    append_u64(&mut s, request_id);
    append_str(&mut s, "，texture_id=");
    append_i64(&mut s, texture_id);
    append_str(&mut s, "，status=");
    append_u64(&mut s, status as u64);
    append_str(&mut s, "。请查看 flutter 日志中的 FFI Android frame bridge failed。");
    Ok(s)
}

fn append_events(out: &mut String, events: &[EventRecord])
    ensures
        final(out)@ == old(out)@ + event_records_text(events@),
{
    let text = format_event_records(events);
    append_str(out, text.as_str());
}

/// A status code followed by its name in brackets.
pub open spec fn status_with_name(status: u32) -> Seq<char> {
    decimal(status as nat) + " ("@ + status_text(status) + ")"@
}

fn append_status_with_name(out: &mut String, status: u32)
    ensures
        final(out)@ == old(out)@ + status_with_name(status),
{
    append_u64(out, status as u64);
    append_str(out, " (");
    append_str(out, status_name(status));
    append_str(out, ")");
    assert(old(out)@ + decimal(status as nat) + " ("@ + status_text(status) + ")"@ =~= old(out)@
        + status_with_name(status));
}

/// A pause, resume or cancel must succeed and leave the request in
/// `expected_status`; `expectation` says so in the failure.
pub fn check_command(expectation: &str, result: RequestCommandResult, expected_status: u32) -> (r: Result<(), String>)
    ensures
        result.success && result.status == expected_status ==> r is Ok,
        !(result.success && result.status == expected_status) ==> failed_with(
            r,
            expectation@ + ", got success="@ + bool_text(result.success) + " status="@ + decimal(
                result.status as nat,
            ) + " error_code="@ + decimal(result.error_code as nat),
        ),
{
    if !result.success || result.status != expected_status {
        let mut s = text_of(expectation);
        append_str(&mut s, ", got success=");
        append_bool(&mut s, result.success);
        append_str(&mut s, " status=");
        append_u64(&mut s, result.status as u64);
        append_str(&mut s, " error_code=");
        append_u64(&mut s, result.error_code as u64);
        return Err(s);
    }
    Ok(())
}

/// `events` must hold an event of `kind`; `expectation` says so in the
/// failure.
pub fn check_event_seen(expectation: &str, events: &[EventRecord], kind: FfiEventKind) -> (r: Result<(), String>)
    ensures
        events_have(events@, kind) ==> r is Ok,
        !events_have(events@, kind) ==> failed_with(r, expectation@ + ", got "@ + event_records_text(events@)),
{
    if !has_event_type(events, kind) {
        let mut s = text_of(expectation);
        append_str(&mut s, ", got ");
        append_events(&mut s, events);
        return Err(s);
    }
    Ok(())
}

/// The pause of a loading request is reported by exactly one event:
/// `RequestPaused`, with the request canceling.
pub open spec fn single_pause_event(events: Seq<EventRecord>) -> bool {
    &&& events.len() == 1
    &&& events[0].kind == FfiEventKind::RequestPaused
    &&& events[0].status == STATUS_CANCELING
}

/// The events after a pause must be exactly one `RequestPaused` event of a
/// canceling request.
pub fn check_pause_events(events: &[EventRecord]) -> (r: Result<(), String>)
    ensures
        single_pause_event(events@) ==> r is Ok,
        !single_pause_event(events@) ==> failed_with(
            r,
            "control-plane diagnostic expected a single RequestPaused:Canceling event, got "@
                + event_records_text(events@),
        ),
{
    if events.len() != 1 || events[0].kind != FfiEventKind::RequestPaused || events[0].status
        != STATUS_CANCELING {
        let mut s = text_of("control-plane diagnostic expected a single RequestPaused:Canceling event, got ");
        append_events(&mut s, events);
        return Err(s);
    }
    Ok(())
}

/// The pause events that pass `check_pause_events` read
/// `RequestPaused:Canceling` in the control-plane report.
pub proof fn law_passing_pause_events_line(events: Seq<EventRecord>)
    requires
        single_pause_event(events),
    ensures
        event_records_text(events) == "RequestPaused:"@ + "Canceling"@,
{
    let texts = events.map_values(|e: EventRecord| event_record_text(e));
    assert(texts.len() == 1);
    assert(texts[0] == event_record_text(events[0]));
}

/// An engine unregistration must succeed; `diagnostic` names the diagnostic.
pub fn check_unregistered(diagnostic: &str, unregister: EngineCommandResult) -> (r: Result<(), String>)
    ensures
        unregister.success ==> r is Ok,
        !unregister.success ==> failed_with(
            r,
            diagnostic@ + " unregister_engine failed with error_code="@ + decimal(unregister.error_code as nat),
        ),
{
    if !unregister.success {
        let mut s = text_of(diagnostic);
        append_str(&mut s, " unregister_engine failed with error_code=");
        append_u64(&mut s, unregister.error_code as u64);
        return Err(s);
    }
    Ok(())
}

// ---------------------------------------------------------------------
// The control-plane diagnostic.

/// After pause and resume, one pump must bring the request to Ready.
pub fn check_pause_resume_ready(processed: u64, state: RequestStateSnapshot, ready_events: &[EventRecord]) -> (r: Result<(), String>)
    ensures
        ({
            let ok = processed == 1 && state.status == STATUS_READY && state.texture_id >= 0
                && events_have(ready_events@, FfiEventKind::TextureReady);
            &&& ok ==> r is Ok
            &&& !ok ==> failed_with(
                r,
                "control-plane diagnostic pause/resume path did not reach Ready: processed="@
                    + decimal(processed as nat) + ", state_status="@ + decimal(state.status as nat)
                    + ", texture_id="@ + signed_decimal(state.texture_id as int) + ", events="@
                    + event_records_text(ready_events@),
            )
        }),
{
    if processed != 1 || state.status != STATUS_READY || state.texture_id < 0 || !has_event_type(
        ready_events,
        FfiEventKind::TextureReady,
    ) {
        let mut s = text_of("control-plane diagnostic pause/resume path did not reach Ready: processed=");
        append_u64(&mut s, processed);
        append_str(&mut s, ", state_status=");
        append_u64(&mut s, state.status as u64);
        append_str(&mut s, ", texture_id=");
        append_i64(&mut s, state.texture_id);
        append_str(&mut s, ", events=");
        append_events(&mut s, ready_events);
        return Err(s);
    }
    Ok(())
}

/// A release before Ready must unload the request, and a late ready must
/// be discarded.
pub fn check_late_ready_discarded(
    processed: u64,
    state: RequestStateSnapshot,
    release_events: &[EventRecord],
    late_events: &[EventRecord],
) -> (r: Result<(), String>)
    ensures
        ({
            let ok = state.status == STATUS_UNLOADED && !events_have(late_events@, FfiEventKind::TextureReady);
            &&& ok ==> r is Ok
            &&& !ok ==> failed_with(
                r,
                "control-plane diagnostic late-ready discard failed: processed="@ + decimal(processed as nat)
                    + ", state_status="@ + decimal(state.status as nat) + ", release_events="@
                    + event_records_text(release_events@) + ", late_events="@ + event_records_text(
                    late_events@,
                ),
            )
        }),
{
    if state.status != STATUS_UNLOADED || has_event_type(late_events, FfiEventKind::TextureReady) {
        let mut s = text_of("control-plane diagnostic late-ready discard failed: processed=");
        append_u64(&mut s, processed);
        append_str(&mut s, ", state_status=");
        append_u64(&mut s, state.status as u64);
        append_str(&mut s, ", release_events=");
        append_events(&mut s, release_events);
        append_str(&mut s, ", late_events=");
        append_events(&mut s, late_events);
        return Err(s);
    }
    Ok(())
}

/// A second acquire of a pending source must reuse the first request.
pub fn check_duplicate_pending(first: AcquireResponse, pending: AcquireResponse) -> (r: Result<(), String>)
    ensures
        ({
            let ok = pending.decision == AcquireDecision::Reused && pending.request_id == first.request_id;
            &&& ok ==> r is Ok
            &&& !ok ==> failed_with(
                r,
                "control-plane diagnostic expected duplicate pending acquire to reuse request_id="@
                    + decimal(first.request_id as nat) + ", got decision="@ + decimal(
                    pending.decision_code as nat,
                ) + " request_id="@ + decimal(pending.request_id as nat),
            )
        }),
{
    if pending.decision != AcquireDecision::Reused || pending.request_id != first.request_id {
        let mut s = text_of("control-plane diagnostic expected duplicate pending acquire to reuse request_id=");
        append_u64(&mut s, first.request_id);
        append_str(&mut s, ", got decision=");
        append_u64(&mut s, pending.decision_code as u64);
        append_str(&mut s, " request_id=");
        append_u64(&mut s, pending.request_id);
        return Err(s);
    }
    Ok(())
}

/// After one pump, a third acquire of the source must reuse the first
/// request, now Ready.
pub fn check_duplicate_ready(
    processed: u64,
    first: AcquireResponse,
    ready: AcquireResponse,
    state: RequestStateSnapshot,
    ready_events: &[EventRecord],
) -> (r: Result<(), String>)
    ensures
        ({
            let ok = processed == 1 && ready.decision == AcquireDecision::Reused && ready.request_id
                == first.request_id && ready.status == STATUS_READY && state.status == STATUS_READY;
            &&& ok ==> r is Ok
            &&& !ok ==> failed_with(
                r,
                "control-plane diagnostic duplicate acquire path failed: processed="@ + decimal(
                    processed as nat,
                ) + ", ready_decision="@ + decimal(ready.decision_code as nat) + ", ready_status="@
                    + decimal(ready.status as nat) + ", state_status="@ + decimal(state.status as nat)
                    + ", events="@ + event_records_text(ready_events@),
            )
        }),
{
    if processed != 1 || ready.decision != AcquireDecision::Reused || ready.request_id != first.request_id
        || ready.status != STATUS_READY || state.status != STATUS_READY {
        let mut s = text_of("control-plane diagnostic duplicate acquire path failed: processed=");
        append_u64(&mut s, processed);
        append_str(&mut s, ", ready_decision=");
        append_u64(&mut s, ready.decision_code as u64);
        append_str(&mut s, ", ready_status=");
        append_u64(&mut s, ready.status as u64);
        append_str(&mut s, ", state_status=");
        append_u64(&mut s, state.status as u64);
        append_str(&mut s, ", events=");
        append_events(&mut s, ready_events);
        return Err(s);
    }
    Ok(())
}

/// What the control-plane diagnostic observed on its way to a pass.
pub struct ControlPlaneObservations {
    pub pause_events: Vec<EventRecord>,
    pub resume_events: Vec<EventRecord>,
    pub ready_events: Vec<EventRecord>,
    pub release_before_ready_disposition: ReleaseDisposition,
    pub release_before_ready_status: u32,
    pub late_ready_events: Vec<EventRecord>,
    pub duplicate_reuse_events: Vec<EventRecord>,
    pub duplicate_ready_events: Vec<EventRecord>,
}

pub open spec fn control_plane_report_text(o: ControlPlaneObservations) -> Seq<char> {
    "p1_control_plane=PASS\npause_resume_path=pause_request -> resume_request -> Ready\npause_events="@
        + event_records_text(o.pause_events@) + "\nresume_events="@ + event_records_text(o.resume_events@)
        + "\nready_events="@ + event_records_text(o.ready_events@) + "\nrelease_before_ready=PASS | result="@
        + release_disposition_text(o.release_before_ready_disposition) + " | status="@ + status_with_name(
        o.release_before_ready_status,
    ) + " | followup_ready_events="@ + event_records_text(o.late_ready_events@)
        + "\nduplicate_acquire=PASS | pending_reuse_events="@ + event_records_text(
        o.duplicate_reuse_events@,
    ) + " | ready_events="@ + event_records_text(o.duplicate_ready_events@)
        + "\nbackpressure_ui=Use existing Trigger Reject Diagnostic button for the max_pending_requests=1 rejection path"@
}

pub fn control_plane_report(o: &ControlPlaneObservations) -> (s: String)
    ensures
        s@ == control_plane_report_text(*o),
{
    let mut s = text_of(
        "p1_control_plane=PASS\npause_resume_path=pause_request -> resume_request -> Ready\npause_events=",
    );
    append_events(&mut s, o.pause_events.as_slice());
    append_str(&mut s, "\nresume_events=");
    append_events(&mut s, o.resume_events.as_slice());
    append_str(&mut s, "\nready_events=");
    append_events(&mut s, o.ready_events.as_slice());
    append_str(&mut s, "\nrelease_before_ready=PASS | result=");
    append_str(&mut s, release_disposition_name(o.release_before_ready_disposition));
    append_str(&mut s, " | status=");
    append_status_with_name(&mut s, o.release_before_ready_status);
    append_str(&mut s, " | followup_ready_events=");
    append_events(&mut s, o.late_ready_events.as_slice());
    append_str(&mut s, "\nduplicate_acquire=PASS | pending_reuse_events=");
    append_events(&mut s, o.duplicate_reuse_events.as_slice());
    append_str(&mut s, " | ready_events=");
    append_events(&mut s, o.duplicate_ready_events.as_slice());
    append_str(
        &mut s,
        "\nbackpressure_ui=Use existing Trigger Reject Diagnostic button for the max_pending_requests=1 rejection path",
    );
    s
}

// ---------------------------------------------------------------------
// The cancel-midflight diagnostic.

/// A cancel while the request is loading must leave it canceling, with
/// no texture and no event at all after the cancel: a passing report
/// always ends in `followup_events=-`.
pub fn cancel_midflight_verdict(
    cancel: RequestCommandResult,
    processed: u64,
    final_state: RequestStateSnapshot,
    initial_events: &[EventRecord],
    cancel_events: &[EventRecord],
    followup_events: &[EventRecord],
) -> (r: Result<String, String>)
    ensures
        ({
            let ok = cancel.success && cancel.status == STATUS_CANCELING && processed == 0
                && final_state.status == STATUS_CANCELING && final_state.texture_id == -1 && events_have(
                cancel_events@,
                FfiEventKind::RequestCanceled,
            ) && followup_events@.len() == 0;
            &&& ok ==> passed_with(
                r,
                "cancel_midflight=PASS\ninitial_events="@ + event_records_text(initial_events@)
                    + "\ncommand_status="@ + status_with_name(cancel.status) + "\nfinal_status="@
                    + status_with_name(final_state.status) + "\ntexture_id="@ + signed_decimal(
                    final_state.texture_id as int,
                ) + "\ncancel_events="@ + event_records_text(cancel_events@) + "\nfollowup_events="@
                    + "-"@,
            )
            &&& !ok ==> failed_with(
                r,
                "cancel-midflight diagnostic failed: command_status="@ + decimal(cancel.status as nat)
                    + ", processed="@ + decimal(processed as nat) + ", final_status="@ + decimal(
                    final_state.status as nat,
                ) + ", texture_id="@ + signed_decimal(final_state.texture_id as int)
                    + ", initial_events="@ + event_records_text(initial_events@) + ", cancel_events="@
                    + event_records_text(cancel_events@) + ", followup_events="@ + event_records_text(
                    followup_events@,
                ),
            )
        }),
{
    if !cancel.success || cancel.status != STATUS_CANCELING || processed != 0 || final_state.status
        != STATUS_CANCELING || final_state.texture_id != -1 || !has_event_type(
        cancel_events,
        FfiEventKind::RequestCanceled,
    ) || followup_events.len() != 0 {
        let mut s = text_of("cancel-midflight diagnostic failed: command_status=");
        append_u64(&mut s, cancel.status as u64);
        append_str(&mut s, ", processed=");
        append_u64(&mut s, processed);
        append_str(&mut s, ", final_status=");
        append_u64(&mut s, final_state.status as u64);
        append_str(&mut s, ", texture_id=");
        append_i64(&mut s, final_state.texture_id);
        append_str(&mut s, ", initial_events=");
        append_events(&mut s, initial_events);
        append_str(&mut s, ", cancel_events=");
        append_events(&mut s, cancel_events);
        append_str(&mut s, ", followup_events=");
        append_events(&mut s, followup_events);
        return Err(s);
    }
    let mut s = text_of("cancel_midflight=PASS\ninitial_events=");
    append_events(&mut s, initial_events);
    append_str(&mut s, "\ncommand_status=");
    append_status_with_name(&mut s, cancel.status);
    append_str(&mut s, "\nfinal_status=");
    append_status_with_name(&mut s, final_state.status);
    append_str(&mut s, "\ntexture_id=");
    append_i64(&mut s, final_state.texture_id);
    append_str(&mut s, "\ncancel_events=");
    append_events(&mut s, cancel_events);
    append_str(&mut s, "\nfollowup_events=");
    append_str(&mut s, "-");
    Ok(s)
}

// ---------------------------------------------------------------------
// The cancel-after-ready diagnostic.

/// One pump must bring the request to Ready before it is canceled.
pub fn check_ready_before_cancel(processed: u64, state: RequestStateSnapshot, ready_events: &[EventRecord]) -> (r: Result<(), String>)
    ensures
        ({
            let ok = processed == 1 && state.status == STATUS_READY && state.texture_id >= 0;
            &&& ok ==> r is Ok
            &&& !ok ==> failed_with(
                r,
                "cancel-after-ready diagnostic expected Ready before cancel, got processed="@ + decimal(
                    processed as nat,
                ) + " status="@ + decimal(state.status as nat) + " texture_id="@ + signed_decimal(
                    state.texture_id as int,
                ) + " events="@ + event_records_text(ready_events@),
            )
        }),
{
    if processed != 1 || state.status != STATUS_READY || state.texture_id < 0 {
        let mut s = text_of("cancel-after-ready diagnostic expected Ready before cancel, got processed=");
        append_u64(&mut s, processed);
        append_str(&mut s, " status=");
        append_u64(&mut s, state.status as u64);
        append_str(&mut s, " texture_id=");
        append_i64(&mut s, state.texture_id);
        append_str(&mut s, " events=");
        append_events(&mut s, ready_events);
        return Err(s);
    }
    Ok(())
}

/// A cancel of a Ready request must be a silent no-op.
pub fn cancel_after_ready_verdict(
    cancel: RequestCommandResult,
    cancel_events: &[EventRecord],
    ready_state: RequestStateSnapshot,
    state_after_cancel: RequestStateSnapshot,
) -> (r: Result<String, String>)
    ensures
        ({
            let ok = cancel.success && cancel.status == STATUS_READY && cancel_events@.len() == 0
                && state_after_cancel.status == STATUS_READY && state_after_cancel.texture_id
                == ready_state.texture_id;
            &&& ok ==> passed_with(
                r,
                "cancel_after_ready=PASS\ncommand_status="@ + status_with_name(cancel.status)
                    + "\nstate_status="@ + status_with_name(state_after_cancel.status) + "\ntexture_id="@
                    + signed_decimal(state_after_cancel.texture_id as int) + "\ncancel_events="@
                    + event_records_text(cancel_events@),
            )
            &&& !ok ==> failed_with(
                r,
                "cancel-after-ready diagnostic expected silent no-op, got command_status="@ + decimal(
                    cancel.status as nat,
                ) + ", state_status="@ + decimal(state_after_cancel.status as nat) + ", cancel_events="@
                    + event_records_text(cancel_events@) + ", texture_before="@ + signed_decimal(
                    ready_state.texture_id as int,
                ) + ", texture_after="@ + signed_decimal(state_after_cancel.texture_id as int),
            )
        }),
{
    if !cancel.success || cancel.status != STATUS_READY || cancel_events.len() != 0
        || state_after_cancel.status != STATUS_READY || state_after_cancel.texture_id
        != ready_state.texture_id {
        let mut s = text_of("cancel-after-ready diagnostic expected silent no-op, got command_status=");
        append_u64(&mut s, cancel.status as u64);
        append_str(&mut s, ", state_status=");
        append_u64(&mut s, state_after_cancel.status as u64);
        append_str(&mut s, ", cancel_events=");
        append_events(&mut s, cancel_events);
        append_str(&mut s, ", texture_before=");
        append_i64(&mut s, ready_state.texture_id);
        append_str(&mut s, ", texture_after=");
        append_i64(&mut s, state_after_cancel.texture_id);
        return Err(s);
    }
    let mut s = text_of("cancel_after_ready=PASS\ncommand_status=");
    append_status_with_name(&mut s, cancel.status);
    append_str(&mut s, "\nstate_status=");
    append_status_with_name(&mut s, state_after_cancel.status);
    append_str(&mut s, "\ntexture_id=");
    append_i64(&mut s, state_after_cancel.texture_id);
    append_str(&mut s, "\ncancel_events=");
    append_events(&mut s, cancel_events);
    Ok(s)
}

// ---------------------------------------------------------------------
// The interleaved pause/resume diagnostic.

/// A pause followed at once by a resume must still reach Ready after one
/// pump, with both control events reported.
pub fn interleaved_pause_resume_verdict(
    pause: RequestCommandResult,
    resume: RequestCommandResult,
    processed: u64,
    final_state: RequestStateSnapshot,
    control_events: &[EventRecord],
    ready_events: &[EventRecord],
) -> (r: Result<String, String>)
    ensures
        ({
            let ok = pause.success && resume.success && processed == 1 && final_state.status
                == STATUS_READY && final_state.texture_id >= 0 && events_have(
                control_events@,
                FfiEventKind::RequestPaused,
            ) && events_have(control_events@, FfiEventKind::RequestResumed) && events_have(
                ready_events@,
                FfiEventKind::TextureReady,
            );
            &&& ok ==> passed_with(
                r,
                "interleaved_pause_resume=PASS\npause_status="@ + status_with_name(pause.status)
                    + "\nresume_status="@ + status_with_name(resume.status) + "\ncontrol_events="@
                    + event_records_text(control_events@) + "\nready_events="@ + event_records_text(
                    ready_events@,
                ) + "\nfinal_status="@ + status_with_name(final_state.status) + " | texture_id="@
                    + signed_decimal(final_state.texture_id as int),
            )
            &&& !ok ==> failed_with(
                r,
                "interleaved pause/resume diagnostic failed: pause_status="@ + decimal(pause.status as nat)
                    + ", resume_status="@ + decimal(resume.status as nat) + ", processed="@ + decimal(
                    processed as nat,
                ) + ", final_status="@ + decimal(final_state.status as nat) + ", control_events="@
                    + event_records_text(control_events@) + ", ready_events="@ + event_records_text(
                    ready_events@,
                ),
            )
        }),
{
    if !pause.success || !resume.success || processed != 1 || final_state.status != STATUS_READY
        || final_state.texture_id < 0 || !has_event_type(control_events, FfiEventKind::RequestPaused)
        || !has_event_type(control_events, FfiEventKind::RequestResumed) || !has_event_type(
        ready_events,
        FfiEventKind::TextureReady,
    ) {
        let mut s = text_of("interleaved pause/resume diagnostic failed: pause_status=");
        append_u64(&mut s, pause.status as u64);
        append_str(&mut s, ", resume_status=");
        append_u64(&mut s, resume.status as u64);
        append_str(&mut s, ", processed=");
        append_u64(&mut s, processed);
        append_str(&mut s, ", final_status=");
        append_u64(&mut s, final_state.status as u64);
        append_str(&mut s, ", control_events=");
        append_events(&mut s, control_events);
        append_str(&mut s, ", ready_events=");
        append_events(&mut s, ready_events);
        return Err(s);
    }
    let mut s = text_of("interleaved_pause_resume=PASS\npause_status=");
    append_status_with_name(&mut s, pause.status);
    append_str(&mut s, "\nresume_status=");
    append_status_with_name(&mut s, resume.status);
    append_str(&mut s, "\ncontrol_events=");
    append_events(&mut s, control_events);
    append_str(&mut s, "\nready_events=");
    append_events(&mut s, ready_events);
    append_str(&mut s, "\nfinal_status=");
    append_status_with_name(&mut s, final_state.status);
    append_str(&mut s, " | texture_id=");
    append_i64(&mut s, final_state.texture_id);
    Ok(s)
}

// ---------------------------------------------------------------------
// The engine-gone-pending diagnostic.

/// Unregistering an engine with a pending request must report the engine
/// gone, forget the request and never report it ready.
pub fn engine_gone_pending_verdict(
    unregister: EngineCommandResult,
    processed: u64,
    state_present: bool,
    initial_events: &[EventRecord],
    engine_gone_events: &[EventRecord],
    followup_events: &[EventRecord],
) -> (r: Result<String, String>)
    ensures
        ({
            let ok = unregister.success && processed == 0 && !state_present && events_have(
                engine_gone_events@,
                FfiEventKind::EngineGone,
            ) && !events_have(followup_events@, FfiEventKind::TextureReady);
            &&& ok ==> passed_with(
                r,
                "engine_gone_pending=PASS\ninitial_events="@ + event_records_text(initial_events@)
                    + "\nengine_gone_events="@ + event_records_text(engine_gone_events@)
                    + "\nfollowup_events="@ + event_records_text(followup_events@)
                    + "\nrequest_state_after_unregister="@ + "absent"@,
            )
            &&& !ok ==> failed_with(
                r,
                "engine-gone-pending diagnostic failed: processed="@ + decimal(processed as nat)
                    + ", state_present="@ + bool_text(state_present) + ", initial_events="@
                    + event_records_text(initial_events@) + ", engine_gone_events="@ + event_records_text(
                    engine_gone_events@,
                ) + ", followup_events="@ + event_records_text(followup_events@),
            )
        }),
{
    if !unregister.success || processed != 0 || state_present || !has_event_type(
        engine_gone_events,
        FfiEventKind::EngineGone,
    ) || has_event_type(followup_events, FfiEventKind::TextureReady) {
        let mut s = text_of("engine-gone-pending diagnostic failed: processed=");
        append_u64(&mut s, processed);
        append_str(&mut s, ", state_present=");
        append_bool(&mut s, state_present);
        append_str(&mut s, ", initial_events=");
        append_events(&mut s, initial_events);
        append_str(&mut s, ", engine_gone_events=");
        append_events(&mut s, engine_gone_events);
        append_str(&mut s, ", followup_events=");
        append_events(&mut s, followup_events);
        return Err(s);
    }
    let mut s = text_of("engine_gone_pending=PASS\ninitial_events=");
    append_events(&mut s, initial_events);
    append_str(&mut s, "\nengine_gone_events=");
    append_events(&mut s, engine_gone_events);
    append_str(&mut s, "\nfollowup_events=");
    append_events(&mut s, followup_events);
    append_str(&mut s, "\nrequest_state_after_unregister=");
    append_str(&mut s, "absent");
    Ok(s)
}

} // verus!
