//! The smoke host's snapshot of an engine: its session, its last request
//! and event, and what is known of the source behind it.
use vstd::prelude::*;

use super::events::{format_history, history_text, RequestStateSnapshot, SmokeEventSummary};
use super::names::{
    display_bool, display_i64, display_optional_u64, i64_text, optional_bool_text,
    optional_u64_text, status_name, status_text,
};
use super::state::{released_in, SmokeDiagnosticsState, SmokeSession, SmokeSourceSummary, TrackedRequest};
use crate::text::{append_i64, append_str, append_u64, decimal, signed_decimal};

verus! {

/// Width of the smoke host's source buffers.
pub const SMOKE_WIDTH: i32 = 256;

/// Height of the smoke host's source buffers.
pub const SMOKE_HEIGHT: i32 = 256;

/// Bytes per pixel of the smoke host's source buffers.
pub const SMOKE_BYTES_PER_PIXEL: usize = 4;

/// Bytes of one smoke source buffer: 256 by 256 pixels of 4 bytes.
pub const SMOKE_SOURCE_BYTES: usize = 262144;

/// The request a snapshot describes: the session's, else the one last
/// made for the engine.
pub open spec fn snapshot_request(session: Option<SmokeSession>, last_request: Option<TrackedRequest>) -> Option<u64> {
    match session {
        Some(s) => Some(s.request_id),
        None => match last_request {
            Some(t) => Some(t.request_id),
            None => None,
        },
    }
}

/// The source a snapshot describes: the request's, else the session's,
/// else that of the request last made for the engine.
pub open spec fn snapshot_source(
    request_state: Option<RequestStateSnapshot>,
    session: Option<SmokeSession>,
    last_request: Option<TrackedRequest>,
) -> Option<u64> {
    match request_state {
        Some(r) => Some(r.source_id),
        None => match session {
            Some(s) => Some(s.source_id),
            None => match last_request {
                Some(t) => Some(t.source_id),
                None => None,
            },
        },
    }
}

pub fn snapshot_request_id(session: Option<SmokeSession>, last_request: Option<TrackedRequest>) -> (r: Option<u64>)
    ensures
        r == snapshot_request(session, last_request),
{
    match session {
        Some(s) => Some(s.request_id),
        None => match last_request {
            Some(t) => Some(t.request_id),
            None => None,
        },
    }
}

pub open spec fn request_line_text(state: Option<RequestStateSnapshot>) -> Seq<char> {
    match state {
        Some(s) => "request_state="@ + decimal(s.status as nat) + " ("@ + status_text(s.status)
            + ") | texture_id="@ + signed_decimal(s.texture_id as int) + " | error_code="@
            + decimal(s.error_code as nat),
        None => "request_state=- | texture_id=- | error_code=-"@,
    }
}

pub open spec fn event_line_text(event: Option<SmokeEventSummary>) -> Seq<char> {
    match event {
        Some(e) => "last_event="@ + e.event_name@ + " ("@ + decimal(e.event_type as nat)
            + ") | request_id="@ + decimal(e.request_id as nat) + " | source_id="@ + decimal(
            e.source_id as nat,
        ) + " | texture_id="@ + i64_text(e.texture_id) + " | status="@ + decimal(e.status as nat)
            + " ("@ + status_text(e.status) + ") | error_code="@ + decimal(e.error_code as nat),
        None => "last_event=-"@,
    }
}

pub open spec fn source_line_text(summary: Option<SmokeSourceSummary>) -> Seq<char> {
    match summary {
        Some(s) => "source_resolve_count="@ + decimal(s.resolve_count as nat)
            + " | source_generation="@ + decimal(s.latest_generation as nat),
        None => "source_resolve_count=- | source_generation=-"@,
    }
}

pub open spec fn history_line_text(events: Option<Seq<SmokeEventSummary>>) -> Seq<char> {
    match events {
        Some(e) => if e.len() > 0 {
            "request_events="@ + history_text(e)
        } else {
            "request_events=-"@
        },
        None => "request_events=-"@,
    }
}

pub open spec fn bool_text(b: bool) -> Seq<char> {
    if b { "true"@ } else { "false"@ }
}

/// The snapshot text of an engine.
pub open spec fn snapshot_text(
    engine_handle: i64,
    session: Option<SmokeSession>,
    last_request: Option<TrackedRequest>,
    last_event: Option<SmokeEventSummary>,
    request_state: Option<RequestStateSnapshot>,
    source_summary: Option<SmokeSourceSummary>,
    request_events: Option<Seq<SmokeEventSummary>>,
) -> Seq<char> {
    let released = match session { Some(s) => Some(s.released), None => None };
    "engine_handle="@ + signed_decimal(engine_handle as int)
        + "\nregistration_strategy=HardwareBufferSeam\ndelivery_path=AndroidHardwareBufferSeam\nsource_bytes="@
        + decimal(262144) + "\nsource_id="@ + optional_u64_text(
        snapshot_source(request_state, session, last_request),
    ) + "\nrequest_id="@ + optional_u64_text(snapshot_request(session, last_request))
        + "\nactive_session="@ + bool_text(session is Some) + "\nreleased="@ + optional_bool_text(
        released,
    ) + "\n"@ + request_line_text(request_state) + "\n"@ + event_line_text(last_event) + "\n"@
        + source_line_text(source_summary) + "\n"@ + history_line_text(request_events)
}

/// The lines of a snapshot that describe its session.
pub open spec fn session_lines(request_id: u64, released: bool) -> Seq<char> {
    "\nrequest_id="@ + decimal(request_id as nat) + "\nactive_session="@ + "true"@ + "\nreleased="@
        + bool_text(released) + "\n"@
}

/// A texture acquired for an engine (`store`) and then released
/// (`mark_released`) stays in the engine's snapshot until the next acquire
/// tears it down: whatever else the snapshot shows, it names the request,
/// an active session and `released=true`.
pub proof fn law_released_session_stays_in_snapshot(
    sessions: Map<i64, SmokeSession>,
    engine_handle: i64,
    source_id: u64,
    request_id: u64,
    texture_id: i64,
    last_request: Option<TrackedRequest>,
    last_event: Option<SmokeEventSummary>,
    request_state: Option<RequestStateSnapshot>,
    source_summary: Option<SmokeSourceSummary>,
    request_events: Option<Seq<SmokeEventSummary>>,
)
    ensures
        ({
            let stored = sessions.insert(
                engine_handle,
                SmokeSession { engine_handle, source_id, request_id, texture_id, released: false },
            );
            let after = released_in(stored, engine_handle);
            &&& after.contains_key(engine_handle)
            &&& after[engine_handle].released
            &&& exists|before: Seq<char>, rest: Seq<char>|
                snapshot_text(
                    engine_handle,
                    Some(after[engine_handle]),
                    last_request,
                    last_event,
                    request_state,
                    source_summary,
                    request_events,
                ) == before + session_lines(request_id, true) + rest
        }),
{
    let stored = sessions.insert(
        engine_handle,
        SmokeSession { engine_handle, source_id, request_id, texture_id, released: false },
    );
    let after = released_in(stored, engine_handle);
    let session = after[engine_handle];
    assert(session.request_id == request_id && session.released);
    let before = "engine_handle="@ + signed_decimal(engine_handle as int)
        + "\nregistration_strategy=HardwareBufferSeam\ndelivery_path=AndroidHardwareBufferSeam\nsource_bytes="@
        + decimal(262144) + "\nsource_id="@ + optional_u64_text(
        snapshot_source(request_state, Some(session), last_request),
    );
    let rest = request_line_text(request_state) + "\n"@ + event_line_text(last_event) + "\n"@
        + source_line_text(source_summary) + "\n"@ + history_line_text(request_events);
    let text = snapshot_text(
        engine_handle,
        Some(session),
        last_request,
        last_event,
        request_state,
        source_summary,
        request_events,
    );
    assert(optional_bool_text(Some(true)) == "true"@);
    assert(text =~= before + session_lines(request_id, true) + rest);
}

/// The view of the snapshot's optional history.
pub open spec fn history_view(events: Option<Vec<SmokeEventSummary>>) -> Option<Seq<SmokeEventSummary>> {
    match events {
        Some(v) => Some(v@),
        None => None,
    }
}

fn request_line(state: Option<RequestStateSnapshot>) -> (s: String)
    ensures
        s@ == request_line_text(state),
{
    match state {
        Some(st) => {
            let mut s = String::from_str("request_state=");
            append_u64(&mut s, st.status as u64);
            append_str(&mut s, " (");
            append_str(&mut s, status_name(st.status));
            append_str(&mut s, ") | texture_id=");
            append_i64(&mut s, st.texture_id);
            append_str(&mut s, " | error_code=");
            append_u64(&mut s, st.error_code as u64);
            s
        },
        None => String::from_str("request_state=- | texture_id=- | error_code=-"),
    }
}

fn event_line(event: Option<SmokeEventSummary>) -> (s: String)
    ensures
        s@ == event_line_text(event),
{
    match event {
        Some(e) => {
            let mut s = String::from_str("last_event=");
            append_str(&mut s, e.event_name);
            append_str(&mut s, " (");
            append_u64(&mut s, e.event_type as u64);
            append_str(&mut s, ") | request_id=");
            append_u64(&mut s, e.request_id);
            append_str(&mut s, " | source_id=");
            append_u64(&mut s, e.source_id);
            append_str(&mut s, " | texture_id=");
            let texture = display_i64(e.texture_id);
            append_str(&mut s, texture.as_str());
            append_str(&mut s, " | status=");
            append_u64(&mut s, e.status as u64);
            append_str(&mut s, " (");
            append_str(&mut s, status_name(e.status));
            append_str(&mut s, ") | error_code=");
            append_u64(&mut s, e.error_code as u64);
            s
        },
        None => String::from_str("last_event=-"),
    }
}

fn source_line(summary: Option<SmokeSourceSummary>) -> (s: String)
    ensures
        s@ == source_line_text(summary),
{
    match summary {
        Some(summary) => {
            let mut s = String::from_str("source_resolve_count=");
            append_u64(&mut s, summary.resolve_count as u64);
            append_str(&mut s, " | source_generation=");
            append_u64(&mut s, summary.latest_generation as u64);
            s
        },
        None => String::from_str("source_resolve_count=- | source_generation=-"),
    }
}

fn history_line(events: &Option<Vec<SmokeEventSummary>>) -> (s: String)
    ensures
        s@ == history_line_text(history_view(*events)),
{
    match events {
        Some(e) => {
            if e.len() > 0 {
                let mut s = String::from_str("request_events=");
                let joined = format_history(e);
                append_str(&mut s, joined.as_str());
                s
            } else {
                String::from_str("request_events=-")
            }
        },
        None => String::from_str("request_events=-"),
    }
}

/// The snapshot text of an engine, from its session, the diagnostics and
/// the state of the request the snapshot describes (see
/// `snapshot_request_id`).
pub fn fetch_snapshot(
    engine_handle: i64,
    session: Option<SmokeSession>,
    diagnostics: &SmokeDiagnosticsState,
    request_state: Option<RequestStateSnapshot>,
) -> (s: String)
    ensures
        ({
            let last_request = if diagnostics.tracked_requests().contains_key(engine_handle) {
                Some(diagnostics.tracked_requests()[engine_handle])
            } else {
                None
            };
            let last_event = if diagnostics.last_events().contains_key(engine_handle) {
                Some(diagnostics.last_events()[engine_handle])
            } else {
                None
            };
            let source_summary = match snapshot_source(request_state, session, last_request) {
                Some(id) => if diagnostics.source_summaries().contains_key(id) {
                    Some(diagnostics.source_summaries()[id])
                } else {
                    None
                },
                None => None,
            };
            let request_events = match snapshot_request(session, last_request) {
                Some(id) => if diagnostics.has_history(id) {
                    Some(diagnostics.history(id))
                } else {
                    None
                },
                None => None,
            };
            s@ == snapshot_text(
                engine_handle,
                session,
                last_request,
                last_event,
                request_state,
                source_summary,
                request_events,
            )
        }),
{
    let last_request = diagnostics.tracked_request(engine_handle);
    let last_event = diagnostics.last_event(engine_handle);
    let request_id = snapshot_request_id(session, last_request);
    let source_id = match request_state {
        Some(r) => Some(r.source_id),
        None => match session {
            Some(s) => Some(s.source_id),
            None => match last_request {
                Some(t) => Some(t.source_id),
                None => None,
            },
        },
    };
    let released = match session {
        Some(s) => Some(s.released),
        None => None,
    };
    let source_summary = match source_id {
        Some(id) => diagnostics.source_summary(id),
        None => None,
    };
    let request_events = match request_id {
        Some(id) => diagnostics.recent_request_events(id),
        None => None,
    };

    let mut s = String::from_str("engine_handle=");
    append_i64(&mut s, engine_handle);
    append_str(
        &mut s,
        "\nregistration_strategy=HardwareBufferSeam\ndelivery_path=AndroidHardwareBufferSeam\nsource_bytes=",
    );
    append_u64(&mut s, SMOKE_SOURCE_BYTES as u64);
    append_str(&mut s, "\nsource_id=");
    let source_text = display_optional_u64(source_id);
    append_str(&mut s, source_text.as_str());
    append_str(&mut s, "\nrequest_id=");
    let request_text = display_optional_u64(request_id);
    append_str(&mut s, request_text.as_str());
    append_str(&mut s, "\nactive_session=");
    append_str(&mut s, if session.is_some() { "true" } else { "false" });
    append_str(&mut s, "\nreleased=");
    append_str(&mut s, display_bool(released));
    append_str(&mut s, "\n");
    let line = request_line(request_state);
    append_str(&mut s, line.as_str());
    append_str(&mut s, "\n");
    let line = event_line(last_event);
    append_str(&mut s, line.as_str());
    append_str(&mut s, "\n");
    let line = source_line(source_summary);
    append_str(&mut s, line.as_str());
    append_str(&mut s, "\n");
    let line = history_line(&request_events);
    append_str(&mut s, line.as_str());
    s
}

} // verus!
