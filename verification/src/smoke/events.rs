//! The events the smoke host observes: their kinds, the records it keeps
//! of them and how it renders them.
use vstd::prelude::*;

use super::names::{
    cancel_reason_name, cancel_reason_text, display_i64, i64_text, release_disposition_name,
    release_disposition_text, status_name, status_text, ReleaseDisposition,
};
use crate::text::{append_i64, append_str, append_u64, decimal, signed_decimal};

verus! {

/// The kinds of event that the texture service reports.
#[derive(Clone, Copy, Debug, PartialEq, Eq, Structural)]
pub enum FfiEventKind {
    StatusChanged,
    TextureReady,
    RequestPaused,
    RequestResumed,
    RequestCanceled,
    ResourceReleased,
    EngineGone,
    /// An event type code that names none of the above.
    Other,
}

/// The fields of a reported event that the smoke host reads.
#[derive(Clone, Copy, Debug, PartialEq, Eq, Structural)]
pub struct EventRecord {
    pub kind: FfiEventKind,
    pub event_type: u32,
    pub request_id: u64,
    pub source_id: u64,
    pub engine_handle: i64,
    pub texture_id: i64,
    pub status: u32,
    pub error_code: u32,
    pub cancel_reason: u32,
    pub release_disposition: ReleaseDisposition,
}

/// The fields of a request's state that the smoke host reads.
#[derive(Clone, Copy, Debug, PartialEq, Eq, Structural)]
pub struct RequestStateSnapshot {
    pub engine_handle: i64,
    pub source_id: u64,
    pub texture_id: i64,
    pub status: u32,
    pub error_code: u32,
}

/// What the smoke host remembers of an event.
#[derive(Clone, Copy, Debug)]
pub struct SmokeEventSummary {
    pub event_name: &'static str,
    pub event_kind: FfiEventKind,
    pub event_type: u32,
    pub request_id: u64,
    pub source_id: u64,
    pub engine_handle: i64,
    pub texture_id: i64,
    pub status: u32,
    pub error_code: u32,
}

/// Whether summarizing an event of `kind` reads the request's state:
/// every kind but `EngineGone` does.
pub fn summary_needs_request_state(kind: FfiEventKind) -> (r: bool)
    ensures
        r == (kind != FfiEventKind::EngineGone),
{
    match kind {
        FfiEventKind::EngineGone => false,
        _ => true,
    }
}

/// The summary of an event: each field from the event, or, where the
/// event leaves it unset, from the request's state; none when neither
/// names the engine.
pub open spec fn event_summary(
    event_name: &'static str,
    record: EventRecord,
    request_state: Option<RequestStateSnapshot>,
) -> Option<SmokeEventSummary> {
    let state = if record.kind == FfiEventKind::EngineGone { None } else { request_state };
    if record.engine_handle == 0 && state is None {
        None
    } else {
        Some(SmokeEventSummary {
            event_name,
            event_kind: record.kind,
            event_type: record.event_type,
            request_id: record.request_id,
            source_id: if record.source_id != 0 {
                record.source_id
            } else {
                match state { Some(s) => s.source_id, None => 0 }
            },
            engine_handle: if record.engine_handle != 0 {
                record.engine_handle
            } else {
                state.unwrap().engine_handle
            },
            texture_id: if record.texture_id >= 0 {
                record.texture_id
            } else {
                match state { Some(s) => s.texture_id, None => -1i64 }
            },
            status: if record.status != 0 {
                record.status
            } else {
                match state { Some(s) => s.status, None => 0 }
            },
            error_code: if record.error_code != 0 {
                record.error_code
            } else {
                match state { Some(s) => s.error_code, None => 0 }
            },
        })
    }
}

pub fn summarize_event(
    event_name: &'static str,
    record: EventRecord,
    request_state: Option<RequestStateSnapshot>,
) -> (s: Option<SmokeEventSummary>)
    ensures
        s == event_summary(event_name, record, request_state),
{
    let state = if summary_needs_request_state(record.kind) { request_state } else { None };
    let engine_handle = if record.engine_handle != 0 {
        record.engine_handle
    } else {
        match state {
            Some(s) => s.engine_handle,
            None => return None,
        }
    };
    Some(SmokeEventSummary {
        event_name,
        event_kind: record.kind,
        event_type: record.event_type,
        request_id: record.request_id,
        source_id: if record.source_id != 0 {
            record.source_id
        } else {
            match state { Some(s) => s.source_id, None => 0 }
        },
        engine_handle,
        texture_id: if record.texture_id >= 0 {
            record.texture_id
        } else {
            match state { Some(s) => s.texture_id, None => -1 }
        },
        status: if record.status != 0 {
            record.status
        } else {
            match state { Some(s) => s.status, None => 0 }
        },
        error_code: if record.error_code != 0 {
            record.error_code
        } else {
            match state { Some(s) => s.error_code, None => 0 }
        },
    })
}

/// How an event appears in a request's history line.
pub open spec fn history_entry_text(event: SmokeEventSummary) -> Seq<char> {
    match event.event_kind {
        FfiEventKind::StatusChanged => event.event_name@ + ":"@ + status_text(event.status),
        FfiEventKind::TextureReady => event.event_name@ + ":"@ + i64_text(event.texture_id),
        _ => event.event_name@,
    }
}

pub fn format_event_for_history(event: &SmokeEventSummary) -> (s: String)
    ensures
        s@ == history_entry_text(*event),
{
    let mut s = String::from_str(event.event_name);
    match event.event_kind {
        FfiEventKind::StatusChanged => {
            append_str(&mut s, ":");
            append_str(&mut s, status_name(event.status));
        },
        FfiEventKind::TextureReady => {
            append_str(&mut s, ":");
            let id = display_i64(event.texture_id);
            append_str(&mut s, id.as_str());
        },
        _ => {},
    }
    s
}

/// How an event appears in a diagnostic report.
pub open spec fn event_record_text(event: EventRecord) -> Seq<char> {
    match event.kind {
        FfiEventKind::TextureReady => "TextureReady:"@ + i64_text(event.texture_id),
        FfiEventKind::StatusChanged => "StatusChanged:"@ + status_text(event.status),
        FfiEventKind::RequestResumed => "RequestResumed:"@ + status_text(event.status),
        FfiEventKind::RequestPaused => "RequestPaused:"@ + status_text(event.status),
        FfiEventKind::RequestCanceled => "RequestCanceled:"@ + cancel_reason_text(event.cancel_reason)
            + ":"@ + status_text(event.status),
        FfiEventKind::ResourceReleased => "ResourceReleased:"@ + release_disposition_text(
            event.release_disposition,
        ) + ":"@ + status_text(event.status),
        FfiEventKind::EngineGone => "EngineGone:"@ + signed_decimal(event.engine_handle as int),
        FfiEventKind::Other => "Event"@ + decimal(event.event_type as nat),
    }
}

pub fn format_event_record(event: &EventRecord) -> (s: String)
    ensures
        s@ == event_record_text(*event),
{
    match event.kind {
        FfiEventKind::TextureReady => {
            let mut s = String::from_str("TextureReady:");
            let id = display_i64(event.texture_id);
            append_str(&mut s, id.as_str());
            s
        },
        FfiEventKind::StatusChanged => {
            let mut s = String::from_str("StatusChanged:");
            append_str(&mut s, status_name(event.status));
            s
        },
        FfiEventKind::RequestResumed => {
            let mut s = String::from_str("RequestResumed:");
            append_str(&mut s, status_name(event.status));
            s
        },
        FfiEventKind::RequestPaused => {
            let mut s = String::from_str("RequestPaused:");
            append_str(&mut s, status_name(event.status));
            s
        },
        FfiEventKind::RequestCanceled => {
            let mut s = String::from_str("RequestCanceled:");
            append_str(&mut s, cancel_reason_name(event.cancel_reason));
            append_str(&mut s, ":");
            append_str(&mut s, status_name(event.status));
            s
        },
        FfiEventKind::ResourceReleased => {
            let mut s = String::from_str("ResourceReleased:");
            append_str(&mut s, release_disposition_name(event.release_disposition));
            append_str(&mut s, ":");
            append_str(&mut s, status_name(event.status));
            s
        },
        FfiEventKind::EngineGone => {
            let mut s = String::from_str("EngineGone:");
            append_i64(&mut s, event.engine_handle);
            s
        },
        FfiEventKind::Other => {
            let mut s = String::from_str("Event");
            append_u64(&mut s, event.event_type as u64);
            s
        },
    }
}

/// The texts of `items` joined by " -> ".
pub open spec fn joined(items: Seq<Seq<char>>) -> Seq<char>
    decreases items.len(),
{
    if items.len() == 0 {
        Seq::empty()
    } else if items.len() == 1 {
        items[0]
    } else {
        joined(items.drop_last()) + " -> "@ + items.last()
    }
}

/// The report line of a list of events: "-" when there are none.
pub open spec fn event_records_text(events: Seq<EventRecord>) -> Seq<char> {
    if events.len() == 0 {
        "-"@
    } else {
        joined(events.map_values(|e: EventRecord| event_record_text(e)))
    }
}

pub fn format_event_records(events: &[EventRecord]) -> (s: String)
    ensures
        s@ == event_records_text(events@),
{
    if events.len() == 0 {
        return String::from_str("-");
    }
    let ghost texts = events@.map_values(|e: EventRecord| event_record_text(e));
    let mut s = format_event_record(&events[0]);
    assert(texts.take(1) =~= seq![texts[0]]);
    let mut i: usize = 1;
    while i < events.len()
        invariant
            1 <= i <= events@.len(),
            texts == events@.map_values(|e: EventRecord| event_record_text(e)),
            s@ == joined(texts.take(i as int)),
        decreases events@.len() - i,
    {
        append_str(&mut s, " -> ");
        let entry = format_event_record(&events[i]);
        append_str(&mut s, entry.as_str());
        assert(texts.take(i + 1).drop_last() =~= texts.take(i as int));
        i = i + 1;
    }
    assert(texts.take(events@.len() as int) =~= texts);
    s
}

/// The report line of a request's recent events: "-" when there are none.
pub open spec fn history_text(events: Seq<SmokeEventSummary>) -> Seq<char> {
    joined(events.map_values(|e: SmokeEventSummary| history_entry_text(e)))
}

/// The recent events of a request joined into one line.
pub fn format_history(events: &Vec<SmokeEventSummary>) -> (s: String)
    requires
        events@.len() > 0,
    ensures
        s@ == history_text(events@),
{
    let ghost texts = events@.map_values(|e: SmokeEventSummary| history_entry_text(e));
    let mut s = format_event_for_history(&events[0]);
    assert(texts.take(1) =~= seq![texts[0]]);
    let mut i: usize = 1;
    while i < events.len()
        invariant
            1 <= i <= events@.len(),
            texts == events@.map_values(|e: SmokeEventSummary| history_entry_text(e)),
            s@ == joined(texts.take(i as int)),
        decreases events@.len() - i,
    {
        append_str(&mut s, " -> ");
        let entry = format_event_for_history(&events[i]);
        append_str(&mut s, entry.as_str());
        assert(texts.take(i + 1).drop_last() =~= texts.take(i as int));
        i = i + 1;
    }
    assert(texts.take(events@.len() as int) =~= texts);
    s
}

/// Whether any of `events` is of `kind`.
pub fn has_event_type(events: &[EventRecord], kind: FfiEventKind) -> (r: bool)
    ensures
        r == exists|i: int| 0 <= i < events@.len() && events@[i].kind == kind,
{
    let mut i: usize = 0;
    while i < events.len()
        invariant
            0 <= i <= events@.len(),
            forall|j: int| 0 <= j < i ==> events@[j].kind != kind,
        decreases events@.len() - i,
    {
        if events[i].kind == kind {
            return true;
        }
        i = i + 1;
    }
    false
}

/// True when `e` reports the texture of request `request_id` as ready.
pub open spec fn is_ready_event_for(e: EventRecord, request_id: u64) -> bool {
    e.request_id == request_id && e.kind == FfiEventKind::TextureReady && e.texture_id >= 0
}

/// The texture that the last ready event of `request_id` among `events`
/// reports, if any.
pub open spec fn ready_texture_id(events: Seq<EventRecord>, request_id: u64) -> Option<i64>
    decreases events.len(),
{
    if events.len() == 0 {
        None
    } else if is_ready_event_for(events.last(), request_id) {
        Some(events.last().texture_id)
    } else {
        ready_texture_id(events.drop_last(), request_id)
    }
}

/// The texture id of the last ready event of `request_id` among `events`.
pub fn find_ready_texture_id(events: &[EventRecord], request_id: u64) -> (t: Option<i64>)
    ensures
        t == ready_texture_id(events@, request_id),
{
    let mut ready: Option<i64> = None;
    let mut i: usize = 0;
    while i < events.len()
        invariant
            0 <= i <= events@.len(),
            ready == ready_texture_id(events@.take(i as int), request_id),
        decreases events@.len() - i,
    {
        let event = events[i];
        if event.request_id == request_id && event.kind == FfiEventKind::TextureReady
            && event.texture_id >= 0 {
            ready = Some(event.texture_id);
        }
        assert(events@.take(i + 1).drop_last() =~= events@.take(i as int));
        i = i + 1;
    }
    assert(events@.take(events@.len() as int) =~= events@);
    ready
}

} // verus!
