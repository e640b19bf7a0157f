use std::collections::HashMap;

use irondash_texture::smoke::diagnostics::{
    bridge_failure_verdict, cancel_after_ready_verdict, check_pause_events, cancel_midflight_verdict, control_plane_report,
    interleaved_pause_resume_verdict, ControlPlaneObservations, check_acquire_not_rejected, check_acquire_registered, check_command,
    check_decision, check_duplicate_pending, check_event_seen, check_registered, engine_gone_pending_verdict,
    reject_report, release_outcome, require_state, texture_after_pump, AcquireDecision,
    AcquireResponse, EngineCommandResult, ReleaseResult, RequestCommandResult,
};
use irondash_texture::smoke::events::{
    find_ready_texture_id, format_event_for_history, format_event_record, format_event_records,
    has_event_type, summarize_event, EventRecord, FfiEventKind, RequestStateSnapshot,
    SmokeEventSummary,
};
use irondash_texture::smoke::names::{
    cancel_reason_name, display_bool, display_i64, display_optional_u64, display_u64,
    release_disposition_name, status_name, thread_target_name, ReleaseDisposition, ThreadTarget,
};
use irondash_texture::smoke::lifecycle::{join_bar, lifecycle_report, require_cleaner, LifecycleObservations};
use irondash_texture::smoke::pattern::{fill_smoke_pixels, pattern_rgba, PixelBufferSource};
use irondash_texture::smoke::snapshot::{fetch_snapshot, snapshot_request_id, SMOKE_SOURCE_BYTES};
use irondash_texture::smoke::state::{
    next_lifecycle_generation, teardown_of, AndroidSmokeSourceProvider, SessionTeardown, TextureRelease, SmokeDiagnosticsState, SmokeSession,
    SmokeSessions, TrackedRequest,
    MAX_REQUEST_EVENT_HISTORY,
};
use irondash_texture::{PayloadProvider, PixelDataProvider};

fn record(kind: FfiEventKind, event_type: u32) -> EventRecord {
    EventRecord {
        kind,
        event_type,
        request_id: 1,
        source_id: 0,
        engine_handle: 0,
        texture_id: -1,
        status: 0,
        error_code: 0,
        cancel_reason: 0,
        release_disposition: ReleaseDisposition::Unknown,
    }
}

fn summary(name: &'static str, kind: FfiEventKind, request_id: u64, status: u32, texture_id: i64) -> SmokeEventSummary {
    SmokeEventSummary {
        event_name: name,
        event_kind: kind,
        event_type: 0,
        request_id,
        source_id: 1001,
        engine_handle: 7,
        texture_id,
        status,
        error_code: 0,
    }
}

#[test]
fn status_names() {
    assert_eq!(status_name(1), "Pending");
    assert_eq!(status_name(6), "Ready");
    assert_eq!(status_name(12), "Canceled");
    assert_eq!(status_name(0), "Unknown");
    assert_eq!(status_name(13), "Unknown");
}

#[test]
fn other_names() {
    assert_eq!(cancel_reason_name(2), "EngineDestroyed");
    assert_eq!(cancel_reason_name(0), "None");
    assert_eq!(release_disposition_name(ReleaseDisposition::Deferred), "Deferred");
    assert_eq!(release_disposition_name(ReleaseDisposition::Unknown), "None");
    assert_eq!(thread_target_name(ThreadTarget::Raster), "Raster");
}

#[test]
fn display_helpers() {
    assert_eq!(display_u64(0), "0");
    assert_eq!(display_u64(18446744073709551615), "18446744073709551615");
    assert_eq!(display_optional_u64(Some(42)), "42");
    assert_eq!(display_optional_u64(None), "-");
    assert_eq!(display_i64(-1), "-");
    assert_eq!(display_i64(9000), "9000");
    assert_eq!(display_bool(Some(true)), "true");
    assert_eq!(display_bool(Some(false)), "false");
    assert_eq!(display_bool(None), "-");
}

#[test]
fn pattern_colors() {
    assert_eq!(pattern_rgba(0, 0, 256, 256, 1), [40, 20, 47, 255]);
    assert_eq!(pattern_rgba(100, 100, 256, 256, 0), [169, 119, 90, 255]);
    assert_eq!(pattern_rgba(40, 0, 256, 256, 6), [39, 0, 40, 255]);
    assert_eq!(pattern_rgba(255, 255, 256, 256, 10), [255, 255, 215, 255]);
}

#[test]
fn fill_paints_pattern_and_black_padding() {
    let bytes = fill_smoke_pixels(2, 1, 1, 1, 1, 0).unwrap();
    assert_eq!(bytes, vec![40, 20, 40, 255, 0, 0, 0, 255]);
    let full = fill_smoke_pixels(256, 256, 256, 256, 256, 3).unwrap();
    assert_eq!(full.len(), SMOKE_SOURCE_BYTES);
    let offset = (100 * 256 + 100) * 4;
    assert_eq!(&full[offset..offset + 4], &pattern_rgba(100, 100, 256, 256, 3));
}

#[test]
fn fill_refuses_a_buffer_too_large_to_address() {
    assert_eq!(
        fill_smoke_pixels(usize::MAX, 2, 0, 1, 1, 0).unwrap_err(),
        "AHardwareBuffer byte size overflowed"
    );
}

#[test]
fn random_frames_are_one_hundred_pixels_square() {
    let source = PixelBufferSource::new();
    let frame = source.random_frame();
    let pixels = frame.get();
    assert_eq!((pixels.width, pixels.height), (100, 100));
    assert_eq!(pixels.data.len(), 40_000);
    let payload = source.get_payload();
    assert_eq!(payload.get().data.len(), 40_000);
}

#[test]
fn summary_fills_unset_fields_from_request_state() {
    let state = RequestStateSnapshot { engine_handle: 7, source_id: 1001, texture_id: 3, status: 6, error_code: 0 };
    let s = summarize_event("TextureReady", record(FfiEventKind::TextureReady, 2), Some(state)).unwrap();
    assert_eq!(s.engine_handle, 7);
    assert_eq!(s.source_id, 1001);
    assert_eq!(s.texture_id, 3);
    assert_eq!(s.status, 6);
    assert!(summarize_event("StatusChanged", record(FfiEventKind::StatusChanged, 1), None).is_none());
}

#[test]
fn engine_gone_summary_ignores_request_state() {
    let mut gone = record(FfiEventKind::EngineGone, 7);
    gone.engine_handle = 9;
    let state = RequestStateSnapshot { engine_handle: 7, source_id: 1001, texture_id: 3, status: 6, error_code: 0 };
    let s = summarize_event("EngineGone", gone, Some(state)).unwrap();
    assert_eq!(s.engine_handle, 9);
    assert_eq!(s.source_id, 0);
    assert_eq!(s.texture_id, -1);
    assert_eq!(s.status, 0);
}

#[test]
fn event_texts() {
    assert_eq!(
        format_event_for_history(&summary("StatusChanged", FfiEventKind::StatusChanged, 1, 2, -1)),
        "StatusChanged:Loading"
    );
    assert_eq!(
        format_event_for_history(&summary("TextureReady", FfiEventKind::TextureReady, 1, 6, 5)),
        "TextureReady:5"
    );
    let mut canceled = record(FfiEventKind::RequestCanceled, 5);
    canceled.cancel_reason = 1;
    canceled.status = 11;
    assert_eq!(format_event_record(&canceled), "RequestCanceled:UserRequest:Canceling");
    let mut gone = record(FfiEventKind::EngineGone, 7);
    gone.engine_handle = -3;
    assert_eq!(format_event_record(&gone), "EngineGone:-3");
    assert_eq!(format_event_record(&record(FfiEventKind::Other, 42)), "Event42");
    assert_eq!(format_event_records(&[]), "-");
    let mut ready = record(FfiEventKind::TextureReady, 2);
    ready.texture_id = 8;
    assert_eq!(
        format_event_records(&[ready, gone]),
        "TextureReady:8 -> EngineGone:-3"
    );
}

#[test]
fn ready_events() {
    let mut ready = record(FfiEventKind::TextureReady, 2);
    ready.texture_id = 8;
    let mut later = ready;
    later.texture_id = 9;
    let mut other_request = ready;
    other_request.request_id = 2;
    other_request.texture_id = 10;
    let events = [ready, later, other_request, record(FfiEventKind::StatusChanged, 1)];
    assert_eq!(find_ready_texture_id(&events, 1), Some(9));
    assert_eq!(find_ready_texture_id(&events, 3), None);
    assert!(has_event_type(&events, FfiEventKind::StatusChanged));
    assert!(!has_event_type(&events, FfiEventKind::EngineGone));
}

#[test]
fn sessions_store_release_and_take() {
    let mut sessions = SmokeSessions::new();
    assert_eq!(sessions.get(7), None);
    sessions.store(7, 1001, 1, 5);
    let stored = SmokeSession { engine_handle: 7, source_id: 1001, request_id: 1, texture_id: 5, released: false };
    assert_eq!(sessions.get(7), Some(stored));
    assert_eq!(sessions.pending_release(7), Some(stored));
    sessions.mark_released(7);
    assert_eq!(sessions.get(7), Some(SmokeSession { released: true, ..stored }));
    assert_eq!(sessions.pending_release(7), None);
    sessions.mark_released(8);
    assert_eq!(sessions.get(8), None);
    sessions.mark_released(7);
    assert_eq!(sessions.get(7), Some(SmokeSession { released: true, ..stored }));
    assert_eq!(sessions.take(7), Some(SmokeSession { released: true, ..stored }));
    assert_eq!(sessions.take(7), None);
}

#[test]
fn request_history_keeps_the_newest_events() {
    let mut diagnostics = SmokeDiagnosticsState::new();
    for status in 1..=8u32 {
        diagnostics.record_event(summary("StatusChanged", FfiEventKind::StatusChanged, 1, status, -1));
    }
    let history = diagnostics.recent_request_events(1).unwrap();
    assert_eq!(history.len(), MAX_REQUEST_EVENT_HISTORY);
    let statuses: Vec<u32> = history.iter().map(|e| e.status).collect();
    assert_eq!(statuses, vec![3, 4, 5, 6, 7, 8]);
    assert_eq!(diagnostics.last_event(7).unwrap().status, 8);
}

#[test]
fn engine_gone_is_not_kept_in_request_history() {
    let mut diagnostics = SmokeDiagnosticsState::new();
    diagnostics.record_event(summary("EngineGone", FfiEventKind::EngineGone, 4, 0, -1));
    assert!(diagnostics.recent_request_events(4).is_none());
    assert_eq!(diagnostics.last_event(7).unwrap().event_name, "EngineGone");
}

#[test]
fn source_resolves_are_counted() {
    let mut diagnostics = SmokeDiagnosticsState::new();
    assert_eq!(diagnostics.source_summary(1001), None);
    diagnostics.track_source_resolve(1001, 1);
    diagnostics.track_source_resolve(1001, 2);
    let s = diagnostics.source_summary(1001).unwrap();
    assert_eq!((s.resolve_count, s.latest_generation), (2, 2));
}

#[test]
fn lifecycle_generations_count_up_per_source() {
    let mut generations = HashMap::new();
    assert_eq!(next_lifecycle_generation(&mut generations, 1201), 1);
    assert_eq!(next_lifecycle_generation(&mut generations, 1201), 2);
    assert_eq!(next_lifecycle_generation(&mut generations, 1202), 1);
}

#[test]
fn snapshot_of_an_unknown_engine() {
    let diagnostics = SmokeDiagnosticsState::new();
    assert_eq!(snapshot_request_id(None, None), None);
    assert_eq!(
        fetch_snapshot(7, None, &diagnostics, None),
        "engine_handle=7\nregistration_strategy=HardwareBufferSeam\ndelivery_path=AndroidHardwareBufferSeam\nsource_bytes=262144\nsource_id=-\nrequest_id=-\nactive_session=false\nreleased=-\nrequest_state=- | texture_id=- | error_code=-\nlast_event=-\nsource_resolve_count=- | source_generation=-\nrequest_events=-"
    );
}

#[test]
fn snapshot_of_an_engine_with_a_ready_texture() {
    let mut diagnostics = SmokeDiagnosticsState::new();
    diagnostics.track_source_resolve(1001, 1);
    diagnostics.track_request(7, 1, 1001);
    diagnostics.record_event(summary("StatusChanged", FfiEventKind::StatusChanged, 1, 2, -1));
    diagnostics.record_event(summary("TextureReady", FfiEventKind::TextureReady, 1, 6, 5));
    let session = SmokeSession { engine_handle: 7, source_id: 1001, request_id: 1, texture_id: 5, released: false };
    let state = RequestStateSnapshot { engine_handle: 7, source_id: 1001, texture_id: 5, status: 6, error_code: 0 };
    assert_eq!(
        snapshot_request_id(None, Some(TrackedRequest { request_id: 1, source_id: 1001 })),
        Some(1)
    );
    assert_eq!(
        fetch_snapshot(7, Some(session), &diagnostics, Some(state)),
        "engine_handle=7\nregistration_strategy=HardwareBufferSeam\ndelivery_path=AndroidHardwareBufferSeam\nsource_bytes=262144\nsource_id=1001\nrequest_id=1\nactive_session=true\nreleased=false\nrequest_state=6 (Ready) | texture_id=5 | error_code=0\nlast_event=TextureReady (0) | request_id=1 | source_id=1001 | texture_id=5 | status=6 (Ready) | error_code=0\nsource_resolve_count=1 | source_generation=1\nrequest_events=StatusChanged:Loading -> TextureReady:5"
    );
}

fn response(decision: AcquireDecision, code: u32, request_id: u64) -> AcquireResponse {
    AcquireResponse { decision, decision_code: code, request_id, status: 1, texture_id: -1, error_code: 4 }
}

#[test]
fn registration_checks() {
    let refused = EngineCommandResult { success: false, is_registered: false, error_code: 3 };
    let accepted = EngineCommandResult { success: true, is_registered: true, error_code: 0 };
    assert_eq!(
        check_registered("reject diagnostic", refused).unwrap_err(),
        "reject diagnostic register_engine failed with error_code=3"
    );
    assert!(check_registered("reject diagnostic", accepted).is_ok());
    assert_eq!(
        check_acquire_registered(-2, refused).unwrap_err(),
        "register_engine failed for handle -2 with error_code=3"
    );
}

#[test]
fn acquire_checks() {
    let rejected = response(AcquireDecision::Rejected, 3, 0);
    assert_eq!(
        check_acquire_not_rejected(rejected).unwrap_err(),
        "acquire_shared_texture rejected with error_code=4"
    );
    assert!(check_acquire_not_rejected(response(AcquireDecision::Accepted, 1, 1)).is_ok());
    assert_eq!(
        check_decision("reject diagnostic expected second acquire to be rejected", response(AcquireDecision::Accepted, 1, 2), AcquireDecision::Rejected)
            .unwrap_err(),
        "reject diagnostic expected second acquire to be rejected, got decision=1 error_code=4"
    );
    assert_eq!(
        check_duplicate_pending(response(AcquireDecision::Accepted, 1, 5), response(AcquireDecision::Reused, 2, 6))
            .unwrap_err(),
        "control-plane diagnostic expected duplicate pending acquire to reuse request_id=5, got decision=2 request_id=6"
    );
    assert!(check_duplicate_pending(response(AcquireDecision::Accepted, 1, 5), response(AcquireDecision::Reused, 2, 5)).is_ok());
}

#[test]
fn pump_and_state_checks() {
    assert_eq!(texture_after_pump(1, Some(4), Some(9)), Ok(4));
    assert_eq!(texture_after_pump(1, None, Some(9)), Ok(9));
    assert_eq!(
        texture_after_pump(1, None, Some(-1)).unwrap_err(),
        "smoke request 1 did not reach TextureReady after one pump"
    );
    assert_eq!(require_state("missing state", 3, Some(5u32)), Ok(5));
    assert_eq!(
        require_state::<u32>("missing state", 3, None).unwrap_err(),
        "missing state for request_id=3"
    );
}

#[test]
fn release_outcomes() {
    let released = ReleaseResult { release_disposition: ReleaseDisposition::Released, error_code: 0 };
    let not_found = ReleaseResult { release_disposition: ReleaseDisposition::NotFound, error_code: 0 };
    let deferred = ReleaseResult { release_disposition: ReleaseDisposition::Deferred, error_code: 0 };
    let failed = ReleaseResult { release_disposition: ReleaseDisposition::Unknown, error_code: 7 };
    assert_eq!(release_outcome(1, released), Ok(true));
    assert_eq!(release_outcome(1, not_found), Ok(true));
    assert_eq!(release_outcome(1, deferred), Ok(false));
    assert_eq!(
        release_outcome(2, failed).unwrap_err(),
        "release_texture failed for request 2 with error_code=7"
    );
}

#[test]
fn command_and_event_checks() {
    let paused = RequestCommandResult { success: true, status: 3, error_code: 0 };
    assert!(check_command("pause", paused, 3).is_ok());
    assert_eq!(
        check_command("expected pause to keep Loaded", paused, 2).unwrap_err(),
        "expected pause to keep Loaded, got success=true status=3 error_code=0"
    );
    let events = [record(FfiEventKind::StatusChanged, 1)];
    assert!(check_event_seen("expected status", &events, FfiEventKind::StatusChanged).is_ok());
    assert_eq!(
        check_event_seen("expected RequestPaused event", &events, FfiEventKind::RequestPaused).unwrap_err(),
        "expected RequestPaused event, got StatusChanged:Unknown"
    );
}

#[test]
fn diagnostic_reports() {
    assert_eq!(
        reject_report(1, 6),
        "已在真机命中 acquire rejected；accepted_request_id=1，error_code=6。请查看 flutter 日志中的 FFI acquire rejected。"
    );
    assert_eq!(
        bridge_failure_verdict(3, 5, 2, 0).unwrap(),
        "已在真机命中 frame bridge failed；request_id=3，texture_id=2，status=5。请查看 flutter 日志中的 FFI Android frame bridge failed。"
    );
    assert_eq!(
        bridge_failure_verdict(3, 6, 2, 9).unwrap_err(),
        "bridge diagnostic expected Registered state after failed bridge, got status=6 texture_id=2 error_code=9"
    );
}

#[test]
fn engine_gone_pending_verdicts() {
    let unregistered = EngineCommandResult { success: true, is_registered: false, error_code: 0 };
    let mut gone = record(FfiEventKind::EngineGone, 7);
    gone.engine_handle = 11;
    let pass = engine_gone_pending_verdict(unregistered, 0, false, &[], &[gone], &[]).unwrap();
    assert_eq!(
        pass,
        "engine_gone_pending=PASS\ninitial_events=-\nengine_gone_events=EngineGone:11\nfollowup_events=-\nrequest_state_after_unregister=absent"
    );
    let fail = engine_gone_pending_verdict(unregistered, 0, true, &[], &[gone], &[]).unwrap_err();
    assert_eq!(
        fail,
        "engine-gone-pending diagnostic failed: processed=0, state_present=true, initial_events=-, engine_gone_events=EngineGone:11, followup_events=-"
    );
}


fn event(kind: FfiEventKind, status: u32, texture_id: i64) -> EventRecord {
    let mut e = record(kind, 0);
    e.status = status;
    e.texture_id = texture_id;
    e
}

#[test]
fn control_plane_report_lists_each_path() {
    let mut released = event(FfiEventKind::ResourceReleased, 9, -1);
    released.release_disposition = ReleaseDisposition::Released;
    let report = control_plane_report(&ControlPlaneObservations {
        pause_events: vec![event(FfiEventKind::RequestPaused, 11, -1)],
        resume_events: vec![event(FfiEventKind::RequestResumed, 2, -1)],
        ready_events: vec![event(FfiEventKind::StatusChanged, 6, -1), event(FfiEventKind::TextureReady, 6, 4)],
        release_before_ready_disposition: ReleaseDisposition::Released,
        release_before_ready_status: 9,
        late_ready_events: vec![],
        duplicate_reuse_events: vec![],
        duplicate_ready_events: vec![event(FfiEventKind::TextureReady, 6, 5)],
    });
    assert_eq!(
        report,
        "p1_control_plane=PASS\npause_resume_path=pause_request -> resume_request -> Ready\npause_events=RequestPaused:Canceling\nresume_events=RequestResumed:Loading\nready_events=StatusChanged:Ready -> TextureReady:4\nrelease_before_ready=PASS | result=Released | status=9 (Unloaded) | followup_ready_events=-\nduplicate_acquire=PASS | pending_reuse_events=- | ready_events=TextureReady:5\nbackpressure_ui=Use existing Trigger Reject Diagnostic button for the max_pending_requests=1 rejection path"
    );
}

#[test]
fn cancel_midflight_passes_without_a_late_ready() {
    let cancel = RequestCommandResult { success: true, status: 11, error_code: 0 };
    let state = RequestStateSnapshot { engine_handle: 7, source_id: 1107, texture_id: -1, status: 11, error_code: 0 };
    let initial = [event(FfiEventKind::StatusChanged, 2, -1)];
    let canceled = [event(FfiEventKind::RequestCanceled, 11, -1)];
    assert_eq!(
        cancel_midflight_verdict(cancel, 0, state, &initial, &canceled, &[]).unwrap(),
        "cancel_midflight=PASS\ninitial_events=StatusChanged:Loading\ncommand_status=11 (Canceling)\nfinal_status=11 (Canceling)\ntexture_id=-1\ncancel_events=RequestCanceled:None:Canceling\nfollowup_events=-"
    );
    let loading = [event(FfiEventKind::StatusChanged, 2, -1)];
    assert_eq!(
        cancel_midflight_verdict(cancel, 0, state, &initial, &canceled, &loading).unwrap_err(),
        "cancel-midflight diagnostic failed: command_status=11, processed=0, final_status=11, texture_id=-1, initial_events=StatusChanged:Loading, cancel_events=RequestCanceled:None:Canceling, followup_events=StatusChanged:Loading"
    );
    let late = [event(FfiEventKind::TextureReady, 6, 3)];
    assert_eq!(
        cancel_midflight_verdict(cancel, 1, state, &initial, &canceled, &late).unwrap_err(),
        "cancel-midflight diagnostic failed: command_status=11, processed=1, final_status=11, texture_id=-1, initial_events=StatusChanged:Loading, cancel_events=RequestCanceled:None:Canceling, followup_events=TextureReady:3"
    );
}

#[test]
fn cancel_after_ready_is_a_silent_no_op() {
    let cancel = RequestCommandResult { success: true, status: 6, error_code: 0 };
    let ready = RequestStateSnapshot { engine_handle: 7, source_id: 1104, texture_id: 2, status: 6, error_code: 0 };
    assert_eq!(
        cancel_after_ready_verdict(cancel, &[], ready, ready).unwrap(),
        "cancel_after_ready=PASS\ncommand_status=6 (Ready)\nstate_status=6 (Ready)\ntexture_id=2\ncancel_events=-"
    );
    let moved = RequestStateSnapshot { texture_id: 3, ..ready };
    assert_eq!(
        cancel_after_ready_verdict(cancel, &[], ready, moved).unwrap_err(),
        "cancel-after-ready diagnostic expected silent no-op, got command_status=6, state_status=6, cancel_events=-, texture_before=2, texture_after=3"
    );
}

#[test]
fn interleaved_pause_resume_still_reaches_ready() {
    let pause = RequestCommandResult { success: true, status: 11, error_code: 0 };
    let resume = RequestCommandResult { success: true, status: 2, error_code: 0 };
    let state = RequestStateSnapshot { engine_handle: 7, source_id: 1105, texture_id: 4, status: 6, error_code: 0 };
    let control = [event(FfiEventKind::RequestPaused, 11, -1), event(FfiEventKind::RequestResumed, 2, -1)];
    let ready = [event(FfiEventKind::TextureReady, 6, 4)];
    let report = interleaved_pause_resume_verdict(pause, resume, 1, state, &control, &ready).unwrap();
    assert_eq!(
        report,
        "interleaved_pause_resume=PASS\npause_status=11 (Canceling)\nresume_status=2 (Loading)\ncontrol_events=RequestPaused:Canceling -> RequestResumed:Loading\nready_events=TextureReady:4\nfinal_status=6 (Ready) | texture_id=4"
    );
    assert!(interleaved_pause_resume_verdict(pause, resume, 1, state, &control[..1], &ready).is_err());
}

#[test]
fn full_lifecycle_report() {
    let report = lifecycle_report(&LifecycleObservations {
        byte_budget: 524288,
        cache_bytes_after_insert: vec![(1201, 262144), (1202, 524288), (1203, 524288)],
        evicted_source_id: 1201,
        evicted_state: Some("Evicted".to_string()),
        evicted_acquire_available: false,
        surviving_sources: vec![(1202, true), (1203, true)],
        reloaded_generation: 2,
        reloaded_acquire_available: true,
        cache_bytes_after_reload: 524288,
        evicted_cleanup_target: None,
        final_release: vec![(1201, "Released:Unloaded/Dropped".to_string()), (1202, "NotFound:-".to_string())],
    });
    assert_eq!(
        report,
        "p1_full_lifecycle=PASS\nbyte_budget=524288\ncache_bytes_after_insert=1201:262144 | 1202:524288 | 1203:524288\nevicted_source_id=1201\nevicted_state=Evicted\nevicted_acquire_available=false\nsurviving_sources=1202:true | 1203:true\nreloaded_source_id=1201\nreloaded_generation=2\nreloaded_acquire_available=true\ncache_bytes_after_reload=524288\ndeferred_drop_target=Platform\nfinal_release=1201:Released:Unloaded/Dropped | 1202:NotFound:-\nnotes=This host diagnostic proves LRU eviction and reload at the resource-manager/shared-source boundary; pair it with the live preview path for visible render checks."
    );
}

#[test]
fn lifecycle_helpers() {
    assert_eq!(join_bar(&vec![]), "");
    assert_eq!(join_bar(&vec!["a".to_string(), "b".to_string()]), "a | b");
    assert_eq!(require_cleaner(1201, Some(ThreadTarget::Worker)), Ok(ThreadTarget::Worker));
    assert_eq!(
        require_cleaner(1201, None).unwrap_err(),
        "full lifecycle diagnostic source 1201 is missing a platform cleaner"
    );
}

static SMOKE_IDS: [u64; 2] = [1001, 1002];

#[test]
fn source_provider_resolves_its_sources_with_rising_generations() {
    let mut provider = AndroidSmokeSourceProvider::new(&SMOKE_IDS);
    assert!(provider.provides(1002));
    assert!(!provider.provides(1101));
    assert_eq!(provider.next_generation(), 1);
    assert_eq!(provider.next_generation(), 2);
}

#[test]
fn pause_must_be_reported_by_one_canceling_event() {
    let paused = event(FfiEventKind::RequestPaused, 11, -1);
    assert!(check_pause_events(&[paused]).is_ok());
    assert_eq!(
        check_pause_events(&[paused, event(FfiEventKind::StatusChanged, 11, -1)]).unwrap_err(),
        "control-plane diagnostic expected a single RequestPaused:Canceling event, got RequestPaused:Canceling -> StatusChanged:Canceling"
    );
    assert_eq!(
        check_pause_events(&[event(FfiEventKind::RequestPaused, 3, -1)]).unwrap_err(),
        "control-plane diagnostic expected a single RequestPaused:Canceling event, got RequestPaused:Loaded"
    );
    assert_eq!(
        check_pause_events(&[]).unwrap_err(),
        "control-plane diagnostic expected a single RequestPaused:Canceling event, got -"
    );
}

#[test]
fn reacquire_teardown_gives_back_an_unreleased_texture_only() {
    let session = SmokeSession { engine_handle: 7, source_id: 1001, request_id: 3, texture_id: 5, released: false };
    assert_eq!(teardown_of(None), None);
    assert_eq!(
        teardown_of(Some(session)),
        Some(SessionTeardown {
            release: Some(TextureRelease { request_id: 3, engine_handle: 7 }),
            unregister_engine: 7,
            drain_request: 3,
        })
    );
    assert_eq!(
        teardown_of(Some(SmokeSession { released: true, ..session })),
        Some(SessionTeardown { release: None, unregister_engine: 7, drain_request: 3 })
    );
}
