use irondash_texture::android::copy::{
    copy_hardware_buffer_rows, pixel_upload_fits, upload_pixel_data, WindowBufferGeometry,
};
use irondash_texture::android::flush::{
    finish_hardware_buffer_flush, lock_result, plan_hardware_buffer_flush, unlock_status_result,
    FlushLocks, FlushPlan, FlushRelease, Geometry, GeometryCache, HardwareBufferDescription,
};
use irondash_texture::android::import::{
    check_attach_and_queue_result, check_surface_native_object, release_token_from_java,
    FrameLease, FramePlan, ImportFrameState,
};
use irondash_texture::android::texture::{
    explicit_flush_delivery, frame_delivery, releases_native_window, teardown_step, FrameDelivery,
    TeardownStep,
};
use irondash_texture::android::{
    area_bytes, check_import_backend, import_backend_reason, BYTES_PER_PIXEL,
};
use irondash_texture::{
    AndroidHardwareBufferFormat, AndroidHardwareBufferSourceKind, Error,
    ImportedHardwareBufferTexture, PixelData, RegistrationFailureMode,
};

fn detail(e: &Error) -> String {
    match e {
        Error::TextureOperationFailed { detail: Some(d) } => d.clone(),
        other => panic!("unexpected error {:?}", other),
    }
}

#[test]
fn area_bytes_counts_rgba_bytes() {
    assert_eq!(area_bytes(3, 5, "source").unwrap(), 60);
    assert_eq!(area_bytes(0, 5, "source").unwrap(), 0);
    assert_eq!(BYTES_PER_PIXEL, 4);
}

#[test]
fn area_bytes_rejects_negative_height_and_stride() {
    assert_eq!(
        detail(&area_bytes(-1, 5, "source").unwrap_err()),
        "source height was negative"
    );
    assert_eq!(
        detail(&area_bytes(2, -5, "destination").unwrap_err()),
        "destination stride was negative"
    );
}

#[test]
fn area_bytes_reports_overflow() {
    if usize::BITS == 64 {
        assert!(area_bytes(i32::MAX, i32::MAX, "source").is_ok());
    } else {
        assert_eq!(
            detail(&area_bytes(i32::MAX, i32::MAX, "source").unwrap_err()),
            "source buffer size overflowed while preparing Android hardware-buffer flush"
        );
    }
}

#[test]
fn copy_rows_copies_visible_pixels_of_each_row() {
    // Two rows of 2 pixels; source rows are 3 pixels apart, window rows 4.
    let source: Vec<u8> = (0..24).collect();
    let window = WindowBufferGeometry { width: 4, height: 2, stride: 4, format: 1 };
    let mut destination = vec![0xAAu8; 32];
    copy_hardware_buffer_rows(&source, 2, 2, 3, window, &mut destination).unwrap();
    let mut expected = vec![0xAAu8; 32];
    expected[0..8].copy_from_slice(&source[0..8]);
    expected[16..24].copy_from_slice(&source[12..20]);
    assert_eq!(destination, expected);
}

#[test]
fn copy_rows_rejects_a_window_without_rows() {
    let source = vec![0u8; 16];
    let window = WindowBufferGeometry { width: 2, height: 0, stride: 2, format: 1 };
    let mut destination: Vec<u8> = Vec::new();
    let err = copy_hardware_buffer_rows(&source, 2, 2, 2, window, &mut destination).unwrap_err();
    assert_eq!(
        detail(&err),
        "Android destination geometry was invalid: height=0, stride=2"
    );
}

#[test]
fn upload_copies_whole_buffer_without_padding() {
    let data: Vec<u8> = (0..16).collect();
    let payload = PixelData { width: 2, height: 2, data: &data };
    let window = WindowBufferGeometry { width: 2, height: 2, stride: 2, format: 1 };
    let mut destination = vec![0u8; 16];
    upload_pixel_data(&payload, window, &mut destination);
    assert_eq!(destination, data);
}

#[test]
fn upload_copies_row_by_row_with_padding() {
    let data: Vec<u8> = (1..=16).collect();
    let payload = PixelData { width: 2, height: 2, data: &data };
    let window = WindowBufferGeometry { width: 2, height: 2, stride: 3, format: 1 };
    let mut destination = vec![0u8; 24];
    upload_pixel_data(&payload, window, &mut destination);
    let mut expected = vec![0u8; 24];
    expected[0..8].copy_from_slice(&data[0..8]);
    expected[12..20].copy_from_slice(&data[8..16]);
    assert_eq!(destination, expected);
}

#[test]
fn geometry_cache_skips_an_applied_geometry() {
    let g = Geometry { width: 64, height: 32, format: 1 };
    let mut cache = GeometryCache::new();
    assert!(cache.needs_update(g));
    cache.record_update(g, 0).unwrap();
    assert!(!cache.needs_update(g));
    assert!(cache.needs_update(Geometry { width: 65, height: 32, format: 1 }));
}

#[test]
fn geometry_cache_keeps_old_geometry_on_refusal() {
    let g = Geometry { width: 64, height: 32, format: 1 };
    let mut cache = GeometryCache::new();
    let err = cache.record_update(g, -22).unwrap_err();
    assert_eq!(detail(&err), "ANativeWindow_setBuffersGeometry failed with status -22");
    assert!(cache.needs_update(g));
}

#[test]
fn flush_plan_prefers_registered_geometry() {
    let desc = HardwareBufferDescription { width: 100, height: 50, stride: 128, format: 1 };
    let plan = plan_hardware_buffer_flush(AndroidHardwareBufferSourceKind::AHardwareBuffer, 80, 40, desc)
        .unwrap();
    assert_eq!(
        plan,
        FlushPlan { geometry: Geometry { width: 80, height: 40, format: 1 }, stride_pixels: 128 }
    );
    let described = plan_hardware_buffer_flush(AndroidHardwareBufferSourceKind::AHardwareBuffer, 0, 0, desc)
        .unwrap();
    assert_eq!(described.geometry, Geometry { width: 100, height: 50, format: 1 });
}

#[test]
fn flush_plan_rejects_other_formats_and_bad_strides() {
    let bgra = HardwareBufferDescription { width: 10, height: 10, stride: 10, format: 5 };
    assert_eq!(
        detail(&plan_hardware_buffer_flush(AndroidHardwareBufferSourceKind::EglImageBackingBuffer, 0, 0, bgra)
            .unwrap_err()),
        "Android hardware-buffer flush currently supports only RGBA8888; got format 5 for EglImageBackingBuffer"
    );
    let narrow = HardwareBufferDescription { width: 10, height: 10, stride: 8, format: 1 };
    assert_eq!(
        detail(&plan_hardware_buffer_flush(AndroidHardwareBufferSourceKind::AHardwareBuffer, 0, 0, narrow)
            .unwrap_err()),
        "Android hardware-buffer flush received invalid stride 8 for width 10"
    );
    let empty = HardwareBufferDescription { width: 0, height: 10, stride: 8, format: 1 };
    assert_eq!(
        detail(&plan_hardware_buffer_flush(AndroidHardwareBufferSourceKind::AHardwareBuffer, 0, 0, empty)
            .unwrap_err()),
        "Android hardware-buffer flush requires positive geometry; got 0x10"
    );
    let wide = HardwareBufferDescription { width: 3_000_000_000, height: 10, stride: 8, format: 1 };
    assert_eq!(
        detail(&plan_hardware_buffer_flush(AndroidHardwareBufferSourceKind::AHardwareBuffer, 0, 0, wide)
            .unwrap_err()),
        "AHardwareBuffer width exceeded i32"
    );
}

#[test]
fn lock_and_unlock_statuses() {
    assert!(lock_result("AHardwareBuffer_lock", 0, false).is_ok());
    assert_eq!(
        detail(&lock_result("AHardwareBuffer_lock", -5, false).unwrap_err()),
        "AHardwareBuffer_lock failed with status -5"
    );
    assert_eq!(
        detail(&lock_result("ANativeWindow_lock", 0, true).unwrap_err()),
        "ANativeWindow_lock returned a null data pointer"
    );
    assert!(unlock_status_result(0).is_ok());
    assert_eq!(
        detail(&unlock_status_result(3).unwrap_err()),
        "AHardwareBuffer_unlock failed with status 3"
    );
}

#[test]
fn flush_reports_the_first_failure() {
    let copy_failed = finish_hardware_buffer_flush(
        Err(Error::texture_operation_failed("copy".to_string())),
        Err(Error::texture_operation_failed("unlock".to_string())),
        1,
    );
    assert_eq!(detail(&copy_failed.unwrap_err()), "copy");
    let unlock_failed = finish_hardware_buffer_flush(
        Ok(()),
        Err(Error::texture_operation_failed("unlock".to_string())),
        1,
    );
    assert_eq!(detail(&unlock_failed.unwrap_err()), "unlock");
    let post_failed = finish_hardware_buffer_flush(Ok(()), Ok(()), -1);
    assert_eq!(
        detail(&post_failed.unwrap_err()),
        "ANativeWindow_unlockAndPost failed with status -1"
    );
    assert!(finish_hardware_buffer_flush(Ok(()), Ok(()), 0).is_ok());
}

fn lease(generation: u64, token: u64, width: i32, height: i32) -> FrameLease {
    FrameLease {
        width,
        height,
        format: AndroidHardwareBufferFormat::Rgba8888,
        generation,
        release_token: token,
    }
}

#[test]
fn import_state_resizes_only_on_a_new_size() {
    let mut state = ImportFrameState::new();
    assert_eq!(state.after_generation(), 0);
    let first = state.plan_frame(&lease(1, 10, 0, 48));
    assert_eq!(first, FramePlan { width: 1, height: 48, resize: true });
    state.record_resize(first.width, first.height);
    let again = state.plan_frame(&lease(2, 11, 1, 48));
    assert!(!again.resize);
}

#[test]
fn a_queued_frame_advances_the_generation_and_keeps_its_lease() {
    let mut state = ImportFrameState::new();
    let done = state.complete_frame(&lease(7, 70, 4, 4), Ok(()));
    assert!(done.result.is_ok());
    assert_eq!(done.release_token, None);
    assert_eq!(state.after_generation(), 7);
}

#[test]
fn a_refused_frame_is_handed_back_exactly_once() {
    let mut state = ImportFrameState::new();
    state.complete_frame(&lease(3, 30, 4, 4), Ok(()));
    let failed = state.complete_frame(
        &lease(4, 40, 4, 4),
        Err(Error::texture_operation_failed("queue failed".to_string())),
    );
    assert_eq!(failed.release_token, Some(40));
    assert_eq!(detail(&failed.result.unwrap_err()), "queue failed");
    assert_eq!(state.after_generation(), 3);
}

#[test]
fn the_generation_never_goes_back() {
    let mut state = ImportFrameState::new();
    state.observe_no_new_frame(9);
    assert_eq!(state.after_generation(), 9);
    state.observe_no_new_frame(4);
    assert_eq!(state.after_generation(), 9);
}

#[test]
fn release_tokens_from_java() {
    assert_eq!(release_token_from_java(0, 5), None);
    assert_eq!(release_token_from_java(77, -1), None);
    assert_eq!(release_token_from_java(77, 5), Some(5));
}

#[test]
fn surface_import_checks() {
    assert_eq!(
        detail(&check_surface_native_object(0).unwrap_err()),
        "Surface.mNativeObject was null while importing HardwareBuffer"
    );
    assert!(check_surface_native_object(12345).is_ok());
    assert!(check_attach_and_queue_result(0).is_ok());
    assert_eq!(
        detail(&check_attach_and_queue_result(-19).unwrap_err()),
        "Surface.nativeAttachAndQueueBufferWithColorSpace failed with error code -19"
    );
}

#[test]
fn import_backend_reason_falls_back_to_the_built_in_one() {
    assert_eq!(
        ImportedHardwareBufferTexture::unavailable_reason(),
        "Android hardware-buffer consumer import backend is unavailable on this runtime"
    );
    assert_eq!(
        import_backend_reason(None),
        ImportedHardwareBufferTexture::unavailable_reason()
    );
    assert_eq!(import_backend_reason(Some("API 28".to_string())), "API 28");
}

#[test]
fn unsupported_import_backend_fails_registration() {
    assert!(check_import_backend(true, None).is_ok());
    match check_import_backend(false, Some("no HardwareBuffer".to_string())) {
        Err(Error::TextureRegistrationFailed { mode, detail }) => {
            assert_eq!(mode, RegistrationFailureMode::NativeRegistrationFailed);
            assert_eq!(detail.as_deref(), Some("no HardwareBuffer"));
        }
        other => panic!("unexpected {:?}", other),
    }
    match check_import_backend(false, None) {
        Err(Error::TextureRegistrationFailed { detail, .. }) => {
            assert_eq!(
                detail.as_deref(),
                Some(ImportedHardwareBufferTexture::unavailable_reason())
            );
        }
        other => panic!("unexpected {:?}", other),
    }
}

#[test]
fn delivery_path_order() {
    assert_eq!(frame_delivery(true, true, true), FrameDelivery::QueueImportedFrame);
    assert_eq!(frame_delivery(false, true, true), FrameDelivery::FlushHardwareBuffer);
    assert_eq!(frame_delivery(false, false, true), FrameDelivery::UploadPixelData);
    assert_eq!(frame_delivery(false, false, false), FrameDelivery::Nothing);
}

#[test]
fn teardown_by_texture_kind() {
    assert_eq!(teardown_step(true, true, true, true), TeardownStep::CloseImportHelper);
    assert_eq!(
        teardown_step(false, true, false, true),
        TeardownStep::ReleaseEntry { flush_first: false, release_native_window: true }
    );
    assert_eq!(
        teardown_step(false, false, false, false),
        TeardownStep::ReleaseEntry { flush_first: false, release_native_window: false }
    );
}

#[test]
fn drop_flushes_a_retained_payload_first_but_unregister_does_not() {
    assert_eq!(
        teardown_step(false, true, true, true),
        TeardownStep::ReleaseEntry { flush_first: true, release_native_window: true }
    );
    assert_eq!(
        teardown_step(false, true, true, false),
        TeardownStep::ReleaseEntry { flush_first: false, release_native_window: true }
    );
    assert_eq!(
        teardown_step(false, false, true, true),
        TeardownStep::ReleaseEntry { flush_first: false, release_native_window: false }
    );
}

#[test]
fn unregister_then_drop_releases_the_window_once() {
    let unregister = teardown_step(false, true, true, false);
    // The unregister's release failed: it keeps the window, the drop releases it.
    assert!(!releases_native_window(unregister, true, false, false));
    let drop_step = teardown_step(false, true, true, true);
    assert!(releases_native_window(drop_step, true, false, true));
    // The unregister succeeded: the drop sees no window any more.
    assert!(releases_native_window(unregister, true, true, false));
    assert!(!releases_native_window(teardown_step(false, false, true, true), true, true, true));
    // Without an attached thread nothing is released.
    assert!(!releases_native_window(drop_step, false, false, true));
    assert!(!releases_native_window(TeardownStep::CloseImportHelper, true, true, true));
}

#[test]
fn explicit_flush_needs_a_source_and_takes_the_frame_path() {
    assert_eq!(explicit_flush_delivery(true).unwrap(), FrameDelivery::FlushHardwareBuffer);
    assert_eq!(
        detail(&explicit_flush_delivery(false).unwrap_err()),
        "explicit hardware-buffer flush requires a registered hardware-buffer source"
    );
}

#[test]
fn flush_releases_exactly_the_locks_that_succeeded() {
    let mut refused = FlushLocks::new();
    assert_eq!(
        detail(&refused.after_source_lock(-1, true).unwrap_err()),
        "AHardwareBuffer_lock failed with status -1"
    );
    assert_eq!(refused.take_release(), FlushRelease { unlock_source: false, post_window: false });

    let mut empty_source = FlushLocks::new();
    assert_eq!(
        detail(&empty_source.after_source_lock(0, true).unwrap_err()),
        "AHardwareBuffer_lock returned a null data pointer"
    );
    assert_eq!(empty_source.take_release(), FlushRelease { unlock_source: true, post_window: false });

    let mut window_refused = FlushLocks::new();
    window_refused.after_source_lock(0, false).unwrap();
    assert_eq!(
        detail(&window_refused.after_window_lock(-19, true).unwrap_err()),
        "ANativeWindow_lock failed with status -19"
    );
    assert_eq!(window_refused.take_release(), FlushRelease { unlock_source: true, post_window: false });

    let mut both = FlushLocks::new();
    both.after_source_lock(0, false).unwrap();
    assert_eq!(
        detail(&both.after_window_lock(0, true).unwrap_err()),
        "ANativeWindow_lock returned a null data pointer"
    );
    assert_eq!(both.take_release(), FlushRelease { unlock_source: true, post_window: true });
    assert_eq!(both.take_release(), FlushRelease { unlock_source: false, post_window: false });
}

#[test]
fn upload_fit_checks() {
    let data = vec![0u8; 16];
    let payload = PixelData { width: 2, height: 2, data: &data };
    let unpadded = WindowBufferGeometry { width: 2, height: 2, stride: 2, format: 1 };
    assert!(pixel_upload_fits(&payload, unpadded, 16));
    assert!(!pixel_upload_fits(&payload, unpadded, 12));
    let padded = WindowBufferGeometry { width: 2, height: 2, stride: 3, format: 1 };
    assert!(pixel_upload_fits(&payload, padded, 24));
    let short = PixelData { width: 2, height: 3, data: &data };
    assert!(!pixel_upload_fits(&short, padded, 24));
    let huge = WindowBufferGeometry { width: 2, height: 100_000, stride: 100_000, format: 1 };
    assert!(!pixel_upload_fits(&payload, huge, 0));
}
