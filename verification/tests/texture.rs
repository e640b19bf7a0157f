use irondash_texture::error::from_engine_context;
use irondash_texture::{
    BoxedPixelData, EngineContextError, EngineContextErrorKind, Error, ImportedHardwareBufferTexture,
    PayloadPathContract, PayloadTiming, PixelData, PixelDataProvider, PixelFormat,
    RegistrationFailureMode, SimplePixelData, SurfaceCachePolicy,
};

#[test]
fn surface_cache_policy_default_remains_cache_with_reuse() {
    assert_eq!(
        SurfaceCachePolicy::default(),
        SurfaceCachePolicy::CacheWithReuse
    );
}

#[test]
fn invalid_thread_is_a_registration_failure_with_its_detail() {
    let e = Error::invalid_thread();
    assert_eq!(
        e.registration_failure_mode(),
        Some(RegistrationFailureMode::InvalidThread)
    );
    assert_eq!(
        e.to_string(),
        "texture registration failed: InvalidThread (Texture registration must happen on Platform Thread)"
    );
}

#[test]
fn invalid_handle_is_a_registration_failure_with_its_detail() {
    let e = Error::invalid_handle();
    assert_eq!(
        e.registration_failure_mode(),
        Some(RegistrationFailureMode::InvalidHandle)
    );
    assert_eq!(
        e.to_string(),
        "texture registration failed: InvalidHandle (Engine handle is invalid or engine was destroyed)"
    );
}

#[test]
fn native_registration_failure_keeps_its_optional_detail() {
    let with_detail = Error::native_registration_failed(Some("createSurfaceTexture failed".to_string()));
    assert_eq!(
        with_detail.registration_failure_mode(),
        Some(RegistrationFailureMode::NativeRegistrationFailed)
    );
    assert_eq!(
        with_detail.to_string(),
        "texture registration failed: NativeRegistrationFailed (createSurfaceTexture failed)"
    );
    let without = Error::native_registration_failed(None);
    assert_eq!(
        without.to_string(),
        "texture registration failed: NativeRegistrationFailed"
    );
}

#[test]
fn duplicate_registration_is_a_registration_failure() {
    let e = Error::duplicate_registration();
    assert_eq!(
        e.registration_failure_mode(),
        Some(RegistrationFailureMode::DuplicateRegistration)
    );
    assert_eq!(
        e.to_string(),
        "texture registration failed: DuplicateRegistration (Duplicate texture registration for same source)"
    );
}

#[test]
fn operation_failure_has_no_registration_mode() {
    let e = Error::texture_operation_failed("texture was destroyed".to_string());
    assert_eq!(e.registration_failure_mode(), None);
    assert_eq!(e.to_string(), "texture operation failed (texture was destroyed)");
}

#[test]
fn engine_context_errors_map_to_registration_failures() {
    let thread = from_engine_context(EngineContextError {
        kind: EngineContextErrorKind::InvalidThread,
        description: "wrong thread".to_string(),
    });
    assert_eq!(
        thread.registration_failure_mode(),
        Some(RegistrationFailureMode::InvalidThread)
    );
    let handle = from_engine_context(EngineContextError {
        kind: EngineContextErrorKind::InvalidHandle,
        description: "no engine".to_string(),
    });
    assert_eq!(
        handle.registration_failure_mode(),
        Some(RegistrationFailureMode::InvalidHandle)
    );
    let other = from_engine_context(EngineContextError {
        kind: EngineContextErrorKind::Other,
        description: "engine context failed".to_string(),
    });
    assert_eq!(other.registration_failure_mode(), None);
    assert!(matches!(other, Error::EngineContextError(_)));
    assert_eq!(other.to_string(), "engine context failed");
}

#[test]
fn simple_pixel_data_hands_back_what_it_was_made_with() {
    let data = SimplePixelData::new_boxed(2, 1, vec![1, 2, 3, 4, 5, 6, 7, 8]);
    let pixels: PixelData<'_> = data.get();
    assert_eq!(pixels.width, 2);
    assert_eq!(pixels.height, 1);
    assert_eq!(pixels.data, &[1, 2, 3, 4, 5, 6, 7, 8]);
}

#[test]
fn android_pixel_data_is_rgba() {
    assert_eq!(PixelData::FORMAT, PixelFormat::RGBA);
}

#[test]
fn payload_timing_per_payload_type() {
    assert_eq!(
        <BoxedPixelData as PayloadPathContract>::payload_timing(),
        PayloadTiming::PushDuringMarkAvailable
    );
    assert_eq!(
        <ImportedHardwareBufferTexture as PayloadPathContract>::payload_timing(),
        PayloadTiming::NotApplicable
    );
}

#[test]
fn jni_failures_keep_their_own_message() {
    let e = Error::from(jni::errors::Error::NullPtr("get_field"));
    assert!(matches!(e, Error::JNIError(_)));
    assert_eq!(e.registration_failure_mode(), None);
    assert_eq!(e.to_string(), "Null pointer in get_field");
}
