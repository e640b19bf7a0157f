//! The Android delivery paths: the hardware-buffer formats and sources,
//! the row copy into a native window, the native-window geometry cache,
//! the hardware-buffer flush plan and the import-path frame bookkeeping.
use vstd::prelude::*;

use crate::error::{is_registration_failure, Error, RegistrationFailureMode, Result};
use crate::payload::{PayloadPathContract, PayloadTiming};
use crate::text::{append_i64, append_str};

pub mod copy;
pub mod flush;
pub mod import;
pub mod texture;

verus! {

/// Bytes per RGBA8888 pixel.
pub const BYTES_PER_PIXEL: usize = 4;

/// `AHARDWAREBUFFER_FORMAT_R8G8B8A8_UNORM`.
pub const FORMAT_R8G8B8A8_UNORM: u32 = 1;

/// Canonical Android hardware-buffer format understood by the import path.
#[derive(Clone, Copy, Debug, PartialEq, Eq, Structural)]
pub enum AndroidHardwareBufferFormat {
    /// `AHARDWAREBUFFER_FORMAT_R8G8B8A8_UNORM`
    Rgba8888,
}

/// Identifies how a zero-copy source reaches the Android hardware buffer.
#[derive(Clone, Copy, Debug, PartialEq, Eq, Structural)]
pub enum AndroidHardwareBufferSourceKind {
    /// Source owns a direct AHardwareBuffer handle.
    AHardwareBuffer,
    /// Source reaches the hardware buffer through an EGL image wrapper.
    EglImageBackingBuffer,
}

/// Trait for explicit flush of pending AHardwareBuffer payload.
///
/// This trait allows normalizing Android's push model to match Darwin's
/// pull model: a caller can upload the retained buffer when it chooses.
/// How an implementation proceeds is `texture::explicit_flush_delivery`.
pub trait DeferredPayloadFlush {
    /// Explicitly flush the retained payload to the surface. If not
    /// called, the next `mark_frame_available()` flushes it, and dropping
    /// the texture flushes it before its entry is released (see
    /// `texture::teardown_plan`).
    fn flush_payload(&self) -> Result<()>;
}

/// Marker type for the final Android hardware-buffer import path.
pub struct ImportedHardwareBufferTexture;

/// Why the import path may be unavailable, when the runtime gives no reason.
pub open spec fn import_backend_unavailable_text() -> Seq<char> {
    "Android hardware-buffer consumer import backend is unavailable on this runtime"@
}

impl ImportedHardwareBufferTexture {
    /// Returns the current reason why final-path consumer import is unavailable.
    pub fn unavailable_reason() -> (r: &'static str)
        ensures
            r@ == import_backend_unavailable_text(),
    {
        "Android hardware-buffer consumer import backend is unavailable on this runtime"
    }
}

/// The reason that the import path is unavailable: the runtime's own,
/// else (no reason, or none could be read) the built-in one.
pub open spec fn import_backend_reason_text(runtime_reason: Option<String>) -> Seq<char> {
    match runtime_reason {
        Some(reason) => reason@,
        None => import_backend_unavailable_text(),
    }
}

/// The reason that the import path is unavailable, given what the runtime
/// answered when asked for one.
pub fn import_backend_reason(runtime_reason: Option<String>) -> (r: String)
    ensures
        r@ == import_backend_reason_text(runtime_reason),
{
    match runtime_reason {
        Some(reason) => reason,
        None => String::from_str(ImportedHardwareBufferTexture::unavailable_reason()),
    }
}

/// An imported texture may register only where the runtime supports the
/// import backend; elsewhere registration fails natively with the reason.
pub fn check_import_backend(supported: bool, runtime_reason: Option<String>) -> (r: Result<()>)
    ensures
        supported <==> r is Ok,
        !supported ==> (r matches Err(e) && is_registration_failure(
            e,
            RegistrationFailureMode::NativeRegistrationFailed,
            Some(import_backend_reason_text(runtime_reason)),
        )),
{
    if supported {
        Ok(())
    } else {
        Err(Error::native_registration_failed(Some(import_backend_reason(runtime_reason))))
    }
}

impl PayloadPathContract for ImportedHardwareBufferTexture {
    /// Imported hardware-buffer textures do not fetch payload through `get_payload()`.
    fn payload_timing() -> (t: PayloadTiming)
        ensures
            t == PayloadTiming::NotApplicable,
    {
        PayloadTiming::NotApplicable
    }
}

/// True when `e` is an operation failure whose detail is `detail`.
pub open spec fn is_operation_failure(e: Error, detail: Seq<char>) -> bool {
    &&& e matches Error::TextureOperationFailed { detail: Some(d) }
    &&& d@ == detail
}

/// True when `r` failed with an operation failure whose detail is `detail`.
pub open spec fn fails_with<T>(r: Result<T>, detail: Seq<char>) -> bool {
    &&& r matches Err(e)
    &&& is_operation_failure(e, detail)
}

/// The result of sizing a buffer of `height` rows of `stride_pixels`
/// RGBA pixels: its byte count, or the failure that `label` names.
pub open spec fn area_bytes_outcome(height: int, stride_pixels: int, label: Seq<char>) -> core::result::Result<int, Seq<char>> {
    if height < 0 {
        Err(label + " height was negative"@)
    } else if stride_pixels < 0 {
        Err(label + " stride was negative"@)
    } else if height * stride_pixels * 4 > usize::MAX {
        Err(label + " buffer size overflowed while preparing Android hardware-buffer flush"@)
    } else {
        Ok(height * stride_pixels * 4)
    }
}

/// True when `r` is what `area_bytes` answers for `outcome`.
pub open spec fn matches_outcome(r: Result<usize>, outcome: core::result::Result<int, Seq<char>>) -> bool {
    match outcome {
        Ok(n) => r matches Ok(v) && v == n,
        Err(msg) => r matches Err(e) && is_operation_failure(e, msg),
    }
}

fn operation_failure(label: &str, suffix: &str) -> (e: Error)
    ensures
        is_operation_failure(e, label@ + suffix@),
{
    let mut detail = String::from_str(label);
    append_str(&mut detail, suffix);
    Error::texture_operation_failed(detail)
}

/// Byte count of `height` rows of `stride_pixels` RGBA pixels; `label`
/// names the buffer in the failure.
pub fn area_bytes(height: i32, stride_pixels: i32, label: &str) -> (r: Result<usize>)
    ensures
        matches_outcome(r, area_bytes_outcome(height as int, stride_pixels as int, label@)),
{
    if height < 0 {
        return Err(operation_failure(label, " height was negative"));
    }
    if stride_pixels < 0 {
        return Err(operation_failure(label, " stride was negative"));
    }
    let h = height as usize;
    let s = stride_pixels as usize;
    match h.checked_mul(s) {
        Some(area) => match area.checked_mul(BYTES_PER_PIXEL) {
            Some(bytes) => Ok(bytes),
            None => Err(operation_failure(
                label,
                " buffer size overflowed while preparing Android hardware-buffer flush",
            )),
        },
        None => {
            Err(operation_failure(
                label,
                " buffer size overflowed while preparing Android hardware-buffer flush",
            ))
        },
    }
}

/// Detail text with an integer rendered after a prefix.
pub(crate) fn detail_with_int(prefix: &str, n: i64) -> (s: String)
    ensures
        s@ == prefix@ + crate::text::signed_decimal(n as int),
{
    let mut s = String::from_str(prefix);
    append_i64(&mut s, n);
    s
}

} // verus!
