//! The decisions of a platform texture: which delivery path a new frame
//! takes, and how the texture's registration is torn down.
use vstd::prelude::*;

use super::fails_with;
use crate::error::{Error, Result};
use crate::text::append_str;

verus! {

/// How `mark_frame_available` delivers a frame.
#[derive(Clone, Copy, Debug, PartialEq, Eq, Structural)]
pub enum FrameDelivery {
    /// Acquire the newest leased frame and queue it to the consumer.
    QueueImportedFrame,
    /// Copy the retained hardware-buffer source into the native window.
    FlushHardwareBuffer,
    /// Copy the provider's pixel data into the native window.
    UploadPixelData,
    /// The texture is written directly by its owner; nothing to deliver.
    Nothing,
}

/// The delivery path of a texture: the import path first, then a retained
/// hardware-buffer source, then a pixel-data provider.
pub open spec fn delivery_path(
    has_import_state: bool,
    has_hardware_buffer_source: bool,
    has_pixel_data_provider: bool,
) -> FrameDelivery {
    if has_import_state {
        FrameDelivery::QueueImportedFrame
    } else if has_hardware_buffer_source {
        FrameDelivery::FlushHardwareBuffer
    } else if has_pixel_data_provider {
        FrameDelivery::UploadPixelData
    } else {
        FrameDelivery::Nothing
    }
}

/// The order of the delivery paths, for every combination of what a
/// texture holds: a texture with import state (every imported texture)
/// always queues its leased frame; otherwise a retained hardware buffer is
/// flushed; otherwise pixel data is uploaded; a texture holding none of
/// them delivers nothing.
pub proof fn law_delivery_path_order(has_hardware_buffer_source: bool, has_pixel_data_provider: bool)
    ensures
        delivery_path(true, has_hardware_buffer_source, has_pixel_data_provider)
            == FrameDelivery::QueueImportedFrame,
        delivery_path(false, true, has_pixel_data_provider) == FrameDelivery::FlushHardwareBuffer,
        delivery_path(false, false, true) == FrameDelivery::UploadPixelData,
        delivery_path(false, false, false) == FrameDelivery::Nothing,
{
}

/// How `mark_frame_available` delivers a frame of a texture.
pub fn frame_delivery(
    has_import_state: bool,
    has_hardware_buffer_source: bool,
    has_pixel_data_provider: bool,
) -> (d: FrameDelivery)
    ensures
        d == delivery_path(has_import_state, has_hardware_buffer_source, has_pixel_data_provider),
{
    if has_import_state {
        FrameDelivery::QueueImportedFrame
    } else if has_hardware_buffer_source {
        FrameDelivery::FlushHardwareBuffer
    } else if has_pixel_data_provider {
        FrameDelivery::UploadPixelData
    } else {
        FrameDelivery::Nothing
    }
}

/// How a texture's registration is torn down.
#[derive(Clone, Copy, Debug, PartialEq, Eq, Structural)]
pub enum TeardownStep {
    /// Close the import helper (import path).
    CloseImportHelper,
    /// Release the texture entry: first flush the retained hardware-buffer
    /// payload into the window when `flush_first`, and afterwards release
    /// the native window when `release_native_window`.
    ReleaseEntry { flush_first: bool, release_native_window: bool },
}

/// The teardown of a texture: import-path textures close their helper; the
/// others release their entry and the native window they still hold. At
/// drop (`at_drop`) a texture that retains a hardware-buffer source and
/// still holds its window flushes the pending payload into the window
/// before its entry goes; an explicit unregister does not flush.
pub open spec fn teardown_plan(
    is_import: bool,
    has_native_window: bool,
    has_hardware_buffer_source: bool,
    at_drop: bool,
) -> TeardownStep {
    if is_import {
        TeardownStep::CloseImportHelper
    } else {
        TeardownStep::ReleaseEntry {
            flush_first: at_drop && has_hardware_buffer_source && has_native_window,
            release_native_window: has_native_window,
        }
    }
}

pub fn teardown_step(
    is_import: bool,
    has_native_window: bool,
    has_hardware_buffer_source: bool,
    at_drop: bool,
) -> (s: TeardownStep)
    ensures
        s == teardown_plan(is_import, has_native_window, has_hardware_buffer_source, at_drop),
{
    if is_import {
        TeardownStep::CloseImportHelper
    } else {
        TeardownStep::ReleaseEntry {
            flush_first: at_drop && has_hardware_buffer_source && has_native_window,
            release_native_window: has_native_window,
        }
    }
}

/// Whether a teardown step releases the native window, once a thread was
/// attached to the VM (`attached`) and the entry's release call answered
/// (`call_ok`): engine teardown (`silent`) releases it whatever the call
/// said; an explicit unregister only after the entry was released. Without
/// an attached thread nothing is released.
pub open spec fn window_released(step: TeardownStep, attached: bool, call_ok: bool, silent: bool) -> bool {
    match step {
        TeardownStep::ReleaseEntry { release_native_window, .. } => release_native_window && attached
            && (call_ok || silent),
        TeardownStep::CloseImportHelper => false,
    }
}

pub fn releases_native_window(step: TeardownStep, attached: bool, call_ok: bool, silent: bool) -> (r: bool)
    ensures
        r == window_released(step, attached, call_ok, silent),
{
    match step {
        TeardownStep::ReleaseEntry { release_native_window, .. } => release_native_window && attached
            && (call_ok || silent),
        TeardownStep::CloseImportHelper => false,
    }
}

/// Over an explicit unregister followed by the drop of the texture, both
/// on an attached thread, a held native window is released exactly once:
/// by the unregister when its entry release succeeded, else by the silent
/// teardown at drop, which no longer sees a window the unregister gave
/// back.
pub proof fn law_window_released_exactly_once(
    has_hardware_buffer_source: bool,
    unregister_call_ok: bool,
    drop_call_ok: bool,
)
    ensures
        ({
            let first = teardown_plan(false, true, has_hardware_buffer_source, false);
            let released_first = window_released(first, true, unregister_call_ok, false);
            let second = teardown_plan(false, !released_first, has_hardware_buffer_source, true);
            let released_second = window_released(second, true, drop_call_ok, true);
            &&& !(released_first && released_second)
            &&& released_first || released_second
        }),
{
}

/// What a teardown reports once the texture's registry call was made (or
/// could not be, for want of an attached thread): engine teardown is
/// silent and always succeeds, an explicit unregister reports the failure.
pub fn teardown_outcome(silent: bool, call_result: Result<()>) -> (r: Result<()>)
    ensures
        silent ==> r is Ok,
        !silent ==> r == call_result,
{
    if silent {
        Ok(())
    } else {
        call_result
    }
}

/// The failure of a delivery path (`path`, such as "pixel-data upload")
/// on a texture that holds no native window.
pub open spec fn missing_native_window_text(path: Seq<char>) -> Seq<char> {
    "Android "@ + path + " requires a native-window-backed texture"@
}

/// A delivery path that writes into the native window needs one.
pub fn require_native_window(has_native_window: bool, path: &str) -> (r: Result<()>)
    ensures
        has_native_window ==> r is Ok,
        !has_native_window ==> fails_with(r, missing_native_window_text(path@)),
{
    if has_native_window {
        return Ok(());
    }
    let mut detail = String::from_str("Android ");
    append_str(&mut detail, path);
    append_str(&mut detail, " requires a native-window-backed texture");
    Err(Error::texture_operation_failed(detail))
}

/// The failure of an explicit flush on a texture without a retained source.
pub open spec fn missing_flush_source_text() -> Seq<char> {
    "explicit hardware-buffer flush requires a registered hardware-buffer source"@
}

/// How an explicit flush of a native-window texture (`flush_payload`)
/// proceeds: without a retained hardware-buffer source it fails; with one it
/// takes the path that `mark_frame_available` takes for that texture.
pub fn explicit_flush_delivery(has_hardware_buffer_source: bool) -> (r: Result<FrameDelivery>)
    ensures
        has_hardware_buffer_source ==> (r matches Ok(d) && d == FrameDelivery::FlushHardwareBuffer),
        !has_hardware_buffer_source ==> fails_with(r, missing_flush_source_text()),
{
    if has_hardware_buffer_source {
        return Ok(FrameDelivery::FlushHardwareBuffer);
    }
    Err(Error::texture_operation_failed(String::from_str(
        "explicit hardware-buffer flush requires a registered hardware-buffer source",
    )))
}

/// A native-window texture (no import state) with a retained source is
/// delivered alike by an explicit flush and by `mark_frame_available`,
/// whatever else it holds.
pub proof fn law_explicit_flush_takes_the_frame_path(has_pixel_data_provider: bool)
    ensures
        delivery_path(false, true, has_pixel_data_provider) == FrameDelivery::FlushHardwareBuffer,
{
}

} // verus!
