//! Flushing a hardware-buffer source into a native window: the cached
//! window geometry, the checks on the buffer's description before a
//! flush, and the outcome of the lock, copy and unlock steps.
use vstd::prelude::*;

use super::{detail_with_int, fails_with, is_operation_failure, AndroidHardwareBufferSourceKind, FORMAT_R8G8B8A8_UNORM};
use crate::error::{Error, Result};
use crate::text::{append_i64, append_str, append_u64, decimal, signed_decimal};

verus! {

/// Geometry of a native window's buffers.
#[derive(PartialEq, Eq, Clone, Copy, Debug, Structural)]
pub struct Geometry {
    pub width: i32,
    pub height: i32,
    pub format: i32,
}

/// The failure text for a geometry update that the window refused.
pub open spec fn set_geometry_failed_text(status: int) -> Seq<char> {
    "ANativeWindow_setBuffersGeometry failed with status "@ + signed_decimal(status)
}

/// Whether a window whose last applied geometry is `last` must be given
/// `geometry`.
pub open spec fn geometry_needs_update(last: Option<Geometry>, geometry: Geometry) -> bool {
    last != Some(geometry)
}

/// The last applied geometry after the window answered an update to
/// `geometry` with `status`: the new one if accepted, else unchanged.
pub open spec fn geometry_after_update(last: Option<Geometry>, geometry: Geometry, status: i32) -> Option<Geometry> {
    if status == 0 {
        Some(geometry)
    } else {
        last
    }
}

/// The geometry last applied to a native window, so that an unchanged
/// geometry is not applied twice.
pub struct GeometryCache {
    last: Option<Geometry>,
}

impl GeometryCache {
    /// The geometry last applied, if any.
    pub closed spec fn last(&self) -> Option<Geometry> {
        self.last
    }

    /// A cache that has applied nothing yet.
    pub fn new() -> (c: Self)
        ensures
            c.last() == None::<Geometry>,
    {
        GeometryCache { last: None }
    }

    /// Whether `geometry` differs from the geometry last applied.
    pub fn needs_update(&self, geometry: Geometry) -> (r: bool)
        ensures
            r == geometry_needs_update(self.last(), geometry),
    {
        match self.last {
            Some(g) => g != geometry,
            None => true,
        }
    }

    /// Records the status with which the window answered an update to
    /// `geometry`: a refusal is an error and leaves the cache as it was.
    pub fn record_update(&mut self, geometry: Geometry, status: i32) -> (r: Result<()>)
        ensures
            final(self).last() == geometry_after_update(old(self).last(), geometry, status),
            status == 0 ==> r is Ok,
            status != 0 ==> fails_with(r, set_geometry_failed_text(status as int)),
    {
        if status != 0 {
            return Err(Error::texture_operation_failed(
                detail_with_int("ANativeWindow_setBuffersGeometry failed with status ", status as i64),
            ));
        }
        self.last = Some(geometry);
        Ok(())
    }
}

/// After an accepted update to `geometry` a window needs another update
/// exactly for a geometry that differs in some field (width, height or
/// format); a window never updated needs one for any geometry; a refused
/// update leaves every later decision as it was before.
pub proof fn law_applied_geometry_needs_no_update(
    last: Option<Geometry>,
    geometry: Geometry,
    status: i32,
    next: Geometry,
)
    ensures
        status == 0 ==> !geometry_needs_update(geometry_after_update(last, geometry, status), geometry),
        status == 0 ==> (geometry_needs_update(geometry_after_update(last, geometry, status), next) <==> (
        next.width != geometry.width || next.height != geometry.height || next.format
            != geometry.format)),
        geometry_needs_update(None, next),
        status != 0 ==> geometry_needs_update(geometry_after_update(last, geometry, status), next)
            == geometry_needs_update(last, next),
{
}

/// What `AHardwareBuffer_describe` reports of a buffer.
#[derive(Clone, Copy, Debug, PartialEq, Eq, Structural)]
pub struct HardwareBufferDescription {
    pub width: u32,
    pub height: u32,
    pub stride: u32,
    pub format: u32,
}

/// The window geometry and the source row stride of a flush.
#[derive(Clone, Copy, Debug, PartialEq, Eq, Structural)]
pub struct FlushPlan {
    pub geometry: Geometry,
    pub stride_pixels: i32,
}

/// `{:?}` of a source kind.
pub open spec fn source_kind_name(kind: AndroidHardwareBufferSourceKind) -> Seq<char> {
    match kind {
        AndroidHardwareBufferSourceKind::AHardwareBuffer => "AHardwareBuffer"@,
        AndroidHardwareBufferSourceKind::EglImageBackingBuffer => "EglImageBackingBuffer"@,
    }
}

/// A buffer dimension, or the registered one when that is positive.
pub open spec fn chosen_dimension(registered: int, described: int) -> core::result::Result<int, ()> {
    if registered > 0 {
        Ok(registered)
    } else if described > i32::MAX {
        Err(())
    } else {
        Ok(described)
    }
}

/// What checking a buffer's description before a flush comes to: the
/// geometry to apply and the source stride, or the failure text.
pub open spec fn flush_plan_outcome(
    kind: AndroidHardwareBufferSourceKind,
    registered_width: int,
    registered_height: int,
    desc: HardwareBufferDescription,
) -> core::result::Result<FlushPlan, Seq<char>> {
    if desc.format != FORMAT_R8G8B8A8_UNORM {
        Err("Android hardware-buffer flush currently supports only RGBA8888; got format "@
            + decimal(desc.format as nat) + " for "@ + source_kind_name(kind))
    } else {
        match chosen_dimension(registered_width, desc.width as int) {
            Err(_) => Err("AHardwareBuffer width exceeded i32"@),
            Ok(width) => match chosen_dimension(registered_height, desc.height as int) {
                Err(_) => Err("AHardwareBuffer height exceeded i32"@),
                Ok(height) => if desc.stride > i32::MAX {
                    Err("AHardwareBuffer stride exceeded i32"@)
                } else if width <= 0 || height <= 0 {
                    Err("Android hardware-buffer flush requires positive geometry; got "@
                        + signed_decimal(width) + "x"@ + signed_decimal(height))
                } else if desc.stride <= 0 || desc.stride < width {
                    Err("Android hardware-buffer flush received invalid stride "@
                        + signed_decimal(desc.stride as int) + " for width "@ + signed_decimal(width))
                } else {
                    Ok(FlushPlan {
                        geometry: Geometry {
                            width: width as i32,
                            height: height as i32,
                            format: FORMAT_R8G8B8A8_UNORM as i32,
                        },
                        stride_pixels: desc.stride as i32,
                    })
                },
            },
        }
    }
}

/// A well-formed RGBA8888 buffer is planned as it is: positive geometry
/// (the registered size where given, else the described one) and a row
/// stride of at least the width (an unpadded buffer included) give the
/// window that geometry and the described stride; a stride below the width
/// is refused.
pub proof fn law_well_formed_buffer_is_planned(
    kind: AndroidHardwareBufferSourceKind,
    registered_width: i32,
    registered_height: i32,
    desc: HardwareBufferDescription,
)
    requires
        desc.format == FORMAT_R8G8B8A8_UNORM,
        desc.width <= i32::MAX,
        desc.height <= i32::MAX,
        0 < desc.stride <= i32::MAX,
    ensures
        ({
            let width: int = if registered_width > 0 { registered_width as int } else { desc.width as int };
            let height: int = if registered_height > 0 { registered_height as int } else { desc.height as int };
            let outcome = flush_plan_outcome(kind, registered_width as int, registered_height as int, desc);
            &&& 0 < width && 0 < height && width <= desc.stride ==> outcome == Ok::<FlushPlan, Seq<char>>(
                FlushPlan {
                    geometry: Geometry {
                        width: width as i32,
                        height: height as i32,
                        format: FORMAT_R8G8B8A8_UNORM as i32,
                    },
                    stride_pixels: desc.stride as i32,
                },
            )
            &&& 0 < width && 0 < height && desc.stride < width ==> outcome is Err
        }),
{
}

fn source_kind_text(kind: AndroidHardwareBufferSourceKind) -> (s: &'static str)
    ensures
        s@ == source_kind_name(kind),
{
    match kind {
        AndroidHardwareBufferSourceKind::AHardwareBuffer => "AHardwareBuffer",
        AndroidHardwareBufferSourceKind::EglImageBackingBuffer => "EglImageBackingBuffer",
    }
}

fn operation_failed(text: &str) -> (e: Error)
    ensures
        is_operation_failure(e, text@),
{
    Error::texture_operation_failed(String::from_str(text))
}

/// Checks a hardware buffer's description before it is flushed into a
/// native window whose source was registered with `registered_width` by
/// `registered_height` (a non-positive value defers to the description).
pub fn plan_hardware_buffer_flush(
    kind: AndroidHardwareBufferSourceKind,
    registered_width: i32,
    registered_height: i32,
    desc: HardwareBufferDescription,
) -> (r: Result<FlushPlan>)
    ensures
        match flush_plan_outcome(kind, registered_width as int, registered_height as int, desc) {
            Ok(plan) => r matches Ok(p) && p == plan,
            Err(m) => r matches Err(e) && is_operation_failure(e, m),
        },
{
    if desc.format != FORMAT_R8G8B8A8_UNORM {
        let mut detail = String::from_str(
            "Android hardware-buffer flush currently supports only RGBA8888; got format ",
        );
        append_u64(&mut detail, desc.format as u64);
        append_str(&mut detail, " for ");
        append_str(&mut detail, source_kind_text(kind));
        return Err(Error::texture_operation_failed(detail));
    }
    let width: i32 = if registered_width > 0 {
        registered_width
    } else if desc.width > i32::MAX as u32 {
        return Err(operation_failed("AHardwareBuffer width exceeded i32"));
    } else {
        desc.width as i32
    };
    let height: i32 = if registered_height > 0 {
        registered_height
    } else if desc.height > i32::MAX as u32 {
        return Err(operation_failed("AHardwareBuffer height exceeded i32"));
    } else {
        desc.height as i32
    };
    if desc.stride > i32::MAX as u32 {
        return Err(operation_failed("AHardwareBuffer stride exceeded i32"));
    }
    let stride_pixels = desc.stride as i32;
    if width <= 0 || height <= 0 {
        let mut detail = detail_with_int(
            "Android hardware-buffer flush requires positive geometry; got ",
            width as i64,
        );
        append_str(&mut detail, "x");
        append_i64(&mut detail, height as i64);
        return Err(Error::texture_operation_failed(detail));
    }
    if stride_pixels <= 0 || stride_pixels < width {
        let mut detail = detail_with_int(
            "Android hardware-buffer flush received invalid stride ",
            stride_pixels as i64,
        );
        append_str(&mut detail, " for width ");
        append_i64(&mut detail, width as i64);
        return Err(Error::texture_operation_failed(detail));
    }
    Ok(FlushPlan {
        geometry: Geometry { width, height, format: FORMAT_R8G8B8A8_UNORM as i32 },
        stride_pixels,
    })
}

/// The failure text of an `AHardwareBuffer_unlock` status.
pub open spec fn unlock_failed_text(status: int) -> Seq<char> {
    "AHardwareBuffer_unlock failed with status "@ + signed_decimal(status)
}

/// The failure text of an `ANativeWindow_unlockAndPost` status.
pub open spec fn unlock_and_post_failed_text(status: int) -> Seq<char> {
    "ANativeWindow_unlockAndPost failed with status "@ + signed_decimal(status)
}

/// The result of unlocking a hardware buffer with status `status`.
pub fn unlock_status_result(status: i32) -> (r: Result<()>)
    ensures
        status == 0 ==> r is Ok,
        status != 0 ==> fails_with(r, unlock_failed_text(status as int)),
{
    if status != 0 {
        return Err(Error::texture_operation_failed(
            detail_with_int("AHardwareBuffer_unlock failed with status ", status as i64),
        ));
    }
    Ok(())
}

/// The failure text of a hardware-buffer or window lock, if it failed.
pub open spec fn lock_failure_text(what: Seq<char>, status: int, data_is_null: bool) -> Option<Seq<char>> {
    if status != 0 {
        Some(what + " failed with status "@ + signed_decimal(status))
    } else if data_is_null {
        Some(what + " returned a null data pointer"@)
    } else {
        None
    }
}

/// The result of locking a buffer (`what` names the lock call): a non-zero
/// status fails, and so does a successful lock that yields no memory.
pub fn lock_result(what: &str, status: i32, data_is_null: bool) -> (r: Result<()>)
    ensures
        match lock_failure_text(what@, status as int, data_is_null) {
            Some(m) => r matches Err(e) && is_operation_failure(e, m),
            None => r is Ok,
        },
{
    if status != 0 {
        let mut detail = String::from_str(what);
        append_str(&mut detail, " failed with status ");
        append_i64(&mut detail, status as i64);
        return Err(Error::texture_operation_failed(detail));
    }
    if data_is_null {
        let mut detail = String::from_str(what);
        append_str(&mut detail, " returned a null data pointer");
        return Err(Error::texture_operation_failed(detail));
    }
    Ok(())
}

/// What the end of a hardware-buffer flush must release: the source
/// buffer's lock and the window's lock (released by posting the window).
#[derive(Clone, Copy, Debug, PartialEq, Eq, Structural)]
pub struct FlushRelease {
    pub unlock_source: bool,
    pub post_window: bool,
}

/// The release owed for the locks held: exactly the locks that succeeded.
pub open spec fn release_for(source_held: bool, window_held: bool) -> FlushRelease {
    FlushRelease { unlock_source: source_held, post_window: window_held }
}

/// The locks that a hardware-buffer flush holds: a lock is held from the
/// moment its call succeeds (even where it yielded no memory) until the
/// flush's release step.
pub struct FlushLocks {
    source_locked: bool,
    window_locked: bool,
}

impl FlushLocks {
    /// Whether the source buffer's lock is held.
    pub closed spec fn source_held(&self) -> bool {
        self.source_locked
    }

    /// Whether the window's lock is held.
    pub closed spec fn window_held(&self) -> bool {
        self.window_locked
    }

    /// A flush that holds no lock yet.
    pub fn new() -> (l: Self)
        ensures
            !l.source_held(),
            !l.window_held(),
    {
        FlushLocks { source_locked: false, window_locked: false }
    }

    /// The source buffer's lock answered `status`, yielding no memory when
    /// `data_is_null`: a successful lock is held from now on, and the flush
    /// goes on only when the lock also yielded memory.
    pub fn after_source_lock(&mut self, status: i32, data_is_null: bool) -> (r: Result<()>)
        ensures
            final(self).source_held() == (old(self).source_held() || status == 0),
            final(self).window_held() == old(self).window_held(),
            match lock_failure_text("AHardwareBuffer_lock"@, status as int, data_is_null) {
                Some(m) => r matches Err(e) && is_operation_failure(e, m),
                None => r is Ok,
            },
    {
        if status == 0 {
            self.source_locked = true;
        }
        lock_result("AHardwareBuffer_lock", status, data_is_null)
    }

    /// The window's lock answered `status`, yielding no memory when
    /// `bits_is_null`; as for the source.
    pub fn after_window_lock(&mut self, status: i32, bits_is_null: bool) -> (r: Result<()>)
        ensures
            final(self).window_held() == (old(self).window_held() || status == 0),
            final(self).source_held() == old(self).source_held(),
            match lock_failure_text("ANativeWindow_lock"@, status as int, bits_is_null) {
                Some(m) => r matches Err(e) && is_operation_failure(e, m),
                None => r is Ok,
            },
    {
        if status == 0 {
            self.window_locked = true;
        }
        lock_result("ANativeWindow_lock", status, bits_is_null)
    }

    /// The flush's release step: what must be released now, after which no
    /// lock is held.
    pub fn take_release(&mut self) -> (r: FlushRelease)
        ensures
            r == release_for(old(self).source_held(), old(self).window_held()),
            !final(self).source_held(),
            !final(self).window_held(),
    {
        let r = FlushRelease { unlock_source: self.source_locked, post_window: self.window_locked };
        self.source_locked = false;
        self.window_locked = false;
        r
    }
}

/// Every lock of a flush that succeeded is released exactly once: the
/// release step owes exactly the held locks, and a second release step,
/// holding none, owes nothing.
pub proof fn law_each_lock_released_once(source_held: bool, window_held: bool)
    ensures
        release_for(source_held, window_held).unlock_source == source_held,
        release_for(source_held, window_held).post_window == window_held,
        release_for(false, false) == (FlushRelease { unlock_source: false, post_window: false }),
{
}

/// The result of a flush after the copy, the unlock of the source buffer
/// and the unlock of the window: a copy failure wins; after a successful
/// copy a failed source unlock is reported, then a failed window unlock.
pub fn finish_hardware_buffer_flush(
    copy_result: Result<()>,
    source_unlock_result: Result<()>,
    window_unlock_status: i32,
) -> (r: Result<()>)
    ensures
        copy_result is Err ==> r == copy_result,
        copy_result is Ok && source_unlock_result is Err ==> r == source_unlock_result,
        copy_result is Ok && source_unlock_result is Ok && window_unlock_status != 0 ==> fails_with(
            r,
            unlock_and_post_failed_text(window_unlock_status as int),
        ),
        copy_result is Ok && source_unlock_result is Ok && window_unlock_status == 0 ==> r is Ok,
{
    match copy_result {
        Ok(()) => {
            match source_unlock_result {
                Ok(()) => {},
                Err(e) => return Err(e),
            }
            if window_unlock_status != 0 {
                return Err(Error::texture_operation_failed(detail_with_int(
                    "ANativeWindow_unlockAndPost failed with status ",
                    window_unlock_status as i64,
                )));
            }
            Ok(())
        },
        Err(error) => Err(error),
    }
}

} // verus!
