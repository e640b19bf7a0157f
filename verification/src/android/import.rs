//! The bookkeeping of the hardware-buffer import path: which generation
//! was last delivered, which size the consumer was last given, and which
//! frame leases the texture itself must hand back to the provider.
use vstd::prelude::*;

use super::{detail_with_int, fails_with, is_operation_failure, AndroidHardwareBufferFormat};
use crate::error::{Error, Result};
use crate::text::signed_decimal;

verus! {

/// The plain values of a frame lease acquired from the frame provider.
#[derive(Clone, Copy, Debug, PartialEq, Eq, Structural)]
pub struct FrameLease {
    /// Visible width in pixels.
    pub width: i32,
    /// Visible height in pixels.
    pub height: i32,
    /// Producer-declared pixel format.
    pub format: AndroidHardwareBufferFormat,
    /// Monotonic generation for the shared source.
    pub generation: u64,
    /// Provider-unique release token for this lease.
    pub release_token: u64,
}

/// How a leased frame is handed to the consumer.
#[derive(Clone, Copy, Debug, PartialEq, Eq, Structural)]
pub struct FramePlan {
    /// Width given to the consumer (at least one pixel).
    pub width: i32,
    /// Height given to the consumer (at least one pixel).
    pub height: i32,
    /// Whether the consumer must be resized before the frame is queued.
    pub resize: bool,
}

/// What finishing a frame comes to: the result reported to the caller and
/// the lease that the texture itself hands back to the provider.
#[derive(Debug)]
pub struct FrameCompletion {
    pub result: Result<()>,
    pub release_token: Option<u64>,
}

/// A dimension given to the consumer: at least one pixel.
pub open spec fn consumer_dimension(n: int) -> int {
    if n >= 1 { n } else { 1 }
}

pub open spec fn max_u64(a: u64, b: u64) -> u64 {
    if a >= b { a } else { b }
}

/// The import path's record of the last delivered generation and the
/// last size given to the consumer.
pub struct ImportFrameState {
    last_generation: u64,
    last_size: Option<(i32, i32)>,
}

impl ImportFrameState {
    /// The generation of the last frame delivered (or announced by the
    /// provider as the newest it has).
    pub closed spec fn last_generation(&self) -> u64 {
        self.last_generation
    }

    /// The size last given to the consumer.
    pub closed spec fn last_size(&self) -> Option<(i32, i32)> {
        self.last_size
    }

    /// A texture that has delivered nothing yet.
    pub fn new() -> (s: Self)
        ensures
            s.last_generation() == 0,
            s.last_size() == None::<(i32, i32)>,
    {
        ImportFrameState { last_generation: 0, last_size: None }
    }

    /// The generation after which the next frame is asked for.
    pub fn after_generation(&self) -> (g: u64)
        ensures
            g == self.last_generation(),
    {
        self.last_generation
    }

    /// The provider had no frame newer than asked for, and reported
    /// `latest_generation` as its newest: a newer one is remembered.
    pub fn observe_no_new_frame(&mut self, latest_generation: u64)
        ensures
            final(self).last_generation() == max_u64(old(self).last_generation(), latest_generation),
            final(self).last_size() == old(self).last_size(),
    {
        if latest_generation > self.last_generation {
            self.last_generation = latest_generation;
        }
    }

    /// How a leased frame is handed to the consumer: its size clamped to
    /// at least one pixel, and whether that size differs from the last.
    pub fn plan_frame(&self, lease: &FrameLease) -> (p: FramePlan)
        ensures
            p.width == consumer_dimension(lease.width as int),
            p.height == consumer_dimension(lease.height as int),
            p.resize == (self.last_size() != Some((p.width, p.height))),
    {
        match lease.format {
            AndroidHardwareBufferFormat::Rgba8888 => {},
        }
        let width = if lease.width >= 1 { lease.width } else { 1 };
        let height = if lease.height >= 1 { lease.height } else { 1 };
        let resize = match self.last_size {
            Some((w, h)) => w != width || h != height,
            None => true,
        };
        FramePlan { width, height, resize }
    }

    /// The consumer was resized to `width` by `height`.
    pub fn record_resize(&mut self, width: i32, height: i32)
        ensures
            final(self).last_size() == Some((width, height)),
            final(self).last_generation() == old(self).last_generation(),
    {
        self.last_size = Some((width, height));
    }

    /// Finishes a leased frame after the attempt to queue it: a queued
    /// frame becomes the last delivered generation and its lease is
    /// released by the consumer later; a frame that could not be queued
    /// is handed back to the provider at once and the failure reported.
    pub fn complete_frame(&mut self, lease: &FrameLease, queue_result: Result<()>) -> (c: FrameCompletion)
        ensures
            queue_result is Ok ==> c.result is Ok && c.release_token == None::<u64>
                && final(self).last_generation() == lease.generation,
            queue_result is Err ==> c.result == queue_result && c.release_token == Some(lease.release_token)
                && final(self).last_generation() == old(self).last_generation(),
            final(self).last_size() == old(self).last_size(),
    {
        match queue_result {
            Ok(()) => {
                self.last_generation = lease.generation;
                FrameCompletion { result: Ok(()), release_token: None }
            },
            Err(error) => FrameCompletion { result: Err(error), release_token: Some(lease.release_token) },
        }
    }
}

/// The release token of a consumer release callback: none for a callback
/// without a texture behind it or with a negative token.
pub fn release_token_from_java(native_handle: i64, release_token: i64) -> (t: Option<u64>)
    ensures
        native_handle == 0 ==> t == None::<u64>,
        native_handle != 0 && release_token < 0 ==> t == None::<u64>,
        native_handle != 0 && release_token >= 0 ==> t == Some(release_token as u64),
{
    if native_handle == 0 {
        return None;
    }
    if release_token < 0 {
        return None;
    }
    Some(release_token as u64)
}

/// The failure text of a consumer surface without a native object.
pub open spec fn null_native_object_text() -> Seq<char> {
    "Surface.mNativeObject was null while importing HardwareBuffer"@
}

/// The failure text of a refused attach-and-queue.
pub open spec fn attach_failed_text(code: int) -> Seq<char> {
    "Surface.nativeAttachAndQueueBufferWithColorSpace failed with error code "@ + signed_decimal(code)
}

/// A consumer surface must have a native object to attach buffers to.
pub fn check_surface_native_object(native_object: i64) -> (r: Result<()>)
    ensures
        native_object == 0 ==> fails_with(r, null_native_object_text()),
        native_object != 0 ==> r is Ok,
{
    if native_object == 0 {
        return Err(Error::texture_operation_failed(String::from_str(
            "Surface.mNativeObject was null while importing HardwareBuffer",
        )));
    }
    Ok(())
}

/// The result of attaching and queueing a buffer, from its error code.
pub fn check_attach_and_queue_result(code: i32) -> (r: Result<()>)
    ensures
        code != 0 ==> fails_with(r, attach_failed_text(code as int)),
        code == 0 ==> r is Ok,
{
    if code != 0 {
        return Err(Error::texture_operation_failed(detail_with_int(
            "Surface.nativeAttachAndQueueBufferWithColorSpace failed with error code ",
            code as i64,
        )));
    }
    Ok(())
}

/// Generation bookkeeping never goes backwards while the provider keeps
/// its promise that an acquired frame is newer than the one asked after:
/// neither a "no new frame" answer nor a queued or refused frame lowers
/// the last delivered generation.
pub proof fn law_generation_never_decreases(
    before: u64,
    latest_generation: u64,
    lease: FrameLease,
    queued: bool,
)
    requires
        lease.generation > before,
    ensures
        max_u64(before, latest_generation) >= before,
        (if queued { lease.generation } else { before }) >= before,
{
}

} // verus!
