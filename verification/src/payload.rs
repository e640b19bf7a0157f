//! Texture payloads: pixel data, payload providers, the payload timing
//! contract and the surface cache policy.
use vstd::prelude::*;

verus! {

///
/// Trait that implemented by objects that provide texture contents.
pub trait PayloadProvider<Type>: Send + Sync {
    /// Called by the engine to get the latest texture payload. This will
    /// most likely be called on raster thread. Hence PayloadProvider must
    /// be thread safe.
    fn get_payload(&self) -> Type;
}

#[derive(Copy, Clone, Debug, PartialEq, Eq, Structural)]
pub enum PixelFormat {
    BGRA,
    RGBA,
}

/// Pixel data is supported payload type on every platform, but the expected
/// PixelFormat may differ. You can [`PixelData::FORMAT`] to query expected
/// pixel format.
pub struct PixelData<'a> {
    pub width: i32,
    pub height: i32,
    pub data: &'a [u8],
}

/// The pixel format that pixel data must have on Android.
pub const PIXEL_DATA_FORMAT: PixelFormat = PixelFormat::RGBA;

impl PixelData<'_> {
    pub const FORMAT: PixelFormat = PixelFormat::RGBA;
}

pub trait PixelDataProvider {
    fn get(&self) -> PixelData<'_>;
}

/// Actual type for pixel buffer payload.
pub type BoxedPixelData = Box<dyn PixelDataProvider>;

/// Convenience implementation for pixel data texture.
pub struct SimplePixelData {
    width: i32,
    height: i32,
    data: Vec<u8>,
}

impl SimplePixelData {
    /// The width it was made with.
    pub closed spec fn spec_width(&self) -> i32 {
        self.width
    }

    /// The height it was made with.
    pub closed spec fn spec_height(&self) -> i32 {
        self.height
    }

    /// The bytes it was made with.
    pub closed spec fn spec_data(&self) -> Seq<u8> {
        self.data@
    }

    pub fn new_boxed(width: i32, height: i32, data: Vec<u8>) -> (b: Box<Self>)
        ensures
            b.spec_width() == width,
            b.spec_height() == height,
            b.spec_data() == data@,
    {
        Box::new(Self { width, height, data })
    }
}

impl PixelDataProvider for SimplePixelData {
    fn get(&self) -> (p: PixelData<'_>)
        ensures
            p.width == self.spec_width(),
            p.height == self.spec_height(),
            p.data@ == self.spec_data(),
    {
        PixelData { width: self.width, height: self.height, data: self.data.as_slice() }
    }
}

/// OpenGL texture payload.
pub struct GLTexture<'a> {
    pub target: u32,  // texture target (i.e. GL_TEXTURE_2D or GL_TEXTURE_RECTANGLE)
    pub name: &'a u32,  // OpenGL texture name
    pub width: i32,
    pub height: i32,
}

pub trait GLTextureProvider {
    fn get(&self) -> GLTexture<'_>;
}

/// Payload type for OpenGL texture backed texture.
pub type BoxedGLTexture = Box<dyn GLTextureProvider>;

/// Texture descriptor for native texture.
pub struct TextureDescriptor<'a, HandleType> {
    pub handle: &'a HandleType,
    pub width: i32,
    pub height: i32,
    pub visible_width: i32,
    pub visible_height: i32,
    pub pixel_format: PixelFormat,
}

pub trait TextureDescriptorProvider<HandleType> {
    fn get(&self) -> TextureDescriptor<'_, HandleType>;
}

pub type BoxedTextureDescriptor<HandleType> = Box<dyn TextureDescriptorProvider<HandleType>>;

/// Describes the payload fetch timing contract for a platform.
#[derive(Copy, Clone, Debug, PartialEq, Eq, Structural)]
pub enum PayloadTiming {
    /// Payload fetched during mark_frame_available() (Android current behavior)
    PushDuringMarkAvailable,
    /// Payload fetched later via callback (Darwin current behavior)
    PullDuringRaster,
    /// This payload type does not use get_payload() (e.g., NativeWindow direct access)
    NotApplicable,
}

/// Trait for querying payload timing behavior.
pub trait PayloadPathContract {
    /// Returns when get_payload() is called relative to mark_frame_available().
    fn payload_timing() -> PayloadTiming;
}

impl PayloadPathContract for BoxedPixelData {
    /// Android fetches payload DURING mark_frame_available() on the caller thread
    /// (typically Platform Thread).
    fn payload_timing() -> (t: PayloadTiming)
        ensures
            t == PayloadTiming::PushDuringMarkAvailable,
    {
        PayloadTiming::PushDuringMarkAvailable
    }
}

/// Controls how SurfaceCache manages IOSurface caching and ownership on Darwin.
///
/// # Policies
/// - `CacheWithReuse`: Cache surfaces for reuse (default, backward compatible)
/// - `NoCache`: Fresh surface every time (clear ownership, recommended for SharedSource)
/// - `CacheNoClone`: Cache but return borrowed reference (requires lifetime redesign)
#[derive(Copy, Clone, Debug, PartialEq, Eq, Structural)]
pub enum SurfaceCachePolicy {
    /// Cache surfaces for reuse. May increment retain count on clone.
    /// Use when performance is critical and retain count is managed externally.
    CacheWithReuse,
    /// No caching. Fresh surface from provider every time.
    /// Use when ownership clarity is critical (e.g., SharedSource model).
    NoCache,
    /// Cache but never clone. Return borrowed reference.
    /// Use when caller manages lifetime explicitly.
    /// Note: This variant requires lifetime redesign and is not yet implemented.
    CacheNoClone,
}

impl Default for SurfaceCachePolicy {
    fn default() -> (p: Self)
        ensures
            p == SurfaceCachePolicy::CacheWithReuse,
    {
        SurfaceCachePolicy::CacheWithReuse
    }
}

} // verus!
