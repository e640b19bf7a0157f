//! Native textures for Flutter engines: payload contracts, error taxonomy,
//! the Android delivery paths and the diagnostics of the Android smoke host.
mod text;

pub mod error;

pub use error::{
    EngineContextError, EngineContextErrorKind, Error, RegistrationFailureMode, Result,
};

pub mod payload;

pub use payload::{
    BoxedGLTexture, BoxedPixelData, BoxedTextureDescriptor, GLTexture, GLTextureProvider,
    PayloadPathContract, PayloadProvider, PayloadTiming, PixelData, PixelDataProvider,
    PixelFormat, SimplePixelData, SurfaceCachePolicy, TextureDescriptor,
    TextureDescriptorProvider,
};

pub mod android;

pub use android::{
    AndroidHardwareBufferFormat, AndroidHardwareBufferSourceKind, DeferredPayloadFlush,
    ImportedHardwareBufferTexture,
};

pub mod smoke;
