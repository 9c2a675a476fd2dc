//! Shared value types: the GL API kind, pixel-format descriptors, creation
//! attributes, and the error taxonomy surfaced to callers.

use vstd::prelude::*;

verus! {

/// The native API family a context exposes to its user.
#[derive(Clone, Copy, Debug, PartialEq, Eq)]
pub enum Api {
    /// Desktop OpenGL.
    OpenGl,
    /// OpenGL for embedded systems.
    OpenGlEs,
}

/// The pixel format a provider actually selected, reported back to callers.
#[derive(Clone, Copy, Debug, PartialEq, Eq)]
pub struct PixelFormat {
    pub hardware_accelerated: bool,
    pub color_bits: u8,
    pub alpha_bits: u8,
    pub depth_bits: u8,
    pub stencil_bits: u8,
    pub double_buffer: bool,
    pub multisampling: Option<u16>,
    pub srgb: bool,
}

/// What a caller asks of the pixel format. This layer never interprets these
/// fields: they are handed to the chosen provider unchanged.
#[derive(Clone, Copy, Debug, PartialEq, Eq)]
pub struct PixelFormatRequirements {
    pub hardware_accelerated: Option<bool>,
    pub color_bits: Option<u8>,
    pub alpha_bits: Option<u8>,
    pub depth_bits: Option<u8>,
    pub stencil_bits: Option<u8>,
    pub double_buffer: Option<bool>,
    pub multisampling: Option<u16>,
    pub srgb: bool,
}

/// Context-creation attributes. `S` is the handle type of a context this new
/// one should share a GL object namespace with; the dispatch layer re-projects
/// it to the chosen provider's own context type before delegating.
pub struct GlAttributes<S> {
    /// A context to share the GL object namespace with, if any.
    pub sharing: Option<S>,
    pub vsync: bool,
    pub debug: bool,
}

/// An error reported while building a context.
#[derive(Debug, PartialEq, Eq)]
pub enum CreationError {
    /// The underlying display system reported a failure.
    OsError(String),
    /// The requested context kind is not supported here.
    NotSupported,
    /// No pixel format matched the requirements.
    NoAvailablePixelFormat,
    /// A restriction of this platform layer itself was violated; the message
    /// says which.
    PlatformSpecific(String),
}

impl CreationError {
    /// An exact copy, so that a provider-origin error can be handed to the
    /// caller while the provider description stays untouched.
    pub fn duplicate(&self) -> (r: CreationError)
        ensures
            r == *self,
    {
        match self {
            CreationError::OsError(s) => CreationError::OsError(s.clone()),
            CreationError::NotSupported => CreationError::NotSupported,
            CreationError::NoAvailablePixelFormat => CreationError::NoAvailablePixelFormat,
            CreationError::PlatformSpecific(s) => CreationError::PlatformSpecific(s.clone()),
        }
    }
}

/// An error reported by an existing context's operations.
#[derive(Debug, PartialEq, Eq)]
pub enum ContextError {
    IoError(String),
    OsError(String),
    /// The native context was lost and can no longer be used.
    ContextLost,
}

impl ContextError {
    /// An exact copy, so that a provider can report the same failure to each
    /// call while its own state stays untouched.
    pub fn duplicate(&self) -> (r: ContextError)
        ensures
            r == *self,
    {
        match self {
            ContextError::IoError(s) => ContextError::IoError(s.clone()),
            ContextError::OsError(s) => ContextError::OsError(s.clone()),
            ContextError::ContextLost => ContextError::ContextLost,
        }
    }
}

} // verus!
