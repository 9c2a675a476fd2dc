//! The hardware EGL headless provider: a context finalized into an off-screen
//! pixel buffer of the requested dimensions.

use vstd::prelude::*;

use crate::backend::{
    make_current_post, swap_buffers_post, lookup, BackendSpec, NativeConfig, NativeContext,
};
use crate::types::{Api, ContextError, CreationError, GlAttributes, PixelFormat,
    PixelFormatRequirements};

verus! {

/// An EGL context backed by an off-screen pixel buffer.
pub struct Context {
    pub native: NativeContext,
    /// The (width, height) of the pixel buffer the context was finalized
    /// into, as the provider received them.
    pub pbuffer_dimensions: (u32, u32),
}

/// The native handle of the context a new one should share its GL object
/// namespace with, if any.
pub open spec fn spec_share_target(sharing: Option<&Context>) -> Option<usize> {
    match sharing {
        Some(c) => Some(c.native.handle),
        None => None,
    }
}

impl Context {
    /// The state handed back from a successful creation call: a fresh native
    /// context as `config` describes, finalized into a pixel buffer of the
    /// requested dimensions.
    pub open spec fn fresh(
        self,
        config: NativeConfig,
        shared: Option<usize>,
        dimensions: (u32, u32),
    ) -> bool {
        &&& self.native.fresh(config, shared)
        &&& self.pbuffer_dimensions == dimensions
    }

    /// Create an EGL context and finalize it into a pixel buffer of the given
    /// dimensions, sharing with the target named in `gl_attr`.
    pub fn new_pbuffer(
        backend: &BackendSpec,
        pf_reqs: &PixelFormatRequirements,
        gl_attr: &GlAttributes<&Context>,
        dimensions: (u32, u32),
    ) -> (r: Result<Context, CreationError>)
        ensures
            match backend.outcome {
                Ok(config) => (r matches Ok(c) && c.fresh(config,
                    spec_share_target(gl_attr.sharing), dimensions)),
                Err(e) => (r matches Err(x) && x == e),
            },
    {
        let shared: Option<usize> = match gl_attr.sharing {
            Some(c) => Some(c.native.raw_handle()),
            None => None,
        };
        match NativeContext::create(backend, shared) {
            Ok(native) => Ok(Context { native, pbuffer_dimensions: dimensions }),
            Err(e) => Err(e),
        }
    }

    /// Make this context the calling thread's current one.
    pub fn make_current(&mut self) -> (r: Result<(), ContextError>)
        ensures
            final(self).pbuffer_dimensions == old(self).pbuffer_dimensions,
            make_current_post(old(self).native, final(self).native, r),
    {
        self.native.make_current()
    }

    /// Whether this context is the calling thread's current one.
    pub fn is_current(&self) -> (r: bool)
        ensures
            r == self.native.current,
    {
        self.native.is_current()
    }

    /// The address of the GL symbol `addr`, or the null address.
    pub fn get_proc_address(&self, addr: &str) -> (r: usize)
        ensures
            r == lookup(self.native.proc_table@, addr@),
    {
        self.native.get_proc_address(addr)
    }

    /// Swap the front and back buffers.
    pub fn swap_buffers(&mut self) -> (r: Result<(), ContextError>)
        requires
            old(self).native.swap_count < u64::MAX,
        ensures
            final(self).pbuffer_dimensions == old(self).pbuffer_dimensions,
            swap_buffers_post(old(self).native, final(self).native, r),
    {
        self.native.swap_buffers()
    }

    /// The API family this context exposes.
    pub fn get_api(&self) -> (r: Api)
        ensures
            r == self.native.api,
    {
        self.native.get_api()
    }

    /// The pixel format the backend selected.
    pub fn get_pixel_format(&self) -> (r: PixelFormat)
        ensures
            r == self.native.pixel_format,
    {
        self.native.get_pixel_format()
    }

    /// The EGL handle of the native context.
    pub fn raw_handle(&self) -> (r: usize)
        ensures
            r == self.native.handle,
    {
        self.native.raw_handle()
    }
}

} // verus!
