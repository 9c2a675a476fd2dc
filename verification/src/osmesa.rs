//! The OsMesa headless provider: a software rasterizer that renders into a
//! caller-visible buffer, needing no display server and no hardware.

use vstd::prelude::*;

use crate::backend::{
    make_current_post, swap_buffers_post, lookup, BackendSpec, NativeConfig, NativeContext,
};
use crate::types::{Api, ContextError, CreationError, PixelFormat, PixelFormatRequirements};

verus! {

/// A software-rasterizer headless context.
pub struct OsMesaContext {
    pub native: NativeContext,
}

impl OsMesaContext {
    /// The state handed back from a successful creation call: a fresh native
    /// context as `config` describes. OsMesa contexts never share a GL object
    /// namespace.
    pub open spec fn fresh(self, config: NativeConfig) -> bool {
        self.native.fresh(config, None)
    }

    /// Create a software-rasterizer context against the OsMesa backend.
    pub fn new(backend: &BackendSpec, pf_reqs: &PixelFormatRequirements) -> (r: Result<
        OsMesaContext,
        CreationError,
    >)
        ensures
            match backend.outcome {
                Ok(config) => (r matches Ok(c) && c.fresh(config)),
                Err(e) => (r matches Err(x) && x == e),
            },
    {
        match NativeContext::create(backend, None) {
            Ok(native) => Ok(OsMesaContext { native }),
            Err(e) => Err(e),
        }
    }

    /// Make this context the calling thread's current one.
    pub fn make_current(&mut self) -> (r: Result<(), ContextError>)
        ensures
            make_current_post(old(self).native, final(self).native, r),
    {
        self.native.make_current()
    }

    /// Whether this context is the calling thread's current one.
    pub fn is_current(&self) -> (r: bool)
        ensures
            r == self.native.current,
    {
        self.native.is_current()
    }

    /// The address of the GL symbol `addr`, or the null address.
    pub fn get_proc_address(&self, addr: &str) -> (r: usize)
        ensures
            r == lookup(self.native.proc_table@, addr@),
    {
        self.native.get_proc_address(addr)
    }

    /// Swap the front and back buffers.
    pub fn swap_buffers(&mut self) -> (r: Result<(), ContextError>)
        requires
            old(self).native.swap_count < u64::MAX,
        ensures
            swap_buffers_post(old(self).native, final(self).native, r),
    {
        self.native.swap_buffers()
    }

    /// The API family this context exposes.
    pub fn get_api(&self) -> (r: Api)
        ensures
            r == self.native.api,
    {
        self.native.get_api()
    }

    /// The pixel format the backend selected.
    pub fn get_pixel_format(&self) -> (r: PixelFormat)
        ensures
            r == self.native.pixel_format,
    {
        self.native.get_pixel_format()
    }

    /// The OsMesa handle of the native context.
    pub fn raw_handle(&self) -> (r: usize)
        ensures
            r == self.native.handle,
    {
        self.native.raw_handle()
    }
}

} // verus!
