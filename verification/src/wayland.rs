//! The Wayland windowed provider. A Wayland context is EGL-backed and, unlike
//! X11, needs an explicit resize call: Wayland surfaces commit their buffer
//! size themselves, with no window-manager resize semantics to lean on.

use vstd::prelude::*;

use crate::backend::{
    make_current_post, swap_buffers_post, lookup, NativeConfig, NativeContext,
};
use crate::types::{Api, ContextError, CreationError, GlAttributes, PixelFormat,
    PixelFormatRequirements};
use crate::window::{EventsLoop, Window, WindowBuilder};

verus! {

/// A Wayland-backed windowed context: the EGL-backed native context, and the
/// sizes the provider has been asked to commit, in order.
pub struct Context {
    pub native: NativeContext,
    /// Each entry is one resize the provider performed, as (width, height).
    pub resize_calls: Vec<(u32, u32)>,
}

/// The native handle of the context a new one should share its GL object
/// namespace with, if any.
pub open spec fn spec_share_target(sharing: Option<&Context>) -> Option<usize> {
    match sharing {
        Some(c) => Some(c.native.handle),
        None => None,
    }
}

impl Context {
    /// The state handed back from a successful creation call: a fresh native
    /// context as `config` describes, with no resize performed yet.
    pub open spec fn fresh(self, config: NativeConfig, shared: Option<usize>) -> bool {
        &&& self.native.fresh(config, shared)
        &&& self.resize_calls@ == Seq::<(u32, u32)>::empty()
    }

    /// Create a Wayland windowed context: build the window, then delegate to
    /// the Wayland backend with the sharing target's native handle.
    pub fn new(
        window_builder: WindowBuilder,
        events_loop: &EventsLoop,
        pf_reqs: &PixelFormatRequirements,
        gl_attr: &GlAttributes<&Context>,
    ) -> (r: Result<(Window, Context), CreationError>)
        ensures
            match events_loop.wayland_backend.outcome {
                Ok(config) => (r matches Ok(p) && p.0 == window_builder.spec_window()
                    && p.1.fresh(config, spec_share_target(gl_attr.sharing))),
                Err(e) => (r matches Err(x) && x == e),
            },
    {
        let shared: Option<usize> = match gl_attr.sharing {
            Some(c) => Some(c.native.raw_handle()),
            None => None,
        };
        match NativeContext::create(&events_loop.wayland_backend, shared) {
            Ok(native) => Ok(
                (window_builder.build(), Context { native, resize_calls: Vec::new() }),
            ),
            Err(e) => Err(e),
        }
    }

    /// Commit a new surface size: forwards width and height unchanged to the
    /// provider, exactly once.
    pub fn resize(&mut self, width: u32, height: u32)
        ensures
            final(self).native == old(self).native,
            final(self).resize_calls@ == old(self).resize_calls@.push((width, height)),
    {
        self.resize_calls.push((width, height));
    }

    /// Make this context the calling thread's current one.
    pub fn make_current(&mut self) -> (r: Result<(), ContextError>)
        ensures
            final(self).resize_calls@ == old(self).resize_calls@,
            make_current_post(old(self).native, final(self).native, r),
    {
        self.native.make_current()
    }

    /// Whether this context is the calling thread's current one.
    pub fn is_current(&self) -> (r: bool)
        ensures
            r == self.native.current,
    {
        self.native.is_current()
    }

    /// The address of the GL symbol `addr`, or the null address.
    pub fn get_proc_address(&self, addr: &str) -> (r: usize)
        ensures
            r == lookup(self.native.proc_table@, addr@),
    {
        self.native.get_proc_address(addr)
    }

    /// Swap the front and back buffers.
    pub fn swap_buffers(&mut self) -> (r: Result<(), ContextError>)
        requires
            old(self).native.swap_count < u64::MAX,
        ensures
            final(self).resize_calls@ == old(self).resize_calls@,
            swap_buffers_post(old(self).native, final(self).native, r),
    {
        self.native.swap_buffers()
    }

    /// The API family this context exposes.
    pub fn get_api(&self) -> (r: Api)
        ensures
            r == self.native.api,
    {
        self.native.get_api()
    }

    /// The pixel format the backend selected.
    pub fn get_pixel_format(&self) -> (r: PixelFormat)
        ensures
            r == self.native.pixel_format,
    {
        self.native.get_pixel_format()
    }

    /// The EGL handle of the native context.
    pub fn raw_handle(&self) -> (r: usize)
        ensures
            r == self.native.handle,
    {
        self.native.raw_handle()
    }
}

} // verus!
