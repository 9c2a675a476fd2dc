//! The X11 windowed provider. An X11 context is itself backed by one of two
//! native APIs — GLX, or EGL on an X11 display — a nested choice the backend
//! makes during construction and fixes for the context's lifetime.

use vstd::prelude::*;

use crate::backend::{
    make_current_post, swap_buffers_post, lookup, BackendSpec, NativeConfig, NativeContext,
};
use crate::types::{Api, ContextError, CreationError, GlAttributes, PixelFormat,
    PixelFormatRequirements};
use crate::window::{EventsLoop, Window, WindowBuilder};

verus! {

/// Which native API backs an X11 context.
#[derive(Clone, Copy, Debug, PartialEq, Eq)]
pub enum GlKind {
    Glx,
    Egl,
}

/// How the X11 backend answers a creation call: the outcome, and which
/// native API would back the produced context.
pub struct X11BackendSpec {
    pub backend: BackendSpec,
    pub kind: GlKind,
}

/// The native context behind an X11 context: exactly one of GLX or EGL,
/// fixed at construction.
pub enum GlContext {
    Glx(NativeContext),
    Egl(NativeContext),
}

/// An X11-backed windowed context.
pub struct Context {
    pub inner: GlContext,
}

/// The native handle of the context a new one should share its GL object
/// namespace with, if any.
pub open spec fn spec_share_target(sharing: Option<&Context>) -> Option<usize> {
    match sharing {
        Some(c) => Some(c.native().handle),
        None => None,
    }
}

impl Context {
    /// The provider-held native context, whichever API backs it.
    pub open spec fn native(self) -> NativeContext {
        match self.inner {
            GlContext::Glx(n) => n,
            GlContext::Egl(n) => n,
        }
    }

    /// Whether GLX (rather than EGL) backs this context.
    pub open spec fn is_glx(self) -> bool {
        self.inner is Glx
    }

    /// The state handed back from a successful creation call: a fresh native
    /// context as `config` describes, behind the API `kind` names.
    pub open spec fn fresh(self, kind: GlKind, config: NativeConfig, shared: Option<
        usize,
    >) -> bool {
        &&& self.is_glx() == (kind is Glx)
        &&& self.native().fresh(config, shared)
    }

    /// Create an X11 windowed context: build the window, then delegate to
    /// the X11 backend with the sharing target's native handle.
    pub fn new(
        window_builder: WindowBuilder,
        events_loop: &EventsLoop,
        pf_reqs: &PixelFormatRequirements,
        gl_attr: &GlAttributes<&Context>,
    ) -> (r: Result<(Window, Context), CreationError>)
        ensures
            match events_loop.x11_backend.backend.outcome {
                Ok(config) => (r matches Ok(p) && p.0 == window_builder.spec_window()
                    && p.1.fresh(events_loop.x11_backend.kind, config,
                        spec_share_target(gl_attr.sharing))),
                Err(e) => (r matches Err(x) && x == e),
            },
    {
        let shared: Option<usize> = match gl_attr.sharing {
            Some(c) => match &c.inner {
                GlContext::Glx(n) => Some(n.raw_handle()),
                GlContext::Egl(n) => Some(n.raw_handle()),
            },
            None => None,
        };
        match NativeContext::create(&events_loop.x11_backend.backend, shared) {
            Ok(native) => {
                let inner = match events_loop.x11_backend.kind {
                    GlKind::Glx => GlContext::Glx(native),
                    GlKind::Egl => GlContext::Egl(native),
                };
                Ok((window_builder.build(), Context { inner }))
            },
            Err(e) => Err(e),
        }
    }

    /// Make this context the calling thread's current one.
    pub fn make_current(&mut self) -> (r: Result<(), ContextError>)
        ensures
            final(self).is_glx() == old(self).is_glx(),
            make_current_post(old(self).native(), final(self).native(), r),
    {
        match &mut self.inner {
            GlContext::Glx(n) => n.make_current(),
            GlContext::Egl(n) => n.make_current(),
        }
    }

    /// Whether this context is the calling thread's current one.
    pub fn is_current(&self) -> (r: bool)
        ensures
            r == self.native().current,
    {
        match &self.inner {
            GlContext::Glx(n) => n.is_current(),
            GlContext::Egl(n) => n.is_current(),
        }
    }

    /// The address of the GL symbol `addr`, or the null address.
    pub fn get_proc_address(&self, addr: &str) -> (r: usize)
        ensures
            r == lookup(self.native().proc_table@, addr@),
    {
        match &self.inner {
            GlContext::Glx(n) => n.get_proc_address(addr),
            GlContext::Egl(n) => n.get_proc_address(addr),
        }
    }

    /// Swap the front and back buffers.
    pub fn swap_buffers(&mut self) -> (r: Result<(), ContextError>)
        requires
            old(self).native().swap_count < u64::MAX,
        ensures
            final(self).is_glx() == old(self).is_glx(),
            swap_buffers_post(old(self).native(), final(self).native(), r),
    {
        match &mut self.inner {
            GlContext::Glx(n) => n.swap_buffers(),
            GlContext::Egl(n) => n.swap_buffers(),
        }
    }

    /// The API family this context exposes.
    pub fn get_api(&self) -> (r: Api)
        ensures
            r == self.native().api,
    {
        match &self.inner {
            GlContext::Glx(n) => n.get_api(),
            GlContext::Egl(n) => n.get_api(),
        }
    }

    /// The pixel format the backend selected.
    pub fn get_pixel_format(&self) -> (r: PixelFormat)
        ensures
            r == self.native().pixel_format,
    {
        match &self.inner {
            GlContext::Glx(n) => n.get_pixel_format(),
            GlContext::Egl(n) => n.get_pixel_format(),
        }
    }

    /// The native context behind this one, with the API that backs it.
    pub fn raw_handle(&self) -> (r: &GlContext)
        ensures
            r == &self.inner,
    {
        &self.inner
    }
}

} // verus!
