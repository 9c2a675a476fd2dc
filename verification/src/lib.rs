//! Platform dispatch for OpenGL context creation on Unix-like display systems.
//!
//! Given a request for a windowed or headless rendering context, this layer
//! selects the backend matching the running display session (X11 or Wayland
//! for windowed contexts; an EGL pixel buffer for headless ones), enforces
//! that two contexts may share a GL object namespace only when they were made
//! by the same backend, and wraps the provider's context in one uniform
//! handle whose operations dispatch on the backend that produced it.

use vstd::prelude::*;

pub mod backend;
pub mod egl;
pub mod osmesa;
pub mod types;
pub mod wayland;
pub mod window;
pub mod x11;

use crate::backend::{lookup, make_current_post, swap_buffers_post, BackendSpec, NativeContext};
use crate::types::{Api, ContextError, CreationError, GlAttributes, PixelFormat,
    PixelFormatRequirements};
use crate::window::{EventsLoop, Window, WindowBuilder};
use crate::x11::GlContext;

verus! {

/// The raw native handle of a context, exposed for interop. A value-only
/// projection: it carries no ownership and must not outlive the context it
/// was read from.
#[derive(Clone, Debug)]
pub enum RawHandle {
    Glx(usize),
    Egl(usize),
}

/// A windowed rendering context: exactly one of the two windowed backends,
/// chosen from the display session at creation and fixed for the context's
/// lifetime. Every operation dispatches on that choice.
pub enum Context {
    X(x11::Context),
    Wayland(wayland::Context),
}

/// Whether a requested sharing target was created by the other windowed
/// backend than the session calls for: a Wayland session sharing with an
/// X11-backed context, or an X11 session sharing with a Wayland-backed one.
pub open spec fn share_conflict(wayland_session: bool, sharing: Option<&Context>) -> bool {
    match sharing {
        Some(c) => if wayland_session {
            *c is X
        } else {
            *c is Wayland
        },
        None => false,
    }
}

/// The message of the error that rejects a cross-backend sharing request.
pub open spec fn spec_conflict_message(wayland_session: bool) -> Seq<char> {
    if wayland_session {
        "Cannot share a wayland context with an X11 context"@
    } else {
        "Cannot share a X11 context with an wayland context"@
    }
}

/// The native handle of the requested sharing target, if any.
pub open spec fn spec_share_target(sharing: Option<&Context>) -> Option<usize> {
    match sharing {
        Some(c) => Some(c.native().handle),
        None => None,
    }
}

impl Context {
    /// The native context of whichever provider produced this instance.
    pub open spec fn native(self) -> NativeContext {
        match self {
            Context::X(c) => c.native(),
            Context::Wayland(c) => c.native,
        }
    }

    /// The resizes forwarded to the provider, in order. An X11-backed context
    /// forwards none: its window system manages sizing itself.
    pub open spec fn resize_log(self) -> Seq<(u32, u32)> {
        match self {
            Context::X(_) => Seq::empty(),
            Context::Wayland(c) => c.resize_calls@,
        }
    }

    /// Whether two states of a context are backed the same way: the same
    /// backend tag and, behind X11, the same native API.
    pub open spec fn same_backing(self, other: Context) -> bool {
        match (self, other) {
            (Context::X(a), Context::X(b)) => a.is_glx() == b.is_glx(),
            (Context::Wayland(_), Context::Wayland(_)) => true,
            _ => false,
        }
    }

    /// Create a windowed context. The display session is queried once; the
    /// provider matching it builds the context. A sharing target created by
    /// the other backend is rejected before any provider is consulted, so no
    /// native resource is allocated on that path; provider errors pass
    /// through unchanged.
    pub fn new(
        window_builder: WindowBuilder,
        events_loop: &EventsLoop,
        pf_reqs: &PixelFormatRequirements,
        gl_attr: &GlAttributes<&Context>,
    ) -> (r: Result<(Window, Context), CreationError>)
        ensures
            // A cross-backend sharing request fails with the platform-specific
            // error naming the conflict, and nothing is constructed.
            share_conflict(events_loop.wayland, gl_attr.sharing) ==> (r matches Err(e)
                && e matches CreationError::PlatformSpecific(m)
                && m@ == spec_conflict_message(events_loop.wayland)),
            // Otherwise a Wayland session delegates to the Wayland provider,
            // handing it the sharing target's native handle.
            !share_conflict(events_loop.wayland, gl_attr.sharing) && events_loop.wayland
                ==> match events_loop.wayland_backend.outcome {
                Ok(config) => (r matches Ok(p) && p.0 == window_builder.spec_window()
                    && (p.1 matches Context::Wayland(c)
                        && c.fresh(config, spec_share_target(gl_attr.sharing)))),
                Err(e) => (r matches Err(x) && x == e),
            },
            // ... and an X11 session delegates to the X11 provider.
            !share_conflict(events_loop.wayland, gl_attr.sharing) && !events_loop.wayland
                ==> match events_loop.x11_backend.backend.outcome {
                Ok(config) => (r matches Ok(p) && p.0 == window_builder.spec_window()
                    && (p.1 matches Context::X(c)
                        && c.fresh(events_loop.x11_backend.kind, config,
                            spec_share_target(gl_attr.sharing)))),
                Err(e) => (r matches Err(x) && x == e),
            },
            // The returned context's tag always matches the detected session.
            r matches Ok(p) ==> ((p.1 is Wayland) <==> events_loop.wayland),
    {
        if events_loop.is_wayland() {
            // Validation produces the re-projected sharing target itself, so
            // a cross-backend target cannot reach the provider at all.
            let sharing: Option<&wayland::Context> = match gl_attr.sharing {
                None => None,
                Some(ctxt) => match ctxt {
                    Context::X(_) => {
                        let msg = "Cannot share a wayland context with an X11 context";
                        return Err(CreationError::PlatformSpecific(msg.to_owned()));
                    },
                    Context::Wayland(ctxt) => Some(ctxt),
                },
            };
            let gl_attr = GlAttributes { sharing, vsync: gl_attr.vsync, debug: gl_attr.debug };
            match wayland::Context::new(window_builder, events_loop, pf_reqs, &gl_attr) {
                Ok((window, context)) => Ok((window, Context::Wayland(context))),
                Err(e) => Err(e),
            }
        } else {
            let sharing: Option<&x11::Context> = match gl_attr.sharing {
                None => None,
                Some(ctxt) => match ctxt {
                    Context::Wayland(_) => {
                        let msg = "Cannot share a X11 context with an wayland context";
                        return Err(CreationError::PlatformSpecific(msg.to_owned()));
                    },
                    Context::X(ctxt) => Some(ctxt),
                },
            };
            let gl_attr = GlAttributes { sharing, vsync: gl_attr.vsync, debug: gl_attr.debug };
            match x11::Context::new(window_builder, events_loop, pf_reqs, &gl_attr) {
                Ok((window, context)) => Ok((window, Context::X(context))),
                Err(e) => Err(e),
            }
        }
    }

    /// Ask the provider to commit a new surface size. On an X11-backed
    /// context this is a no-op — no provider call occurs — since the native
    /// window system manages sizing itself; a Wayland-backed context forwards
    /// width and height unchanged, exactly once.
    pub fn resize(&mut self, width: u32, height: u32)
        ensures
            *old(self) is X ==> *final(self) == *old(self),
            *old(self) is Wayland ==> (final(self).same_backing(*old(self))
                && final(self).native() == old(self).native()
                && final(self).resize_log() == old(self).resize_log().push((width, height))),
    {
        match self {
            Context::X(_ctxt) => (),
            Context::Wayland(ctxt) => ctxt.resize(width, height),
        }
    }

    /// Make this context the calling thread's current one, through the
    /// provider that produced it. The caller must serialize currency changes
    /// for one context across threads; this layer adds no locking.
    pub fn make_current(&mut self) -> (r: Result<(), ContextError>)
        ensures
            final(self).same_backing(*old(self)),
            final(self).resize_log() == old(self).resize_log(),
            make_current_post(old(self).native(), final(self).native(), r),
    {
        match self {
            Context::X(ctxt) => ctxt.make_current(),
            Context::Wayland(ctxt) => ctxt.make_current(),
        }
    }

    /// Whether this context is the calling thread's current one, as the
    /// provider that produced it reports.
    pub fn is_current(&self) -> (r: bool)
        ensures
            r == self.native().current,
    {
        match self {
            Context::X(ctxt) => ctxt.is_current(),
            Context::Wayland(ctxt) => ctxt.is_current(),
        }
    }

    /// The address of the GL symbol `addr` in the provider that produced
    /// this context, or the null address.
    pub fn get_proc_address(&self, addr: &str) -> (r: usize)
        ensures
            r == lookup(self.native().proc_table@, addr@),
    {
        match self {
            Context::X(ctxt) => ctxt.get_proc_address(addr),
            Context::Wayland(ctxt) => ctxt.get_proc_address(addr),
        }
    }

    /// Swap the front and back buffers through the provider that produced
    /// this context.
    pub fn swap_buffers(&mut self) -> (r: Result<(), ContextError>)
        requires
            old(self).native().swap_count < u64::MAX,
        ensures
            final(self).same_backing(*old(self)),
            final(self).resize_log() == old(self).resize_log(),
            swap_buffers_post(old(self).native(), final(self).native(), r),
    {
        match self {
            Context::X(ctxt) => ctxt.swap_buffers(),
            Context::Wayland(ctxt) => ctxt.swap_buffers(),
        }
    }

    /// The API family this context exposes, as the provider that produced it
    /// reports.
    pub fn get_api(&self) -> (r: Api)
        ensures
            r == self.native().api,
    {
        match self {
            Context::X(ctxt) => ctxt.get_api(),
            Context::Wayland(ctxt) => ctxt.get_api(),
        }
    }

    /// The pixel format the producing provider selected.
    pub fn get_pixel_format(&self) -> (r: PixelFormat)
        ensures
            r == self.native().pixel_format,
    {
        match self {
            Context::X(ctxt) => ctxt.get_pixel_format(),
            Context::Wayland(ctxt) => ctxt.get_pixel_format(),
        }
    }

    /// The raw native handle: a Wayland context is always EGL-backed, while
    /// an X11 context unwraps the nested GLX-or-EGL choice its backend made
    /// at construction.
    pub fn raw_handle(&self) -> (r: RawHandle)
        ensures
            match *self {
                Context::X(c) => if c.is_glx() {
                    r matches RawHandle::Glx(h) && h == c.native().handle
                } else {
                    r matches RawHandle::Egl(h) && h == c.native().handle
                },
                Context::Wayland(c) => r matches RawHandle::Egl(h) && h == c.native.handle,
            },
    {
        match self {
            Context::X(ctxt) => match ctxt.raw_handle() {
                GlContext::Glx(n) => RawHandle::Glx(n.raw_handle()),
                GlContext::Egl(n) => RawHandle::Egl(n.raw_handle()),
            },
            Context::Wayland(ctxt) => RawHandle::Egl(ctxt.raw_handle()),
        }
    }
}

/// No two contexts share a GL object namespace across differing tags: any
/// creation that succeeds while a sharing target is supplied yields a context
/// whose backend is the very backend that produced the target.
pub proof fn lemma_sharing_stays_within_backend(
    window_builder: WindowBuilder,
    events_loop: &EventsLoop,
    pf_reqs: &PixelFormatRequirements,
    gl_attr: &GlAttributes<&Context>,
    r: Result<(Window, Context), CreationError>,
)
    requires
        call_ensures(Context::new, (window_builder, events_loop, pf_reqs, gl_attr), r),
        r is Ok,
        gl_attr.sharing is Some,
    ensures
        (r->Ok_0.1 is Wayland) == (*gl_attr.sharing->Some_0 is Wayland),
{
}

/// Platform attributes for headless creation: how the hardware EGL backend
/// would answer a creation call here.
pub struct PlatformSpecificHeadlessBuilderAttributes {
    pub egl: BackendSpec,
}

impl Default for PlatformSpecificHeadlessBuilderAttributes {
    /// By default no hardware EGL display is assumed reachable, so creation
    /// against the default attributes reports the backend as unsupported.
    fn default() -> (r: Self)
        ensures
            r.egl.outcome matches Err(e) && e is NotSupported,
    {
        PlatformSpecificHeadlessBuilderAttributes {
            egl: BackendSpec { outcome: Err(CreationError::NotSupported) },
        }
    }
}

/// A headless rendering context: exactly one of the two headless-capable
/// backends, fixed at construction, with no display-session dependency.
pub enum HeadlessContext {
    OsMesa(osmesa::OsMesaContext),
    Egl(egl::Context),
}

impl HeadlessContext {
    /// The native context of whichever provider produced this instance.
    pub open spec fn native(self) -> NativeContext {
        match self {
            HeadlessContext::OsMesa(c) => c.native,
            HeadlessContext::Egl(c) => c.native,
        }
    }

    /// Whether two states of a headless context are backed the same way: the
    /// same backend tag and, behind EGL, the same pixel buffer.
    pub open spec fn same_backing(self, other: HeadlessContext) -> bool {
        match (self, other) {
            (HeadlessContext::OsMesa(_), HeadlessContext::OsMesa(_)) => true,
            (HeadlessContext::Egl(a), HeadlessContext::Egl(b)) => a.pbuffer_dimensions
                == b.pbuffer_dimensions,
            _ => false,
        }
    }

    /// Create a headless context against the hardware EGL backend, finalized
    /// into a pixel buffer of the requested dimensions. Headless contexts
    /// never share with a caller-supplied context: whatever sharing `opengl`
    /// carries, the provider is handed none. An unavailable backend is a
    /// construction failure, not a silent fallback to the software provider.
    pub fn new(
        dimensions: (u32, u32),
        pf_reqs: &PixelFormatRequirements,
        opengl: &GlAttributes<&HeadlessContext>,
        platform_attrs: &PlatformSpecificHeadlessBuilderAttributes,
    ) -> (r: Result<HeadlessContext, CreationError>)
        ensures
            match platform_attrs.egl.outcome {
                Ok(config) => (r matches Ok(h) && h matches HeadlessContext::Egl(c)
                    && c.fresh(config, None, dimensions)),
                Err(e) => (r matches Err(x) && x == e),
            },
            // Whatever sharing the caller asked for, none reaches the provider.
            r matches Ok(h) ==> h.native().shared_with is None,
    {
        // Re-derive a no-sharing attribute set before delegating: the
        // caller-supplied sharing target is dropped on every path.
        let cleared: GlAttributes<&egl::Context> = GlAttributes {
            sharing: None,
            vsync: opengl.vsync,
            debug: opengl.debug,
        };
        match egl::Context::new_pbuffer(&platform_attrs.egl, pf_reqs, &cleared, dimensions) {
            Ok(context) => Ok(HeadlessContext::Egl(context)),
            Err(e) => Err(e),
        }
    }

    /// Make this context the calling thread's current one.
    pub fn make_current(&mut self) -> (r: Result<(), ContextError>)
        ensures
            final(self).same_backing(*old(self)),
            make_current_post(old(self).native(), final(self).native(), r),
    {
        match self {
            HeadlessContext::OsMesa(mesa) => mesa.make_current(),
            HeadlessContext::Egl(egl) => egl.make_current(),
        }
    }

    /// Whether this context is the calling thread's current one.
    pub fn is_current(&self) -> (r: bool)
        ensures
            r == self.native().current,
    {
        match self {
            HeadlessContext::OsMesa(mesa) => mesa.is_current(),
            HeadlessContext::Egl(egl) => egl.is_current(),
        }
    }

    /// The address of the GL symbol `addr`, or the null address.
    pub fn get_proc_address(&self, addr: &str) -> (r: usize)
        ensures
            r == lookup(self.native().proc_table@, addr@),
    {
        match self {
            HeadlessContext::OsMesa(mesa) => mesa.get_proc_address(addr),
            HeadlessContext::Egl(egl) => egl.get_proc_address(addr),
        }
    }

    /// Swap the front and back buffers.
    pub fn swap_buffers(&mut self) -> (r: Result<(), ContextError>)
        requires
            old(self).native().swap_count < u64::MAX,
        ensures
            final(self).same_backing(*old(self)),
            swap_buffers_post(old(self).native(), final(self).native(), r),
    {
        match self {
            HeadlessContext::OsMesa(mesa) => mesa.swap_buffers(),
            HeadlessContext::Egl(egl) => egl.swap_buffers(),
        }
    }

    /// The API family this context exposes.
    pub fn get_api(&self) -> (r: Api)
        ensures
            r == self.native().api,
    {
        match self {
            HeadlessContext::OsMesa(mesa) => mesa.get_api(),
            HeadlessContext::Egl(egl) => egl.get_api(),
        }
    }

    /// The pixel format the producing provider selected.
    pub fn get_pixel_format(&self) -> (r: PixelFormat)
        ensures
            r == self.native().pixel_format,
    {
        match self {
            HeadlessContext::OsMesa(mesa) => mesa.get_pixel_format(),
            HeadlessContext::Egl(egl) => egl.get_pixel_format(),
        }
    }

    /// The raw native handle of this context.
    pub fn raw_handle(&self) -> (r: usize)
        ensures
            r == self.native().handle,
    {
        match self {
            HeadlessContext::OsMesa(mesa) => mesa.raw_handle(),
            HeadlessContext::Egl(egl) => egl.raw_handle(),
        }
    }
}

} // verus!
