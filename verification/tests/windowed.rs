//! Windowed dispatch: session detection, cross-backend sharing rejection,
//! and forwarding of every operation to the provider that owns the context.

use gl_dispatch::backend::{BackendSpec, NativeConfig};
use gl_dispatch::types::{Api, ContextError, CreationError, GlAttributes, PixelFormat,
    PixelFormatRequirements};
use gl_dispatch::window::{EventsLoop, WindowBuilder};
use gl_dispatch::x11::{GlContext, GlKind, X11BackendSpec};
use gl_dispatch::{Context, RawHandle};

fn pixel_format() -> PixelFormat {
    PixelFormat {
        hardware_accelerated: true,
        color_bits: 24,
        alpha_bits: 8,
        depth_bits: 24,
        stencil_bits: 8,
        double_buffer: true,
        multisampling: None,
        srgb: false,
    }
}

fn requirements() -> PixelFormatRequirements {
    PixelFormatRequirements {
        hardware_accelerated: None,
        color_bits: Some(24),
        alpha_bits: None,
        depth_bits: None,
        stencil_bits: None,
        double_buffer: None,
        multisampling: None,
        srgb: false,
    }
}

fn config(api: Api, handle: usize) -> NativeConfig {
    NativeConfig {
        api,
        pixel_format: pixel_format(),
        handle,
        proc_table: vec![
            ("glClear".to_string(), 0x1000),
            ("glDrawArrays".to_string(), 0x2000),
        ],
        op_error: None,
    }
}

fn wayland_session(handle: usize) -> EventsLoop {
    EventsLoop {
        wayland: true,
        wayland_backend: BackendSpec { outcome: Ok(config(Api::OpenGlEs, handle)) },
        x11_backend: X11BackendSpec {
            backend: BackendSpec { outcome: Err(CreationError::NotSupported) },
            kind: GlKind::Glx,
        },
    }
}

fn x11_session(kind: GlKind, handle: usize) -> EventsLoop {
    EventsLoop {
        wayland: false,
        wayland_backend: BackendSpec { outcome: Err(CreationError::NotSupported) },
        x11_backend: X11BackendSpec {
            backend: BackendSpec { outcome: Ok(config(Api::OpenGl, handle)) },
            kind,
        },
    }
}

fn builder() -> WindowBuilder {
    WindowBuilder { width: 800, height: 600, title: "demo".to_string() }
}

fn no_sharing<'a>() -> GlAttributes<&'a Context> {
    GlAttributes { sharing: None, vsync: true, debug: false }
}

fn make(session: &EventsLoop) -> Context {
    let (_, ctx) = Context::new(builder(), session, &requirements(), &no_sharing()).unwrap();
    ctx
}

#[test]
fn wayland_session_yields_wayland_context() {
    let session = wayland_session(7);
    let (window, ctx) = Context::new(builder(), &session, &requirements(), &no_sharing()).unwrap();
    assert_eq!(window.width, 800);
    assert_eq!(window.height, 600);
    assert_eq!(window.title, "demo");
    assert!(matches!(ctx, Context::Wayland(_)));
    assert_eq!(ctx.get_api(), Api::OpenGlEs);
}

#[test]
fn x11_session_yields_x11_context() {
    let session = x11_session(GlKind::Glx, 9);
    let (_, ctx) = Context::new(builder(), &session, &requirements(), &no_sharing()).unwrap();
    assert!(matches!(ctx, Context::X(_)));
}

#[test]
fn wayland_session_rejects_x11_share() {
    let x_ctx = make(&x11_session(GlKind::Glx, 3));
    let session = wayland_session(4);
    let attrs = GlAttributes { sharing: Some(&x_ctx), vsync: false, debug: false };
    let r = Context::new(builder(), &session, &requirements(), &attrs);
    match r {
        Err(CreationError::PlatformSpecific(msg)) => {
            assert_eq!(msg, "Cannot share a wayland context with an X11 context");
        }
        other => panic!("expected a platform-specific rejection, got {:?}", other.is_ok()),
    }
}

#[test]
fn x11_session_rejects_wayland_share() {
    let wl_ctx = make(&wayland_session(3));
    let session = x11_session(GlKind::Egl, 4);
    let attrs = GlAttributes { sharing: Some(&wl_ctx), vsync: false, debug: false };
    let r = Context::new(builder(), &session, &requirements(), &attrs);
    match r {
        Err(CreationError::PlatformSpecific(msg)) => {
            assert_eq!(msg, "Cannot share a X11 context with an wayland context");
            assert!(msg.contains("wayland"));
        }
        other => panic!("expected a platform-specific rejection, got {:?}", other.is_ok()),
    }
}

#[test]
fn same_backend_share_records_target_handle() {
    let wl_first = make(&wayland_session(21));
    let session = wayland_session(22);
    let attrs = GlAttributes { sharing: Some(&wl_first), vsync: false, debug: false };
    let (_, ctx) = Context::new(builder(), &session, &requirements(), &attrs).unwrap();
    match ctx {
        Context::Wayland(c) => assert_eq!(c.native.shared_with, Some(21)),
        Context::X(_) => panic!("wrong backend"),
    }
}

#[test]
fn x11_share_records_target_handle() {
    let first = make(&x11_session(GlKind::Glx, 31));
    let session = x11_session(GlKind::Glx, 32);
    let attrs = GlAttributes { sharing: Some(&first), vsync: false, debug: false };
    let (_, ctx) = Context::new(builder(), &session, &requirements(), &attrs).unwrap();
    match ctx {
        Context::X(c) => match c.inner {
            GlContext::Glx(n) => assert_eq!(n.shared_with, Some(31)),
            GlContext::Egl(_) => panic!("wrong native API"),
        },
        Context::Wayland(_) => panic!("wrong backend"),
    }
}

#[test]
fn provider_creation_error_passes_through() {
    let session = EventsLoop {
        wayland: true,
        wayland_backend: BackendSpec {
            outcome: Err(CreationError::OsError("no compositor".to_string())),
        },
        x11_backend: X11BackendSpec {
            backend: BackendSpec { outcome: Err(CreationError::NotSupported) },
            kind: GlKind::Glx,
        },
    };
    let r = Context::new(builder(), &session, &requirements(), &no_sharing());
    assert_eq!(r.err().unwrap(), CreationError::OsError("no compositor".to_string()));
}

#[test]
fn resize_on_x11_is_a_no_op() {
    let mut ctx = make(&x11_session(GlKind::Glx, 5));
    ctx.resize(1024, 768);
    ctx.resize(1, 1);
    match ctx {
        Context::X(c) => match c.inner {
            GlContext::Glx(n) => {
                assert_eq!(n.handle, 5);
                assert!(!n.current);
                assert_eq!(n.swap_count, 0);
            }
            GlContext::Egl(_) => panic!("wrong native API"),
        },
        Context::Wayland(_) => panic!("wrong backend"),
    }
}

#[test]
fn resize_on_wayland_forwards_once_unchanged() {
    let mut ctx = make(&wayland_session(6));
    ctx.resize(1024, 768);
    match &ctx {
        Context::Wayland(c) => assert_eq!(c.resize_calls, vec![(1024, 768)]),
        Context::X(_) => panic!("wrong backend"),
    }
    ctx.resize(320, 240);
    match &ctx {
        Context::Wayland(c) => assert_eq!(c.resize_calls, vec![(1024, 768), (320, 240)]),
        Context::X(_) => panic!("wrong backend"),
    }
}

#[test]
fn make_current_and_is_current_forward() {
    let mut ctx = make(&wayland_session(6));
    assert!(!ctx.is_current());
    assert_eq!(ctx.make_current(), Ok(()));
    assert!(ctx.is_current());
}

#[test]
fn make_current_reports_a_lost_context() {
    let mut cfg = config(Api::OpenGl, 8);
    cfg.op_error = Some(ContextError::ContextLost);
    let session = EventsLoop {
        wayland: false,
        wayland_backend: BackendSpec { outcome: Err(CreationError::NotSupported) },
        x11_backend: X11BackendSpec { backend: BackendSpec { outcome: Ok(cfg) }, kind: GlKind::Egl },
    };
    let mut ctx = make(&session);
    assert_eq!(ctx.make_current(), Err(ContextError::ContextLost));
    assert!(!ctx.is_current());
    assert_eq!(ctx.swap_buffers(), Err(ContextError::ContextLost));
}

#[test]
fn provider_operation_errors_pass_through_unreinterpreted() {
    let mut cfg = config(Api::OpenGlEs, 8);
    cfg.op_error = Some(ContextError::IoError("pipe closed".to_string()));
    let session = EventsLoop {
        wayland: true,
        wayland_backend: BackendSpec { outcome: Ok(cfg) },
        x11_backend: X11BackendSpec {
            backend: BackendSpec { outcome: Err(CreationError::NotSupported) },
            kind: GlKind::Glx,
        },
    };
    let mut ctx = make(&session);
    assert_eq!(ctx.make_current(), Err(ContextError::IoError("pipe closed".to_string())));
    assert_eq!(ctx.swap_buffers(), Err(ContextError::IoError("pipe closed".to_string())));

    let mut cfg2 = config(Api::OpenGl, 9);
    cfg2.op_error = Some(ContextError::OsError("GLX context error".to_string()));
    let session2 = x11_session(GlKind::Glx, 9);
    let session2 = EventsLoop {
        x11_backend: X11BackendSpec {
            backend: BackendSpec { outcome: Ok(cfg2) },
            kind: GlKind::Glx,
        },
        ..session2
    };
    let mut ctx2 = make(&session2);
    assert_eq!(ctx2.make_current(), Err(ContextError::OsError("GLX context error".to_string())));
}

#[test]
fn no_available_pixel_format_passes_through() {
    let session = EventsLoop {
        wayland: false,
        wayland_backend: BackendSpec { outcome: Err(CreationError::NotSupported) },
        x11_backend: X11BackendSpec {
            backend: BackendSpec { outcome: Err(CreationError::NoAvailablePixelFormat) },
            kind: GlKind::Glx,
        },
    };
    let r = Context::new(builder(), &session, &requirements(), &no_sharing());
    assert_eq!(r.err().unwrap(), CreationError::NoAvailablePixelFormat);
}

#[test]
fn swap_buffers_swaps_exactly_once() {
    let mut ctx = make(&x11_session(GlKind::Glx, 5));
    assert_eq!(ctx.swap_buffers(), Ok(()));
    assert_eq!(ctx.swap_buffers(), Ok(()));
    match ctx {
        Context::X(c) => match c.inner {
            GlContext::Glx(n) => assert_eq!(n.swap_count, 2),
            GlContext::Egl(_) => panic!("wrong native API"),
        },
        Context::Wayland(_) => panic!("wrong backend"),
    }
}

#[test]
fn get_api_reports_the_providers_api() {
    let wl = make(&wayland_session(6));
    assert_eq!(wl.get_api(), Api::OpenGlEs);
    let x = make(&x11_session(GlKind::Glx, 6));
    assert_eq!(x.get_api(), Api::OpenGl);
}

#[test]
fn get_pixel_format_reports_the_providers_choice() {
    let ctx = make(&wayland_session(6));
    assert_eq!(ctx.get_pixel_format(), pixel_format());
}

#[test]
fn get_proc_address_resolves_through_the_provider() {
    let ctx = make(&wayland_session(6));
    assert_eq!(ctx.get_proc_address("glClear"), 0x1000);
    assert_eq!(ctx.get_proc_address("glDrawArrays"), 0x2000);
    assert_eq!(ctx.get_proc_address("glBogus"), 0);
    assert_eq!(ctx.get_proc_address(""), 0);
}

#[test]
fn raw_handle_unwraps_the_nested_x11_choice() {
    let glx = make(&x11_session(GlKind::Glx, 41));
    assert!(matches!(glx.raw_handle(), RawHandle::Glx(41)));
    let egl = make(&x11_session(GlKind::Egl, 42));
    assert!(matches!(egl.raw_handle(), RawHandle::Egl(42)));
    let wl = make(&wayland_session(43));
    assert!(matches!(wl.raw_handle(), RawHandle::Egl(43)));
}
