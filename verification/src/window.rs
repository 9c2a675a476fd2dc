//! The windowing collaborator, seen through the narrow interface this layer
//! consumes: a descriptor for the window to create, the created window, and
//! an event source that answers one question — is the running display
//! session Wayland-based? — and knows how each windowed backend would answer
//! a creation call here.

use vstd::prelude::*;

use crate::backend::BackendSpec;
use crate::x11::X11BackendSpec;

verus! {

/// What the caller asks of the window to create. Passed to the chosen
/// provider unchanged; this layer never interprets it.
pub struct WindowBuilder {
    pub width: u32,
    pub height: u32,
    pub title: String,
}

impl WindowBuilder {
    /// The window this descriptor builds.
    pub open spec fn spec_window(self) -> Window {
        Window { width: self.width, height: self.height, title: self.title }
    }

    /// Build the described window against the display session.
    pub fn build(self) -> (r: Window)
        ensures
            r == self.spec_window(),
    {
        Window { width: self.width, height: self.height, title: self.title }
    }
}

/// A window of the display session, handed back beside a windowed context.
pub struct Window {
    pub width: u32,
    pub height: u32,
    pub title: String,
}

/// The event source of the windowing collaborator. It reports which display
/// session is running and carries, for each windowed backend, how a creation
/// call against this session would come out.
pub struct EventsLoop {
    /// Whether the running display session is Wayland-based; otherwise it is
    /// X11-based.
    pub wayland: bool,
    /// How the Wayland backend answers a creation call here.
    pub wayland_backend: BackendSpec,
    /// How the X11 backend answers a creation call here, and which native
    /// API backs it.
    pub x11_backend: X11BackendSpec,
}

impl EventsLoop {
    /// Whether the running display session is Wayland-based.
    pub fn is_wayland(&self) -> (r: bool)
        ensures
            r == self.wayland,
    {
        self.wayland
    }
}

} // verus!
