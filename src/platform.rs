use vstd::prelude::*;

verus! {

/// The platform families a build can target. Exactly one is active in a build.
#[derive(Clone, Copy, Debug, PartialEq, Eq, Structural)]
pub enum Platform {
    /// Unix with an X11 server, reached over XCB: needs a live connection.
    Xcb,
    /// macOS.
    AppKit,
    /// iOS and the other Apple mobile systems.
    UiKit,
    /// Redox.
    Orbital,
    Android,
    /// WebAssembly in a browser.
    Web,
    Haiku,
    Windows,
}

impl Platform {
    /// Whether a handle on this platform needs the shared connection.
    pub open spec fn needs_connection(self) -> bool {
        self is Xcb
    }

    /// Whether a handle on this platform needs the shared connection.
    pub fn requires_connection(&self) -> (r: bool)
        ensures
            r == self.needs_connection(),
    {
        match self {
            Platform::Xcb => true,
            _ => false,
        }
    }
}

/// The handle handed to windowing libraries, one variant per platform family.
/// Only the XCB variant carries data: the connection's native reference and
/// the screen number.
#[derive(Clone, Copy, Debug, PartialEq, Eq, Structural)]
pub enum RawHandle {
    Xcb { connection: usize, screen: usize },
    AppKit,
    UiKit,
    Orbital,
    Android,
    Web,
    Haiku,
    Windows,
}

/// The handle of a platform that needs no connection: an empty marker.
pub open spec fn empty_handle(p: Platform) -> RawHandle {
    match p {
        Platform::Xcb => RawHandle::Xcb { connection: 0, screen: 0 },
        Platform::AppKit => RawHandle::AppKit,
        Platform::UiKit => RawHandle::UiKit,
        Platform::Orbital => RawHandle::Orbital,
        Platform::Android => RawHandle::Android,
        Platform::Web => RawHandle::Web,
        Platform::Haiku => RawHandle::Haiku,
        Platform::Windows => RawHandle::Windows,
    }
}

impl RawHandle {
    /// Whether the handle carries no data.
    pub open spec fn is_empty_marker(self) -> bool {
        !(self is Xcb)
    }
}

} // verus!
