use vstd::prelude::*;
use crate::cache::{Connection, ConnectionCache, Error, Outcome, settle};
use crate::platform::{Platform, RawHandle, empty_handle};

verus! {

/// Permission to form display handles. On the XCB family it holds what the
/// shared connection reported; elsewhere it holds nothing.
#[derive(Debug)]
pub struct Display {
    platform: Platform,
    global_display: Option<Connection>,
}

/// The handle that a display of `platform`, holding `global`, yields.
pub open spec fn handle_of(platform: Platform, global: Option<Connection>) -> RawHandle {
    match (platform, global) {
        (Platform::Xcb, Some(c)) => RawHandle::Xcb { connection: c.native, screen: c.screen },
        _ => empty_handle(platform),
    }
}

/// What `Display::new` returns on a platform that needs the connection, once
/// the cache holds `o`: a display over the connection, or the same failure.
pub open spec fn display_from(d: Result<Display, Error>, platform: Platform, o: Outcome) -> bool {
    match (d, o) {
        (Ok(d), Ok(c)) => d.platform() == platform && d.global() == Some(c),
        (Err(e), Err(f)) => e == f,
        _ => false,
    }
}

impl Display {
    pub closed spec fn platform(&self) -> Platform {
        self.platform
    }

    /// The connection data held, if any.
    pub closed spec fn global(&self) -> Option<Connection> {
        self.global_display
    }

    /// A display holds connection data exactly where its platform needs it.
    pub open spec fn wf(&self) -> bool {
        self.platform().needs_connection() <==> self.global() is Some
    }

    /// The handle this display yields.
    pub open spec fn handle(&self) -> RawHandle {
        handle_of(self.platform(), self.global())
    }

    /// A display for `platform`. Where the platform needs the shared
    /// connection, the cache is asked for it (connecting through `connect`
    /// on the first request only) and its failure is returned as the error;
    /// elsewhere the cache is not touched and the call always succeeds.
    pub fn new<F: FnOnce() -> Outcome>(
        platform: Platform,
        cache: &mut ConnectionCache,
        connect: F,
    ) -> (r: Result<Display, Error>)
        requires
            old(cache).wf(),
            platform.needs_connection() && old(cache).outcome() is None ==> connect.requires(()),
        ensures
            final(cache).wf(),
            !platform.needs_connection() ==> {
                &&& *final(cache) == *old(cache)
                &&& (r matches Ok(d) && d.platform() == platform && d.global() is None)
            },
            platform.needs_connection() ==> {
                &&& (final(cache).outcome() matches Some(o) && display_from(r, platform, o))
                &&& old(cache).outcome() matches Some(o) ==> *final(cache) == *old(cache)
                &&& old(cache).outcome() is None ==> connect.ensures((), final(cache).outcome().unwrap())
                &&& final(cache).outcome() == settle(old(cache).outcome(), final(cache).outcome().unwrap())
                &&& final(cache).attempt_count() == 1
            },
            (r matches Ok(d) ==> d.wf()),
    {
        if platform.requires_connection() {
            match cache.get_or_init(connect) {
                Ok(c) => Ok(Display { platform, global_display: Some(c) }),
                Err(e) => Err(e),
            }
        } else {
            Ok(Display { platform, global_display: None })
        }
    }

    /// The platform family this display was made for.
    pub fn platform_family(&self) -> (r: Platform)
        ensures
            r == self.platform(),
    {
        self.platform
    }

    /// The handle for windowing libraries: the connection's native reference
    /// and screen on the XCB family, an empty marker elsewhere. No I/O.
    pub fn raw_handle(&self) -> (r: RawHandle)
        requires
            self.wf(),
        ensures
            r == self.handle(),
    {
        match self.platform {
            Platform::Xcb => match self.global_display {
                Some(c) => RawHandle::Xcb { connection: c.native, screen: c.screen },
                None => RawHandle::Xcb { connection: 0, screen: 0 },
            },
            Platform::AppKit => RawHandle::AppKit,
            Platform::UiKit => RawHandle::UiKit,
            Platform::Orbital => RawHandle::Orbital,
            Platform::Android => RawHandle::Android,
            Platform::Web => RawHandle::Web,
            Platform::Haiku => RawHandle::Haiku,
            Platform::Windows => RawHandle::Windows,
        }
    }
}

} // verus!
