//! A display handle for processes that need one without opening a window.
//!
//! Platforms of the X11 family need a live connection to form a handle; that
//! connection is made at most once, kept in a single-slot cache, and shared by
//! every `Display` afterwards. Other platforms need no connection at all.
pub mod cache;
pub mod display;
pub mod laws;
pub mod platform;

pub use cache::{Connection, ConnectionCache, Error, Outcome};
pub use display::Display;
pub use platform::{Platform, RawHandle};
