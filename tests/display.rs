use std::cell::Cell;

use display_handle::{Connection, ConnectionCache, Display, Error, Outcome, Platform, RawHandle};

fn xcb(native: usize, screen: usize) -> Outcome {
    Ok(Connection { native, screen })
}

#[test]
fn success_is_cached_and_connects_once() {
    let mut cache = ConnectionCache::new();
    let count = Cell::new(0u32);
    let connect = || {
        count.set(count.get() + 1);
        xcb(0x1234, 0)
    };
    let d1 = Display::new(Platform::Xcb, &mut cache, connect).unwrap();
    assert_eq!(d1.raw_handle(), RawHandle::Xcb { connection: 0x1234, screen: 0 });
    let d2 = Display::new(Platform::Xcb, &mut cache, || {
        count.set(count.get() + 1);
        xcb(0x9999, 3)
    })
    .unwrap();
    assert_eq!(d2.raw_handle(), RawHandle::Xcb { connection: 0x1234, screen: 0 });
    assert_eq!(count.get(), 1);
    assert_eq!(cache.attempts(), 1);
}

#[test]
fn failure_is_cached_and_never_retried() {
    let mut cache = ConnectionCache::new();
    let count = Cell::new(0u32);
    let fail = || {
        count.set(count.get() + 1);
        Err(Error::new(String::from("cannot open default display")))
    };
    let e1 = Display::new(Platform::Xcb, &mut cache, fail).unwrap_err();
    assert_eq!(e1.message(), "cannot open default display");
    let e2 = Display::new(Platform::Xcb, &mut cache, || {
        count.set(count.get() + 1);
        xcb(0x1234, 0)
    })
    .unwrap_err();
    assert_eq!(e2.message(), "cannot open default display");
    assert_eq!(count.get(), 1);
    assert_eq!(cache.attempts(), 1);
}

#[test]
fn many_requests_make_one_attempt() {
    let mut cache = ConnectionCache::new();
    let count = Cell::new(0u32);
    let mut handles = Vec::new();
    for i in 0..8usize {
        let d = Display::new(Platform::Xcb, &mut cache, || {
            count.set(count.get() + 1);
            xcb(0x1000 + i, i)
        })
        .unwrap();
        handles.push(d.raw_handle());
    }
    assert_eq!(count.get(), 1);
    for h in &handles {
        assert_eq!(*h, RawHandle::Xcb { connection: 0x1000, screen: 0 });
    }
}

#[test]
fn handle_carries_connection_fields() {
    let mut cache = ConnectionCache::new();
    let d = Display::new(Platform::Xcb, &mut cache, || xcb(0xdead_beef, 2)).unwrap();
    assert_eq!(d.raw_handle(), RawHandle::Xcb { connection: 0xdead_beef, screen: 2 });
    assert_eq!(d.platform_family(), Platform::Xcb);
}

#[test]
fn other_platforms_never_touch_the_cache() {
    let cases = [
        (Platform::AppKit, RawHandle::AppKit),
        (Platform::UiKit, RawHandle::UiKit),
        (Platform::Orbital, RawHandle::Orbital),
        (Platform::Android, RawHandle::Android),
        (Platform::Web, RawHandle::Web),
        (Platform::Haiku, RawHandle::Haiku),
        (Platform::Windows, RawHandle::Windows),
    ];
    for (platform, expected) in cases {
        let mut cache = ConnectionCache::new();
        let count = Cell::new(0u32);
        let d = Display::new(platform, &mut cache, || {
            count.set(count.get() + 1);
            Err(Error::new(String::from("must not connect")))
        })
        .unwrap();
        assert_eq!(d.raw_handle(), expected);
        assert_eq!(count.get(), 0);
        assert_eq!(cache.attempts(), 0);
        assert!(cache.get().is_none());
        assert!(!platform.requires_connection());
    }
}

#[test]
fn other_platform_succeeds_even_after_a_failure() {
    let mut cache = ConnectionCache::new();
    assert!(Display::new(Platform::Xcb, &mut cache, || Err(Error::new(String::from("no server")))).is_err());
    let d = Display::new(Platform::Windows, &mut cache, || xcb(1, 1)).unwrap();
    assert_eq!(d.raw_handle(), RawHandle::Windows);
    assert_eq!(cache.attempts(), 1);
}

#[test]
fn cache_get_or_init_stores_first_outcome() {
    let mut cache = ConnectionCache::new();
    assert!(cache.get().is_none());
    assert_eq!(cache.attempts(), 0);
    let first = cache.get_or_init(|| xcb(7, 1));
    assert_eq!(first.unwrap(), Connection { native: 7, screen: 1 });
    let second = cache.get_or_init(|| xcb(8, 2));
    assert_eq!(second.unwrap(), Connection { native: 7, screen: 1 });
    assert_eq!(cache.get().unwrap().as_ref().unwrap(), &Connection { native: 7, screen: 1 });
    assert_eq!(cache.attempts(), 1);
}

#[test]
fn only_xcb_requires_a_connection() {
    assert!(Platform::Xcb.requires_connection());
    assert!(!Platform::Windows.requires_connection());
    assert!(!Platform::AppKit.requires_connection());
}

#[test]
fn error_keeps_its_message() {
    let e = Error::new(String::from("cannot open default display"));
    assert_eq!(e.message(), "cannot open default display");
    assert_eq!(e.duplicate().message(), "cannot open default display");
}
