use vstd::prelude::*;
use crate::cache::{Connection, Outcome, connects_in, settle, settle_all};
use crate::display::{Display, display_from, handle_of};
use crate::platform::{Platform, RawHandle};
use crate::Error;

verus! {

/// Once the slot is filled, no run of requests changes it or connects again.
pub proof fn lemma_filled_slot_is_final(o: Outcome, attempts: Seq<Outcome>)
    ensures
        settle_all(Some(o), attempts) == Some(o),
        connects_in(Some(o), attempts) == 0,
    decreases attempts.len(),
{
    if attempts.len() > 0 {
        lemma_filled_slot_is_final(o, attempts.drop_first());
    }
}

/// From an empty cache, any run of one or more requests, whatever each would
/// bring if it connected, makes exactly one connection attempt, and after each
/// request the slot holds what that first attempt brought, success or failure.
pub proof fn lemma_one_attempt(attempts: Seq<Outcome>)
    requires
        attempts.len() > 0,
    ensures
        connects_in(None, attempts) == 1,
        settle_all(None, attempts) == Some(attempts[0]),
        forall|i: int|
            0 <= i < attempts.len() ==> #[trigger] settle_all(None, attempts.take(i + 1)) == Some(
                attempts[0],
            ),
{
    lemma_filled_slot_is_final(attempts[0], attempts.drop_first());
    assert forall|i: int| 0 <= i < attempts.len() implies #[trigger] settle_all(
        None,
        attempts.take(i + 1),
    ) == Some(attempts[0]) by {
        let t = attempts.take(i + 1);
        assert(t[0] == attempts[0]);
        lemma_filled_slot_is_final(attempts[0], t.drop_first());
    }
}

/// After a failed first attempt, later requests make no attempt and keep the
/// same failure.
pub proof fn lemma_no_retry_after_failure(e: Error, attempts: Seq<Outcome>)
    ensures
        connects_in(Some(Err(e)), attempts) == 0,
        settle_all(Some(Err(e)), attempts) == Some(Err::<Connection, Error>(e)),
{
    lemma_filled_slot_is_final(Err(e), attempts);
}

/// Displays made for the same platform from the same successful cache entry
/// are all displays, and yield the same handle, which carries the
/// connection's native reference and screen.
pub proof fn lemma_idempotent_success(
    platform: Platform,
    c: Connection,
    r1: Result<Display, Error>,
    r2: Result<Display, Error>,
)
    requires
        platform.needs_connection(),
        display_from(r1, platform, Ok(c)),
        display_from(r2, platform, Ok(c)),
    ensures
        r1 is Ok && r2 is Ok,
        r1.unwrap().handle() == r2.unwrap().handle(),
        r1.unwrap().handle() == (RawHandle::Xcb { connection: c.native, screen: c.screen }),
{
}

/// Requests answered from the same failed cache entry all fail with that
/// same error.
pub proof fn lemma_idempotent_failure(
    platform: Platform,
    e: Error,
    r1: Result<Display, Error>,
    r2: Result<Display, Error>,
)
    requires
        platform.needs_connection(),
        display_from(r1, platform, Err(e)),
        display_from(r2, platform, Err(e)),
    ensures
        r1 == Err::<Display, Error>(e),
        r2 == Err::<Display, Error>(e),
{
}

/// A connection-requiring display over a connection yields that connection's
/// native reference and screen in its handle.
pub proof fn lemma_handle_fields(c: Connection)
    ensures
        handle_of(Platform::Xcb, Some(c)) == (RawHandle::Xcb { connection: c.native, screen: c.screen }),
{
}

/// On a platform that needs no connection, a display holds nothing and its
/// handle is an empty marker of the platform's own variant.
pub proof fn lemma_empty_marker(d: Display)
    requires
        d.wf(),
        !d.platform().needs_connection(),
    ensures
        d.global() is None,
        d.handle().is_empty_marker(),
        d.handle() == crate::platform::empty_handle(d.platform()),
{
}

} // verus!
