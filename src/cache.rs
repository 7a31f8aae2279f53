use vstd::prelude::*;

verus! {

/// What a successful connection leaves behind: the native reference of the
/// connection (its address) and the default screen it reported.
#[derive(Clone, Copy, Debug, PartialEq, Eq, Structural)]
pub struct Connection {
    pub native: usize,
    pub screen: usize,
}

/// The failure to establish the shared connection, as a message.
#[derive(Debug)]
pub struct Error {
    message: String,
}

impl Error {
    /// The text of the message.
    pub closed spec fn text(&self) -> Seq<char> {
        self.message@
    }

    /// Wraps the description of a connection failure.
    pub fn new(message: String) -> (r: Error)
        ensures
            r.text() == message@,
    {
        Error { message }
    }

    /// The human-readable description of the failure.
    pub fn message(&self) -> (r: String)
        ensures
            r@ == self.text(),
    {
        self.message.clone()
    }

    pub fn duplicate(&self) -> (r: Error)
        ensures
            r == *self,
    {
        Error { message: self.message.clone() }
    }
}

/// The result of the one connection attempt.
pub type Outcome = Result<Connection, Error>;

/// A copy of an outcome; equal to it.
pub fn copy_outcome(o: &Outcome) -> (r: Outcome)
    ensures
        r == *o,
{
    match o {
        Ok(c) => Ok(*c),
        Err(e) => Err(e.duplicate()),
    }
}

/// The cache slot after one more request that brings `attempt` should the
/// slot still be empty: a filled slot never changes.
pub open spec fn settle(slot: Option<Outcome>, attempt: Outcome) -> Option<Outcome> {
    match slot {
        Some(o) => Some(o),
        None => Some(attempt),
    }
}

/// The slot after a run of requests, the i-th of which would bring
/// `attempts[i]` if it had to connect.
pub open spec fn settle_all(slot: Option<Outcome>, attempts: Seq<Outcome>) -> Option<Outcome>
    decreases attempts.len(),
{
    if attempts.len() == 0 {
        slot
    } else {
        settle_all(settle(slot, attempts[0]), attempts.drop_first())
    }
}

/// How many of those requests connect.
pub open spec fn connects_in(slot: Option<Outcome>, attempts: Seq<Outcome>) -> nat
    decreases attempts.len(),
{
    if attempts.len() == 0 {
        0
    } else {
        (if slot is None { 1nat } else { 0nat }) + connects_in(
            settle(slot, attempts[0]),
            attempts.drop_first(),
        )
    }
}

/// A single slot that holds the outcome of the one connection attempt made in
/// its lifetime, success or failure, together with the number of attempts.
pub struct ConnectionCache {
    slot: Option<Outcome>,
    attempts: u64,
}

impl ConnectionCache {
    /// What the slot holds: nothing before the first request.
    pub closed spec fn outcome(&self) -> Option<Outcome> {
        self.slot
    }

    /// How many times a connection was attempted.
    pub closed spec fn attempt_count(&self) -> nat {
        self.attempts as nat
    }

    /// At most one attempt, and exactly one once the slot is filled.
    pub open spec fn wf(&self) -> bool {
        self.attempt_count() == (if self.outcome() is Some { 1nat } else { 0nat })
    }

    /// An empty cache: no attempt made yet.
    pub fn new() -> (r: ConnectionCache)
        ensures
            r.wf(),
            r.outcome() is None,
            r.attempt_count() == 0,
    {
        ConnectionCache { slot: None, attempts: 0 }
    }

    /// The outcome of the attempt, if it was made.
    pub fn get(&self) -> (r: Option<&Outcome>)
        ensures
            r matches Some(o) ==> self.outcome() == Some(*o),
            r is None ==> self.outcome() is None,
    {
        self.slot.as_ref()
    }

    /// How many times a connection was attempted: zero or one.
    pub fn attempts(&self) -> (r: u64)
        requires
            self.wf(),
        ensures
            r == self.attempt_count(),
            r <= 1,
    {
        self.attempts
    }

    /// The cached outcome; on the first request `connect` is called, once, and
    /// what it returns is stored for good. Later requests never call it, and a
    /// stored failure is handed out again, not retried.
    pub fn get_or_init<F: FnOnce() -> Outcome>(&mut self, connect: F) -> (r: Outcome)
        requires
            old(self).wf(),
            old(self).outcome() is None ==> connect.requires(()),
        ensures
            final(self).wf(),
            final(self).outcome() == Some(r),
            old(self).outcome() matches Some(o) ==> r == o && *final(self) == *old(self),
            old(self).outcome() is None ==> connect.ensures((), r),
            final(self).outcome() == settle(old(self).outcome(), r),
            final(self).attempt_count() == old(self).attempt_count() + (if old(self).outcome() is None {
                1nat
            } else {
                0nat
            }),
    {
        match &self.slot {
            Some(o) => copy_outcome(o),
            None => {
                let o = connect();
                let r = copy_outcome(&o);
                self.slot = Some(o);
                self.attempts = 1;
                r
            },
        }
    }
}

} // verus!
