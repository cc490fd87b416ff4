//! The registration ledger of the readiness-polling loop: which token is
//! registered, and with which interest set. The blocking wait and the OS
//! poll handle live outside the library; every decision about tokens and
//! interests is made here, so that a token is never left dangling.

use vstd::prelude::*;

verus! {

/// A readiness interest set, and equally the readiness bits one event
/// carries: level-triggered read and write interest.
#[derive(Clone, Copy, Debug, PartialEq, Eq, Structural)]
pub struct Ready {
    pub readable: bool,
    pub writable: bool,
}

impl Ready {
    /// Read interest only: the set every new connection starts with.
    pub fn readable_only() -> (r: Ready)
        ensures
            r == (Ready { readable: true, writable: false }),
    {
        Ready { readable: true, writable: false }
    }

    /// Read and write interest.
    pub fn readable_writable() -> (r: Ready)
        ensures
            r == (Ready { readable: true, writable: true }),
    {
        Ready { readable: true, writable: true }
    }
}

/// The token ledger. A token is an index into the ledger; a freed slot is
/// never handed out again, so a token observed once never changes meaning.
pub struct Selector {
    registrations: Vec<Option<Ready>>,
}

impl View for Selector {
    type V = Seq<Option<Ready>>;

    closed spec fn view(&self) -> Seq<Option<Ready>> {
        self.registrations@
    }
}

impl Selector {
    /// Whether `token` is currently registered.
    pub open spec fn is_registered(&self, token: int) -> bool {
        0 <= token < self@.len() && self@[token] is Some
    }

    /// The interest set of a registered token.
    pub open spec fn interests_of(&self, token: int) -> Ready
        recommends
            self.is_registered(token),
    {
        self@[token]->0
    }

    /// An empty ledger.
    pub fn new() -> (r: Self)
        ensures
            r@ == Seq::<Option<Ready>>::empty(),
    {
        Selector { registrations: Vec::new() }
    }

    /// Register a new source with the given interest set; the returned
    /// token is fresh: it was never registered before.
    pub fn register(&mut self, interests: Ready) -> (token: usize)
        ensures
            token == old(self)@.len(),
            final(self)@ == old(self)@.push(Some(interests)),
            final(self).is_registered(token as int),
            final(self).interests_of(token as int) == interests,
    {
        let token = self.registrations.len();
        self.registrations.push(Some(interests));
        token
    }

    /// Change the interest set of an already-registered token.
    pub fn reregister(&mut self, token: usize, interests: Ready)
        requires
            old(self).is_registered(token as int),
        ensures
            final(self)@ == old(self)@.update(token as int, Some(interests)),
            final(self).is_registered(token as int),
            final(self).interests_of(token as int) == interests,
    {
        self.registrations.set(token, Some(interests));
    }

    /// Remove a token from polling. Removing one that is not registered is
    /// a no-op, so tearing a connection down twice is safe.
    pub fn deregister(&mut self, token: usize) -> (was_registered: bool)
        ensures
            was_registered == old(self).is_registered(token as int),
            was_registered ==> final(self)@ == old(self)@.update(token as int, None),
            !was_registered ==> final(self)@ == old(self)@,
            !final(self).is_registered(token as int),
            final(self)@.len() == old(self)@.len(),
    {
        if token < self.registrations.len() && self.registrations[token].is_some() {
            self.registrations.set(token, None);
            true
        } else {
            false
        }
    }

    /// Whether `token` is currently registered.
    pub fn contains(&self, token: usize) -> (r: bool)
        ensures
            r == self.is_registered(token as int),
    {
        token < self.registrations.len() && self.registrations[token].is_some()
    }

    /// The interest set of a registered token.
    pub fn interests(&self, token: usize) -> (r: Option<Ready>)
        ensures
            self.is_registered(token as int) ==> r == Some(self.interests_of(token as int)),
            !self.is_registered(token as int) ==> r is None,
    {
        if token < self.registrations.len() {
            self.registrations[token]
        } else {
            None
        }
    }
}

} // verus!
