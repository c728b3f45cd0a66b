use vstd::prelude::*;

verus! {

/// The flag that says "a playback session is active".
///
/// While held it records the token of the session that owns it. Tokens are
/// handed out in increasing order and never reused, so a session that has
/// been cancelled can never mistake a later session's lock for its own, and
/// its cleanup never clears a lock that a later session holds.
pub struct SessionLock {
    holder: Option<u64>,
    issued: u64,
}

impl SessionLock {
    /// The token of the session holding the lock, if any.
    pub closed spec fn holder(&self) -> Option<u64> {
        self.holder
    }

    /// How many tokens have been handed out; the next one is this number.
    pub closed spec fn issued(&self) -> nat {
        self.issued as nat
    }

    /// The holder, if any, is a token that was already handed out.
    pub open spec fn wf(&self) -> bool {
        self.holder() is Some ==> self.holder()->0 < self.issued()
    }

    pub open spec fn held(&self) -> bool {
        self.holder() is Some
    }

    pub open spec fn owned_by(&self, token: u64) -> bool {
        self.holder() == Some(token)
    }

    /// Whether no further token can be handed out.
    pub open spec fn exhausted(&self) -> bool {
        self.issued() >= u64::MAX
    }

    /// What any operation of the lock may do to it: leave it, clear it, or
    /// give it to a session with the next fresh token.
    pub open spec fn successor(&self, next: &SessionLock) -> bool {
        &&& self.issued() <= next.issued()
        &&& next.holder() is None || next.holder() == self.holder() || next.holder() == Some(
            self.issued() as u64,
        )
    }

    /// A clear lock that has handed out no token.
    pub fn new() -> (r: Self)
        ensures
            r.wf(),
            r.holder() is None,
            r.issued() == 0,
    {
        SessionLock { holder: None, issued: 0 }
    }

    /// Non-blocking query: is any session holding the lock?
    pub fn is_held(&self) -> (r: bool)
        ensures
            r == self.held(),
    {
        self.holder.is_some()
    }

    /// Whether every token has been handed out.
    pub fn is_exhausted(&self) -> (r: bool)
        ensures
            r == self.exhausted(),
    {
        self.issued == u64::MAX
    }

    /// Does the session with this token hold the lock?
    pub fn is_owned_by(&self, token: u64) -> (r: bool)
        ensures
            r == self.owned_by(token),
    {
        match self.holder {
            Some(t) => t == token,
            None => false,
        }
    }

    /// Takes the lock for a new session if it is clear, returning the new
    /// session's token. A held lock, or one with no token left, is unchanged
    /// and yields `None`.
    pub fn try_acquire(&mut self) -> (r: Option<u64>)
        requires
            old(self).wf(),
        ensures
            final(self).wf(),
            old(self).successor(&*final(self)),
            (!old(self).held() && !old(self).exhausted()) ==> {
                &&& r == Some(old(self).issued() as u64)
                &&& final(self).holder() == r
                &&& final(self).issued() == old(self).issued() + 1
            },
            (old(self).held() || old(self).exhausted()) ==> {
                &&& r is None
                &&& *final(self) == *old(self)
            },
    {
        if self.holder.is_some() || self.issued == u64::MAX {
            None
        } else {
            let token = self.issued;
            self.holder = Some(token);
            self.issued = token + 1;
            Some(token)
        }
    }

    /// Clears the lock, whoever holds it. Releasing a clear lock changes
    /// nothing.
    pub fn release(&mut self)
        requires
            old(self).wf(),
        ensures
            final(self).wf(),
            old(self).successor(&*final(self)),
            final(self).holder() is None,
            final(self).issued() == old(self).issued(),
            !old(self).held() ==> *final(self) == *old(self),
    {
        self.holder = None;
    }

    /// Clears the lock only if the session with this token holds it, and
    /// says whether it did.
    pub fn release_owned(&mut self, token: u64) -> (r: bool)
        requires
            old(self).wf(),
        ensures
            final(self).wf(),
            old(self).successor(&*final(self)),
            r == old(self).owned_by(token),
            r ==> final(self).holder() is None && final(self).issued() == old(self).issued(),
            !r ==> *final(self) == *old(self),
    {
        if self.is_owned_by(token) {
            self.holder = None;
            true
        } else {
            false
        }
    }
}

/// A session that has lost the lock never holds it again: once a token that
/// was handed out is not the holder, no later state of the lock has it as
/// holder.
pub proof fn lemma_lost_lock_stays_lost(before: SessionLock, after: SessionLock, token: u64)
    requires
        before.wf(),
        before.successor(&after),
        token < before.issued(),
        !before.owned_by(token),
    ensures
        !after.owned_by(token),
        token < after.issued(),
{
}

/// At most one session is active: the lock has a single holder.
pub proof fn lemma_at_most_one_active(lock: SessionLock, a: u64, b: u64)
    requires
        lock.owned_by(a),
        lock.owned_by(b),
    ensures
        a == b,
{
}

} // verus!
