use vstd::prelude::*;

verus! {

/// Cooperative cancellation flag: created clear at startup, set at most
/// once by the consumer on quit, observed by the producer at the top of
/// each packet iteration, and never cleared again.
pub struct CancellationToken {
    cancelled: bool,
}

impl CancellationToken {
    /// The state a token reaches after `set`, whatever it held before.
    pub closed spec fn after_set(self) -> CancellationToken {
        CancellationToken { cancelled: true }
    }

    pub closed spec fn is_cancelled(self) -> bool {
        self.cancelled
    }

    pub fn new() -> (r: CancellationToken)
        ensures
            !r.is_cancelled(),
    {
        CancellationToken { cancelled: false }
    }

    /// Request shutdown. Setting an already-set token changes nothing,
    /// and no operation ever returns the token to the clear state.
    pub fn set(&mut self)
        ensures
            *final(self) == old(self).after_set(),
            final(self).is_cancelled(),
    {
        self.cancelled = true;
    }

    pub fn is_set(&self) -> (r: bool)
        ensures
            r == self.is_cancelled(),
    {
        self.cancelled
    }
}

/// Law: cancellation is idempotent and irreversible. Setting a token a
/// second time leaves it exactly as the first `set` left it, and a set
/// token is cancelled no matter what it held before.
pub proof fn lemma_set_idempotent(t: CancellationToken)
    ensures
        t.after_set().after_set() == t.after_set(),
        t.after_set().is_cancelled(),
{
}

} // verus!
