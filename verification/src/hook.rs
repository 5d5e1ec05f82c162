//! The scope in which the panic hook is muted.
//!
//! While a probe makes its speculative call, the process-wide panic hook may
//! be swapped for a silent one, under a process-wide token that lets one
//! thread at a time do so. The hook and the token belong to the embedding
//! program; the guard here keeps both for the length of the scope. The hook
//! is taken back first; the token goes when the guard is dropped.

use vstd::prelude::*;

verus! {

/// Keeps the serialization token of type `G` and the previously installed
/// hook of type `H` while the muted hook is in place.
pub struct PanicHideGuard<G, H> {
    /// The token, held for as long as the guard lives.
    pub token: G,
    /// The hook that was installed before the swap, until it is taken back.
    pub previous: Option<H>,
}

impl<G, H> PanicHideGuard<G, H> {
    /// The guard of a scope that was opened under `token` and swapped
    /// `previous` out.
    pub open spec fn opened(token: G, previous: H) -> Self {
        PanicHideGuard { token, previous: Some(previous) }
    }

    /// The guard once its hook has been taken back: the token alone.
    pub open spec fn emptied(self) -> Self {
        PanicHideGuard { token: self.token, previous: None }
    }

    /// Opens the scope: `token` has been acquired and `previous` has just
    /// been swapped out for the muted hook.
    pub fn new(token: G, previous: H) -> (guard: Self)
        ensures
            guard == Self::opened(token, previous),
    {
        PanicHideGuard { token, previous: Some(previous) }
    }

    /// Hands out the hook to install again, and leaves the guard with the
    /// token alone: a second call finds no hook.
    pub fn take_previous(&mut self) -> (hook: Option<H>)
        ensures
            hook == old(self).previous,
            *final(self) == old(self).emptied(),
    {
        self.previous.take()
    }
}

/// The hook that comes out of a scope is the hook that the scope was opened
/// with. It comes out once, and the token stays in the guard meanwhile.
pub proof fn lemma_scope_restores_previous<G, H>(token: G, previous: H)
    ensures
        PanicHideGuard::opened(token, previous).previous == Some(previous),
        PanicHideGuard::opened(token, previous).emptied().previous is None,
        PanicHideGuard::opened(token, previous).emptied().token == token,
        PanicHideGuard::opened(token, previous).emptied().emptied() == PanicHideGuard::opened(
            token,
            previous,
        ).emptied(),
{
}

} // verus!
