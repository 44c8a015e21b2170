//! Scoped end-of-life hooks.
//!
//! A lifecycle object collects cleanup hooks as they are registered and
//! yields them back, in reverse registration order, when the process is
//! shutting down.  The driver that owns the lifecycle runs them; what a
//! hook is — a closure, a message, a task — is the driver's choice.

use vstd::prelude::*;

verus! {

/// A registry of end-of-life hooks, owned by the top-level driver.
pub struct Lifecycle<A> {
    hooks: Vec<A>,
}

impl<A> Lifecycle<A> {
    /// An empty registry.
    pub fn new() -> (l: Lifecycle<A>)
        ensures
            l.registered() =~= Seq::<A>::empty(),
    {
        Lifecycle { hooks: Vec::new() }
    }

    /// The registered hooks, oldest first.
    pub closed spec fn registered(&self) -> Seq<A> {
        self.hooks@
    }

    /// Registers a hook to run at the end of the lifecycle.
    pub fn finalizer(&mut self, hook: A)
        ensures
            final(self).registered() == old(self).registered().push(hook),
    {
        self.hooks.push(hook);
    }

    /// Takes all registered hooks out, in reverse registration order —
    /// the most recently registered hook runs first.  The registry is
    /// empty afterwards.
    pub fn do_finalize(&mut self) -> (r: Vec<A>)
        ensures
            r@ == old(self).registered().reverse(),
            final(self).registered() =~= Seq::<A>::empty(),
    {
        let mut out: Vec<A> = Vec::new();
        while self.hooks.len() > 0
            invariant
                out@.len() + self.hooks@.len() == old(self).hooks@.len(),
                forall|i: int|
                    0 <= i < self.hooks@.len() ==> self.hooks@[i] == old(self).hooks@[i],
                forall|i: int|
                    0 <= i < out@.len() ==> out@[i] == old(self).hooks@[old(
                        self,
                    ).hooks@.len() - 1 - i],
            decreases self.hooks@.len(),
        {
            let h = self.hooks.pop().unwrap();
            out.push(h);
        }
        proof {
            assert(out@ =~= old(self).registered().reverse());
        }
        out
    }
}

} // verus!
