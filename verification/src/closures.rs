//! Move-by-convention for caller-supplied callbacks.
//!
//! The boundary's caller has no compiler-checked moves, so ownership
//! transfer of a callback is enforced by an explicit swap: the declare
//! operation drains the caller's slot, leaving an empty sentinel behind.
//! Invoking the caller's original slot afterwards finds the sentinel and is
//! a safe no-op, never a use of freed memory.

use vstd::prelude::*;

verus! {

/// A slot that either owns a callback or holds the empty sentinel.
pub struct ClosureSlot<T> {
    /// The owned callback, or `None` for the empty sentinel.
    pub inner: Option<T>,
}

impl<T> ClosureSlot<T> {
    /// A slot is valid exactly when it still owns a callback.
    pub open spec fn is_valid(&self) -> bool {
        self.inner is Some
    }

    /// The empty sentinel: a no-op slot, the swap target of every drain.
    pub fn empty() -> (s: Self)
        ensures
            !s.is_valid(),
    {
        ClosureSlot { inner: None }
    }

    /// A slot owning the callback `t`.
    pub fn filled(t: T) -> (s: Self)
        ensures
            s.is_valid(),
            s.inner == Some(t),
    {
        ClosureSlot { inner: Some(t) }
    }

    /// The move convention of the boundary: the caller's callback changes
    /// owner, and the caller's slot is forcibly left empty, so that the
    /// caller cannot use the callback again.
    pub fn take(&mut self) -> (r: ClosureSlot<T>)
        ensures
            !final(self).is_valid(),
            r.inner == old(self).inner,
            r.is_valid() <==> old(self).is_valid(),
    {
        ClosureSlot { inner: self.inner.take() }
    }
}

} // verus!
