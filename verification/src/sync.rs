//! The exclusive-access guard for mutable kernel state.
//!
//! The kernel runs on a single core with a single thread, so at most one
//! mutable view of shared state may ever be live. The guard makes that rule
//! dynamic state: taking the value out leaves the cell empty, and the
//! precondition of a second take can no longer hold until the value is given
//! back. (Acquiring a second live view is a fatal programming error in the
//! kernel; here that input is excluded by the precondition, so verified
//! callers can never reach it.)

use vstd::prelude::*;

verus! {

/// A single-owner cell: holds the guarded value while no mutable view of it
/// is live, and is empty while one is.
pub struct UPSafeCell<T> {
    /// The guarded value; `None` while an exclusive view is live.
    pub inner: Option<T>,
}

impl<T> UPSafeCell<T> {
    /// The guard currently holds the value, so an exclusive view may be taken.
    pub open spec fn is_available(&self) -> bool {
        self.inner is Some
    }

    /// The guarded value, while it is held.
    pub open spec fn value(&self) -> T
        recommends
            self.is_available(),
    {
        self.inner->0
    }

    /// Wrap a value; no view of it is live yet.
    pub fn new(value: T) -> (r: Self)
        ensures
            r.is_available(),
            r.value() == value,
    {
        UPSafeCell { inner: Some(value) }
    }

    /// Take the one exclusive view of the guarded value. While the view is
    /// live the cell is empty, so this operation's own precondition rules a
    /// second, simultaneous view out.
    pub fn exclusive_access(&mut self) -> (t: T)
        requires
            old(self).is_available(),
        ensures
            t == old(self).value(),
            !final(self).is_available(),
    {
        let mut taken: Option<T> = None;
        core::mem::swap(&mut self.inner, &mut taken);
        match taken {
            Some(t) => t,
            None => vstd::pervasive::unreached(),
        }
    }

    /// Read the guarded value without taking the exclusive view.
    pub fn borrow_value(&self) -> (r: &T)
        requires
            self.is_available(),
        ensures
            *r == self.value(),
    {
        match &self.inner {
            Some(v) => v,
            None => vstd::pervasive::unreached(),
        }
    }

    /// Give the exclusive view back, making the cell available again. This
    /// models the view going out of scope in the running kernel.
    pub fn release(&mut self, value: T)
        requires
            !old(self).is_available(),
        ensures
            final(self).is_available(),
            final(self).value() == value,
    {
        self.inner = Some(value);
    }
}

/// One acquisition step of the guard: `post` is the state left behind after
/// the exclusive view `view` was taken out of `pre`.
pub open spec fn acquires<T>(pre: UPSafeCell<T>, post: UPSafeCell<T>, view: T) -> bool {
    &&& pre.is_available()
    &&& pre.value() == view
    &&& !post.is_available()
}

/// The guard never yields two simultaneously live mutable views: the state
/// left behind by an acquisition does not satisfy the guard's own
/// precondition, so no second view can be taken before the first is given
/// back.
pub proof fn lemma_guard_exclusive<T>(pre: UPSafeCell<T>, post: UPSafeCell<T>, view: T)
    requires
        acquires(pre, post, view),
    ensures
        !post.is_available(),
{
}

} // verus!
