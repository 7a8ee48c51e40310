//! Interrupt-safe shared cell: a slot, shared between main context and
//! interrupt context, that holds at most one peripheral ownership handle.
//!
//! Every access demands a `&CsGuard`, the unforgeable witness that a
//! critical section is open, so the contents can never be touched while an
//! interrupt handler could run. The cell only ever lends the handle out for
//! the duration of a borrow; ownership never leaves it once stored.

use vstd::prelude::*;

use crate::ctrl::CsGuard;

verus! {

/// A process-wide slot for one peripheral ownership handle, populated once
/// at startup (before the matching interrupt source is armed) and then
/// borrowed from both execution contexts under critical-section protection.
pub struct SharedCell<T> {
    inner: Option<T>,
}

impl<T> SharedCell<T> {
    /// Whether a handle has been stored.
    pub closed spec fn populated(self) -> bool {
        self.inner is Some
    }

    /// The stored handle.
    pub closed spec fn contents(self) -> T
        recommends
            self.populated(),
    {
        self.inner->Some_0
    }

    /// A fresh, empty cell.
    pub fn empty() -> (c: SharedCell<T>)
        ensures
            !c.populated(),
    {
        SharedCell { inner: None }
    }

    /// Whether the cell currently holds a handle.
    pub fn is_populated(&self) -> (b: bool)
        ensures
            b == self.populated(),
    {
        self.inner.is_some()
    }

    /// Move a handle into the cell, inside an open critical section. A
    /// second store replaces (and drops) the first handle; callers that did
    /// not intend a replacement must treat that as a logic error.
    pub fn store(&mut self, _cs: &CsGuard, value: T)
        ensures
            final(self).populated(),
            final(self).contents() == value,
    {
        self.inner = Some(value);
    }

    /// Borrow the handle immutably, inside an open critical section. By the
    /// populate-before-arm discipline the cell is never empty once its
    /// interrupt source can fire, so an empty cell is ruled out here rather
    /// than handled at run time.
    pub fn borrow<'a>(&'a self, _cs: &CsGuard) -> (r: &'a T)
        requires
            self.populated(),
        ensures
            *r == self.contents(),
    {
        match &self.inner {
            Some(v) => v,
            None => unreached(),
        }
    }

    /// Borrow the handle mutably, inside an open critical section; the cell
    /// afterwards holds whatever the caller left behind the reference.
    pub fn borrow_mut<'a>(&'a mut self, _cs: &CsGuard) -> (r: &'a mut T)
        requires
            old(self).populated(),
        ensures
            *r == old(self).contents(),
            final(self).populated(),
            final(self).contents() == *final(r),
    {
        match &mut self.inner {
            Some(v) => v,
            None => unreached(),
        }
    }
}

} // verus!
