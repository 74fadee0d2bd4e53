//! The recursion guard: one flag per outermost session that is up while a
//! nested session runs, so that a nested session cannot start another.

use vstd::prelude::*;

verus! {

/// The flag. It is not re-entrant: whoever finds it up stays out.
#[derive(Debug)]
pub struct RecursionGuard {
    active: bool,
}

impl View for RecursionGuard {
    type V = bool;

    closed spec fn view(&self) -> bool {
        self.active
    }
}

impl RecursionGuard {
    /// A guard that is down.
    pub fn new() -> (out: Self)
        ensures
            !out@,
    {
        RecursionGuard { active: false }
    }

    /// Whether the guard is up.
    pub fn is_active(&self) -> (out: bool)
        ensures
            out == self@,
    {
        self.active
    }

    /// Raises the guard if it is down. The result tells whether the caller
    /// got in; a caller that did not leaves the guard as it found it.
    pub fn try_enter(&mut self) -> (entered: bool)
        ensures
            entered == !old(self)@,
            final(self)@,
    {
        if self.active {
            false
        } else {
            self.active = true;
            true
        }
    }

    /// Lowers the guard.
    pub fn leave(&mut self)
        ensures
            !final(self)@,
    {
        self.active = false;
    }
}

} // verus!
