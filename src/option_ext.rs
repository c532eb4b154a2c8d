//! Annotated unwrapping of `Option`.
use vstd::prelude::*;

use crate::diagnostic::{assured_diagnostic, empty_todo_diagnostic, verified_diagnostic};

verus! {

/// Unwrapping of an optional value that says why the value is expected to be there.
pub trait OptionExt<T>: Sized {
    /// Whether the container holds a value.
    spec fn holds_value(&self) -> bool;

    /// The value that the container holds, where it holds one.
    spec fn held_value(&self) -> T;

    /// Returns the contained value, consuming `self`.
    ///
    /// Marks a place that is to get a better implementation later. On an empty
    /// container it stops with "not yet implemented: None".
    fn todo(self) -> (r: T)
        requires
            self.holds_value(),
        ensures
            r == self.held_value(),
    ;

    /// Returns the contained value, consuming `self`.
    ///
    /// Marks a value that reasoning outside the type system shows to be
    /// present. On an empty container it stops with "the success was expected
    /// to be assured, but the error was returned: " and `reason`.
    fn assured(self, reason: &str) -> (r: T)
        requires
            self.holds_value(),
        ensures
            r == self.held_value(),
    ;

    /// Returns the contained value, consuming `self`.
    ///
    /// Marks a value whose presence a check earlier in the code has
    /// established. On an empty container it stops with "the success was
    /// expected to be verified in the code earlier, but the error was
    /// returned: " and `reason`.
    fn verified(self, reason: &str) -> (r: T)
        requires
            self.holds_value(),
        ensures
            r == self.held_value(),
    ;
}

impl<T> OptionExt<T> for Option<T> {
    open spec fn holds_value(&self) -> bool {
        *self is Some
    }

    open spec fn held_value(&self) -> T {
        self->Some_0
    }

    fn todo(self) -> (r: T) {
        match self {
            Some(value) => value,
            None => None.expect(empty_todo_diagnostic().as_str()),
        }
    }

    fn assured(self, reason: &str) -> (r: T) {
        match self {
            Some(value) => value,
            None => None.expect(assured_diagnostic(reason).as_str()),
        }
    }

    fn verified(self, reason: &str) -> (r: T) {
        match self {
            Some(value) => value,
            None => None.expect(verified_diagnostic(reason).as_str()),
        }
    }
}

/// The three operations return the value of a container that holds one, and
/// containers that are equal give the same value: a call that succeeds depends
/// on the container alone.
pub proof fn option_unwrap_is_deterministic<T>(a: Option<T>, b: Option<T>)
    requires
        a is Some,
        a == b,
    ensures
        a.holds_value(),
        b.holds_value(),
        a.held_value() == b.held_value(),
        a.held_value() == a->Some_0,
{
}

} // verus!
