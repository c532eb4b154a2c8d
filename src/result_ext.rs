//! Annotated unwrapping of `Result`.
use vstd::prelude::*;

use crate::diagnostic::{assured_diagnostic, todo_diagnostic, verified_diagnostic};

verus! {

/// Unwrapping of a fallible result that says why success is expected.
///
/// Where the expectation fails, the diagnostic ends with ": " and the `Debug`
/// rendering of the error.
pub trait ResultExt<T, E: core::fmt::Debug>: Sized {
    /// Whether the result is a success.
    spec fn holds_value(&self) -> bool;

    /// The success value, where the result is a success.
    spec fn held_value(&self) -> T;

    /// Returns the contained success value, consuming `self`.
    ///
    /// Marks a place that is to get a better implementation later. On an
    /// error it stops with "not yet implemented" and the error.
    fn todo(self) -> (r: T)
        requires
            self.holds_value(),
        ensures
            r == self.held_value(),
    ;

    /// Returns the contained success value, consuming `self`.
    ///
    /// Marks a result that reasoning outside the type system shows never to
    /// be an error. On an error it stops with "the success was expected to be
    /// assured, but the error was returned: ", `reason` and the error.
    fn assured(self, reason: &str) -> (r: T)
        requires
            self.holds_value(),
        ensures
            r == self.held_value(),
    ;

    /// Returns the contained success value, consuming `self`.
    ///
    /// Marks a result whose success a check earlier in the code has
    /// established. On an error it stops with "the success was expected to be
    /// verified in the code earlier, but the error was returned: ", `reason`
    /// and the error.
    fn verified(self, reason: &str) -> (r: T)
        requires
            self.holds_value(),
        ensures
            r == self.held_value(),
    ;
}

impl<T, E: core::fmt::Debug> ResultExt<T, E> for Result<T, E> {
    open spec fn holds_value(&self) -> bool {
        *self is Ok
    }

    open spec fn held_value(&self) -> T {
        self->Ok_0
    }

    fn todo(self) -> (r: T) {
        match self {
            Ok(value) => value,
            Err(error) => Err::<T, E>(error).expect(todo_diagnostic().as_str()),
        }
    }

    fn assured(self, reason: &str) -> (r: T) {
        match self {
            Ok(value) => value,
            Err(error) => Err::<T, E>(error).expect(assured_diagnostic(reason).as_str()),
        }
    }

    fn verified(self, reason: &str) -> (r: T) {
        match self {
            Ok(value) => value,
            Err(error) => Err::<T, E>(error).expect(verified_diagnostic(reason).as_str()),
        }
    }
}

/// The three operations return the value of a successful result, whatever
/// the error type, and results that are equal give the same value: a call
/// that succeeds depends on the result alone.
pub proof fn result_unwrap_is_deterministic<T, E: core::fmt::Debug>(a: Result<T, E>, b: Result<T, E>)
    requires
        a is Ok,
        a == b,
    ensures
        a.holds_value(),
        b.holds_value(),
        a.held_value() == b.held_value(),
        a.held_value() == a->Ok_0,
{
}

} // verus!
