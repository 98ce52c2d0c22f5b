use vstd::prelude::*;

verus! {

/// The outcome classification a scope's return type must provide: a single
/// total query saying whether the value represents failure. The orchestrator
/// consumes exactly this to pick which registry drains.
pub trait Failure {
    /// Whether the value counts as a failure, as a mathematical predicate.
    spec fn is_error_spec(&self) -> bool;

    /// Returns true if the value is in a failure state, false otherwise.
    fn is_error(&self) -> (failed: bool)
        ensures
            failed == self.is_error_spec(),
    ;
}

impl<T, E> Failure for Result<T, E> {
    /// `Ok` is success, `Err` is failure.
    open spec fn is_error_spec(&self) -> bool {
        self is Err
    }

    fn is_error(&self) -> (failed: bool) {
        match self {
            Result::Ok(_) => false,
            Result::Err(_) => true,
        }
    }
}

impl<T> Failure for Option<T> {
    /// `Some` is success, `None` is failure.
    open spec fn is_error_spec(&self) -> bool {
        self is None
    }

    fn is_error(&self) -> (failed: bool) {
        match self {
            Option::Some(_) => false,
            Option::None => true,
        }
    }
}

/// Convenience alias for scopes with no success value: unit on success,
/// an error value on failure.
pub type ScopeResult<E> = Result<(), E>;

} // verus!
