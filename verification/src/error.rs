//! Errors of the change stream client.

use vstd::prelude::*;

verus! {

/// An error that the client raises itself, without the service.
#[derive(Debug)]
pub struct InternalError {
    pub message: String,
}

impl DeepView for InternalError {
    type V = Seq<char>;

    open spec fn deep_view(&self) -> Seq<char> {
        self.message@
    }
}

/// What a query can fail with; `S` is the error type of the service.
#[derive(Debug)]
pub enum Error<S> {
    /// Raised by the client itself.
    Internal(InternalError),
    /// Reported by the service, passed on unchanged.
    Service(S),
}

/// The two halves of a computed outcome say the same: the executable `result` is a success or a
/// failure as `expected` is, with the same value or the same message.
pub open spec fn same_outcome<T: DeepView>(
    result: Result<T, InternalError>,
    expected: Result<T::V, Seq<char>>,
) -> bool {
    match result {
        Ok(value) => expected == Ok::<T::V, Seq<char>>(value.deep_view()),
        Err(error) => expected == Err::<T::V, Seq<char>>(error.deep_view()),
    }
}

} // verus!
