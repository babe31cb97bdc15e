//! The outcome of a service call that did not succeed: a status code and a
//! message, as the gRPC layer reports it to the caller.

use vstd::prelude::*;

verus! {

/// The status codes that the service's calls answer with.
#[derive(Clone, Copy, Debug, PartialEq, Eq, Structural)]
pub enum Code {
    InvalidArgument,
    NotFound,
    Internal,
}

/// A refused or failed call: its code and its message.
#[derive(Clone, Debug)]
pub struct Status {
    pub code: Code,
    pub message: String,
}

/// The abstract value of a `Status`.
pub struct StatusView {
    pub code: Code,
    pub message: Seq<char>,
}

impl View for Status {
    type V = StatusView;

    open spec fn view(&self) -> StatusView {
        StatusView { code: self.code, message: self.message@ }
    }
}

/// The status with the given code and message.
pub open spec fn status_of(code: Code, message: Seq<char>) -> StatusView {
    StatusView { code, message }
}

/// The abstract value of the outcome of a call that gives a `T` or a status.
pub open spec fn result_view<T: View>(r: Result<T, Status>) -> Result<T::V, StatusView> {
    match r {
        Ok(t) => Ok(t@),
        Err(s) => Err(s@),
    }
}

impl Status {
    /// The caller gave an argument that the call cannot use.
    pub fn invalid_argument(message: String) -> (s: Status)
        ensures
            s@ == status_of(Code::InvalidArgument, message@),
    {
        Status { code: Code::InvalidArgument, message }
    }

    /// The record that the call asked for does not exist.
    pub fn not_found(message: String) -> (s: Status)
        ensures
            s@ == status_of(Code::NotFound, message@),
    {
        Status { code: Code::NotFound, message }
    }

    /// The call failed for a reason on the service's side.
    pub fn internal(message: String) -> (s: Status)
        ensures
            s@ == status_of(Code::Internal, message@),
    {
        Status { code: Code::Internal, message }
    }
}

} // verus!
