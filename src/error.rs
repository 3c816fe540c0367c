use vstd::prelude::*;

verus! {

/// What went wrong, as a value that callers branch on.
#[derive(Clone, Debug, PartialEq, Eq)]
pub enum ErrorKind {
    /// An identifier was empty or held only whitespace; carries the argument's name.
    ArgumentEmpty(String),
    /// The call succeeded but the reply had no body where one was needed.
    EmptyResponse,
    /// The registry answered with a status outside 2xx and no error payload.
    Status(u16),
    /// The registry answered with a status outside 2xx and this error message.
    Service(u16, String),
    /// A body could not be encoded or decoded as JSON; carries the reason.
    Json(String),
}

/// An error of this library.
#[derive(Clone, Debug, PartialEq, Eq)]
pub struct Error {
    pub kind: ErrorKind,
}

impl Error {
    pub fn new(kind: ErrorKind) -> (r: Error)
        ensures
            r.kind == kind,
    {
        Error { kind }
    }

    /// The kind of this error.
    pub fn kind(&self) -> (r: &ErrorKind)
        ensures
            *r == self.kind,
    {
        &self.kind
    }
}

impl From<ErrorKind> for Error {
    fn from(kind: ErrorKind) -> (r: Error)
        ensures
            r.kind == kind,
    {
        Error { kind }
    }
}

impl vstd::std_specs::convert::FromSpecImpl<ErrorKind> for Error {
    open spec fn obeys_from_spec() -> bool {
        true
    }

    open spec fn from_spec(kind: ErrorKind) -> Error {
        Error { kind }
    }
}

} // verus!
