use vstd::prelude::*;
use crate::fault::Error;

verus! {

/// Coarse error categories for callers that know no protocol, in the manner
/// of `std::io::ErrorKind`.
#[derive(Clone, Copy, Debug, PartialEq, Eq, Structural)]
pub enum ErrorKind {
    InvalidData,
    ConnectionAborted,
    UnexpectedEof,
    TimedOut,
    PermissionDenied,
    ConnectionReset,
}

/// The coarse category of each fault.
pub open spec fn kind_of(e: Error) -> ErrorKind {
    match e {
        Error::Decode
        | Error::Decrypt
        | Error::Duplicate
        | Error::StreamMismatch { .. }
        | Error::InvalidFin
        | Error::OutOfOrder { .. }
        | Error::UnexpectedRetransmission => ErrorKind::InvalidData,
        Error::MaxDataExceeded | Error::OutOfRange => ErrorKind::ConnectionAborted,
        Error::TruncatedTransport => ErrorKind::UnexpectedEof,
        Error::IdleTimeout => ErrorKind::TimedOut,
        Error::KeyReplayPrevented | Error::KeyReplayMaybePrevented { .. } => ErrorKind::PermissionDenied,
        Error::ApplicationError { .. } => ErrorKind::ConnectionReset,
    }
}

impl From<Error> for ErrorKind {
    fn from(error: Error) -> (r: ErrorKind)
        ensures
            r == kind_of(error),
    {
        match error {
            Error::Decode => ErrorKind::InvalidData,
            Error::Decrypt => ErrorKind::InvalidData,
            Error::Duplicate => ErrorKind::InvalidData,
            Error::StreamMismatch { .. } => ErrorKind::InvalidData,
            Error::MaxDataExceeded => ErrorKind::ConnectionAborted,
            Error::InvalidFin => ErrorKind::InvalidData,
            Error::TruncatedTransport => ErrorKind::UnexpectedEof,
            Error::OutOfRange => ErrorKind::ConnectionAborted,
            Error::OutOfOrder { .. } => ErrorKind::InvalidData,
            Error::UnexpectedRetransmission => ErrorKind::InvalidData,
            Error::IdleTimeout => ErrorKind::TimedOut,
            Error::KeyReplayPrevented => ErrorKind::PermissionDenied,
            Error::KeyReplayMaybePrevented { .. } => ErrorKind::PermissionDenied,
            Error::ApplicationError { .. } => ErrorKind::ConnectionReset,
        }
    }
}

impl vstd::std_specs::convert::FromSpecImpl<Error> for ErrorKind {
    open spec fn obeys_from_spec() -> bool {
        true
    }

    open spec fn from_spec(v: Error) -> ErrorKind {
        kind_of(v)
    }
}

/// A generic error: a coarse category, with the fault that caused it kept
/// as its cause for callers that know the protocol.
#[derive(Clone, Copy, Debug, PartialEq, Eq, Structural)]
pub struct GenericError {
    kind: ErrorKind,
    cause: Error,
}

impl GenericError {
    /// The category is always the one of the cause.
    #[verifier::type_invariant]
    spec fn consistent(self) -> bool {
        self.kind == kind_of(self.cause)
    }

    /// The category of the error.
    pub closed spec fn spec_kind(self) -> ErrorKind {
        self.kind
    }

    /// The fault that the error carries.
    pub closed spec fn spec_cause(self) -> Error {
        self.cause
    }

    pub fn kind(&self) -> (r: ErrorKind)
        ensures
            r == self.spec_kind(),
            r == kind_of(self.spec_cause()),
    {
        proof {
            use_type_invariant(self);
        }
        self.kind
    }

    /// The fault that caused the error.
    pub fn cause(&self) -> (r: Error)
        ensures
            r == self.spec_cause(),
    {
        self.cause
    }
}

impl From<Error> for GenericError {
    fn from(error: Error) -> (r: GenericError)
        ensures
            r.spec_kind() == kind_of(error),
            r.spec_cause() == error,
    {
        GenericError { kind: ErrorKind::from(error), cause: error }
    }
}

impl vstd::std_specs::convert::FromSpecImpl<Error> for GenericError {
    open spec fn obeys_from_spec() -> bool {
        true
    }

    closed spec fn from_spec(v: Error) -> GenericError {
        GenericError { kind: kind_of(v), cause: v }
    }
}

/// The coarse mapping is total: every fault lands in the category that its
/// group calls for, and in no other.
pub proof fn lemma_kind_total(e: Error)
    ensures
        kind_of(e) == ErrorKind::InvalidData <==> (e is Decode || e is Decrypt || e is Duplicate
            || e is StreamMismatch || e is InvalidFin || e is OutOfOrder
            || e is UnexpectedRetransmission),
        kind_of(e) == ErrorKind::ConnectionAborted <==> (e is MaxDataExceeded || e is OutOfRange),
        kind_of(e) == ErrorKind::UnexpectedEof <==> e is TruncatedTransport,
        kind_of(e) == ErrorKind::TimedOut <==> e is IdleTimeout,
        kind_of(e) == ErrorKind::PermissionDenied <==> (e is KeyReplayPrevented
            || e is KeyReplayMaybePrevented),
        kind_of(e) == ErrorKind::ConnectionReset <==> e is ApplicationError,
{
}

/// Wrapping a fault as a generic error and taking its cause back gives the
/// fault itself, and the wrapped error has the fault's category.
pub proof fn lemma_cause_round_trip(e: Error)
    ensures
        <GenericError as vstd::std_specs::convert::FromSpec<Error>>::from_spec(e).spec_cause() == e,
        <GenericError as vstd::std_specs::convert::FromSpec<Error>>::from_spec(e).spec_kind() == kind_of(e),
{
}

} // verus!
