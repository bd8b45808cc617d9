use vstd::prelude::*;
use crate::fault::{AppErrorCode, Error, MAX_VARINT};

verus! {

/// Relies on `s2n_quic_core::transport::Error::PROTOCOL_VIOLATION`: its code, 0x0a,
/// and its frame type, 0 (unknown).
#[verifier::external_body]
fn protocol_violation() -> (r: (u64, u64))
    ensures
        r == (0x0au64, 0u64),
{
    let e = s2n_quic_core::transport::Error::PROTOCOL_VIOLATION;
    (e.code.as_u64(), e.frame_type.as_u64())
}

/// Relies on `s2n_quic_core::transport::Error::FLOW_CONTROL_ERROR`: its code, 0x03,
/// and its frame type, 0 (unknown).
#[verifier::external_body]
fn flow_control_error() -> (r: (u64, u64))
    ensures
        r == (0x03u64, 0u64),
{
    let e = s2n_quic_core::transport::Error::FLOW_CONTROL_ERROR;
    (e.code.as_u64(), e.frame_type.as_u64())
}

/// Relies on `s2n_quic_core::transport::Error::STREAM_LIMIT_ERROR`: its code, 0x04,
/// and its frame type, 0 (unknown).
#[verifier::external_body]
fn stream_limit_error() -> (r: (u64, u64))
    ensures
        r == (0x04u64, 0u64),
{
    let e = s2n_quic_core::transport::Error::STREAM_LIMIT_ERROR;
    (e.code.as_u64(), e.frame_type.as_u64())
}

/// Relies on `s2n_quic_core::transport::Error::STREAM_STATE_ERROR`: its code, 0x05,
/// and its frame type, 0 (unknown).
#[verifier::external_body]
fn stream_state_error() -> (r: (u64, u64))
    ensures
        r == (0x05u64, 0u64),
{
    let e = s2n_quic_core::transport::Error::STREAM_STATE_ERROR;
    (e.code.as_u64(), e.frame_type.as_u64())
}

/// Relies on `s2n_quic_core::transport::Error::FINAL_SIZE_ERROR`: its code, 0x06,
/// and its frame type, 0 (unknown).
#[verifier::external_body]
fn final_size_error() -> (r: (u64, u64))
    ensures
        r == (0x06u64, 0u64),
{
    let e = s2n_quic_core::transport::Error::FINAL_SIZE_ERROR;
    (e.code.as_u64(), e.frame_type.as_u64())
}

/// The kind of closure that the peer is told of.
#[derive(Clone, Copy, Debug, PartialEq, Eq, Structural)]
pub enum CloseCategory {
    ProtocolViolation,
    FlowControlError,
    FinalSizeError,
    StreamStateError,
    StreamLimitError,
    /// The application's own code, passed on unchanged.
    Application { code: AppErrorCode },
}

/// The content of a CONNECTION_CLOSE frame: the error code, and for a
/// transport error the frame type that caused it (0 when unknown); an
/// application close carries no frame type.
#[derive(Clone, Copy, Debug, PartialEq, Eq, Structural)]
pub struct ConnectionClose {
    pub error_code: u64,
    pub frame_type: Option<u64>,
}

/// The transport error code of each transport category.
pub open spec fn transport_code(c: CloseCategory) -> u64 {
    match c {
        CloseCategory::ProtocolViolation => 0x0a,
        CloseCategory::FlowControlError => 0x03,
        CloseCategory::FinalSizeError => 0x06,
        CloseCategory::StreamStateError => 0x05,
        CloseCategory::StreamLimitError => 0x04,
        CloseCategory::Application { code } => code.spec_code(),
    }
}

/// The frame that announces a closure of category `c`.
pub open spec fn frame_of(c: CloseCategory) -> ConnectionClose {
    match c {
        CloseCategory::Application { code } => ConnectionClose {
            error_code: code.spec_code(),
            frame_type: None,
        },
        _ => ConnectionClose { error_code: transport_code(c), frame_type: Some(0) },
    }
}

/// What the peer is told when fault `e` ends the connection, if anything.
/// An idle timeout tells nothing, as the peer is presumed gone; a replayed
/// key tells nothing, as no message sealed with it can be trusted.
pub open spec fn close_category_of(e: Error) -> Option<CloseCategory> {
    match e {
        Error::Decode
        | Error::Decrypt
        | Error::Duplicate
        | Error::StreamMismatch { .. }
        | Error::UnexpectedRetransmission => Some(CloseCategory::ProtocolViolation),
        Error::MaxDataExceeded => Some(CloseCategory::FlowControlError),
        Error::InvalidFin | Error::TruncatedTransport => Some(CloseCategory::FinalSizeError),
        Error::OutOfOrder { .. } => Some(CloseCategory::StreamStateError),
        Error::OutOfRange => Some(CloseCategory::StreamLimitError),
        Error::IdleTimeout => None,
        Error::KeyReplayPrevented | Error::KeyReplayMaybePrevented { .. } => None,
        Error::ApplicationError { error } => Some(CloseCategory::Application { code: error }),
    }
}

/// The frame that announces fault `e` to the peer, if any.
pub open spec fn close_of(e: Error) -> Option<ConnectionClose> {
    match close_category_of(e) {
        Some(c) => Some(frame_of(c)),
        None => None,
    }
}

impl CloseCategory {
    /// The frame content for this category.
    pub fn to_frame(&self) -> (r: ConnectionClose)
        ensures
            r == frame_of(*self),
            r.error_code <= MAX_VARINT,
    {
        match self {
            CloseCategory::ProtocolViolation => {
                let (error_code, frame_type) = protocol_violation();
                ConnectionClose { error_code, frame_type: Some(frame_type) }
            },
            CloseCategory::FlowControlError => {
                let (error_code, frame_type) = flow_control_error();
                ConnectionClose { error_code, frame_type: Some(frame_type) }
            },
            CloseCategory::FinalSizeError => {
                let (error_code, frame_type) = final_size_error();
                ConnectionClose { error_code, frame_type: Some(frame_type) }
            },
            CloseCategory::StreamStateError => {
                let (error_code, frame_type) = stream_state_error();
                ConnectionClose { error_code, frame_type: Some(frame_type) }
            },
            CloseCategory::StreamLimitError => {
                let (error_code, frame_type) = stream_limit_error();
                ConnectionClose { error_code, frame_type: Some(frame_type) }
            },
            CloseCategory::Application { code } => ConnectionClose {
                error_code: code.code(),
                frame_type: None,
            },
        }
    }
}

impl Error {
    /// The category of closure that this fault calls for, if any.
    pub fn close_category(&self) -> (r: Option<CloseCategory>)
        ensures
            r == close_category_of(*self),
    {
        match self {
            Error::Decode
            | Error::Decrypt
            | Error::Duplicate
            | Error::StreamMismatch { .. }
            | Error::UnexpectedRetransmission => {
                // the faults that only a stream transport treats as fatal
                Some(CloseCategory::ProtocolViolation)
            },
            Error::IdleTimeout => None,
            Error::MaxDataExceeded => Some(CloseCategory::FlowControlError),
            Error::InvalidFin | Error::TruncatedTransport => Some(CloseCategory::FinalSizeError),
            Error::OutOfOrder { .. } => Some(CloseCategory::StreamStateError),
            Error::OutOfRange => Some(CloseCategory::StreamLimitError),
            // without a working key no closure can be authenticated
            Error::KeyReplayPrevented | Error::KeyReplayMaybePrevented { .. } => None,
            Error::ApplicationError { error } => Some(CloseCategory::Application { code: *error }),
        }
    }

    /// The frame that tells the peer why the connection ends, if any.
    pub fn connection_close(&self) -> (r: Option<ConnectionClose>)
        ensures
            r == close_of(*self),
    {
        match self.close_category() {
            Some(c) => Some(c.to_frame()),
            None => None,
        }
    }
}

/// An idle timeout and both replay faults, whatever their gap, tell the
/// peer nothing.
pub proof fn lemma_silent_faults(gap: Option<u64>)
    ensures
        close_of(Error::IdleTimeout) is None,
        close_of(Error::KeyReplayPrevented) is None,
        close_of(Error::KeyReplayMaybePrevented { gap }) is None,
{
}

/// Decode failures and unexpected retransmissions close with a protocol violation.
pub proof fn lemma_protocol_violations()
    ensures
        close_category_of(Error::Decode) == Some(CloseCategory::ProtocolViolation),
        close_category_of(Error::UnexpectedRetransmission) == Some(CloseCategory::ProtocolViolation),
        close_of(Error::Decode) == Some(ConnectionClose { error_code: 0x0a, frame_type: Some(0) }),
        close_of(Error::UnexpectedRetransmission) == Some(ConnectionClose { error_code: 0x0a, frame_type: Some(0) }),
{
}

/// A fault of delivery order closes with a stream state error.
pub proof fn lemma_out_of_order_close(expected: u64, actual: u64)
    ensures
        close_category_of(Error::OutOfOrder { expected, actual }) == Some(CloseCategory::StreamStateError),
        close_of(Error::OutOfOrder { expected, actual }) == Some(ConnectionClose { error_code: 0x05, frame_type: Some(0) }),
{
}

} // verus!
