use vstd::prelude::*;

verus! {

/// The largest value that a QUIC variable-length integer can carry (2^62 - 1).
pub const MAX_VARINT: u64 = 4611686018427387903;

/// Relies on `s2n_quic_core::application::Error::new`, which accepts a value
/// exactly when it fits a variable-length integer, and on its conversion back
/// into `u64`, which returns the value it was made from.
#[verifier::external_body]
fn checked_application_code(value: u64) -> (r: Option<u64>)
    ensures
        value <= MAX_VARINT ==> r == Some(value),
        value > MAX_VARINT ==> r is None,
{
    s2n_quic_core::application::Error::new(value).ok().map(u64::from)
}

/// An application error code: a 62-bit value chosen by the protocol above.
#[derive(Clone, Copy, Debug, PartialEq, Eq, Structural)]
pub struct AppErrorCode {
    code: u64,
}

impl AppErrorCode {
    /// The value fits a variable-length integer.
    #[verifier::type_invariant]
    spec fn fits(self) -> bool {
        self.code <= MAX_VARINT
    }

    /// The value of the code.
    pub closed spec fn spec_code(self) -> u64 {
        self.code
    }

    /// The code for `value`, or `None` when it does not fit in 62 bits.
    pub fn new(value: u64) -> (r: Option<AppErrorCode>)
        ensures
            value <= MAX_VARINT <==> r is Some,
            r matches Some(c) ==> c.spec_code() == value,
    {
        match checked_application_code(value) {
            Some(code) => Some(AppErrorCode { code }),
            None => None,
        }
    }

    pub fn code(&self) -> (r: u64)
        ensures
            r == self.spec_code(),
            r <= MAX_VARINT,
    {
        proof {
            use_type_invariant(self);
        }
        self.code
    }
}

/// What the connection knows of the transport beneath it.
#[derive(Clone, Copy, Debug, PartialEq, Eq, Structural)]
pub struct TransportFeatures {
    stream: bool,
}

impl TransportFeatures {
    /// A reliable, ordered, byte-stream transport.
    pub fn stream() -> (r: TransportFeatures)
        ensures
            r.spec_is_stream(),
    {
        TransportFeatures { stream: true }
    }

    /// An unreliable transport that carries separate datagrams.
    pub fn datagram() -> (r: TransportFeatures)
        ensures
            !r.spec_is_stream(),
    {
        TransportFeatures { stream: false }
    }

    /// Whether the transport is reliable, ordered and stream-shaped.
    pub closed spec fn spec_is_stream(self) -> bool {
        self.stream
    }

    /// Whether the transport is reliable, ordered and shaped as a byte stream.
    pub fn is_stream(&self) -> (r: bool)
        ensures
            r == self.spec_is_stream(),
    {
        self.stream
    }
}

/// What the replay detector reports while a packet is decrypted.
#[derive(Clone, Copy, Debug, PartialEq, Eq, Structural)]
pub enum ReplaySignal {
    /// The key was certainly used before.
    DefinitelyDetected,
    /// The key may have been used before; `gap` tells how far back, when known.
    PotentiallyDetected { gap: Option<u64> },
    /// The authentication tag did not verify.
    InvalidTag,
}

/// Every anomaly that the receive path can meet.
#[derive(Clone, Copy, Debug, PartialEq, Eq, Structural)]
pub enum Error {
    /// The packet could not be decoded.
    Decode,
    /// The packet could not be decrypted.
    Decrypt,
    /// The packet was already processed.
    Duplicate,
    /// The packet belonged to stream `actual` but reached stream `expected`.
    StreamMismatch { expected: u64, actual: u64 },
    /// In-order delivery expected sequence number `expected` and got `actual`.
    OutOfOrder { expected: u64, actual: u64 },
    /// The peer went past the flow-control window.
    MaxDataExceeded,
    /// The final size was changed or contradicted.
    InvalidFin,
    /// Data was placed outside the range that can be held.
    OutOfRange,
    /// A retransmission arrived where none was possible.
    UnexpectedRetransmission,
    /// The transport ended without an authenticated end of data.
    TruncatedTransport,
    /// The receive idle timer ran out.
    IdleTimeout,
    /// The key was replayed and can no longer be trusted.
    KeyReplayPrevented,
    /// The key may have been replayed and can no longer be trusted.
    KeyReplayMaybePrevented { gap: Option<u64> },
    /// An error raised by the application, with its code.
    ApplicationError { error: AppErrorCode },
}

/// A replay signal as a receive fault.
pub open spec fn fault_of_replay(s: ReplaySignal) -> Error {
    match s {
        ReplaySignal::DefinitelyDetected => Error::KeyReplayPrevented,
        ReplaySignal::PotentiallyDetected { gap } => Error::KeyReplayMaybePrevented { gap },
        ReplaySignal::InvalidTag => Error::Decrypt,
    }
}

impl From<ReplaySignal> for Error {
    fn from(value: ReplaySignal) -> (r: Error)
        ensures
            r == fault_of_replay(value),
    {
        match value {
            ReplaySignal::DefinitelyDetected => Error::KeyReplayPrevented,
            ReplaySignal::PotentiallyDetected { gap } => Error::KeyReplayMaybePrevented { gap },
            ReplaySignal::InvalidTag => Error::Decrypt,
        }
    }
}

impl vstd::std_specs::convert::FromSpecImpl<ReplaySignal> for Error {
    open spec fn obeys_from_spec() -> bool {
        true
    }

    open spec fn from_spec(v: ReplaySignal) -> Error {
        fault_of_replay(v)
    }
}

/// A failure of the reassembly buffer, whose reader may fail with a fault of its own.
#[derive(Clone, Copy, Debug, PartialEq, Eq, Structural)]
pub enum BufferError {
    OutOfRange,
    InvalidFin,
    ReaderError(Error),
}

/// A reassembly failure as a receive fault.
pub open spec fn fault_of_buffer(e: BufferError) -> Error {
    match e {
        BufferError::OutOfRange => Error::OutOfRange,
        BufferError::InvalidFin => Error::InvalidFin,
        BufferError::ReaderError(inner) => inner,
    }
}

impl From<BufferError> for Error {
    fn from(value: BufferError) -> (r: Error)
        ensures
            r == fault_of_buffer(value),
    {
        match value {
            BufferError::OutOfRange => Error::OutOfRange,
            BufferError::InvalidFin => Error::InvalidFin,
            BufferError::ReaderError(error) => error,
        }
    }
}

impl vstd::std_specs::convert::FromSpecImpl<BufferError> for Error {
    open spec fn obeys_from_spec() -> bool {
        true
    }

    open spec fn from_spec(v: BufferError) -> Error {
        fault_of_buffer(v)
    }
}

/// A fault that costs only the unit it arrived in: the unit can be dropped.
pub open spec fn is_unit_fault(e: Error) -> bool {
    e is Decode || e is Decrypt || e is Duplicate || e is StreamMismatch
}

/// On a stream transport every fault ends the connection; on a datagram
/// transport all but the unit faults do.
pub open spec fn fatal_on(e: Error, features: TransportFeatures) -> bool {
    features.spec_is_stream() || !is_unit_fault(e)
}

impl Error {
    /// Whether the fault ends the connection on a transport with `features`.
    pub fn is_fatal(&self, features: &TransportFeatures) -> (r: bool)
        ensures
            r == fatal_on(*self, *features),
    {
        // a stream whose framing or order was disturbed cannot be trusted again
        if features.is_stream() {
            return true;
        }
        !matches!(
            self,
            Error::Decode | Error::Decrypt | Error::Duplicate | Error::StreamMismatch { .. }
        )
    }
}

/// On a reliable, ordered, stream-shaped transport every fault is fatal.
pub proof fn lemma_stream_fault_fatal(e: Error, features: TransportFeatures)
    requires
        features.spec_is_stream(),
    ensures
        fatal_on(e, features),
{
}

/// Every fault but a decode, decrypt, duplicate or stream-mismatch fault is
/// fatal whatever the shape of the transport.
pub proof fn lemma_non_unit_fault_fatal(e: Error, features: TransportFeatures)
    requires
        !(e is Decode || e is Decrypt || e is Duplicate || e is StreamMismatch),
    ensures
        fatal_on(e, features),
{
}

/// On a datagram transport the decode, decrypt, duplicate and stream-mismatch
/// faults are the ones that leave the connection open.
pub proof fn lemma_datagram_unit_fault_recoverable(e: Error, features: TransportFeatures)
    requires
        !features.spec_is_stream(),
    ensures
        !fatal_on(e, features) <==> (e is Decode || e is Decrypt || e is Duplicate
            || e is StreamMismatch),
{
}

/// A definite replay becomes `KeyReplayPrevented`, a potential one becomes
/// `KeyReplayMaybePrevented` with its gap kept as it was, and a bad tag
/// becomes `Decrypt`.
pub proof fn lemma_replay_signal_fault(gap: Option<u64>)
    ensures
        fault_of_replay(ReplaySignal::DefinitelyDetected) == Error::KeyReplayPrevented,
        fault_of_replay(ReplaySignal::PotentiallyDetected { gap }) == (Error::KeyReplayMaybePrevented { gap }),
        fault_of_replay(ReplaySignal::InvalidTag) == Error::Decrypt,
{
}

/// A fault of delivery order is fatal on every transport.
pub proof fn lemma_out_of_order_fatal(expected: u64, actual: u64, features: TransportFeatures)
    ensures
        fatal_on(Error::OutOfOrder { expected, actual }, features),
{
}

} // verus!
