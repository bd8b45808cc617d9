use recv_fault::{
    AppErrorCode, BufferError, CloseCategory, ConnectionClose, Error, ErrorKind, GenericError,
    ReplaySignal, TransportFeatures,
};

fn all_faults() -> Vec<Error> {
    vec![
        Error::Decode,
        Error::Decrypt,
        Error::Duplicate,
        Error::StreamMismatch { expected: 1, actual: 2 },
        Error::OutOfOrder { expected: 3, actual: 4 },
        Error::MaxDataExceeded,
        Error::InvalidFin,
        Error::OutOfRange,
        Error::UnexpectedRetransmission,
        Error::TruncatedTransport,
        Error::IdleTimeout,
        Error::KeyReplayPrevented,
        Error::KeyReplayMaybePrevented { gap: None },
        Error::KeyReplayMaybePrevented { gap: Some(9) },
        Error::ApplicationError { error: AppErrorCode::new(42).unwrap() },
    ]
}

fn protocol_violation() -> Option<ConnectionClose> {
    Some(ConnectionClose { error_code: 0x0a, frame_type: Some(0) })
}

#[test]
fn every_fault_fatal_on_stream() {
    let stream = TransportFeatures::stream();
    assert!(stream.is_stream());
    for e in all_faults() {
        assert!(e.is_fatal(&stream), "{e:?}");
    }
}

#[test]
fn only_unit_faults_recoverable_on_datagram() {
    let datagram = TransportFeatures::datagram();
    assert!(!datagram.is_stream());
    for e in all_faults() {
        let unit = matches!(
            e,
            Error::Decode | Error::Decrypt | Error::Duplicate | Error::StreamMismatch { .. }
        );
        assert_eq!(e.is_fatal(&datagram), !unit, "{e:?}");
    }
}

#[test]
fn silent_faults_have_no_close() {
    assert_eq!(Error::IdleTimeout.connection_close(), None);
    assert_eq!(Error::KeyReplayPrevented.connection_close(), None);
    assert_eq!(Error::KeyReplayMaybePrevented { gap: None }.connection_close(), None);
    assert_eq!(Error::KeyReplayMaybePrevented { gap: Some(0) }.connection_close(), None);
    assert_eq!(Error::KeyReplayMaybePrevented { gap: Some(u64::MAX) }.connection_close(), None);
}

#[test]
fn decode_and_retransmission_are_protocol_violations() {
    assert_eq!(Error::Decode.connection_close(), protocol_violation());
    assert_eq!(Error::UnexpectedRetransmission.connection_close(), protocol_violation());
    assert_eq!(Error::Decode.close_category(), Some(CloseCategory::ProtocolViolation));
}

#[test]
fn close_table() {
    let frame = |code: u64| Some(ConnectionClose { error_code: code, frame_type: Some(0) });
    assert_eq!(Error::Decrypt.connection_close(), frame(0x0a));
    assert_eq!(Error::StreamMismatch { expected: 1, actual: 2 }.connection_close(), frame(0x0a));
    assert_eq!(Error::MaxDataExceeded.connection_close(), frame(0x03));
    assert_eq!(Error::InvalidFin.connection_close(), frame(0x06));
    assert_eq!(Error::TruncatedTransport.connection_close(), frame(0x06));
    assert_eq!(Error::OutOfRange.connection_close(), frame(0x04));
    assert_eq!(Error::OutOfOrder { expected: 1, actual: 0 }.connection_close(), frame(0x05));
    let code = AppErrorCode::new(0x1234).unwrap();
    assert_eq!(
        Error::ApplicationError { error: code }.connection_close(),
        Some(ConnectionClose { error_code: 0x1234, frame_type: None })
    );
    assert_eq!(
        Error::ApplicationError { error: code }.close_category(),
        Some(CloseCategory::Application { code })
    );
}

#[test]
fn replay_signals() {
    assert_eq!(Error::from(ReplaySignal::DefinitelyDetected), Error::KeyReplayPrevented);
    assert_eq!(
        Error::from(ReplaySignal::PotentiallyDetected { gap: Some(5) }),
        Error::KeyReplayMaybePrevented { gap: Some(5) }
    );
    assert_eq!(
        Error::from(ReplaySignal::PotentiallyDetected { gap: None }),
        Error::KeyReplayMaybePrevented { gap: None }
    );
    assert_eq!(Error::from(ReplaySignal::InvalidTag), Error::Decrypt);
}

#[test]
fn buffer_errors() {
    assert_eq!(Error::from(BufferError::OutOfRange), Error::OutOfRange);
    assert_eq!(Error::from(BufferError::InvalidFin), Error::InvalidFin);
    assert_eq!(Error::from(BufferError::ReaderError(Error::Duplicate)), Error::Duplicate);
}

#[test]
fn generic_categories() {
    let expect = [
        ErrorKind::InvalidData,
        ErrorKind::InvalidData,
        ErrorKind::InvalidData,
        ErrorKind::InvalidData,
        ErrorKind::InvalidData,
        ErrorKind::ConnectionAborted,
        ErrorKind::InvalidData,
        ErrorKind::ConnectionAborted,
        ErrorKind::InvalidData,
        ErrorKind::UnexpectedEof,
        ErrorKind::TimedOut,
        ErrorKind::PermissionDenied,
        ErrorKind::PermissionDenied,
        ErrorKind::PermissionDenied,
        ErrorKind::ConnectionReset,
    ];
    for (e, k) in all_faults().into_iter().zip(expect) {
        assert_eq!(ErrorKind::from(e), k, "{e:?}");
    }
}

#[test]
fn generic_error_round_trip() {
    for e in all_faults() {
        let g = GenericError::from(e);
        assert_eq!(g.cause(), e);
        assert_eq!(g.kind(), ErrorKind::from(e));
    }
}

#[test]
fn scenario_datagram_duplicate() {
    let e = Error::Duplicate;
    assert!(!e.is_fatal(&TransportFeatures::datagram()));
    assert_eq!(e.close_category(), Some(CloseCategory::ProtocolViolation));
    assert_eq!(e.connection_close(), protocol_violation());
}

#[test]
fn scenario_stream_duplicate() {
    assert!(Error::Duplicate.is_fatal(&TransportFeatures::stream()));
}

#[test]
fn scenario_out_of_order() {
    let e = Error::OutOfOrder { expected: 10, actual: 7 };
    assert!(e.is_fatal(&TransportFeatures::stream()));
    assert!(e.is_fatal(&TransportFeatures::datagram()));
    assert_eq!(e.close_category(), Some(CloseCategory::StreamStateError));
    assert_eq!(
        e.connection_close(),
        Some(ConnectionClose { error_code: 0x05, frame_type: Some(0) })
    );
}

#[test]
fn application_code_limits() {
    let max = (1u64 << 62) - 1;
    assert_eq!(AppErrorCode::new(max).map(|c| c.code()), Some(max));
    assert_eq!(AppErrorCode::new(0).map(|c| c.code()), Some(0));
    assert!(AppErrorCode::new(max + 1).is_none());
    assert!(AppErrorCode::new(u64::MAX).is_none());
}
