use gateway_client::error::{SequencerError, StarknetError, TransportError, TransportKind};

#[test]
fn a_transport_error_answers_for_its_kind() {
    let e = TransportError::new(TransportKind::Body);
    assert!(e.is_body() && !e.is_decode() && !e.is_status());
    assert!(!e.is_connect() && !e.is_timeout());
    assert_eq!(e.status(), None);

    let e = TransportError::decode();
    assert!(e.is_decode() && !e.is_body() && !e.is_status());
    assert_eq!(e.status(), None);

    let e = TransportError::status_code(429);
    assert!(e.is_status() && !e.is_body() && !e.is_decode());
    assert_eq!(e.status(), Some(429));
    assert_eq!(e.kind, TransportKind::Status(429));

    let e = TransportError {
        kind: TransportKind::Request,
        connect: true,
        timeout: false,
    };
    assert!(e.is_connect() && !e.is_timeout());
    let e = TransportError {
        kind: TransportKind::Request,
        connect: false,
        timeout: true,
    };
    assert!(e.is_timeout() && !e.is_connect());
}

#[test]
fn a_transport_error_is_called_by_its_kind() {
    let message = |kind| TransportError::new(kind).message();
    assert_eq!(message(TransportKind::Builder), "the request could not be built");
    assert_eq!(message(TransportKind::Request), "the request could not be sent");
    assert_eq!(message(TransportKind::Redirect), "a redirect could not be followed");
    assert_eq!(message(TransportKind::Body), "a body could not be transferred");
    assert_eq!(
        message(TransportKind::Decode),
        "the body of the reply could not be decoded"
    );
    assert_eq!(message(TransportKind::Upgrade), "the connection could not be upgraded");
    assert_eq!(message(TransportKind::Status(404)), "the reply has status 404");
    assert_eq!(message(TransportKind::Status(503)), "the reply has status 503");
    assert_eq!(message(TransportKind::Status(301)), "the reply has status 301");
    assert_eq!(message(TransportKind::Status(0)), "the reply has status 0");
    assert_eq!(message(TransportKind::Status(u16::MAX)), "the reply has status 65535");
}

#[test]
fn each_error_has_its_message() {
    let own = SequencerError::StarknetError(StarknetError {
        code: "StarknetErrorCode.BLOCK_NOT_FOUND".to_owned(),
        message: "Block not found".to_owned(),
    });
    assert_eq!(own.message(), "Block not found");
    assert_eq!(
        SequencerError::ReqwestError(TransportError::status_code(502)).message(),
        "the reply has status 502"
    );
    assert_eq!(
        SequencerError::InvalidStarknetErrorVariant.message(),
        "error decoding response body: invalid error variant"
    );
}
