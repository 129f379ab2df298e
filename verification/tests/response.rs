use gateway_client::builder::stage;
use gateway_client::builder::Request;
use gateway_client::error::{SequencerError, StarknetError, TransportError, TransportKind};
use gateway_client::response::{expects_error_body, parse, parse_raw};
use gateway_client::retry::{retry_condition, Step};
use gateway_client::url::Url;

fn block_not_found() -> StarknetError {
    StarknetError {
        code: "StarknetErrorCode.BLOCK_NOT_FOUND".to_owned(),
        message: "Block number 7 was not found.".to_owned(),
    }
}

fn body_failure() -> TransportError {
    TransportError::new(TransportKind::Body)
}

#[test]
fn only_400_and_500_carry_an_error_of_the_gateway() {
    for status in 0..=u16::MAX {
        assert_eq!(expects_error_body(status), status == 400 || status == 500);
    }
}

#[test]
fn a_success_is_accepted() {
    for status in 200..=299 {
        assert_eq!(parse_raw(status, None), Ok(()));
        // Nothing is decoded as an error of the gateway then, whatever is handed in.
        assert_eq!(parse_raw(status, Some(Ok(block_not_found()))), Ok(()));
        assert_eq!(parse_raw(status, Some(Err(body_failure()))), Ok(()));
    }
}

#[test]
fn an_error_of_the_gateway_is_recognised() {
    for status in [400, 500] {
        assert_eq!(
            parse_raw(status, Some(Ok(block_not_found()))),
            Err(SequencerError::StarknetError(block_not_found()))
        );
    }
}

#[test]
fn a_body_of_another_shape_is_an_invalid_variant() {
    for status in [400, 500] {
        assert_eq!(
            parse_raw(status, Some(Err(TransportError::decode()))),
            Err(SequencerError::InvalidStarknetErrorVariant)
        );
        assert_eq!(
            parse_raw(status, None),
            Err(SequencerError::InvalidStarknetErrorVariant)
        );
    }
}

#[test]
fn a_body_that_does_not_arrive_is_a_failure_of_the_transport() {
    let timed_out = TransportError {
        kind: TransportKind::Body,
        connect: false,
        timeout: true,
    };
    for status in [400, 500] {
        assert_eq!(
            parse_raw(status, Some(Err(body_failure()))),
            Err(SequencerError::ReqwestError(body_failure()))
        );
        assert_eq!(
            parse_raw(status, Some(Err(timed_out))),
            Err(SequencerError::ReqwestError(timed_out))
        );
    }
}

#[test]
fn every_other_status_is_a_failure_of_the_transport() {
    for status in 0..=u16::MAX {
        if (200..=299).contains(&status) || status == 400 || status == 500 {
            continue;
        }
        let expected = Err(SequencerError::ReqwestError(TransportError {
            kind: TransportKind::Status(status),
            connect: false,
            timeout: false,
        }));
        assert_eq!(parse_raw(status, None), expected);
        // An error of the gateway is not looked for there.
        assert_eq!(parse_raw(status, Some(Ok(block_not_found()))), expected);
    }
}

#[test]
fn statuses_below_and_above_success_fail() {
    for status in [100u16, 199, 300, 301, 304, 399, 401, 404, 429, 499, 501, 502, 503, 504, 599] {
        assert_eq!(
            parse_raw(status, None),
            Err(SequencerError::ReqwestError(TransportError::status_code(status)))
        );
    }
}

#[test]
fn the_payload_of_a_success_is_handed_on() {
    assert_eq!(parse(200, None, Ok("Finally!".to_owned())), Ok("Finally!".to_owned()));
    assert_eq!(parse(204, None, Ok(vec![1u8, 2, 3])), Ok(vec![1u8, 2, 3]));
}

#[test]
fn a_payload_that_cannot_be_read_is_a_failure_of_the_transport() {
    assert_eq!(
        parse::<String>(200, None, Err(TransportError::decode())),
        Err(SequencerError::ReqwestError(TransportError::decode()))
    );
    assert_eq!(
        parse::<Vec<u8>>(200, None, Err(body_failure())),
        Err(SequencerError::ReqwestError(body_failure()))
    );
}

#[test]
fn the_status_is_judged_before_the_payload() {
    assert_eq!(
        parse(500, Some(Ok(block_not_found())), Ok(1u8)),
        Err(SequencerError::StarknetError(block_not_found()))
    );
    assert_eq!(
        parse(400, Some(Err(TransportError::decode())), Ok(1u8)),
        Err(SequencerError::InvalidStarknetErrorVariant)
    );
    assert_eq!(
        parse(503, None, Ok(1u8)),
        Err(SequencerError::ReqwestError(TransportError::status_code(503)))
    );
    assert_eq!(
        parse::<u8>(404, None, Err(TransportError::decode())),
        Err(SequencerError::ReqwestError(TransportError::status_code(404)))
    );
}

#[test]
fn causes_short_reply() {
    // The gateway answers 500 with the body "whatever", and retries are off.
    let client = reqwest::Client::new();
    let url = Url::parse("http://localhost/").unwrap();
    let request: Request<stage::Final> = Request::builder(&client, url, None)
        .get_block()
        .with_retry(false);
    let mut call = request.get();
    let decoded = serde_json::from_str::<serde_json::Value>("whatever")
        .map(|_| block_not_found())
        .map_err(|_| TransportError::decode());
    let outcome = parse::<String>(500, Some(decoded), Err(TransportError::decode()));
    assert_eq!(call.after(&outcome), Step::Return);
    let error = outcome.unwrap_err();
    assert_eq!(
        error.message(),
        "error decoding response body: invalid error variant"
    );
    assert_eq!(error, SequencerError::InvalidStarknetErrorVariant);
    assert_ne!(
        error,
        SequencerError::ReqwestError(TransportError::decode())
    );
    assert!(retry_condition(&error));
}
