//! What a reply of the gateway amounts to.
//!
//! The gateway reports errors of its own with status 400 or 500 and a JSON
//! body that describes them. Such a reply is told apart from a failure of the
//! transport before the status is looked at in general.
use crate::error::{SequencerError, StarknetError, TransportError};
use vstd::prelude::*;

verus! {

/// Whether a reply with this status carries an error of the gateway's own in its body.
pub open spec fn carries_own_error(status: u16) -> bool {
    status == 500 || status == 400
}

/// Whether this status reports success.
pub open spec fn is_success(status: u16) -> bool {
    200 <= status <= 299
}

/// The error that a 400 or 500 reply stands for, given what came of decoding
/// its body as an error of the gateway: the error itself where it was
/// decoded; an invalid variant where the body has another shape, or was not
/// there to decode; the failure of the transport where the body did not
/// arrive.
pub open spec fn own_error(decoded: Option<Result<StarknetError, TransportError>>) -> SequencerError {
    match decoded {
        Some(Ok(e)) => SequencerError::StarknetError(e),
        Some(Err(e)) => if e.is_decode() {
            SequencerError::InvalidStarknetErrorVariant
        } else {
            SequencerError::ReqwestError(e)
        },
        None => SequencerError::InvalidStarknetErrorVariant,
    }
}

/// What a reply amounts to before its payload is read.
pub open spec fn raw_verdict(
    status: u16,
    error_body: Option<Result<StarknetError, TransportError>>,
) -> Result<(), SequencerError> {
    if carries_own_error(status) {
        Err(own_error(error_body))
    } else if !is_success(status) {
        Err(SequencerError::ReqwestError(TransportError::status_code(status)))
    } else {
        Ok(())
    }
}

/// What a reply amounts to: the payload where the reply is a success and the
/// payload could be read, and else the reason why not.
pub open spec fn verdict<T>(
    status: u16,
    error_body: Option<Result<StarknetError, TransportError>>,
    payload: Result<T, TransportError>,
) -> Result<T, SequencerError> {
    match raw_verdict(status, error_body) {
        Err(e) => Err(e),
        Ok(_) => match payload {
            Ok(value) => Ok(value),
            Err(e) => Err(SequencerError::ReqwestError(e)),
        },
    }
}

/// Whether the body of a reply with this status is to be decoded as an error
/// of the gateway, and handed to [`parse_raw`].
pub fn expects_error_body(status: u16) -> (expected: bool)
    ensures
        expected == carries_own_error(status),
{
    status == 500 || status == 400
}

/// Judges a reply by its status, without reading a payload. `error_body` is
/// what came of decoding the body as an error of the gateway; it is looked at
/// only where the status is 400 or 500.
pub fn parse_raw(status: u16, error_body: Option<Result<StarknetError, TransportError>>) -> (r:
    Result<(), SequencerError>)
    ensures
        r == raw_verdict(status, error_body),
{
    // Starknet specific errors end with a 400 or 500 status code
    // but the body contains a JSON object with the error description
    if status == 500 || status == 400 {
        let error = match error_body {
            Some(Ok(e)) => SequencerError::StarknetError(e),
            Some(Err(e)) => if e.is_decode() {
                SequencerError::InvalidStarknetErrorVariant
            } else {
                SequencerError::ReqwestError(e)
            },
            None => SequencerError::InvalidStarknetErrorVariant,
        };
        return Err(error);
    }
    if status < 200 || status > 299 {
        return Err(SequencerError::ReqwestError(TransportError::status_code(status)));
    }
    Ok(())
}

/// Judges a reply whose payload was asked for. `payload` is what came of
/// reading it; it is looked at only where the status reports success.
pub fn parse<T>(
    status: u16,
    error_body: Option<Result<StarknetError, TransportError>>,
    payload: Result<T, TransportError>,
) -> (r: Result<T, SequencerError>)
    ensures
        r == verdict(status, error_body, payload),
{
    match parse_raw(status, error_body) {
        Err(e) => Err(e),
        Ok(_) => match payload {
            Ok(value) => Ok(value),
            Err(e) => Err(SequencerError::ReqwestError(e)),
        },
    }
}

/// An error of the gateway's own is recognised whatever else the reply
/// holds, and is never retried; a 400 or 500 reply of another shape is told
/// apart from a payload that does not decode, and both are retried.
pub proof fn lemma_own_errors_come_first<T>(
    status: u16,
    e: StarknetError,
    mismatch: TransportError,
    payload: Result<T, TransportError>,
)
    requires
        carries_own_error(status),
        mismatch.is_decode(),
    ensures
        verdict(status, Some(Ok(e)), payload) == Err::<T, _>(SequencerError::StarknetError(e)),
        verdict(status, Some(Err(mismatch)), payload) == Err::<T, _>(
            SequencerError::InvalidStarknetErrorVariant,
        ),
        verdict(status, Some(Err(mismatch)), payload) != Err::<T, _>(
            SequencerError::ReqwestError(mismatch),
        ),
{
}

} // verus!
