use vstd::prelude::*;

use crate::json::{decode_object, decoded_object, decodes_as_object, JsonMap};

verus! {

/// Why a text query gave no successful answer.
#[derive(Debug)]
pub enum ApiError {
    /// The service answered with a status outside 2xx; its decoded body.
    RemoteRejection(JsonMap),
    /// No answer came back: the exchange failed on the way.
    TransportFailure(String),
    /// An answer came back whose body is not a JSON object.
    DecodeFailure(serde_json::Error),
}

/// An HTTP status of the 2xx class.
pub open spec fn is_success(status: u16) -> bool {
    200 <= status && status <= 299
}

/// The outcome of a query, from the status and the decoded body: a body
/// that decoded is the answer on success and the error detail otherwise.
pub open spec fn response_outcome(
    status: u16,
    decoded: Result<JsonMap, serde_json::Error>,
) -> Result<JsonMap, ApiError> {
    match decoded {
        Ok(body) => if is_success(status) {
            Ok(body)
        } else {
            Err(ApiError::RemoteRejection(body))
        },
        Err(e) => Err(ApiError::DecodeFailure(e)),
    }
}

/// Tells success from rejection by the status alone.
pub fn classify_response(status: u16, decoded: Result<JsonMap, serde_json::Error>) -> (r: Result<
    JsonMap,
    ApiError,
>)
    ensures
        r == response_outcome(status, decoded),
{
    match decoded {
        Ok(body) => if 200 <= status && status <= 299 {
            Ok(body)
        } else {
            Err(ApiError::RemoteRejection(body))
        },
        Err(e) => Err(ApiError::DecodeFailure(e)),
    }
}

/// Decodes the body of an answer and classifies it by its status.
pub fn read_response(status: u16, body: &[u8]) -> (r: Result<JsonMap, ApiError>)
    ensures
        r == response_outcome(status, decoded_object(body@)),
        r is Ok <==> is_success(status) && decodes_as_object(body@),
        (r is Err && r->Err_0 is RemoteRejection) <==> !is_success(status) && decodes_as_object(
            body@,
        ),
        (r is Err && r->Err_0 is DecodeFailure) <==> !decodes_as_object(body@),
        !(r is Err && r->Err_0 is TransportFailure),
{
    let decoded = decode_object(body);
    classify_response(status, decoded)
}

/// The outcome of one exchange: the status and body that came back, or the
/// reason none did.
pub fn read_exchange(exchange: Result<(u16, Vec<u8>), String>) -> (r: Result<JsonMap, ApiError>)
    ensures
        match exchange {
            Err(reason) => r == Err::<JsonMap, ApiError>(ApiError::TransportFailure(reason)),
            Ok((status, body)) => {
                &&& r == response_outcome(status, decoded_object(body@))
                &&& r is Ok <==> is_success(status) && decodes_as_object(body@)
                &&& (r is Err && r->Err_0 is RemoteRejection) <==> !is_success(status)
                    && decodes_as_object(body@)
                &&& (r is Err && r->Err_0 is DecodeFailure) <==> !decodes_as_object(body@)
            },
        },
{
    match exchange {
        Err(reason) => Err(ApiError::TransportFailure(reason)),
        Ok((status, body)) => read_response(status, body.as_slice()),
    }
}

} // verus!
