//! The engine's requests and responses, and their JSON forms.
//!
//! Requests and responses belong to the GraphQL engine and pass through the
//! bridge unread, but for one thing: whether a response carries errors.

use vstd::prelude::*;
use crate::error::BridgeError;
use crate::error::ErrorKind;

verus! {

/// `serde_json::Value`: a JSON value, as the host transport delivers a payload.
#[verifier::external_type_specification]
#[verifier::external_body]
pub struct ExJsonValue(serde_json::Value);

/// `serde_json::Error`: why a value could not be decoded or encoded.
#[verifier::external_type_specification]
#[verifier::external_body]
pub struct ExJsonError(serde_json::Error);

/// `async_graphql::Request`: one operation for the engine.
#[verifier::external_type_specification]
#[verifier::external_body]
pub struct ExRequest(async_graphql::Request);

/// `async_graphql::BatchRequest`: one operation, or several, for the engine.
#[verifier::external_type_specification]
#[verifier::external_body]
pub struct ExBatchRequest(async_graphql::BatchRequest);

/// `async_graphql::Response`: the engine's answer to one operation.
#[verifier::external_type_specification]
#[verifier::external_body]
pub struct ExResponse(async_graphql::Response);

/// `async_graphql::BatchResponse`: the engine's answers to a batch request.
#[verifier::external_type_specification]
#[verifier::external_body]
pub struct ExBatchResponse(async_graphql::BatchResponse);

/// What a batch response holds, as far as the bridge reads it: for each of
/// its responses, in order, the number of errors that the response carries.
pub uninterp spec fn error_counts(response: async_graphql::BatchResponse) -> Seq<nat>;

/// The JSON text of a batch response, or why it has none.
pub uninterp spec fn batch_text(response: async_graphql::BatchResponse) -> Result<
    Seq<char>,
    serde_json::Error,
>;

/// The JSON text of a single response, or why it has none.
pub uninterp spec fn response_text(response: async_graphql::Response) -> Result<
    Seq<char>,
    serde_json::Error,
>;

/// Why a payload is no request for the engine, single or batched; `None`
/// where it is one.
pub uninterp spec fn request_fault(payload: serde_json::Value) -> Option<serde_json::Error>;

/// None of the responses carries an error.
pub open spec fn no_errors(counts: Seq<nat>) -> bool {
    forall|i: int| 0 <= i < counts.len() ==> counts[i] == 0
}

/// `async_graphql::BatchResponse::is_ok`: true exactly when the error list of
/// every response in the batch is empty.
pub assume_specification[ async_graphql::BatchResponse::is_ok ](
    response: &async_graphql::BatchResponse,
) -> (ok: bool)
    ensures
        ok == no_errors(error_counts(*response)),
;

/// `serde_json::from_value` at `async_graphql::BatchRequest`: decodes a
/// payload into a request for the engine. Whether it succeeds, and with which
/// error it fails, depends on the payload alone; nothing is claimed of the
/// request that comes out.
#[verifier::external_body]
pub(crate) fn batch_request_from_value(payload: serde_json::Value) -> (decoded: Result<
    async_graphql::BatchRequest,
    serde_json::Error,
>)
    ensures
        match decoded {
            Ok(_) => request_fault(payload) is None,
            Err(cause) => request_fault(payload) == Some(cause),
        },
{
    serde_json::from_value(payload)
}

/// `serde_json::to_string` at `async_graphql::BatchResponse`: the JSON text of
/// the engine's answer, or the encoder's error. Either depends on the
/// response alone.
#[verifier::external_body]
pub(crate) fn batch_response_to_string(response: &async_graphql::BatchResponse) -> (encoded:
    Result<String, serde_json::Error>)
    ensures
        match encoded {
            Ok(text) => batch_text(*response) == Ok::<Seq<char>, serde_json::Error>(text@),
            Err(cause) => batch_text(*response) == Err::<Seq<char>, serde_json::Error>(cause),
        },
{
    serde_json::to_string(response)
}

/// `serde_json::to_string` at `async_graphql::Response`: the JSON text of one
/// result of a subscription, or the encoder's error. Either depends on the
/// response alone.
#[verifier::external_body]
pub(crate) fn response_to_string(response: &async_graphql::Response) -> (encoded: Result<
    String,
    serde_json::Error,
>)
    ensures
        match encoded {
            Ok(text) => response_text(*response) == Ok::<Seq<char>, serde_json::Error>(text@),
            Err(cause) => response_text(*response) == Err::<Seq<char>, serde_json::Error>(cause),
        },
{
    serde_json::to_string(response)
}

/// `text` is what `Display` writes for `error`.
pub open spec fn describes(error: serde_json::Error, text: String) -> bool {
    vstd::string::to_string_from_display_ensures::<serde_json::Error>(&error, text)
}

/// The rejection of a payload that could not be decoded: its message is the
/// text of the decoder's error.
pub fn decode_failure(cause: &serde_json::Error) -> (e: BridgeError)
    ensures
        e.kind == ErrorKind::Decode,
        describes(*cause, e.message),
{
    BridgeError::decode(cause.to_string())
}

/// The rejection of a response that could not be serialized: its message is
/// the text of the encoder's error.
pub fn encode_failure(cause: &serde_json::Error) -> (e: BridgeError)
    ensures
        e.kind == ErrorKind::Encode,
        describes(*cause, e.message),
{
    BridgeError::encode(cause.to_string())
}

/// What becomes of a decoder's outcome: the decoded value, unchanged, or the
/// rejection that carries the decoder's error text.
pub fn decoded<T>(parsed: Result<T, serde_json::Error>) -> (outcome: Result<T, BridgeError>)
    ensures
        match parsed {
            Ok(value) => outcome == Ok::<T, BridgeError>(value),
            Err(cause) => {
                &&& outcome matches Err(e)
                &&& e.kind == ErrorKind::Decode
                &&& describes(cause, e.message)
            },
        },
{
    match parsed {
        Ok(value) => Ok(value),
        Err(cause) => Err(decode_failure(&cause)),
    }
}

} // verus!
