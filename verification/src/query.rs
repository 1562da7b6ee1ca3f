//! The query endpoint: decodes a request for the engine and, once the engine
//! has answered, says what the invocation is resolved or rejected with.

use vstd::prelude::*;
use crate::engine::batch_request_from_value;
use crate::engine::batch_response_to_string;
use crate::engine::batch_text;
use crate::engine::decoded;
use crate::engine::describes;
use crate::engine::encode_failure;
use crate::engine::error_counts;
use crate::engine::no_errors;
use crate::engine::request_fault;
use crate::error::BridgeError;
use crate::error::ErrorKind;

verus! {

/// Decodes the payload of a query invocation into a request for the engine,
/// single or batched. A payload of another shape is rejected with the
/// decoder's error text.
pub fn decode_query(payload: serde_json::Value) -> (request: Result<
    async_graphql::BatchRequest,
    BridgeError,
>)
    ensures
        match request_fault(payload) {
            None => request is Ok,
            Some(cause) => {
                &&& request matches Err(e)
                &&& e.kind == ErrorKind::Decode
                &&& describes(cause, e.message)
            },
        },
{
    decoded(batch_request_from_value(payload))
}

/// What a query invocation is answered with, given the outcome of
/// serializing the engine's response and whether the response is free of
/// errors. A serialized response resolves the invocation with its text and
/// the flag, whatever the flag is: errors of the engine travel inside the
/// text. Only a response that could not be serialized rejects it.
pub fn query_reply(serialized: Result<String, serde_json::Error>, ok: bool) -> (reply: Result<
    (String, bool),
    BridgeError,
>)
    ensures
        match serialized {
            Ok(body) => reply == Ok::<(String, bool), BridgeError>((body, ok)),
            Err(cause) => {
                &&& reply matches Err(e)
                &&& e.kind == ErrorKind::Encode
                &&& describes(cause, e.message)
            },
        },
{
    match serialized {
        Ok(body) => Ok((body, ok)),
        Err(cause) => Err(encode_failure(&cause)),
    }
}

/// Answers a query invocation with the engine's response: its JSON text, and
/// a flag that is true exactly when no response in it carries an error.
pub fn answer_query(response: &async_graphql::BatchResponse) -> (reply: Result<
    (String, bool),
    BridgeError,
>)
    ensures
        match batch_text(*response) {
            Ok(text) => {
                &&& reply matches Ok(answer)
                &&& answer.0@ == text
                &&& answer.1 == no_errors(error_counts(*response))
            },
            Err(cause) => {
                &&& reply matches Err(e)
                &&& e.kind == ErrorKind::Encode
                &&& describes(cause, e.message)
            },
        },
{
    let ok = response.is_ok();
    query_reply(batch_response_to_string(response), ok)
}

} // verus!
