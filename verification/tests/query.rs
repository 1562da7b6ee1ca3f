use std::future::Future;
use std::task::Context;
use std::task::Poll;

use async_graphql::dynamic::Field;
use async_graphql::dynamic::FieldFuture;
use async_graphql::dynamic::FieldValue;
use async_graphql::dynamic::Object;
use async_graphql::dynamic::Schema;
use async_graphql::dynamic::TypeRef;
use async_graphql::BatchRequest;
use async_graphql::BatchResponse;
use async_graphql::Response;
use async_graphql::ServerError;
use async_graphql::Value;
use tauri_plugin_graphql::error::ErrorKind;
use tauri_plugin_graphql::query::answer_query;
use tauri_plugin_graphql::query::decode_query;
use tauri_plugin_graphql::query::query_reply;

struct User {
    id: i32,
    name: String,
}

fn block_on<F: Future>(future: F) -> F::Output {
    let mut future = Box::pin(future);
    let waker = async_graphql::futures_util::task::noop_waker();
    let mut context = Context::from_waker(&waker);
    for _ in 0..100_000 {
        if let Poll::Ready(output) = future.as_mut().poll(&mut context) {
            return output;
        }
    }
    panic!("the future did not complete");
}

fn json(text: &str) -> serde_json::Value {
    serde_json::from_str(text).unwrap()
}

fn schema() -> Schema {
    let user = Object::new("User")
        .field(Field::new("id", TypeRef::named_nn(TypeRef::INT), |ctx| {
            FieldFuture::new(async move {
                let user = ctx.parent_value.try_downcast_ref::<User>()?;
                Ok(Some(Value::from(user.id)))
            })
        }))
        .field(Field::new("name", TypeRef::named_nn(TypeRef::STRING), |ctx| {
            FieldFuture::new(async move {
                let user = ctx.parent_value.try_downcast_ref::<User>()?;
                Ok(Some(Value::from(user.name.clone())))
            })
        }));
    let query = Object::new("Query")
        .field(Field::new("me", TypeRef::named_nn("User"), |_| {
            FieldFuture::new(async move {
                Ok(Some(FieldValue::owned_any(User {
                    id: 1,
                    name: String::from("Luke Skywalker"),
                })))
            })
        }))
        .field(Field::new("broken", TypeRef::named(TypeRef::INT), |_| {
            FieldFuture::new(async move {
                Err::<Option<Value>, async_graphql::Error>(async_graphql::Error::new("it is broken"))
            })
        }));
    Schema::build("Query", None, None).register(user).register(query).finish().unwrap()
}

fn execute(request: BatchRequest) -> BatchResponse {
    let schema = schema();
    match request {
        BatchRequest::Single(request) => BatchResponse::Single(block_on(schema.execute(request))),
        BatchRequest::Batch(requests) => BatchResponse::Batch(
            requests.into_iter().map(|request| block_on(schema.execute(request))).collect(),
        ),
    }
}

fn invoke(payload: &str) -> (String, bool) {
    let request = decode_query(json(payload)).unwrap();
    answer_query(&execute(request)).unwrap()
}

#[test]
fn query_for_me_resolves_with_the_user_and_the_flag_set() {
    let (body, ok) = invoke("{\"query\":\"{ me { id name } }\"}");
    assert_eq!(body, "{\"data\":{\"me\":{\"id\":1,\"name\":\"Luke Skywalker\"}}}");
    assert!(ok);
}

#[test]
fn query_without_errors_has_no_errors_field() {
    let (body, ok) = invoke("{\"query\":\"{ me { name } }\"}");
    assert!(ok);
    let decoded = json(&body);
    assert!(decoded.get("errors").is_none());
    assert_eq!(decoded, json("{\"data\":{\"me\":{\"name\":\"Luke Skywalker\"}}}"));
}

#[test]
fn query_with_a_resolver_error_resolves_with_the_flag_cleared() {
    let (body, ok) = invoke("{\"query\":\"{ broken }\"}");
    assert!(!ok);
    let decoded = json(&body);
    let errors = decoded.get("errors").unwrap().as_array().unwrap();
    assert!(!errors.is_empty());
    assert_eq!(errors[0].get("message").unwrap(), "it is broken");
}

#[test]
fn query_for_an_unknown_field_resolves_with_the_flag_cleared() {
    let (body, ok) = invoke("{\"query\":\"{ nobody }\"}");
    assert!(!ok);
    let decoded = json(&body);
    assert!(!decoded.get("errors").unwrap().as_array().unwrap().is_empty());
}

#[test]
fn query_that_does_not_parse_resolves_with_the_flag_cleared() {
    let (body, ok) = invoke("{\"query\":\"{ me {\"}");
    assert!(!ok);
    assert!(!json(&body).get("errors").unwrap().as_array().unwrap().is_empty());
}

#[test]
fn batch_is_answered_with_an_array() {
    let (body, ok) = invoke("[{\"query\":\"{ me { id } }\"},{\"query\":\"{ me { name } }\"}]");
    assert!(ok);
    assert_eq!(
        body,
        "[{\"data\":{\"me\":{\"id\":1}}},{\"data\":{\"me\":{\"name\":\"Luke Skywalker\"}}}]"
    );
}

#[test]
fn batch_with_one_failing_operation_clears_the_flag() {
    let (body, ok) = invoke("[{\"query\":\"{ me { id } }\"},{\"query\":\"{ broken }\"}]");
    assert!(!ok);
    let decoded = json(&body);
    let answers = decoded.as_array().unwrap();
    assert_eq!(answers.len(), 2);
    assert!(answers[0].get("errors").is_none());
    assert!(!answers[1].get("errors").unwrap().as_array().unwrap().is_empty());
}

#[test]
fn operation_name_and_variables_are_decoded() {
    let request = decode_query(json(
        "{\"query\":\"query A { me { id } } query B { me { name } }\",\"operationName\":\"B\",\"variables\":{\"n\":1}}",
    ))
    .unwrap();
    match &request {
        BatchRequest::Single(single) => {
            assert_eq!(single.operation_name.as_deref(), Some("B"));
            assert_eq!(single.variables.get("n"), Some(&Value::from(1)));
        }
        BatchRequest::Batch(_) => panic!("a single request was decoded as a batch"),
    }
    let (body, ok) = answer_query(&execute(request)).unwrap();
    assert!(ok);
    assert_eq!(body, "{\"data\":{\"me\":{\"name\":\"Luke Skywalker\"}}}");
}

#[test]
fn payload_that_is_no_request_is_rejected_with_the_decoder_text() {
    for payload in ["7", "\"{ me { id } }\"", "true", "[1]", "{\"query\":7}", "[{\"query\":7}]"] {
        let value = json(payload);
        let expected = serde_json::from_value::<BatchRequest>(value.clone()).unwrap_err().to_string();
        let rejected = decode_query(value).unwrap_err();
        assert_eq!(rejected.kind, ErrorKind::Decode);
        assert_eq!(rejected.message, expected);
        assert!(!rejected.message.is_empty());
    }
}

#[test]
fn payload_is_decoded_as_the_engine_decodes_it() {
    let payloads = [
        "null",
        "[]",
        "{}",
        "[[]]",
        "7",
        "{\"query\":\"{ me { id } }\",\"unknown\":1}",
        "{\"variables\":[]}",
        "[{\"query\":\"{ me { id } }\"}]",
    ];
    for payload in payloads {
        let value = json(payload);
        let expected = serde_json::from_value::<BatchRequest>(value.clone())
            .map(|request| format!("{:?}", request))
            .map_err(|cause| cause.to_string());
        let decoded = decode_query(value)
            .map(|request| format!("{:?}", request))
            .map_err(|rejected| rejected.message);
        assert_eq!(decoded, expected);
    }
}

#[test]
fn payload_of_a_wrong_shape_names_the_request_type() {
    let rejected = decode_query(json("7")).unwrap_err();
    assert_eq!(rejected.kind, ErrorKind::Decode);
    assert_eq!(rejected.message, "data did not match any variant of untagged enum BatchRequest");
}

#[test]
fn answer_of_a_response_built_by_hand() {
    let data = Value::from_json(json("{\"me\":{\"id\":1,\"name\":\"Luke Skywalker\"}}")).unwrap();
    let response = BatchResponse::Single(Response::new(data));
    assert_eq!(
        answer_query(&response),
        Ok((String::from("{\"data\":{\"me\":{\"id\":1,\"name\":\"Luke Skywalker\"}}}"), true))
    );
}

#[test]
fn answer_of_a_response_with_errors_still_resolves() {
    let response =
        BatchResponse::Single(Response::from_errors(vec![ServerError::new("boom", None)]));
    let (body, ok) = answer_query(&response).unwrap();
    assert!(!ok);
    assert_eq!(body, "{\"data\":null,\"errors\":[{\"message\":\"boom\"}]}");
}

#[test]
fn answer_of_an_empty_batch_is_an_empty_array_without_errors() {
    let response = BatchResponse::Batch(Vec::new());
    assert_eq!(answer_query(&response), Ok((String::from("[]"), true)));
}

#[test]
fn answer_flag_is_cleared_by_an_error_anywhere_in_the_batch() {
    let good = || Response::new(Value::from(1));
    let bad = || Response::from_errors(vec![ServerError::new("boom", None)]);
    let cases = [
        (vec![good(), good(), good()], true),
        (vec![bad(), good(), good()], false),
        (vec![good(), bad(), good()], false),
        (vec![good(), good(), bad()], false),
        (vec![bad(), bad()], false),
    ];
    for (responses, expected) in cases {
        let (_, ok) = answer_query(&BatchResponse::Batch(responses)).unwrap();
        assert_eq!(ok, expected);
    }
}

#[test]
fn reply_keeps_the_text_and_the_flag() {
    assert_eq!(
        query_reply(Ok(String::from("{\"data\":null}")), true),
        Ok((String::from("{\"data\":null}"), true))
    );
    assert_eq!(query_reply(Ok(String::from("[]")), false), Ok((String::from("[]"), false)));
}

#[test]
fn reply_rejects_what_could_not_be_serialized() {
    let cause = serde_json::from_str::<u32>("x").unwrap_err();
    let text = cause.to_string();
    for ok in [true, false] {
        let cause = serde_json::from_str::<u32>("x").unwrap_err();
        let rejected = query_reply(Err(cause), ok).unwrap_err();
        assert_eq!(rejected.kind, ErrorKind::Encode);
        assert_eq!(rejected.message, text);
    }
}

#[test]
fn response_survives_encoding_and_decoding() {
    let data = Value::from_json(json(
        "{\"list\":[1,2.5,\"three\",null,true,{\"nested\":[]}],\"text\":\"a \\\"quoted\\\" \\u00e9\"}",
    ))
    .unwrap();
    let mut failing = Response::from_errors(vec![
        ServerError::new("first", None),
        ServerError::new("second", Some(async_graphql::Pos { line: 3, column: 9 })),
    ]);
    failing.data = Value::from_json(json("{\"partial\":1}")).unwrap();
    let responses = vec![
        Response::new(data),
        Response::new(Value::Null),
        failing,
        Response::new(Value::from(7)).extension("trace", Value::from("on")),
    ];
    for response in responses {
        let flag = response.is_ok();
        let batch = BatchResponse::Single(response);
        let (body, ok) = answer_query(&batch).unwrap();
        assert_eq!(ok, flag);
        let back: Response = serde_json::from_str(&body).unwrap();
        match &batch {
            BatchResponse::Single(original) => assert_eq!(&back, original),
            BatchResponse::Batch(_) => unreachable!(),
        }
    }
}
