use tauri_plugin_graphql::engine::decode_failure;
use tauri_plugin_graphql::engine::decoded;
use tauri_plugin_graphql::engine::encode_failure;
use tauri_plugin_graphql::error::BridgeError;
use tauri_plugin_graphql::error::ErrorKind;

fn json_error(text: &str) -> serde_json::Error {
    serde_json::from_str::<u32>(text).unwrap_err()
}

#[test]
fn constructors_keep_the_detail_as_the_message() {
    let detail = String::from("the detail");
    assert_eq!(
        BridgeError::new(ErrorKind::Emit, detail.clone()),
        BridgeError { kind: ErrorKind::Emit, message: detail.clone() }
    );
    assert_eq!(
        BridgeError::decode(detail.clone()),
        BridgeError { kind: ErrorKind::Decode, message: detail.clone() }
    );
    assert_eq!(
        BridgeError::encode(detail.clone()),
        BridgeError { kind: ErrorKind::Encode, message: detail.clone() }
    );
    assert_eq!(
        BridgeError::emit(detail.clone()),
        BridgeError { kind: ErrorKind::Emit, message: detail }
    );
}

#[test]
fn decode_failure_carries_the_text_of_the_cause() {
    let cause = json_error("\"seven\"");
    let text = cause.to_string();
    assert_eq!(text, "invalid type: string \"seven\", expected u32 at line 1 column 7");
    let rejected = decode_failure(&cause);
    assert_eq!(rejected, BridgeError { kind: ErrorKind::Decode, message: text });
}

#[test]
fn encode_failure_carries_the_text_of_the_cause() {
    let cause = json_error("{");
    let text = cause.to_string();
    let rejected = encode_failure(&cause);
    assert_eq!(rejected, BridgeError { kind: ErrorKind::Encode, message: text });
}

#[test]
fn decoded_passes_a_value_through() {
    assert_eq!(decoded::<u32>(serde_json::from_str("42")), Ok(42));
}

#[test]
fn decoded_turns_a_failure_into_a_rejection() {
    let rejected = decoded::<u32>(serde_json::from_str("-1")).unwrap_err();
    assert_eq!(rejected.kind, ErrorKind::Decode);
    assert_eq!(rejected.message, json_error("-1").to_string());
    assert!(rejected.message.contains("invalid value"));
}
