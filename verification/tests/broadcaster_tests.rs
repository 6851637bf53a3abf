use chain_monitor::broadcaster::{
    broadcast_failure_step, extract_rpc_payload, find_substr, parse_rpc_protocol_error, str_eq,
    BroadcastStep, RpcErrorCode, RpcParseError,
};
use chain_monitor::ids::TransactionKind;

#[test]
fn already_in_chain_is_treated_as_success() {
    let text =
        "sendrawtransaction RPC error: {\"code\":-27,\"message\":\"transaction already in block chain\"}";
    assert_eq!(broadcast_failure_step(text), Ok(BroadcastStep::AlreadyInChain));
}

#[test]
fn missing_or_spent_inputs_asks_for_the_transaction() {
    let text = "RPC error: {\"code\":-25,\"message\":\"bad-txns-inputs-missingorspent\"}";
    assert_eq!(broadcast_failure_step(text), Ok(BroadcastStep::CheckTransaction));
}

#[test]
fn other_rpc_errors_propagate() {
    let text = "RPC error: {\"code\":-26,\"message\":\"txn-mempool-conflict\"}";
    assert_eq!(broadcast_failure_step(text), Ok(BroadcastStep::Propagate));
}

#[test]
fn verify_error_with_other_message_propagates() {
    let text = "RPC error: {\"code\":-25,\"message\":\"somethingelse\"}";
    assert_eq!(broadcast_failure_step(text), Ok(BroadcastStep::Propagate));
}

#[test]
fn text_without_separator_is_unknown_format() {
    assert_eq!(
        broadcast_failure_step("connection reset by peer"),
        Err(RpcParseError::UnknownErrorCodeFormat)
    );
}

#[test]
fn non_json_payload_is_unexpected_format() {
    assert_eq!(
        broadcast_failure_step("RPC error: not json at all"),
        Err(RpcParseError::UnexpectedFormat)
    );
}

#[test]
fn payload_missing_fields_is_unexpected_format() {
    assert_eq!(
        broadcast_failure_step("RPC error: {\"code\":-27}"),
        Err(RpcParseError::UnexpectedFormat)
    );
}

#[test]
fn parse_extracts_code_and_message() {
    let text = "verification RPC error: {\"code\":-25,\"message\":\"dust\"}";
    let e = parse_rpc_protocol_error(text).unwrap();
    assert_eq!(e.code, -25);
    assert_eq!(e.message, "dust");
}

#[test]
fn payload_runs_to_the_second_separator() {
    let text = "aRPC error: bRPC error: c";
    assert_eq!(extract_rpc_payload(text).unwrap(), "b");
}

#[test]
fn payload_runs_to_the_end_without_second_separator() {
    assert_eq!(extract_rpc_payload("xyzRPC error: tail").unwrap(), "tail");
}

#[test]
fn empty_trailing_payload_is_none() {
    assert_eq!(extract_rpc_payload("xyzRPC error: "), None);
    assert_eq!(extract_rpc_payload("no separator here"), None);
}

#[test]
fn find_substr_returns_first_occurrence() {
    assert_eq!(find_substr("abcabc", "bc"), Some(1));
    assert_eq!(find_substr("abcabc", "zz"), None);
    assert_eq!(find_substr("abc", ""), Some(0));
    assert_eq!(find_substr("", "abc"), None);
}

#[test]
fn str_eq_compares_contents() {
    assert!(str_eq("abc", "abc"));
    assert!(!str_eq("abc", "abd"));
    assert!(!str_eq("abc", "ab"));
    assert!(str_eq("", ""));
}

#[test]
fn rpc_error_codes_have_their_wire_values() {
    assert_eq!(RpcErrorCode::RpcVerifyError.value(), -25);
    assert_eq!(RpcErrorCode::RpcVerifyAlreadyInChain.value(), -27);
}

#[test]
fn transaction_kind_names_are_the_metric_labels() {
    assert_eq!(TransactionKind::Lock.name(), "lock");
    assert_eq!(TransactionKind::Commit.name(), "commit");
    assert_eq!(TransactionKind::Refund.name(), "refund");
    assert_eq!(TransactionKind::CollaborativeClose.name(), "collaborative-close");
    assert_eq!(TransactionKind::Cet.name(), "contract-execution");
}

#[test]
fn error_text_from_a_protocol_value_parses() {
    // The indexer hands the error as a JSON string value; the caller takes
    // its text and classifies it.
    let v: serde_json::Value = serde_json::from_str(
        "\"sendrawtransaction RPC error: {\\\"code\\\":-27,\\\"message\\\":\\\"transaction already in block chain\\\"}\"",
    )
    .unwrap();
    let text = v.as_str().unwrap();
    assert_eq!(broadcast_failure_step(text), Ok(BroadcastStep::AlreadyInChain));
}
