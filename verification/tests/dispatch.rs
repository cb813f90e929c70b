use rust_wasm_compute::health_body;
use rust_wasm_compute::ops::{error_body, parse_operation, Operation};

#[test]
fn parse_recognizes_embedding() {
    assert_eq!(
        parse_operation(&String::from("embedding")),
        Some(Operation::Embedding)
    );
}

#[test]
fn parse_recognizes_multiply() {
    assert_eq!(
        parse_operation(&String::from("multiply")),
        Some(Operation::Multiply)
    );
}

#[test]
fn parse_recognizes_add() {
    assert_eq!(parse_operation(&String::from("add")), Some(Operation::Add));
}

#[test]
fn parse_rejects_unknown_operation() {
    assert_eq!(parse_operation(&String::from("unknown")), None);
}

#[test]
fn parse_rejects_empty_string() {
    assert_eq!(parse_operation(&String::from("")), None);
}

#[test]
fn parse_is_case_sensitive() {
    assert_eq!(parse_operation(&String::from("Multiply")), None);
    assert_eq!(parse_operation(&String::from("ADD")), None);
}

#[test]
fn error_body_is_the_fixed_payload() {
    assert_eq!(error_body(), "{\"error\":\"Unknown operation\"}");
}

#[test]
fn error_body_is_valid_json() {
    let v: serde_json::Value = serde_json::from_str(&error_body()).unwrap();
    assert_eq!(v.get("error").unwrap().as_str().unwrap(), "Unknown operation");
}

#[test]
fn health_body_is_the_fixed_payload() {
    assert_eq!(
        health_body(),
        "{\"status\":\"healthy\",\"service\":\"rust-wasm-compute\"}"
    );
}

#[test]
fn health_body_does_not_depend_on_prior_state() {
    let first = health_body();
    let second = health_body();
    assert_eq!(first, second);
    let v: serde_json::Value = serde_json::from_str(&second).unwrap();
    assert_eq!(v.get("status").unwrap().as_str().unwrap(), "healthy");
    assert_eq!(
        v.get("service").unwrap().as_str().unwrap(),
        "rust-wasm-compute"
    );
}
