use async_graphql_actix_web::descriptor::OperationDescriptor;
use async_graphql_actix_web::error::{FailureKind, RequestError};

fn parsed(data: &[u8]) -> OperationDescriptor {
    match OperationDescriptor::parse(data) {
        Ok(operation) => operation,
        Err(error) => panic!("the operation was refused: {:?}", error),
    }
}

#[test]
fn parse_reads_a_bare_query() {
    let operation = parsed(br#"{"query": "{ a b c }"}"#);
    assert_eq!(operation.query, "{ a b c }");
    assert_eq!(operation.operation_name, None);
    assert_eq!(operation.variables, None);
}

#[test]
fn parse_reads_the_operation_name() {
    let operation = parsed(br#"{"query": "query a { b }", "operationName": "a"}"#);
    assert_eq!(operation.query, "query a { b }");
    assert_eq!(operation.operation_name, Some("a".to_string()));
    assert_eq!(operation.variables, None);
}

#[test]
fn parse_reads_the_variables() {
    let operation = parsed(
        br#"{"query": "mutation ($file: Upload!) { upload(file: $file) }", "variables": {"file": null, "n": 3}}"#,
    );
    let mut expected = serde_json::Map::new();
    expected.insert("file".to_string(), serde_json::Value::Null);
    expected.insert("n".to_string(), serde_json::Value::from(3));
    assert_eq!(operation.variables, Some(serde_json::Value::Object(expected)));
}

#[test]
fn parse_takes_null_for_absent() {
    let operation = parsed(br#"{"query": "{ a }", "operationName": null, "variables": null}"#);
    assert_eq!(operation.operation_name, None);
    assert_eq!(operation.variables, None);
}

#[test]
fn parse_ignores_other_members() {
    let operation = parsed(br#"{"extensions": {}, "query": "{ a }"}"#);
    assert_eq!(operation.query, "{ a }");
}

#[test]
fn parse_refuses_what_is_not_a_request_object() {
    for data in [
        &b""[..],
        &b"{"[..],
        &b"{}"[..],
        &br#"{"operationName": "a"}"#[..],
        &br#"{"query": 1}"#[..],
        &br#"{"query": "{ a }", "operationName": 1}"#[..],
        &br#"["{ a }"]"#[..],
        &br#"{"query": "{ a }"} trailing"#[..],
    ]
    .iter()
    {
        match OperationDescriptor::parse(data) {
            Ok(_) => panic!("accepted"),
            Err(error) => {
                assert_eq!(error.kind(), FailureKind::ParseError);
                match error {
                    RequestError::ParseError(message) => assert!(!message.is_empty()),
                    other => panic!("unexpected error {:?}", other),
                }
            }
        }
    }
}

#[test]
fn parse_error_carries_the_message_of_the_parser() {
    let data = br#"{"query": }"#;
    let expected = serde_json::from_slice::<serde_json::Value>(data).unwrap_err().to_string();
    match OperationDescriptor::parse(data) {
        Err(RequestError::ParseError(message)) => assert_eq!(message, expected),
        _ => panic!("expected a parse error"),
    }
}
