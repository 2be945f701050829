use async_graphql_actix_web::decoder::{
    decode, Decoded, Decoder, Disposition, FieldHeader, OpenField, Part,
};
use async_graphql_actix_web::decoder_model::Limits;
use async_graphql_actix_web::descriptor::OperationDescriptor;
use async_graphql_actix_web::error::{FailureKind, LeadingPart, RequestError};
use async_graphql_actix_web::status::Status;
use async_graphql_actix_web::upload_map::UploadMap;

const OPERATIONS: &[u8] =
    br#"{"query": "mutation ($file: Upload!) { upload(file: $file) }", "variables": {"file": null}}"#;
const MAP: &[u8] = br#"{"file": ["variables.file"]}"#;

fn limits(max_file_size: usize, max_file_count: usize) -> Limits {
    Limits { max_file_size, max_file_count }
}

fn header(name: Option<&str>, filename: Option<&str>, content_type: &str) -> FieldHeader {
    FieldHeader {
        disposition: Some(Disposition {
            name: name.map(|n| n.to_string()),
            filename: filename.map(|f| f.to_string()),
        }),
        content_type: content_type.to_string(),
    }
}

fn text_part(name: &str, body: &[u8]) -> Part {
    Part { header: header(Some(name), None, "application/json"), chunks: vec![body.to_vec()] }
}

fn file_part(name: &str, filename: &str, chunks: &[&[u8]]) -> Part {
    Part {
        header: header(Some(name), Some(filename), "text/plain"),
        chunks: chunks.iter().map(|c| c.to_vec()).collect(),
    }
}

fn failure(result: Result<Decoded, RequestError>) -> RequestError {
    match result {
        Ok(_) => panic!("the body was accepted"),
        Err(error) => error,
    }
}

fn success(result: Result<Decoded, RequestError>) -> Decoded {
    match result {
        Ok(decoded) => decoded,
        Err(error) => panic!("the body was refused: {:?}", error),
    }
}

fn opened(result: Result<OpenField, RequestError>) -> OpenField {
    match result {
        Ok(field) => field,
        Err(error) => panic!("the part was refused: {:?}", error),
    }
}

fn refused(result: Result<OpenField, RequestError>) -> RequestError {
    match result {
        Ok(_) => panic!("the part was accepted"),
        Err(error) => error,
    }
}

fn ended(result: Result<Decoder, RequestError>) -> Decoder {
    match result {
        Ok(decoder) => decoder,
        Err(error) => panic!("the part was refused: {:?}", error),
    }
}

fn not_ended(result: Result<Decoder, RequestError>) -> RequestError {
    match result {
        Ok(_) => panic!("the part was accepted"),
        Err(error) => error,
    }
}

fn operation() -> OperationDescriptor {
    OperationDescriptor { query: "{ a }".to_string(), operation_name: None, variables: None }
}

fn map_of(entries: &[(&str, &[&str])]) -> UploadMap {
    let mut map = UploadMap::new();
    for (name, paths) in entries.iter() {
        map.insert(name.to_string(), paths.iter().map(|p| p.to_string()).collect());
    }
    map
}

#[test]
fn a_well_formed_upload_is_decoded() {
    let parts = vec![
        text_part("operations", OPERATIONS),
        text_part("map", MAP),
        file_part("file", "a.txt", &[b"hello ", b"world"]),
    ];
    let decoded = success(decode(limits(1024, 9), &parts));
    assert_eq!(
        decoded.operation.query,
        "mutation ($file: Upload!) { upload(file: $file) }"
    );
    assert_eq!(decoded.operation.operation_name, None);
    let mut variables = serde_json::Map::new();
    variables.insert("file".to_string(), serde_json::Value::Null);
    assert_eq!(decoded.operation.variables, Some(serde_json::Value::Object(variables)));
    assert_eq!(decoded.attachments.len(), 1);
    let attachment = &decoded.attachments[0];
    assert_eq!(attachment.field_name, "file");
    assert_eq!(attachment.variable_path, "variables.file");
    assert_eq!(attachment.file.filename, "a.txt");
    assert_eq!(attachment.file.content_type, "text/plain");
    assert_eq!(&attachment.file.bytes[..], b"hello world");
}

#[test]
fn an_upload_without_files_is_decoded() {
    let parts = vec![text_part("operations", OPERATIONS), text_part("map", b"{}")];
    let decoded = success(decode(limits(1024, 9), &parts));
    assert!(decoded.attachments.is_empty());
}

#[test]
fn leading_parts_may_arrive_in_many_chunks() {
    let parts = vec![
        Part {
            header: header(Some("operations"), None, "application/json"),
            chunks: vec![OPERATIONS[..10].to_vec(), vec![], OPERATIONS[10..].to_vec()],
        },
        Part {
            header: header(Some("map"), None, "application/json"),
            chunks: MAP.iter().map(|b| vec![*b]).collect(),
        },
        file_part("file", "a.txt", &[]),
    ];
    let decoded = success(decode(limits(0, 1), &parts));
    assert_eq!(decoded.attachments.len(), 1);
    assert_eq!(&decoded.attachments[0].file.bytes[..], b"");
}

#[test]
fn leading_parts_are_not_held_to_the_file_size_limit() {
    let parts = vec![text_part("operations", OPERATIONS), text_part("map", b"{}")];
    assert!(decode(limits(1, 0), &parts).is_ok());
}

#[test]
fn one_file_goes_to_each_of_its_paths() {
    let parts = vec![
        text_part("operations", OPERATIONS),
        text_part("map", br#"{"f": ["variables.a", "variables.b.0", "variables.c"]}"#),
        file_part("f", "data.bin", &[&[1, 2, 3]]),
    ];
    let decoded = success(decode(limits(3, 1), &parts));
    let paths: Vec<&str> = decoded.attachments.iter().map(|a| a.variable_path.as_str()).collect();
    assert_eq!(paths, vec!["variables.a", "variables.b.0", "variables.c"]);
    for attachment in decoded.attachments.iter() {
        assert_eq!(attachment.field_name, "f");
        assert_eq!(attachment.file.filename, "data.bin");
        assert_eq!(&attachment.file.bytes[..], &[1, 2, 3]);
    }
    let first = decoded.attachments[0].file.bytes.as_ptr();
    assert_eq!(decoded.attachments[1].file.bytes.as_ptr(), first);
    assert_eq!(decoded.attachments[2].file.bytes.as_ptr(), first);
}

#[test]
fn files_are_attached_in_the_order_of_arrival() {
    let parts = vec![
        text_part("operations", OPERATIONS),
        text_part("map", br#"{"0": ["variables.files.0"], "1": ["variables.files.1"]}"#),
        file_part("1", "one", &[b"1"]),
        file_part("0", "zero", &[b"0"]),
    ];
    let decoded = success(decode(limits(10, 2), &parts));
    assert_eq!(decoded.attachments.len(), 2);
    assert_eq!(decoded.attachments[0].variable_path, "variables.files.1");
    assert_eq!(&decoded.attachments[0].file.bytes[..], b"1");
    assert_eq!(decoded.attachments[1].variable_path, "variables.files.0");
    assert_eq!(&decoded.attachments[1].file.bytes[..], b"0");
}

#[test]
fn swapped_leading_parts_are_rejected() {
    let parts = vec![
        text_part("map", MAP),
        text_part("operations", OPERATIONS),
        file_part("file", "a.txt", &[b"x"]),
    ];
    let error = failure(decode(limits(1024, 9), &parts));
    assert_eq!(error, RequestError::ExpectedField(LeadingPart::Operations));
    assert_eq!(error.status(), Status::BadRequest);
    assert_eq!(error.status().code(), 400);
    assert_eq!(error.message(), "expect \"operations\"");
}

#[test]
fn a_missing_map_is_rejected_before_the_file_is_read() {
    let parts = vec![
        text_part("operations", OPERATIONS),
        file_part("file", "a.txt", &[&[0u8; 4096]]),
    ];
    let error = failure(decode(limits(1, 0), &parts));
    assert_eq!(error, RequestError::ExpectedField(LeadingPart::FileMap));
    assert_eq!(error.status().code(), 400);
    assert_eq!(error.message(), "expect \"map\"");
}

#[test]
fn a_body_that_ends_early_is_rejected() {
    let error = failure(decode(limits(1024, 9), &vec![]));
    assert_eq!(error, RequestError::MalformedField);
    let error = failure(decode(limits(1024, 9), &vec![text_part("operations", OPERATIONS)]));
    assert_eq!(error, RequestError::MalformedField);
    assert_eq!(error.status().code(), 400);
    assert_eq!(error.message(), "bad request");
}

#[test]
fn a_leading_part_without_disposition_or_name_is_malformed() {
    let bare = Part {
        header: FieldHeader { disposition: None, content_type: "application/json".to_string() },
        chunks: vec![OPERATIONS.to_vec()],
    };
    assert_eq!(failure(decode(limits(1024, 9), &vec![bare])), RequestError::MalformedField);
    let unnamed = Part {
        header: header(None, Some("operations"), "application/json"),
        chunks: vec![OPERATIONS.to_vec()],
    };
    let error = failure(decode(limits(1024, 9), &vec![unnamed]));
    assert_eq!(error, RequestError::MissingName(LeadingPart::Operations));
    assert_eq!(error.status().code(), 400);
    assert_eq!(error.message(), "missing \"operations\"");
    let unnamed_map = Part {
        header: header(None, None, "application/json"),
        chunks: vec![MAP.to_vec()],
    };
    let parts = vec![text_part("operations", OPERATIONS), unnamed_map];
    let error = failure(decode(limits(1024, 9), &parts));
    assert_eq!(error, RequestError::MissingName(LeadingPart::FileMap));
    assert_eq!(error.message(), "missing \"map\"");
}

#[test]
fn leading_part_names_are_exact() {
    let parts = vec![text_part("Operations", OPERATIONS), text_part("map", MAP)];
    assert_eq!(
        failure(decode(limits(1024, 9), &parts)),
        RequestError::ExpectedField(LeadingPart::Operations)
    );
    let parts = vec![text_part("operations", OPERATIONS), text_part("map ", MAP)];
    assert_eq!(
        failure(decode(limits(1024, 9), &parts)),
        RequestError::ExpectedField(LeadingPart::FileMap)
    );
}

#[test]
fn unparsable_operations_are_a_parse_error() {
    let parts = vec![text_part("operations", b"{\"query\": "), text_part("map", MAP)];
    let error = failure(decode(limits(1024, 9), &parts));
    assert_eq!(error.kind(), FailureKind::ParseError);
    assert_eq!(error.status().code(), 400);
    let expected = serde_json::from_slice::<serde_json::Value>(b"{\"query\": ")
        .unwrap_err()
        .to_string();
    assert_eq!(error.message(), expected);
}

#[test]
fn an_unparsable_map_is_a_parse_error() {
    let parts = vec![
        text_part("operations", OPERATIONS),
        text_part("map", br#"{"file": "variables.file"}"#),
        file_part("file", "a.txt", &[b"x"]),
    ];
    let error = failure(decode(limits(1024, 9), &parts));
    assert_eq!(error.kind(), FailureKind::ParseError);
    assert_eq!(error.status(), Status::BadRequest);
    let expected = serde_json::from_slice::<std::collections::HashMap<String, Vec<String>>>(
        br#"{"file": "variables.file"}"#,
    )
    .unwrap_err()
    .to_string();
    assert_eq!(error, RequestError::ParseError(expected));
}

#[test]
fn a_file_over_the_size_limit_is_rejected() {
    let parts = vec![
        text_part("operations", OPERATIONS),
        text_part("map", MAP),
        file_part("file", "a.txt", &[b"1234", b"5678", b"9"]),
    ];
    let error = failure(decode(limits(8, 9), &parts));
    assert_eq!(error, RequestError::PayloadTooLarge);
    assert_eq!(error.status(), Status::PayloadTooLarge);
    assert_eq!(error.status().code(), 413);
    assert_eq!(error.message(), "payload too large");
}

#[test]
fn a_file_of_exactly_the_size_limit_is_accepted() {
    let parts = vec![
        text_part("operations", OPERATIONS),
        text_part("map", MAP),
        file_part("file", "a.txt", &[b"1234", b"5678"]),
    ];
    let decoded = success(decode(limits(8, 9), &parts));
    assert_eq!(&decoded.attachments[0].file.bytes[..], b"12345678");
}

#[test]
fn an_oversized_file_is_given_up_at_the_chunk_that_crosses_the_limit() {
    let decoder = Decoder::with_uploads(limits(5, 9), operation(), map_of(&[("file", &["variables.file"])]));
    let field = opened(decoder.begin_field(&header(Some("file"), Some("a.txt"), "text/plain")));
    assert_eq!(field.buffered_len(), 0);
    let field = opened(field.push_chunk(b"123"));
    assert_eq!(field.buffered_len(), 3);
    let field = opened(field.push_chunk(b""));
    let field = opened(field.push_chunk(b"45"));
    assert_eq!(field.buffered_len(), 5);
    let error = refused(field.push_chunk(b"6"));
    assert_eq!(error, RequestError::PayloadTooLarge);
}

#[test]
fn a_single_chunk_larger_than_the_limit_is_not_gathered() {
    let decoder = Decoder::with_uploads(limits(2, 9), operation(), map_of(&[("file", &["p"])]));
    let field = opened(decoder.begin_field(&header(Some("file"), Some("a.txt"), "text/plain")));
    let field = opened(field.push_chunk(b"1"));
    assert_eq!(refused(field.push_chunk(&[0u8; 1000])), RequestError::PayloadTooLarge);
}

#[test]
fn the_size_limit_holds_for_each_file_by_itself() {
    let parts = vec![
        text_part("operations", OPERATIONS),
        text_part("map", br#"{"a": ["variables.a"], "b": ["variables.b"]}"#),
        file_part("a", "a", &[b"1234"]),
        file_part("b", "b", &[b"5678"]),
    ];
    let decoded = success(decode(limits(4, 2), &parts));
    assert_eq!(decoded.attachments.len(), 2);
}

#[test]
fn one_file_more_than_the_count_limit_is_rejected() {
    let max_file_count = 3;
    let map = map_of(&[("0", &["v.0"]), ("1", &["v.1"]), ("2", &["v.2"]), ("3", &["v.3"])]);
    let mut decoder = Decoder::with_uploads(limits(16, max_file_count), operation(), map);
    for i in 0..max_file_count {
        let name = i.to_string();
        decoder = ended(decoder.take_part(&file_part(&name, "f", &[b"data"])));
    }
    let error = not_ended(decoder.take_part(&file_part("3", "f", &[b"data"])));
    assert_eq!(error, RequestError::PayloadTooLarge);
    assert_eq!(error.status().code(), 413);
}

#[test]
fn as_many_files_as_the_count_limit_are_accepted() {
    let parts = vec![
        text_part("operations", OPERATIONS),
        text_part("map", br#"{"a": ["variables.a"], "b": ["variables.b"]}"#),
        file_part("a", "a", &[b"1"]),
        file_part("b", "b", &[b"2"]),
    ];
    assert!(decode(limits(4, 2), &parts).is_ok());
    assert_eq!(failure(decode(limits(4, 1), &parts)), RequestError::PayloadTooLarge);
}

#[test]
fn a_count_limit_of_zero_accepts_no_file() {
    let parts = vec![
        text_part("operations", OPERATIONS),
        text_part("map", MAP),
        file_part("file", "a.txt", &[]),
    ];
    assert_eq!(failure(decode(limits(1024, 0), &parts)), RequestError::PayloadTooLarge);
}

#[test]
fn a_declared_file_that_never_arrives_is_missing() {
    let parts = vec![text_part("operations", OPERATIONS), text_part("map", MAP)];
    let error = failure(decode(limits(1024, 9), &parts));
    assert_eq!(error, RequestError::IncompleteUpload);
    assert_eq!(error.status().code(), 400);
    assert_eq!(error.message(), "missing files");
}

#[test]
fn one_of_two_declared_files_missing_fails_the_request() {
    let parts = vec![
        text_part("operations", OPERATIONS),
        text_part("map", br#"{"a": ["variables.a"], "b": ["variables.b"]}"#),
        file_part("a", "a", &[b"1"]),
    ];
    assert_eq!(failure(decode(limits(4, 2), &parts)), RequestError::IncompleteUpload);
}

#[test]
fn a_file_that_the_map_does_not_list_is_unexpected() {
    let parts = vec![
        text_part("operations", OPERATIONS),
        text_part("map", MAP),
        file_part("other", "a.txt", &[b"x"]),
    ];
    let error = failure(decode(limits(1024, 9), &parts));
    assert_eq!(error, RequestError::UnexpectedField);
    assert_eq!(error.status().code(), 400);
    assert_eq!(error.message(), "bad request");
}

#[test]
fn a_second_file_under_the_same_name_is_unexpected() {
    let parts = vec![
        text_part("operations", OPERATIONS),
        text_part("map", MAP),
        file_part("file", "a.txt", &[b"x"]),
        file_part("file", "b.txt", &[b"y"]),
    ];
    assert_eq!(failure(decode(limits(1024, 9), &parts)), RequestError::UnexpectedField);
}

#[test]
fn a_file_part_without_name_or_file_name_is_malformed() {
    let decoder = || Decoder::with_uploads(limits(8, 8), operation(), map_of(&[("file", &["p"])]));
    let no_filename = header(Some("file"), None, "text/plain");
    assert_eq!(refused(decoder().begin_field(&no_filename)), RequestError::MalformedField);
    let no_name = header(None, Some("a.txt"), "text/plain");
    assert_eq!(refused(decoder().begin_field(&no_name)), RequestError::MalformedField);
    let bare = FieldHeader { disposition: None, content_type: "text/plain".to_string() };
    assert_eq!(refused(decoder().begin_field(&bare)), RequestError::MalformedField);
}

#[test]
fn nothing_after_the_first_failure_is_looked_at() {
    let parts = vec![
        text_part("operations", OPERATIONS),
        text_part("map", MAP),
        file_part("nope", "a.txt", &[b"x"]),
        Part {
            header: FieldHeader { disposition: None, content_type: String::new() },
            chunks: vec![vec![0u8; 100]],
        },
    ];
    assert_eq!(failure(decode(limits(1, 0), &parts)), RequestError::UnexpectedField);
}

#[test]
fn the_decoder_can_be_driven_step_by_step() {
    let decoder = Decoder::new(limits(16, 2));
    assert_eq!(decoder.limits(), limits(16, 2));
    let field = opened(decoder.begin_field(&header(Some("operations"), None, "application/json")));
    let field = opened(field.push_chunks(&vec![OPERATIONS[..20].to_vec(), OPERATIONS[20..].to_vec()]));
    assert_eq!(field.buffered_len(), OPERATIONS.len());
    let decoder = ended(field.end_field());
    let field = opened(decoder.begin_field(&header(Some("map"), None, "application/json")));
    let decoder = ended(opened(field.push_chunk(MAP)).end_field());
    let field = opened(decoder.begin_field(&header(Some("file"), Some("a.txt"), "text/plain")));
    let decoder = ended(opened(field.push_chunk(b"content")).end_field());
    let decoded = success(decoder.finish());
    assert_eq!(decoded.attachments.len(), 1);
    assert_eq!(&decoded.attachments[0].file.bytes[..], b"content");
}

#[test]
fn a_decoder_can_start_from_a_known_operation() {
    let decoder = Decoder::with_operation(limits(16, 2), operation());
    let error = refused(decoder.begin_field(&header(Some("operations"), None, "application/json")));
    assert_eq!(error, RequestError::ExpectedField(LeadingPart::FileMap));
    let decoder = Decoder::with_operation(limits(16, 2), operation());
    assert_eq!(failure(decoder.finish()), RequestError::MalformedField);
    let decoder = Decoder::with_operation(limits(16, 2), operation());
    let field = opened(decoder.begin_field(&header(Some("map"), None, "application/json")));
    let decoder = ended(opened(field.push_chunk(b"{}")).end_field());
    let decoded = success(decoder.finish());
    assert_eq!(decoded.operation.query, "{ a }");
}
