use worker_fileserver::headers::ResolvedResponseHeaders;
use worker_fileserver::typed_value::TypedValue;

fn create_record(fields: Vec<(String, TypedValue)>) -> TypedValue {
    TypedValue::Record(fields)
}

#[test]
fn test_get_response_headers_from_typed_value() {
    let header_map = create_record(vec![
        (
            "header1".to_string(),
            TypedValue::Str("value1".to_string()),
        ),
        (
            "header2".to_string(),
            TypedValue::Float { rendered: format!("{}", 1.0f32) },
        ),
    ]);

    let resolved_headers = ResolvedResponseHeaders::from_typed_value(&header_map).unwrap();

    let expected = vec![
        ("header1".to_string(), "value1".to_string()),
        ("header2".to_string(), "1".to_string()),
    ];

    assert_eq!(resolved_headers.to_pairs(), expected)
}

#[test]
fn record_with_string_and_float_yields_stringified_headers() {
    let record = create_record(vec![
        ("a".to_string(), TypedValue::Str("x".to_string())),
        ("b".to_string(), TypedValue::Float { rendered: format!("{}", 1.0f32) }),
    ]);
    let resolved = ResolvedResponseHeaders::from_typed_value(&record).unwrap();
    let expected = vec![
        ("a".to_string(), "x".to_string()),
        ("b".to_string(), "1".to_string()),
    ];
    assert_eq!(resolved.to_pairs(), expected);
}

#[test]
fn integer_and_bool_literals_are_stringified() {
    let record = create_record(vec![
        ("n".to_string(), TypedValue::U64(42)),
        ("m".to_string(), TypedValue::S64(-7)),
        ("b".to_string(), TypedValue::Bool(true)),
    ]);
    let resolved = ResolvedResponseHeaders::from_typed_value(&record).unwrap();
    let expected = vec![
        ("n".to_string(), "42".to_string()),
        ("m".to_string(), "-7".to_string()),
        ("b".to_string(), "true".to_string()),
    ];
    assert_eq!(resolved.to_pairs(), expected);
}

#[test]
fn header_names_are_lowercased() {
    let record = create_record(vec![
        ("X-Custom-Header".to_string(), TypedValue::Str("v".to_string())),
    ]);
    let resolved = ResolvedResponseHeaders::from_typed_value(&record).unwrap();
    let expected = vec![("x-custom-header".to_string(), "v".to_string())];
    assert_eq!(resolved.to_pairs(), expected);
}

#[test]
fn duplicate_names_keep_the_last_value() {
    let record = create_record(vec![
        ("k".to_string(), TypedValue::Str("first".to_string())),
        ("k".to_string(), TypedValue::Str("second".to_string())),
    ]);
    let resolved = ResolvedResponseHeaders::from_typed_value(&record).unwrap();
    let expected = vec![("k".to_string(), "second".to_string())];
    assert_eq!(resolved.to_pairs(), expected);
}

#[test]
fn non_record_value_is_a_shape_error_with_json_rendering() {
    let err = ResolvedResponseHeaders::from_typed_value(&TypedValue::Str("nope".to_string()))
        .unwrap_err();
    assert_eq!(
        err,
        "Header expression is not a record. It is resolved to \"nope\"".to_string()
    );
}

#[test]
fn non_literal_field_fails_naming_the_field() {
    let record = create_record(vec![
        ("inner".to_string(), create_record(vec![])),
    ]);
    let err = ResolvedResponseHeaders::from_typed_value(&record).unwrap_err();
    assert_eq!(err, "Unable to resolve header value for field inner".to_string());
}

#[test]
fn illegal_header_name_fails() {
    let record = create_record(vec![
        ("bad name".to_string(), TypedValue::Str("v".to_string())),
    ]);
    let err = ResolvedResponseHeaders::from_typed_value(&record).unwrap_err();
    assert!(err.contains("invalid header name bad name"));
}

#[test]
fn illegal_header_value_fails() {
    let record = create_record(vec![
        ("ok-name".to_string(), TypedValue::Str("line1\nline2".to_string())),
    ]);
    let err = ResolvedResponseHeaders::from_typed_value(&record).unwrap_err();
    assert!(err.contains("invalid header value for ok-name"));
}

#[test]
fn content_type_is_parsed_from_the_canonical_key() {
    let record = create_record(vec![
        ("Content-Type".to_string(), TypedValue::Str("application/json".to_string())),
    ]);
    let resolved = ResolvedResponseHeaders::from_typed_value(&record).unwrap();
    let ct = resolved.get_content_type().unwrap();
    assert_eq!(ct.value, "application/json".to_string());
}

#[test]
fn unparsable_content_type_is_absent_not_an_error() {
    let record = create_record(vec![
        ("content-type".to_string(), TypedValue::Str("not a mime".to_string())),
    ]);
    let resolved = ResolvedResponseHeaders::from_typed_value(&record).unwrap();
    assert!(resolved.get_content_type().is_none());
}

#[test]
fn missing_content_type_is_absent() {
    let record = create_record(vec![
        ("a".to_string(), TypedValue::Str("x".to_string())),
    ]);
    let resolved = ResolvedResponseHeaders::from_typed_value(&record).unwrap();
    assert!(resolved.get_content_type().is_none());
}

#[test]
fn shape_error_renders_success_wrappers_as_json() {
    let v = TypedValue::Success(Some(Box::new(TypedValue::Str("x".to_string()))));
    let err = ResolvedResponseHeaders::from_typed_value(&v).unwrap_err();
    assert_eq!(
        err,
        "Header expression is not a record. It is resolved to {\"ok\":\"x\"}".to_string()
    );
}

#[test]
fn shape_error_renders_numbers_and_escapes() {
    let err = ResolvedResponseHeaders::from_typed_value(&TypedValue::U64(5)).unwrap_err();
    assert_eq!(
        err,
        "Header expression is not a record. It is resolved to 5".to_string()
    );
    let quoted = TypedValue::Str("a\"b\\c".to_string());
    let err = ResolvedResponseHeaders::from_typed_value(&quoted).unwrap_err();
    assert_eq!(
        err,
        "Header expression is not a record. It is resolved to \"a\\\"b\\\\c\"".to_string()
    );
}

#[test]
fn shape_error_renders_nested_records() {
    let inner = create_record(vec![("k".to_string(), TypedValue::Bool(false))]);
    let v = TypedValue::Failure(Some(Box::new(inner)));
    let err = ResolvedResponseHeaders::from_typed_value(&v).unwrap_err();
    assert_eq!(
        err,
        "Header expression is not a record. It is resolved to {\"err\":{\"k\":false}}"
            .to_string()
    );
}

#[test]
fn extreme_integer_literals_are_rendered_exactly() {
    let record = create_record(vec![
        ("zero".to_string(), TypedValue::U64(0)),
        ("max".to_string(), TypedValue::U64(u64::MAX)),
        ("min".to_string(), TypedValue::S64(i64::MIN)),
    ]);
    let resolved = ResolvedResponseHeaders::from_typed_value(&record).unwrap();
    let expected = vec![
        ("zero".to_string(), "0".to_string()),
        ("max".to_string(), "18446744073709551615".to_string()),
        ("min".to_string(), "-9223372036854775808".to_string()),
    ];
    assert_eq!(resolved.to_pairs(), expected);
}

#[test]
fn literal_extraction_precedes_pair_validation() {
    let record = create_record(vec![
        ("bad name".to_string(), TypedValue::Str("v".to_string())),
        ("x".to_string(), create_record(vec![])),
    ]);
    let err = ResolvedResponseHeaders::from_typed_value(&record).unwrap_err();
    assert_eq!(err, "Unable to resolve header value for field x".to_string());
}
