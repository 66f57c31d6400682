use worker_fileserver::fileserver_binding_handler::{ComponentService,
    DefaultFileServerBindingHandler, FileServerBindingData, FileServerBindingDetails,
    FileServerBindingError, FileServerResult, get_file_server_result_internal};
use worker_fileserver::initial_component_files::{BlobStorage, InitialComponentFilesService};
use worker_fileserver::model::{AccountId, ComponentId, ComponentMetadata, FilePermission,
    InitialComponentFile, InitialComponentFilePath, VersionedComponentId, WorkerDetail};
use worker_fileserver::typed_value::{RibResult, TypedValue};

fn record(fields: Vec<(&str, TypedValue)>) -> TypedValue {
    TypedValue::Record(
        fields.into_iter().map(|(n, v)| (n.to_string(), v)).collect(),
    )
}

#[test]
fn plain_string_path_gets_defaults_and_guessed_type() {
    let result = RibResult::Val(TypedValue::Str("/img/a.png".to_string()));
    let details = FileServerBindingDetails::from_rib(&result).unwrap();
    assert_eq!(details.status_code, 200);
    assert_eq!(details.mime_type.value, "image/png".to_string());
    assert_eq!(details.file_path.as_string().as_str(), "/img/a.png");
}

#[test]
fn record_with_status_overrides_default() {
    let result = RibResult::Val(record(vec![
        ("file-path", TypedValue::Str("/a.bin".to_string())),
        ("status", TypedValue::U64(404)),
    ]));
    let details = FileServerBindingDetails::from_rib(&result).unwrap();
    assert_eq!(details.status_code, 404);
    assert_eq!(details.mime_type.value, "application/octet-stream".to_string());
    assert_eq!(details.file_path.as_string().as_str(), "/a.bin");
}

#[test]
fn failure_tagged_value_fails_with_its_payload_rendering() {
    let result = RibResult::Val(TypedValue::Failure(Some(Box::new(TypedValue::Str(
        "boom".to_string(),
    )))));
    let err = FileServerBindingDetails::from_rib(&result).unwrap_err();
    assert!(err.contains("boom"));
}

#[test]
fn unit_result_fails_expecting_a_value() {
    let err = FileServerBindingDetails::from_rib(&RibResult::Unit).unwrap_err();
    assert_eq!(err, "expected a value".to_string());
}

#[test]
fn success_tagged_string_resolves_like_the_string() {
    let result = RibResult::Val(TypedValue::Success(Some(Box::new(TypedValue::Str(
        "/img/a.png".to_string(),
    )))));
    let details = FileServerBindingDetails::from_rib(&result).unwrap();
    assert_eq!(details.status_code, 200);
    assert_eq!(details.mime_type.value, "image/png".to_string());
}

#[test]
fn record_without_file_path_fails() {
    let result = RibResult::Val(record(vec![("status", TypedValue::U64(200))]));
    let err = FileServerBindingDetails::from_rib(&result).unwrap_err();
    assert_eq!(err, "missing file-path field".to_string());
}

#[test]
fn uncoercible_status_fails() {
    let result = RibResult::Val(record(vec![
        ("file-path", TypedValue::Str("/a.png".to_string())),
        ("status", TypedValue::Str("abc".to_string())),
    ]));
    let err = FileServerBindingDetails::from_rib(&result).unwrap_err();
    assert!(err.starts_with("invalid status code: "));
}

#[test]
fn status_from_digit_string_coerces() {
    let result = RibResult::Val(record(vec![
        ("file-path", TypedValue::Str("/a.png".to_string())),
        ("status", TypedValue::Str("404".to_string())),
    ]));
    let details = FileServerBindingDetails::from_rib(&result).unwrap();
    assert_eq!(details.status_code, 404);
}

#[test]
fn header_record_content_type_beats_extension_guess() {
    let headers = record(vec![
        ("content-type", TypedValue::Str("text/html".to_string())),
    ]);
    let result = RibResult::Val(record(vec![
        ("file-path", TypedValue::Str("/a.png".to_string())),
        ("headers", headers),
    ]));
    let details = FileServerBindingDetails::from_rib(&result).unwrap();
    assert_eq!(details.mime_type.value, "text/html".to_string());
}

#[test]
fn numeric_value_is_a_shape_error() {
    let result = RibResult::Val(TypedValue::U64(5));
    let err = FileServerBindingDetails::from_rib(&result).unwrap_err();
    assert_eq!(err, "response value expected".to_string());
}

#[test]
fn relative_path_is_normalized_to_absolute() {
    let result = RibResult::Val(TypedValue::Str("img/b.png".to_string()));
    let details = FileServerBindingDetails::from_rib(&result).unwrap();
    assert_eq!(details.file_path.as_string().as_str(), "/img/b.png");
}

#[test]
fn explicit_invalid_mime_fails() {
    let err =
        FileServerBindingDetails::make_from("/a.png".to_string(), Some("###".to_string()), None)
            .unwrap_err();
    assert_eq!(err, "Invalid mime type: ###".to_string());
}

#[test]
fn unknown_extension_without_explicit_type_fails() {
    let err = FileServerBindingDetails::make_from("/file".to_string(), None, None).unwrap_err();
    assert_eq!(err, "Could not determine mime type".to_string());
}

#[test]
fn internal_result_serves_a_plain_string() {
    let r = get_file_server_result_internal(RibResult::Val(TypedValue::Str(
        "/img/a.png".to_string(),
    )))
    .unwrap();
    match r {
        FileServerResult::Found { content, response_details, mime_hint } => {
            assert_eq!(content, "/img/a.png".to_string());
            assert!(response_details.is_none());
            assert_eq!(mime_hint.unwrap().value, "image/png".to_string());
        },
        _ => panic!("expected a found file"),
    }
}

#[test]
fn internal_result_passes_through_a_record_without_file_path() {
    let rec = record(vec![("status", TypedValue::U64(500))]);
    let r = get_file_server_result_internal(RibResult::Val(rec)).unwrap();
    assert!(matches!(r, FileServerResult::ErrorResponse(_)));
}

#[test]
fn internal_result_fails_with_the_failure_string_itself() {
    let rr = RibResult::Val(TypedValue::Failure(Some(Box::new(TypedValue::Str(
        "boom".to_string(),
    )))));
    let err = get_file_server_result_internal(rr).unwrap_err();
    assert_eq!(err, "boom".to_string());
}

#[test]
fn internal_result_rejects_unit() {
    let err = get_file_server_result_internal(RibResult::Unit).unwrap_err();
    assert_eq!(err, "Response value expected".to_string());
}

fn versioned(id: u64, version: u64) -> VersionedComponentId {
    VersionedComponentId { component_id: ComponentId { value: id }, version }
}

fn handler_with_read_only_file(
    account: &AccountId,
    id: VersionedComponentId,
    path: &str,
    bytes: Vec<u8>,
) -> DefaultFileServerBindingHandler {
    let mut files_service = InitialComponentFilesService::new(BlobStorage::new());
    let key = files_service.put_if_not_exists(account, &bytes).unwrap();
    let descriptor = InitialComponentFile {
        key,
        path: InitialComponentFilePath::from_either_str(path).unwrap(),
        permissions: FilePermission::ReadOnly,
    };
    let mut components = ComponentService::new();
    components.register(id, ComponentMetadata { files: vec![descriptor] });
    DefaultFileServerBindingHandler::new(components, files_service)
}

#[test]
fn read_only_match_is_served_from_the_blob_store() {
    let account = AccountId { value: "acc".to_string() };
    let id = versioned(1, 0);
    let bytes = b"hello world".to_vec();
    let handler = handler_with_read_only_file(&account, id, "/a.txt", bytes.clone());
    let detail = WorkerDetail { component_id: id, worker_name: None, account_id: account };
    let result = RibResult::Val(TypedValue::Str("/a.txt".to_string()));

    let mut worker_invocations: Vec<String> = Vec::new();
    let res = handler.handle_file_server_binding(&detail, result).unwrap();
    match res.data {
        FileServerBindingData::Blob(b) => assert_eq!(b, bytes),
        FileServerBindingData::WorkerFile { identity, .. } => {
            worker_invocations.push(identity.worker_name);
            panic!("read-only file must not reach the worker-access service");
        },
    }
    assert!(worker_invocations.is_empty());
    assert_eq!(res.binding_details.mime_type.value, "text/plain".to_string());
}

#[test]
fn writable_requests_collapse_onto_one_worker_target() {
    let account = AccountId { value: "acc".to_string() };
    let id = versioned(1, 0);
    let handler = handler_with_read_only_file(&account, id, "/ro.txt", b"x".to_vec());

    // An invocation-counting double: one entry per distinct worker
    // identity that would be spawned.
    let mut spawned: Vec<String> = Vec::new();
    for _ in 0..2 {
        let detail = WorkerDetail {
            component_id: id,
            worker_name: None,
            account_id: AccountId { value: "acc".to_string() },
        };
        let result = RibResult::Val(TypedValue::Str("/rw.txt".to_string()));
        let res = handler.handle_file_server_binding(&detail, result).unwrap();
        match res.data {
            FileServerBindingData::WorkerFile { identity, path } => {
                assert_eq!(path.as_string().as_str(), "/rw.txt");
                if !spawned.contains(&identity.worker_name) {
                    spawned.push(identity.worker_name);
                }
            },
            _ => panic!("expected a worker fetch"),
        }
    }
    assert_eq!(spawned.len(), 1);
}

#[test]
fn explicit_worker_name_is_used_when_valid() {
    let account = AccountId { value: "acc".to_string() };
    let id = versioned(1, 0);
    let handler = handler_with_read_only_file(&account, id, "/ro.txt", b"x".to_vec());
    let detail = WorkerDetail {
        component_id: id,
        worker_name: Some("worker-7".to_string()),
        account_id: account,
    };
    let result = RibResult::Val(TypedValue::Str("/rw.txt".to_string()));
    let res = handler.handle_file_server_binding(&detail, result).unwrap();
    match res.data {
        FileServerBindingData::WorkerFile { identity, .. } => {
            assert_eq!(identity.worker_name, "worker-7".to_string());
        },
        _ => panic!("expected a worker fetch"),
    }
}

#[test]
fn explicit_worker_name_outside_the_grammar_is_rejected() {
    let account = AccountId { value: "acc".to_string() };
    let id = versioned(1, 0);
    let handler = handler_with_read_only_file(&account, id, "/ro.txt", b"x".to_vec());
    let detail = WorkerDetail {
        component_id: id,
        worker_name: Some("bad name!".to_string()),
        account_id: account,
    };
    let result = RibResult::Val(TypedValue::Str("/rw.txt".to_string()));
    let err = handler.handle_file_server_binding(&detail, result).unwrap_err();
    assert!(matches!(err, FileServerBindingError::InvalidWorkerName(_)));
}

#[test]
fn unknown_component_version_is_fatal() {
    let account = AccountId { value: "acc".to_string() };
    let handler = DefaultFileServerBindingHandler::new(
        ComponentService::new(),
        InitialComponentFilesService::new(BlobStorage::new()),
    );
    let detail = WorkerDetail {
        component_id: versioned(9, 3),
        worker_name: None,
        account_id: account,
    };
    let result = RibResult::Val(TypedValue::Str("/a.txt".to_string()));
    let err = handler.handle_file_server_binding(&detail, result).unwrap_err();
    assert!(matches!(err, FileServerBindingError::ComponentNotFound(_)));
}

#[test]
fn metadata_referencing_a_missing_blob_is_fatal() {
    let account = AccountId { value: "acc".to_string() };
    let id = versioned(1, 0);
    let mut other_account_service = InitialComponentFilesService::new(BlobStorage::new());
    let key = other_account_service
        .put_if_not_exists(&AccountId { value: "other".to_string() }, &b"x".to_vec())
        .unwrap();
    let descriptor = InitialComponentFile {
        key,
        path: InitialComponentFilePath::from_either_str("/a.txt").unwrap(),
        permissions: FilePermission::ReadOnly,
    };
    let mut components = ComponentService::new();
    components.register(id, ComponentMetadata { files: vec![descriptor] });
    // The handler's store never stored the bytes under this account.
    let handler = DefaultFileServerBindingHandler::new(
        components,
        InitialComponentFilesService::new(BlobStorage::new()),
    );
    let detail = WorkerDetail { component_id: id, worker_name: None, account_id: account };
    let result = RibResult::Val(TypedValue::Str("/a.txt".to_string()));
    let err = handler.handle_file_server_binding(&detail, result).unwrap_err();
    assert!(matches!(err, FileServerBindingError::MissingBlob(_)));
}

#[test]
fn binding_resolution_failure_is_a_binding_error() {
    let account = AccountId { value: "acc".to_string() };
    let id = versioned(1, 0);
    let handler = handler_with_read_only_file(&account, id, "/ro.txt", b"x".to_vec());
    let detail = WorkerDetail { component_id: id, worker_name: None, account_id: account };
    let err = handler.handle_file_server_binding(&detail, RibResult::Unit).unwrap_err();
    match err {
        FileServerBindingError::Binding(m) => assert_eq!(m, "expected a value".to_string()),
        _ => panic!("expected a binding error"),
    }
}

#[test]
fn empty_path_is_rejected() {
    let err = FileServerBindingDetails::make_from(String::new(), None, None).unwrap_err();
    assert_eq!(err, "empty file path".to_string());
}

#[test]
fn status_boundaries_coerce_and_out_of_range_fails() {
    for (status, ok) in [(100u64, true), (999, true), (99, false), (1000, false)] {
        let result = RibResult::Val(record(vec![
            ("file-path", TypedValue::Str("/a.png".to_string())),
            ("status", TypedValue::U64(status)),
        ]));
        let r = FileServerBindingDetails::from_rib(&result);
        if ok {
            assert_eq!(r.unwrap().status_code, status as u16);
        } else {
            assert!(r.unwrap_err().starts_with("invalid status code: "));
        }
    }
}

#[test]
fn leading_zero_status_string_does_not_coerce() {
    let result = RibResult::Val(record(vec![
        ("file-path", TypedValue::Str("/a.png".to_string())),
        ("status", TypedValue::Str("099".to_string())),
    ]));
    assert!(FileServerBindingDetails::from_rib(&result).is_err());
}

#[test]
fn worker_name_length_cap_is_enforced() {
    let account = AccountId { value: "acc".to_string() };
    let id = versioned(1, 0);
    let handler = handler_with_read_only_file(&account, id, "/ro.txt", b"x".to_vec());
    let long_name = "a".repeat(101);
    let detail = WorkerDetail {
        component_id: id,
        worker_name: Some(long_name),
        account_id: account,
    };
    let result = RibResult::Val(TypedValue::Str("/rw.txt".to_string()));
    let err = handler.handle_file_server_binding(&detail, result).unwrap_err();
    assert!(matches!(err, FileServerBindingError::InvalidWorkerName(_)));
    let detail = WorkerDetail {
        component_id: id,
        worker_name: Some("a".repeat(100)),
        account_id: AccountId { value: "acc".to_string() },
    };
    let result = RibResult::Val(TypedValue::Str("/rw.txt".to_string()));
    assert!(handler.handle_file_server_binding(&detail, result).is_ok());
}

#[test]
fn success_wrapping_a_non_string_is_a_shape_error() {
    let rr = RibResult::Val(TypedValue::Success(Some(Box::new(TypedValue::U64(3)))));
    let err = get_file_server_result_internal(rr).unwrap_err();
    assert_eq!(
        err,
        "'file-server' must provide a string path, but evaluated to '3'".to_string()
    );
}

#[test]
fn failure_wrapping_a_non_string_is_rejected_by_the_internal_result() {
    let rr = RibResult::Val(TypedValue::Failure(Some(Box::new(TypedValue::U64(3)))));
    let err = get_file_server_result_internal(rr).unwrap_err();
    assert_eq!(err, "'file-server' result error must be a string".to_string());
}

#[test]
fn nested_success_taggings_resolve_recursively() {
    let result = RibResult::Val(TypedValue::Success(Some(Box::new(TypedValue::Success(Some(
        Box::new(TypedValue::Str("/img/a.png".to_string())),
    ))))));
    let details = FileServerBindingDetails::from_rib(&result).unwrap();
    assert_eq!(details.status_code, 200);
    assert_eq!(details.mime_type.value, "image/png".to_string());
}

#[test]
fn success_wrapping_a_failure_fails_with_the_payload_rendering() {
    let result = RibResult::Val(TypedValue::Success(Some(Box::new(TypedValue::Failure(Some(
        Box::new(TypedValue::Str("boom".to_string())),
    ))))));
    let err = FileServerBindingDetails::from_rib(&result).unwrap_err();
    assert_eq!(err, "\"boom\"".to_string());
}

#[test]
fn success_wrapping_an_empty_success_reports_the_inner_error() {
    let result = RibResult::Val(TypedValue::Success(Some(Box::new(TypedValue::Success(
        None,
    )))));
    let err = FileServerBindingDetails::from_rib(&result).unwrap_err();
    assert_eq!(err, "ok unset".to_string());
}
