use worker_fileserver::golem_worker_binding::{CompiledGolemWorkerBinding, Expr,
    GolemWorkerBinding, ResponseMapping, ResponseMappingCompiled, WorkerBindingType,
    WorkerNameCompiled};
use worker_fileserver::model::{ComponentId, VersionedComponentId};

#[test]
fn binding_type_parses_its_kebab_case_names() {
    assert_eq!(
        WorkerBindingType::try_from("default".to_string()).unwrap(),
        WorkerBindingType::Default
    );
    assert_eq!(
        WorkerBindingType::try_from("file-server".to_string()).unwrap(),
        WorkerBindingType::FileServer
    );
}

#[test]
fn unknown_binding_type_name_is_rejected() {
    let err = WorkerBindingType::try_from("other".to_string()).unwrap_err();
    assert_eq!(err, "Invalid WorkerBindingType: other".to_string());
}

#[test]
fn binding_type_defaults_to_default() {
    assert_eq!(WorkerBindingType::default(), WorkerBindingType::Default);
}

#[test]
fn compiled_binding_strips_back_to_its_user_facing_shape() {
    let compiled = CompiledGolemWorkerBinding {
        component_id: VersionedComponentId {
            component_id: ComponentId { value: 7 },
            version: 2,
        },
        worker_name_compiled: Some(WorkerNameCompiled {
            worker_name: Expr { text: "\"w\"".to_string() },
        }),
        idempotency_key_compiled: None,
        response_compiled: ResponseMappingCompiled {
            response_rib_expr: Expr { text: "response".to_string() },
        },
        worker_binding_type: WorkerBindingType::FileServer,
    };
    let binding = GolemWorkerBinding::from(compiled);
    assert_eq!(binding.component_id.component_id.value, 7);
    assert_eq!(binding.component_id.version, 2);
    assert_eq!(binding.worker_name.unwrap().text, "\"w\"".to_string());
    assert!(binding.idempotency_key.is_none());
    let ResponseMapping(expr) = binding.response;
    assert_eq!(expr.text, "response".to_string());
    assert_eq!(binding.worker_binding_type, WorkerBindingType::FileServer);
}
