//! The compiled association between a route and the expressions
//! producing its worker name, idempotency key, and response.

use vstd::prelude::*;
use crate::model::VersionedComponentId;

verus! {

/// An expression of the route-binding language, carried as its source
/// text.
#[derive(Debug)]
pub struct Expr {
    pub text: String,
}

impl Clone for Expr {
    fn clone(&self) -> (r: Self)
        ensures
            r == *self,
    {
        Expr { text: self.text.clone() }
    }
}

/// The expression producing a binding's response.
#[derive(Debug)]
pub struct ResponseMapping(pub Expr);

impl Clone for ResponseMapping {
    fn clone(&self) -> (r: Self)
        ensures
            r == *self,
    {
        ResponseMapping(self.0.clone())
    }
}

/// Whether a binding invokes a worker for its response or serves
/// component files.
#[derive(Clone, Copy, Debug, PartialEq, Eq, Structural)]
pub enum WorkerBindingType {
    Default,
    FileServer,
}

impl Default for WorkerBindingType {
    fn default() -> (r: Self)
        ensures
            r == WorkerBindingType::Default,
    {
        WorkerBindingType::Default
    }
}

impl WorkerBindingType {
    /// Parses a binding type from its kebab-case name.
    pub fn try_from(value: String) -> (r: Result<WorkerBindingType, String>)
        ensures
            value@ == "default"@ ==> r == Ok::<WorkerBindingType, String>(
                WorkerBindingType::Default),
            value@ == "file-server"@ ==> r == Ok::<WorkerBindingType, String>(
                WorkerBindingType::FileServer),
            value@ != "default"@ && value@ != "file-server"@ ==> (match r {
                Ok(_) => false,
                Err(e) => e@ == "Invalid WorkerBindingType: "@ + value@,
            }),
    {
        proof {
            broadcast use vstd::string::group_string_axioms;

            reveal_strlit("default");
            reveal_strlit("file-server");
            assert("default"@.len() == 7);
            assert("file-server"@.len() == 11);
        }
        if value == String::from_str("default") {
            Ok(WorkerBindingType::Default)
        } else if value == String::from_str("file-server") {
            Ok(WorkerBindingType::FileServer)
        } else {
            let mut m = String::from_str("Invalid WorkerBindingType: ");
            m.append(value.as_str());
            Err(m)
        }
    }
}

/// A route binding in its user-facing shape.
#[derive(Debug)]
pub struct GolemWorkerBinding {
    pub component_id: VersionedComponentId,
    pub worker_name: Option<Expr>,
    pub idempotency_key: Option<Expr>,
    pub response: ResponseMapping,
    pub worker_binding_type: WorkerBindingType,
}

/// A compiled worker-name expression.
#[derive(Debug)]
pub struct WorkerNameCompiled {
    pub worker_name: Expr,
}

/// A compiled idempotency-key expression.
#[derive(Debug)]
pub struct IdempotencyKeyCompiled {
    pub idempotency_key: Expr,
}

/// A compiled response mapping.
#[derive(Debug)]
pub struct ResponseMappingCompiled {
    pub response_rib_expr: Expr,
}

/// A route binding after compilation.
#[derive(Debug)]
pub struct CompiledGolemWorkerBinding {
    pub component_id: VersionedComponentId,
    pub worker_name_compiled: Option<WorkerNameCompiled>,
    pub idempotency_key_compiled: Option<IdempotencyKeyCompiled>,
    pub response_compiled: ResponseMappingCompiled,
    pub worker_binding_type: WorkerBindingType,
}

impl From<CompiledGolemWorkerBinding> for GolemWorkerBinding {
    /// Strips a compiled binding back to its user-facing shape.
    fn from(value: CompiledGolemWorkerBinding) -> (r: GolemWorkerBinding) {
        GolemWorkerBinding {
            component_id: value.component_id,
            worker_name: match value.worker_name_compiled {
                Some(compiled) => Some(compiled.worker_name),
                None => None,
            },
            idempotency_key: match value.idempotency_key_compiled {
                Some(compiled) => Some(compiled.idempotency_key),
                None => None,
            },
            response: ResponseMapping(value.response_compiled.response_rib_expr),
            worker_binding_type: value.worker_binding_type,
        }
    }
}

impl vstd::std_specs::convert::FromSpecImpl<CompiledGolemWorkerBinding> for GolemWorkerBinding {
    open spec fn obeys_from_spec() -> bool {
        true
    }

    open spec fn from_spec(v: CompiledGolemWorkerBinding) -> GolemWorkerBinding {
        GolemWorkerBinding {
            component_id: v.component_id,
            worker_name: (match v.worker_name_compiled {
                Some(compiled) => Some(compiled.worker_name),
                None => None,
            }),
            idempotency_key: (match v.idempotency_key_compiled {
                Some(compiled) => Some(compiled.idempotency_key),
                None => None,
            }),
            response: ResponseMapping(v.response_compiled.response_rib_expr),
            worker_binding_type: v.worker_binding_type,
        }
    }
}

} // verus!
