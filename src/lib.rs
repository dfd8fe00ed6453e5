//! Verified core of a bridge between many concurrent host callers and a
//! single-threaded script engine: the values and requests that cross the
//! bridge, the function registry, the engine thread's lifecycle and dispatch
//! decisions, and the one-shot reply slots that tie each reply to its
//! request.

mod engine;
mod laws;
mod loader;
mod marshal;
mod models;
mod registry;
mod sanitize;
mod slot;
mod value;

pub use engine::{
    call_target, cause_after, functions_after, phase_after, replies, reply_for, to_register_after, BootEvent,
    BootStep, EngineCore, Job, Phase, DISCOVERY_BINDING,
};
pub use laws::{
    lemma_failure_is_final, lemma_register_then_call, lemma_unregistered_call, phase_after_all,
};
pub use loader::{plan_of, MediaKind, ModuleKind, ModulePlan, TsModuleLoader};
pub use marshal::{
    all_num, all_str, bits_of, marshal, marshals, strings_in, strings_of, EngineValue, Shape,
};
pub use models::{
    CallFnRequest, EmitPayload, Error, JsMsg, JsRequest, JsonResponse, ReadVarRequest,
    RegisterRequest, Reply, RunCodeRequest,
};
pub use registry::FunctionRegistry;
pub use sanitize::{is_forbidden, sanitize_variable_name, sanitized, FORBIDDEN_CHARS};
pub use slot::settle;
pub use value::Value;
