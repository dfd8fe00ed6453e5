use crate::marshal::Shape;
use crate::value::Value;
use tokio::sync::oneshot;
use vstd::prelude::*;

verus! {

/// Execute `value` as a top-level script and reply with its completion value.
#[derive(Debug, Clone)]
pub struct RunCodeRequest {
    pub value: String,
}

/// Read the binding named `value`; forbidden characters are stripped first.
#[derive(Debug, Clone)]
pub struct ReadVarRequest {
    pub value: String,
}

/// Resolve `function_name` in the engine and keep its handle in the registry.
#[derive(Debug, Clone)]
pub struct RegisterRequest {
    pub function_name: String,
    pub number_of_args: Option<u8>,
}

/// Call the registered function `function_name` with `args`, in order.
#[derive(Debug, Clone)]
pub struct CallFnRequest {
    pub function_name: String,
    pub args: Vec<Value>,
}

/// A request handed to the engine thread.
#[derive(Debug, Clone)]
pub enum JsRequest {
    RegisterRequest(RegisterRequest),
    CallFnRequest(CallFnRequest),
    RunCodeRequest(RunCodeRequest),
    ReadVarRequest(ReadVarRequest),
}

/// The successful answer to a command.
#[derive(Debug, Clone, PartialEq)]
pub struct JsonResponse {
    pub value: Value,
}

/// Why a command failed.
#[derive(Debug, Clone, PartialEq)]
pub enum Error {
    /// The engine could not be brought up; the bridge is unavailable for good.
    Bootstrap(String),
    /// The engine failed on this request (parse or run error, unknown
    /// binding, value of an unsupported shape); the bridge stays usable.
    Dispatch(String),
    /// A call named a function that was never registered.
    Unregistered(String),
    /// The engine produced a value outside the closed set.
    Unsupported(Shape),
    /// The engine thread is gone: the request could not be handed over or its
    /// reply slot was dropped unanswered.
    ChannelClosed,
}

/// What the engine thread writes into a request's reply slot.
pub type Reply = Result<Value, Error>;

/// One request together with the slot that only its own caller reads.
pub struct JsMsg {
    pub req: JsRequest,
    pub responder: oneshot::Sender<Reply>,
}

/// A pending event published by a running script: topic and payload.
pub type EmitPayload = (String, Value);

} // verus!
