//! The JSON-RPC envelope exchanged between host and plugin.
//!
//! Nothing here knows how the bytes are framed on the connection; the
//! method parameters and successful results are JSON values that the
//! envelope carries without looking inside.

use vstd::prelude::*;
use vstd::string::*;
use serde_json::Value;

verus! {

#[verifier::external_type_specification]
#[verifier::external_body]
pub struct ExJsonValue(Value);

/// `Value::clone`, which `serde_json` derives: the copy is the same JSON
/// value as the original.
pub assume_specification[ <Value as Clone>::clone ](v: &Value) -> (res: Value)
    ensures
        res == *v,
;

/// Correlates an [`RpcRequest`] with its [`RpcResponse`].
#[derive(Debug, Clone, Copy, PartialEq, Eq, PartialOrd, Ord, Hash, Structural)]
pub struct RequestId(pub u64);

/// A JSON-RPC request sent between host and plugin.
#[derive(Debug, Clone)]
pub struct RpcRequest {
    /// Correlates this request with its response.
    pub id: RequestId,
    /// The RPC method being called (see [`crate::method`]).
    pub method: String,
    /// The method's parameters, encoded as JSON.
    pub params: Value,
}

impl RpcRequest {
    /// Creates a request for `method` with the given parameters.
    pub fn new(id: RequestId, method: &str, params: Value) -> (res: Self)
        ensures
            res.id == id,
            res.method@ == method@,
            res.params == params,
    {
        RpcRequest { id, method: String::from_str(method), params }
    }
}

/// A structured error inside an [`RpcResponse`].
#[derive(Debug, Clone, PartialEq)]
pub struct RpcErrorObject {
    /// A short, machine-readable error code.
    pub code: String,
    /// A human-readable error message.
    pub message: String,
}

/// The outcome of an RPC call: success with a result, or failure with an
/// error; never both and never neither.
#[derive(Debug, Clone)]
pub enum RpcOutcome {
    /// The call succeeded; `result` is JSON `null` for methods that return
    /// nothing.
    Success { result: Value },
    /// The call failed.
    Error { error: RpcErrorObject },
}

/// A JSON-RPC response sent between host and plugin.
#[derive(Debug, Clone)]
pub struct RpcResponse {
    /// Matches the [`RequestId`] of the request this responds to.
    pub id: RequestId,
    /// Whether the call succeeded or failed, and its payload.
    pub outcome: RpcOutcome,
}

impl RpcResponse {
    /// The response reports success.
    pub open spec fn spec_is_ok(self) -> bool {
        self.outcome is Success
    }

    /// The response reports failure.
    pub open spec fn spec_is_err(self) -> bool {
        self.outcome is Error
    }

    /// Builds a successful response.
    pub fn ok(id: RequestId, result: Value) -> (res: Self)
        ensures
            res == (RpcResponse { id, outcome: RpcOutcome::Success { result } }),
    {
        RpcResponse { id, outcome: RpcOutcome::Success { result } }
    }

    /// Builds a failed response carrying `code` and `message`.
    pub fn err(id: RequestId, code: &str, message: &str) -> (res: Self)
        ensures
            res.id == id,
            res.outcome matches RpcOutcome::Error { error } && error.code@ == code@
                && error.message@ == message@,
    {
        RpcResponse {
            id,
            outcome: RpcOutcome::Error {
                error: RpcErrorObject {
                    code: String::from_str(code),
                    message: String::from_str(message),
                },
            },
        }
    }

    /// Whether this response represents success.
    pub fn is_ok(&self) -> (res: bool)
        ensures
            res == self.spec_is_ok(),
    {
        match self.outcome {
            RpcOutcome::Success { .. } => true,
            RpcOutcome::Error { .. } => false,
        }
    }

    /// Whether this response represents failure.
    pub fn is_err(&self) -> (res: bool)
        ensures
            res == self.spec_is_err(),
    {
        match self.outcome {
            RpcOutcome::Success { .. } => false,
            RpcOutcome::Error { .. } => true,
        }
    }
}

/// Every response reports exactly one of success and failure.
pub proof fn lemma_response_ok_xor_err(response: RpcResponse)
    ensures
        response.spec_is_ok() != response.spec_is_err(),
{
}

/// A response built by [`RpcResponse::ok`] reports success and one built by
/// [`RpcResponse::err`] reports failure, whatever the id and payload.
pub proof fn lemma_constructed_outcome(id: RequestId, result: Value, error: RpcErrorObject)
    ensures
        (RpcResponse { id, outcome: RpcOutcome::Success { result } }).spec_is_ok(),
        !(RpcResponse { id, outcome: RpcOutcome::Success { result } }).spec_is_err(),
        (RpcResponse { id, outcome: RpcOutcome::Error { error } }).spec_is_err(),
        !(RpcResponse { id, outcome: RpcOutcome::Error { error } }).spec_is_ok(),
{
}

} // verus!
