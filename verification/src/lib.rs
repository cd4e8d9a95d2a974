//! Shared vocabulary of a subprocess plugin system for a workflow engine:
//! job identifiers and executions, job states, plugin errors, the JSON-RPC
//! envelope that host and plugin exchange, host configuration, and the
//! decisions the host makes on each reply.

pub mod config;
pub mod error;
pub mod host_error;
pub mod job;
pub mod method;
pub mod protocol;
pub mod rpc;
pub mod status;
pub mod task;
pub mod text;

pub use config::HostConfig;
pub use error::{PluginError, PluginResult};
pub use host_error::{HostError, HostResult};
pub use job::{JobCore, JobExecution, JobId};
pub use protocol::{RequestId, RpcErrorObject, RpcOutcome, RpcRequest, RpcResponse};
pub use rpc::{correlate_response, decode_rpc_error, resolve_reply, RequestIdCounter};
pub use status::JobStatus;
