//! The ways a plugin interaction can fail.

use vstd::prelude::*;
use vstd::string::*;
use crate::job::JobId;

verus! {

/// All the ways a plugin interaction can fail.
#[derive(Debug, PartialEq)]
pub enum PluginError {
    ConnectionFailed(String),
    JobNotFound(JobId),
    InvalidResponse(String),
    Timeout,
    Unknown(String),
}

/// Shorthand Result type for plugin operations.
pub type PluginResult<T> = Result<T, PluginError>;

/// The mathematical value of a [`PluginError`]: its variant and the text it
/// carries.
pub enum PluginErrorView {
    ConnectionFailed(Seq<char>),
    JobNotFound(Seq<char>),
    InvalidResponse(Seq<char>),
    Timeout,
    Unknown(Seq<char>),
}

impl View for PluginError {
    type V = PluginErrorView;

    open spec fn view(&self) -> PluginErrorView {
        match self {
            PluginError::ConnectionFailed(s) => PluginErrorView::ConnectionFailed(s@),
            PluginError::JobNotFound(id) => PluginErrorView::JobNotFound(id@),
            PluginError::InvalidResponse(s) => PluginErrorView::InvalidResponse(s@),
            PluginError::Timeout => PluginErrorView::Timeout,
            PluginError::Unknown(s) => PluginErrorView::Unknown(s@),
        }
    }
}

impl PluginErrorView {
    /// The human-readable description of an error.
    pub open spec fn message(self) -> Seq<char> {
        match self {
            PluginErrorView::ConnectionFailed(s) => "connection failed: "@ + s,
            PluginErrorView::JobNotFound(id) => "job not found: "@ + id,
            PluginErrorView::InvalidResponse(s) => "invalid response: "@ + s,
            PluginErrorView::Timeout => "timeout"@,
            PluginErrorView::Unknown(s) => "unknown error: "@ + s,
        }
    }
}

impl PluginError {
    /// The human-readable description of this error, such as
    /// `connection failed: refused`.
    pub fn message(&self) -> (res: String)
        ensures
            res@ == self@.message(),
    {
        match self {
            PluginError::ConnectionFailed(s) => {
                String::from_str("connection failed: ").concat(s.as_str())
            },
            PluginError::JobNotFound(id) => String::from_str("job not found: ").concat(id.as_str()),
            PluginError::InvalidResponse(s) => {
                String::from_str("invalid response: ").concat(s.as_str())
            },
            PluginError::Timeout => String::from_str("timeout"),
            PluginError::Unknown(s) => String::from_str("unknown error: ").concat(s.as_str()),
        }
    }
}

} // verus!
