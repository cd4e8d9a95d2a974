//! The errors of hosting a plugin process.

use std::io;
use vstd::prelude::*;
use vstd::string::*;
use crate::error::PluginError;
use crate::text::{optional_decimal, push_optional_decimal};

verus! {

#[verifier::external_type_specification]
#[verifier::external_body]
pub struct ExIoError(io::Error);

/// Everything that can go wrong on the host side of running a plugin.
///
/// Anything that is really a [`PluginError`] (connection failures,
/// timeouts, malformed responses, unknown jobs) is passed through as
/// [`HostError::Plugin`]; this type only adds what is specific to hosting
/// a plugin process: spawning it, managing it, and it dying.
#[derive(Debug)]
pub enum HostError {
    /// Failed to spawn the plugin subprocess.
    Spawn {
        /// Path to the plugin binary that failed to spawn.
        path: String,
        /// The underlying I/O error.
        source: io::Error,
    },
    /// The plugin process exited (or was killed) before the host got a
    /// response it was waiting for.
    ProcessExited(Option<i32>),
    /// An I/O error occurred while managing an already-spawned plugin
    /// process.
    Process(io::Error),
    /// Something went wrong at the plugin protocol level.
    Plugin(PluginError),
}

/// Shorthand Result type for host operations.
pub type HostResult<T> = Result<T, HostError>;

impl HostError {
    /// `msg` is the human-readable description of this error: the text of
    /// an I/O error is whatever its own rendering gives, the rest is fixed.
    pub open spec fn is_message(&self, msg: Seq<char>) -> bool {
        match self {
            HostError::Spawn { path, source } => exists|t: String|
                #[trigger] to_string_from_display_ensures::<io::Error>(source, t) && msg
                    == "failed to spawn plugin binary `"@ + path@ + "`: "@ + t@,
            HostError::ProcessExited(code) => msg == "plugin process exited unexpectedly (exit code: "@
                + optional_decimal(*code) + ")"@,
            HostError::Process(source) => exists|t: String|
                #[trigger] to_string_from_display_ensures::<io::Error>(source, t) && msg
                    == "I/O error managing plugin process: "@ + t@,
            HostError::Plugin(e) => msg == e@.message(),
        }
    }

    /// The human-readable description of this error, such as
    /// `plugin process exited unexpectedly (exit code: Some(1))`. A plugin
    /// error is described exactly as [`PluginError::message`] describes it.
    pub fn message(&self) -> (res: String)
        ensures
            self.is_message(res@),
    {
        match self {
            HostError::Spawn { path, source } => {
                let text = source.to_string();
                let res = String::from_str("failed to spawn plugin binary `").concat(
                    path.as_str(),
                ).concat("`: ").concat(text.as_str());
                assert(to_string_from_display_ensures::<io::Error>(source, text));
                res
            },
            HostError::ProcessExited(code) => {
                let mut out = String::from_str("plugin process exited unexpectedly (exit code: ");
                push_optional_decimal(&mut out, *code);
                out.append(")");
                assert(out@ =~= "plugin process exited unexpectedly (exit code: "@
                    + optional_decimal(*code) + ")"@);
                out
            },
            HostError::Process(source) => {
                let text = source.to_string();
                let res = String::from_str("I/O error managing plugin process: ").concat(
                    text.as_str(),
                );
                assert(to_string_from_display_ensures::<io::Error>(source, text));
                res
            },
            HostError::Plugin(e) => e.message(),
        }
    }
}

/// A plugin error passed through the host is described exactly as the
/// plugin error itself.
pub proof fn lemma_plugin_error_passthrough(e: PluginError, msg: Seq<char>)
    requires
        HostError::Plugin(e).is_message(msg),
    ensures
        msg == e@.message(),
{
}

impl From<io::Error> for HostError {
    fn from(source: io::Error) -> (res: Self) {
        HostError::Process(source)
    }
}

impl vstd::std_specs::convert::FromSpecImpl<io::Error> for HostError {
    open spec fn obeys_from_spec() -> bool {
        true
    }

    open spec fn from_spec(source: io::Error) -> HostError {
        HostError::Process(source)
    }
}

impl From<PluginError> for HostError {
    fn from(e: PluginError) -> (res: Self) {
        HostError::Plugin(e)
    }
}

impl vstd::std_specs::convert::FromSpecImpl<PluginError> for HostError {
    open spec fn obeys_from_spec() -> bool {
        true
    }

    open spec fn from_spec(e: PluginError) -> HostError {
        HostError::Plugin(e)
    }
}

} // verus!
