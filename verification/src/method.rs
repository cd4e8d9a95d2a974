//! The names of the RPC methods of the plugin protocol, as they travel on
//! the wire.

use vstd::prelude::*;

verus! {

/// Submit a new job to the plugin.
pub const SUBMIT: &'static str = "submit";

/// Query the status of a previously submitted job.
pub const STATUS: &'static str = "status";

/// Cancel a running job.
pub const CANCEL: &'static str = "cancel";

/// Check that the plugin is alive and responsive.
pub const HEALTH_CHECK: &'static str = "health_check";

} // verus!
