//! JSON-RPC method names spoken between the client and the browser worker.

use vstd::prelude::*;

verus! {

pub const RUNTIME_READY: &'static str = "runtime.ready";
pub const RUNTIME_HEALTH: &'static str = "runtime.health";
pub const RUNTIME_SHUTDOWN: &'static str = "runtime.shutdown";
pub const BROWSER_OPEN: &'static str = "browser.open";
pub const BROWSER_CLOSE: &'static str = "browser.close";
pub const BROWSER_EVENT: &'static str = "browser.event";
pub const RUNTIME_PROTOCOL_ERROR: &'static str = "runtime.protocol_error";
pub const CANCEL_REQUEST: &'static str = "$/cancelRequest";

} // verus!
