//! Parameters and results exchanged with the browser worker.
use vstd::prelude::*;

pub mod method;

verus! {

#[derive(Debug, Clone, Default, PartialEq, Eq)]
pub struct RuntimeReadyParams {}

#[derive(Debug, Clone, Default, PartialEq, Eq)]
pub struct RuntimeHealthParams {}

#[derive(Debug, Clone, Default, PartialEq, Eq)]
pub struct RuntimeHealthResult {
    pub runtime: RuntimeInfo,
    pub engine: BrowserEngineInfo,
    pub browser: BrowserInfo,
}

#[derive(Debug, Clone, Default, PartialEq, Eq)]
pub struct RuntimeInfo {
    pub name: String,
    pub version: String,
    pub node_compat_version: String,
}

#[derive(Debug, Clone, Default, PartialEq, Eq)]
pub struct BrowserEngineInfo {
    pub name: String,
    pub version: String,
}

#[derive(Debug, Clone, Default, PartialEq, Eq)]
pub struct BrowserInfo {
    pub available: bool,
    pub executable_path: Option<String>,
    pub revision: Option<String>,
    pub version: Option<String>,
}

#[derive(Debug, Clone, PartialEq, Eq)]
pub struct BrowserOpenParams {
    pub url: String,
    pub profile_id: String,
}

impl Default for BrowserOpenParams {
    /// Opens `about:blank` in the `default` profile.
    fn default() -> (r: Self)
        ensures
            r.url@ == "about:blank"@,
            r.profile_id@ == "default"@,
    {
        BrowserOpenParams { url: "about:blank".to_string(), profile_id: "default".to_string() }
    }
}

#[derive(Debug, Clone, Default, PartialEq, Eq)]
pub struct BrowserOpenResult {
    pub session_id: String,
    pub url: String,
}

#[derive(Debug, Clone, Default, PartialEq, Eq)]
pub struct BrowserCloseParams {
    pub session_id: Option<String>,
}

#[derive(Debug, Clone, Default, PartialEq, Eq)]
pub struct BrowserCloseResult {
    pub closed: u32,
}

#[derive(Debug, Clone, Default, PartialEq, Eq)]
pub struct RuntimeShutdownParams {}

#[derive(Debug, Clone, Default, PartialEq, Eq)]
pub struct RuntimeShutdownResult {
    pub ok: bool,
}

#[derive(Debug, Clone, Default, PartialEq, Eq)]
pub struct ProtocolErrorParams {
    pub message: String,
}

/// A change in a browser session reported by the worker.
#[derive(Debug, Clone, Copy, Default, PartialEq, Eq)]
pub enum BrowserEvent {
    Opened,
    #[default]
    Closed,
    Crashed,
}

#[derive(Debug, Clone, Default, PartialEq, Eq)]
pub struct BrowserEventParams {
    pub session_id: String,
    pub event: BrowserEvent,
}

/// The methods of the worker protocol.
#[derive(Debug, Clone, Copy, PartialEq, Eq)]
pub enum RpcMethod {
    RuntimeReady,
    RuntimeHealth,
    RuntimeShutdown,
    BrowserOpen,
    BrowserClose,
    BrowserEvent,
    CancelRequest,
}

/// The error object of a JSON-RPC response.
#[derive(Debug, Clone, PartialEq, Eq)]
pub struct RpcErrorPayload {
    pub code: i32,
    pub message: String,
    pub data: Option<String>,
}

impl Default for RpcErrorPayload {
    /// A generic runtime error: code -32000, message `runtime error`, no data.
    fn default() -> (r: Self)
        ensures
            r.code == -32_000,
            r.message@ == "runtime error"@,
            r.data is None,
    {
        RpcErrorPayload { code: -32_000, message: "runtime error".to_string(), data: None }
    }
}

} // verus!
