//! The browser worker: where its runtime is found, how it is configured, and
//! the decisions taken while starting, watching and stopping it.
use vstd::prelude::*;

use crate::config::{config_message, AppConfig, BrowserEngine, ConfigError};
use crate::paths::{
    answers_of, asked_since, extends, lemma_extends_refl, lemma_extends_trans, first_answered, first_found, first_on_disk, is_absolute_path, join_path, opt_view,
    path_is_absolute, path_is_file, path_join, probe_disk, searched, strings_view, AppPaths, AppPathsView, Disk, DiskProbe,
};
use crate::protocol::method;
use crate::protocol::{BrowserEventParams, BrowserOpenResult, ProtocolErrorParams};
use crate::text::str_eq;
use crate::text::{duration_debug_text, duration_text, joined};
use crate::transport::{transport_message, TransportError};
use vstd::string::StringExecFns;

verus! {

/// Where the worker's runtime, entry script and browser live.
#[derive(Debug, Clone, PartialEq, Eq)]
pub struct RuntimePaths {
    pub runtime_dir: String,
    pub runtime_bin: String,
    pub worker_entry: String,
    pub chromium_dir: String,
}

pub struct RuntimePathsView {
    pub runtime_dir: Seq<char>,
    pub runtime_bin: Seq<char>,
    pub worker_entry: Seq<char>,
    pub chromium_dir: Seq<char>,
}

impl View for RuntimePaths {
    type V = RuntimePathsView;

    open spec fn view(&self) -> RuntimePathsView {
        RuntimePathsView {
            runtime_dir: self.runtime_dir@,
            runtime_bin: self.runtime_bin@,
            worker_entry: self.worker_entry@,
            chromium_dir: self.chromium_dir@,
        }
    }
}

impl RuntimePaths {
    /// A copy of the paths.
    pub fn duplicate(&self) -> (r: Self)
        ensures
            r == *self,
    {
        RuntimePaths {
            runtime_dir: self.runtime_dir.clone(),
            runtime_bin: self.runtime_bin.clone(),
            worker_entry: self.worker_entry.clone(),
            chromium_dir: self.chromium_dir.clone(),
        }
    }
}

/// Facts about the running process that path resolution needs.
#[derive(Debug, Clone, PartialEq, Eq)]
pub struct HostFacts {
    /// The current working directory.
    pub cwd: String,
    /// Whether the target is Windows, where the runtime binary is `bun.exe`.
    pub windows: bool,
}

/// How the worker is launched and talked to.
#[derive(Debug, Clone)]
pub struct BrowserManagerConfig {
    pub runtime: RuntimePaths,
    pub data_dir: String,
    pub engine: BrowserEngine,
    pub headless: bool,
    pub request_timeout_ms: u64,
    pub shutdown_timeout_ms: u64,
    pub max_frame_bytes: usize,
}

impl BrowserManagerConfig {
    /// A copy of the settings.
    pub fn duplicate(&self) -> (r: Self)
        ensures
            r == *self,
    {
        BrowserManagerConfig {
            runtime: self.runtime.duplicate(),
            data_dir: self.data_dir.clone(),
            engine: self.engine,
            headless: self.headless,
            request_timeout_ms: self.request_timeout_ms,
            shutdown_timeout_ms: self.shutdown_timeout_ms,
            max_frame_bytes: self.max_frame_bytes,
        }
    }
}

/// A browser session opened by the worker.
#[derive(Debug, Clone, PartialEq, Eq)]
pub struct BrowserSession {
    pub session_id: String,
    pub url: String,
}

impl BrowserSession {
    /// The session the worker reported when it opened a page.
    pub fn from_open_result(result: BrowserOpenResult) -> (r: Self)
        ensures
            r.session_id == result.session_id,
            r.url == result.url,
    {
        BrowserSession { session_id: result.session_id, url: result.url }
    }

    /// A copy of the session.
    pub fn duplicate(&self) -> (r: Self)
        ensures
            r == *self,
    {
        BrowserSession { session_id: self.session_id.clone(), url: self.url.clone() }
    }
}

/// A notification from the worker, as the client understands it.
#[derive(Debug, PartialEq)]
pub enum RuntimeNotification {
    BrowserEvent(BrowserEventParams),
    ProtocolError(ProtocolErrorParams),
    Unknown { method: String, params: serde_json::Value },
}

impl RuntimeNotification {
    /// A `browser.event` notification, given how its parameters decoded:
    /// the event, or a protocol error naming the decoder's complaint.
    pub fn from_browser_event(decoded: Result<BrowserEventParams, String>) -> (r: Self)
        ensures
            match decoded {
                Ok(p) => r == RuntimeNotification::BrowserEvent(p),
                Err(m) => r matches RuntimeNotification::ProtocolError(e) && e.message@
                    == "invalid browser.event payload: "@ + m@,
            },
    {
        match decoded {
            Ok(params) => RuntimeNotification::BrowserEvent(params),
            Err(message) => {
                let mut text = "invalid browser.event payload: ".to_string();
                text.append(message.as_str());
                RuntimeNotification::ProtocolError(ProtocolErrorParams { message: text })
            },
        }
    }

    /// A `runtime.protocol_error` notification, given how its parameters
    /// decoded: the worker's complaint, or one naming the decoder's.
    pub fn from_protocol_error(decoded: Result<ProtocolErrorParams, String>) -> (r: Self)
        ensures
            match decoded {
                Ok(p) => r == RuntimeNotification::ProtocolError(p),
                Err(m) => r matches RuntimeNotification::ProtocolError(e) && e.message@
                    == "invalid protocol error payload: "@ + m@,
            },
    {
        match decoded {
            Ok(params) => RuntimeNotification::ProtocolError(params),
            Err(message) => {
                let mut text = "invalid protocol error payload: ".to_string();
                text.append(message.as_str());
                RuntimeNotification::ProtocolError(ProtocolErrorParams { message: text })
            },
        }
    }
}

/// Why the worker could not be located, started, used or stopped.
#[derive(Debug, Clone, PartialEq, Eq)]
pub enum BrowserError {
    Config(ConfigError),
    MissingRuntime { path: String },
    MissingWorker { path: String },
    Spawn { path: String, message: String },
    MissingPipe(String),
    ThreadSpawn(String),
    ReadyTimeout { timeout_ms: u64 },
    Transport(TransportError),
    Decode(String),
    Kill(String),
    Wait(String),
}

/// How an error of the worker reads.
pub open spec fn browser_message(e: BrowserError) -> Seq<char> {
    match e {
        BrowserError::Config(c) => config_message(c),
        BrowserError::MissingRuntime { path } => "Bun runtime was not found at `"@ + path@ + "`"@,
        BrowserError::MissingWorker { path } => "browser worker entry was not found at `"@ + path@ + "`"@,
        BrowserError::Spawn { path, message } => "failed to spawn browser worker with `"@ + path@ + "`: "@
            + message@,
        BrowserError::MissingPipe(p) => "worker process did not expose "@ + p@,
        BrowserError::ThreadSpawn(m) => "failed to start background thread: "@ + m@,
        BrowserError::ReadyTimeout { timeout_ms } => "timed out waiting for runtime.ready after "@
            + duration_debug_text(timeout_ms),
        BrowserError::Transport(t) => transport_message(t),
        BrowserError::Decode(m) => "failed to decode worker response: "@ + m@,
        BrowserError::Kill(m) => "failed to stop worker: "@ + m@,
        BrowserError::Wait(m) => "failed while waiting for worker: "@ + m@,
    }
}

/// `prefix`, `path` and `` ` `` run together.
fn quoted_path(prefix: &str, path: &str) -> (r: String)
    ensures
        r@ == prefix@ + path@ + "`"@,
{
    let mut text = joined(prefix, path);
    text.append("`");
    text
}

impl BrowserError {
    /// The error as it is shown.
    pub fn message(&self) -> (r: String)
        ensures
            r@ == browser_message(*self),
    {
        match self {
            BrowserError::Config(c) => c.message(),
            BrowserError::MissingRuntime { path } => quoted_path("Bun runtime was not found at `", path.as_str()),
            BrowserError::MissingWorker { path } => quoted_path(
                "browser worker entry was not found at `",
                path.as_str(),
            ),
            BrowserError::Spawn { path, message } => {
                let mut text = joined("failed to spawn browser worker with `", path.as_str());
                text.append("`: ");
                text.append(message.as_str());
                text
            },
            BrowserError::MissingPipe(p) => joined("worker process did not expose ", p.as_str()),
            BrowserError::ThreadSpawn(m) => joined("failed to start background thread: ", m.as_str()),
            BrowserError::ReadyTimeout { timeout_ms } => joined(
                "timed out waiting for runtime.ready after ",
                duration_text(*timeout_ms).as_str(),
            ),
            BrowserError::Transport(t) => t.message(),
            BrowserError::Decode(m) => joined("failed to decode worker response: ", m.as_str()),
            BrowserError::Kill(m) => joined("failed to stop worker: ", m.as_str()),
            BrowserError::Wait(m) => joined("failed while waiting for worker: ", m.as_str()),
        }
    }
}

/// The places searched for the runtime binary when none is configured.
pub open spec fn runtime_candidates_spec(runtime_dir: Seq<char>) -> Seq<Seq<char>> {
    seq![path_join(runtime_dir, "bun/bun.exe"@), path_join(runtime_dir, "bun/bun"@)]
}

/// The places searched for the worker entry script when none is configured:
/// inside the runtime directory, then under the working directory.
pub open spec fn worker_candidates_spec(runtime_dir: Seq<char>, cwd: Seq<char>) -> Seq<Seq<char>> {
    seq![
        path_join(runtime_dir, "browser-worker/src/main.ts"@),
        path_join(cwd, "runtime/browser-worker/src/main.ts"@),
        path_join(cwd, "browser-worker/src/main.ts"@),
    ]
}

/// How runtime resolution ends.
pub enum RuntimeResolution {
    Resolved(RuntimePathsView),
    MissingWorker(Seq<char>),
    MissingRuntime(Seq<char>),
}

/// The runtime directory: the configured one, else the one of `paths`.
pub open spec fn runtime_dir_of(config: AppConfig, paths: AppPathsView) -> Seq<char> {
    match config.runtime.dir {
        Some(d) => d@,
        None => paths.runtime_dir,
    }
}

/// The runtime binary, `bin_answers` being what the disk answered for the
/// runtime candidates in `runtime_dir`: the configured one, else the first
/// candidate present, else `bun` (`bun.exe` on Windows) on the `PATH`.
pub open spec fn runtime_bin_of(config: AppConfig, host: HostFacts, runtime_dir: Seq<char>, bin_answers: Seq<bool>) -> Seq<
    char,
> {
    match config.runtime.bin {
        Some(b) => b@,
        None => match first_found(runtime_candidates_spec(runtime_dir), bin_answers) {
            Some(p) => p,
            None => if host.windows {
                "bun.exe"@
            } else {
                "bun"@
            },
        },
    }
}

/// The worker entry script, `worker_answers` being what the disk answered
/// for the worker candidates: the configured one, else the first candidate
/// present, if any.
pub open spec fn worker_of(config: AppConfig, host: HostFacts, runtime_dir: Seq<char>, worker_answers: Seq<bool>) -> Option<
    Seq<char>,
> {
    match config.runtime.worker_entry {
        Some(w) => Some(w@),
        None => first_found(worker_candidates_spec(runtime_dir, host.cwd@), worker_answers),
    }
}

/// Runtime resolution given what the disk answered: `bin_answers` for the
/// runtime candidates, `worker_answers` for the worker candidates, and
/// `bin_is_file` for the final check of an absolute runtime binary.
pub open spec fn resolve_runtime_spec(
    config: AppConfig,
    paths: AppPathsView,
    host: HostFacts,
    bin_answers: Seq<bool>,
    worker_answers: Seq<bool>,
    bin_is_file: bool,
) -> RuntimeResolution {
    let runtime_dir = runtime_dir_of(config, paths);
    let runtime_bin = runtime_bin_of(config, host, runtime_dir, bin_answers);
    match worker_of(config, host, runtime_dir, worker_answers) {
        None => RuntimeResolution::MissingWorker(path_join(runtime_dir, "browser-worker/src/main.ts"@)),
        Some(worker_entry) => {
            if path_is_absolute(runtime_bin) && !bin_is_file {
                RuntimeResolution::MissingRuntime(runtime_bin)
            } else {
                RuntimeResolution::Resolved(
                    RuntimePathsView {
                        runtime_dir,
                        runtime_bin,
                        worker_entry,
                        chromium_dir: path_join(runtime_dir, "chromium"@),
                    },
                )
            }
        },
    }
}

/// `probes`, the questions put to the disk while resolving the runtime, are
/// `nb` questions searching the runtime candidates (none when a binary is
/// configured), then `nw` searching the worker candidates (none when an
/// entry is configured), then one asking whether the chosen binary is a
/// file, asked exactly when the worker was found and that binary is
/// absolute.
pub open spec fn runtime_probes(config: AppConfig, paths: AppPathsView, host: HostFacts, probes: Seq<DiskProbe>, nb: int, nw: int) -> bool {
    let runtime_dir = runtime_dir_of(config, paths);
    let bins = probes.take(nb);
    let workers = probes.subrange(nb, nb + nw);
    let rest = probes.skip(nb + nw);
    let runtime_bin = runtime_bin_of(config, host, runtime_dir, answers_of(bins));
    &&& 0 <= nb && 0 <= nw && nb + nw <= probes.len()
    &&& if config.runtime.bin is Some {
        nb == 0
    } else {
        searched(bins, runtime_candidates_spec(runtime_dir), true)
    }
    &&& if config.runtime.worker_entry is Some {
        nw == 0
    } else {
        searched(workers, worker_candidates_spec(runtime_dir, host.cwd@), true)
    }
    &&& rest.len() == if worker_of(config, host, runtime_dir, answers_of(workers)) is Some && path_is_absolute(
        runtime_bin,
    ) {
        1int
    } else {
        0int
    }
    &&& rest.len() == 1 ==> rest[0].path == runtime_bin && rest[0].files_only
}

/// The resolution that the answers to `probes`, split as `runtime_probes`
/// says, lead to.
pub open spec fn probed_resolution(config: AppConfig, paths: AppPathsView, host: HostFacts, probes: Seq<DiskProbe>, nb: int, nw: int) -> RuntimeResolution {
    let rest = probes.skip(nb + nw);
    resolve_runtime_spec(
        config,
        paths,
        host,
        answers_of(probes.take(nb)),
        answers_of(probes.subrange(nb, nb + nw)),
        rest.len() == 1 && rest[0].answer,
    )
}

pub open spec fn resolution_matches(r: Result<RuntimePaths, BrowserError>, s: RuntimeResolution) -> bool {
    match s {
        RuntimeResolution::Resolved(v) => r matches Ok(p) && p@ == v,
        RuntimeResolution::MissingWorker(path) => r matches Err(BrowserError::MissingWorker { path: p })
            && p@ == path,
        RuntimeResolution::MissingRuntime(path) => r matches Err(
            BrowserError::MissingRuntime { path: p },
        ) && p@ == path,
    }
}

/// The runtime binaries looked for inside `runtime_dir`.
pub fn runtime_candidates(runtime_dir: &str) -> (r: Vec<String>)
    ensures
        strings_view(r@) == runtime_candidates_spec(runtime_dir@),
{
    let mut r: Vec<String> = Vec::new();
    r.push(join_path(runtime_dir, "bun/bun.exe"));
    r.push(join_path(runtime_dir, "bun/bun"));
    assert(strings_view(r@) =~= runtime_candidates_spec(runtime_dir@));
    r
}

/// The worker entry scripts looked for.
pub fn worker_candidates(runtime_dir: &str, cwd: &str) -> (r: Vec<String>)
    ensures
        strings_view(r@) == worker_candidates_spec(runtime_dir@, cwd@),
{
    let mut r: Vec<String> = Vec::new();
    r.push(join_path(runtime_dir, "browser-worker/src/main.ts"));
    r.push(join_path(cwd, "runtime/browser-worker/src/main.ts"));
    r.push(join_path(cwd, "browser-worker/src/main.ts"));
    assert(strings_view(r@) =~= worker_candidates_spec(runtime_dir@, cwd@));
    r
}

/// The first candidate that is a file now. The disk is asked about each
/// candidate in turn until one is; the questions and answers are recorded in
/// `disk`, and the result is the first candidate answered yes there.
pub fn first_existing(disk: &mut Disk, candidates: &Vec<String>) -> (r: Option<String>)
    ensures
        extends(*old(disk), *final(disk)),
        searched(asked_since(*old(disk), *final(disk)), strings_view(candidates@), true),
        opt_view(r) == first_found(strings_view(candidates@), answers_of(asked_since(*old(disk), *final(disk)))),
{
    first_on_disk(disk, candidates, true)
}

/// Finds the worker runtime given what the disk answered: `bin_answers` for
/// the runtime candidates, `worker_answers` for the worker candidates, and
/// `bin_is_file` for an absolute runtime binary. Configured paths win;
/// otherwise the first bundled `bun` answered present (else `bun` on the
/// `PATH`) and the first worker entry answered present. A missing worker
/// entry, then an absolute runtime binary that is not a file, is an error.
pub fn resolve_with_answers(
    config: &AppConfig,
    paths: &AppPaths,
    host: &HostFacts,
    bin_answers: &Vec<bool>,
    worker_answers: &Vec<bool>,
    bin_is_file: bool,
) -> (r: Result<RuntimePaths, BrowserError>)
    ensures
        resolution_matches(
            r,
            resolve_runtime_spec(*config, paths@, *host, bin_answers@, worker_answers@, bin_is_file),
        ),
{
    let runtime_dir = match &config.runtime.dir {
        Some(dir) => dir.clone(),
        None => paths.runtime_dir.clone(),
    };
    let runtime_bin = match &config.runtime.bin {
        Some(bin) => bin.clone(),
        None => match first_answered(&runtime_candidates(runtime_dir.as_str()), bin_answers) {
            Some(path) => path,
            None => if host.windows {
                "bun.exe".to_string()
            } else {
                "bun".to_string()
            },
        },
    };
    let worker_entry = match &config.runtime.worker_entry {
        Some(entry) => entry.clone(),
        None => match first_answered(&worker_candidates(runtime_dir.as_str(), host.cwd.as_str()), worker_answers) {
            Some(path) => path,
            None => {
                return Err(
                    BrowserError::MissingWorker {
                        path: join_path(runtime_dir.as_str(), "browser-worker/src/main.ts"),
                    },
                );
            },
        },
    };
    if is_absolute_path(runtime_bin.as_str()) && !bin_is_file {
        return Err(BrowserError::MissingRuntime { path: runtime_bin });
    }
    let chromium_dir = join_path(runtime_dir.as_str(), "chromium");
    Ok(RuntimePaths { runtime_dir, runtime_bin, worker_entry, chromium_dir })
}

/// Finds the worker runtime on disk: asks about the runtime candidates in
/// order until one is a file, then the worker candidates likewise, then,
/// when the worker was found and the chosen runtime binary is absolute,
/// whether that binary is a file. The questions and answers are recorded in
/// `disk`, and the answers decide as `resolve_with_answers` says.
pub fn resolve_runtime_paths(disk: &mut Disk, config: &AppConfig, paths: &AppPaths, host: &HostFacts) -> (r: Result<
    RuntimePaths,
    BrowserError,
>)
    ensures
        extends(*old(disk), *final(disk)),
        exists|nb: int, nw: int|
            #[trigger] runtime_probes(*config, paths@, *host, asked_since(*old(disk), *final(disk)), nb, nw)
                && resolution_matches(
                r,
                probed_resolution(*config, paths@, *host, asked_since(*old(disk), *final(disk)), nb, nw),
            ),
{
    let ghost d0 = *disk;
    let runtime_dir = match &config.runtime.dir {
        Some(dir) => dir.clone(),
        None => paths.runtime_dir.clone(),
    };
    let bin_candidates = runtime_candidates(runtime_dir.as_str());
    let bin_answers = match &config.runtime.bin {
        Some(_) => Vec::new(),
        None => probe_disk(disk, &bin_candidates, true),
    };
    let ghost d1 = *disk;
    let worker_list = worker_candidates(runtime_dir.as_str(), host.cwd.as_str());
    let worker_answers = match &config.runtime.worker_entry {
        Some(_) => Vec::new(),
        None => probe_disk(disk, &worker_list, true),
    };
    let ghost d2 = *disk;
    let chosen_bin = match &config.runtime.bin {
        Some(bin) => bin.clone(),
        None => match first_answered(&bin_candidates, &bin_answers) {
            Some(path) => path,
            None => if host.windows {
                "bun.exe".to_string()
            } else {
                "bun".to_string()
            },
        },
    };
    let worker_found = match &config.runtime.worker_entry {
        Some(_) => true,
        None => first_answered(&worker_list, &worker_answers).is_some(),
    };
    let bin_is_file = if worker_found && is_absolute_path(chosen_bin.as_str()) {
        path_is_file(disk, chosen_bin.as_str())
    } else {
        false
    };
    proof {
        if config.runtime.bin is Some {
            lemma_extends_refl(d0);
        }
        if config.runtime.worker_entry is Some {
            lemma_extends_refl(d1);
        }
        if disk.asked().len() == d2.asked().len() {
            lemma_extends_refl(d2);
        } else {
            assert(disk.asked().take(d2.asked().len() as int) =~= d2.asked());
        }
        lemma_extends_trans(d0, d1, d2);
        lemma_extends_trans(d0, d2, *disk);
        let probes = asked_since(d0, *disk);
        let nb = d1.asked().len() - d0.asked().len();
        let nw = d2.asked().len() - d1.asked().len();
        assert(probes.take(nb) =~= asked_since(d0, d1));
        assert(probes.subrange(nb, nb + nw) =~= asked_since(d1, d2));
        assert(probes.skip(nb + nw) =~= asked_since(d2, *disk));
        assert(runtime_probes(*config, paths@, *host, probes, nb, nw));
    }
    resolve_with_answers(config, paths, host, &bin_answers, &worker_answers, bin_is_file)
}

/// The launch settings of the worker: the resolved runtime, the data
/// directory, and the browser and protocol settings of `config`.
pub open spec fn manager_config_from(
    config: AppConfig,
    paths: AppPathsView,
    runtime: RuntimePaths,
    m: BrowserManagerConfig,
) -> bool {
    &&& m.runtime == runtime
    &&& m.data_dir@ == paths.data_dir
    &&& m.engine == config.browser.engine
    &&& m.headless == config.browser.headless
    &&& m.request_timeout_ms == config.rpc.request_timeout_ms
    &&& m.shutdown_timeout_ms == config.rpc.shutdown_timeout_ms
    &&& m.max_frame_bytes == config.rpc.max_frame_bytes
}

/// `r` is the manager configuration that a runtime resolution `s` leads to.
pub open spec fn manager_config_matches(
    r: Result<BrowserManagerConfig, BrowserError>,
    s: RuntimeResolution,
    config: AppConfig,
    paths: AppPathsView,
) -> bool {
    match s {
        RuntimeResolution::Resolved(v) => r matches Ok(m) && m.runtime@ == v && manager_config_from(
            config,
            paths,
            m.runtime,
            m,
        ),
        RuntimeResolution::MissingWorker(path) => r matches Err(BrowserError::MissingWorker { path: p })
            && p@ == path,
        RuntimeResolution::MissingRuntime(path) => r matches Err(
            BrowserError::MissingRuntime { path: p },
        ) && p@ == path,
    }
}

impl BrowserManagerConfig {
    /// The worker settings that follow from the configuration and paths.
    pub fn from_app(disk: &mut Disk, config: &AppConfig, paths: &AppPaths, host: &HostFacts) -> (r: Result<
        Self,
        BrowserError,
    >)
        ensures
            extends(*old(disk), *final(disk)),
            exists|nb: int, nw: int|
                #[trigger] runtime_probes(*config, paths@, *host, asked_since(*old(disk), *final(disk)), nb, nw)
                    && manager_config_matches(
                    r,
                    probed_resolution(*config, paths@, *host, asked_since(*old(disk), *final(disk)), nb, nw),
                    *config,
                    paths@,
                ),
    {
        let resolved = resolve_runtime_paths(disk, config, paths, host);
        Self::from_resolution(config, paths, resolved)
    }

    /// The worker settings for the runtime paths `resolved`: the failure to
    /// resolve them as it is, else those paths with the configuration's
    /// browser and RPC settings and the data directory.
    pub fn from_resolution(config: &AppConfig, paths: &AppPaths, resolved: Result<RuntimePaths, BrowserError>) -> (r:
        Result<Self, BrowserError>)
        ensures
            match resolved {
                Ok(runtime) => r matches Ok(m) && manager_config_from(*config, paths@, runtime, m),
                Err(e) => r == Err::<BrowserManagerConfig, BrowserError>(e),
            },
    {
        let runtime = match resolved {
            Ok(runtime) => runtime,
            Err(error) => return Err(error),
        };
        Ok(
            BrowserManagerConfig {
                runtime,
                data_dir: paths.data_dir.clone(),
                engine: config.browser.engine,
                headless: config.browser.headless,
                request_timeout_ms: config.rpc.request_timeout_ms,
                shutdown_timeout_ms: config.rpc.shutdown_timeout_ms,
                max_frame_bytes: config.rpc.max_frame_bytes,
            },
        )
    }
}

/// The command-line name of an engine.
pub fn browser_engine_name(engine: BrowserEngine) -> (r: &'static str)
    ensures
        engine == BrowserEngine::Patchright ==> r@ == "patchright"@,
{
    match engine {
        BrowserEngine::Patchright => "patchright",
    }
}

/// The process that runs the worker: its program, arguments and the
/// environment variables set for it.
#[derive(Debug, Clone, PartialEq, Eq)]
pub struct LaunchCommand {
    pub program: String,
    pub args: Vec<String>,
    pub env: Vec<(String, String)>,
}

/// `true` or `false`, as the worker reads a flag.
pub open spec fn flag_text(b: bool) -> Seq<char> {
    if b {
        "true"@
    } else {
        "false"@
    }
}

/// The runtime binary runs the entry script with the data directory, the
/// engine's name and the headless flag; the browsers are looked for in the
/// runtime's `chromium` directory.
pub open spec fn launch_command_matches(config: BrowserManagerConfig, c: LaunchCommand) -> bool {
    &&& c.program@ == config.runtime.runtime_bin@
    &&& strings_view(c.args@) == seq![
        config.runtime.worker_entry@,
        "--data-dir"@,
        config.data_dir@,
        "--engine"@,
        "patchright"@,
        "--headless"@,
        flag_text(config.headless),
    ]
    &&& c.env@.len() == 1
    &&& c.env@[0].0@ == "PLAYWRIGHT_BROWSERS_PATH"@
    &&& c.env@[0].1@ == config.runtime.chromium_dir@
}

/// The command that starts the worker for `config`.
pub fn launch_command(config: &BrowserManagerConfig) -> (r: LaunchCommand)
    ensures
        launch_command_matches(*config, r),
{
    let mut args: Vec<String> = Vec::new();
    args.push(config.runtime.worker_entry.clone());
    args.push("--data-dir".to_string());
    args.push(config.data_dir.clone());
    args.push("--engine".to_string());
    args.push(browser_engine_name(config.engine).to_string());
    args.push("--headless".to_string());
    args.push(if config.headless { "true".to_string() } else { "false".to_string() });
    let mut env: Vec<(String, String)> = Vec::new();
    env.push(("PLAYWRIGHT_BROWSERS_PATH".to_string(), config.runtime.chromium_dir.clone()));
    let r = LaunchCommand { program: config.runtime.runtime_bin.clone(), args, env };
    assert(strings_view(r.args@) =~= seq![
        config.runtime.worker_entry@,
        "--data-dir"@,
        config.data_dir@,
        "--engine"@,
        "patchright"@,
        "--headless"@,
        flag_text(config.headless),
    ]);
    r
}

/// How a notification of the worker is read, by its method.
#[derive(Debug, Clone, Copy, PartialEq, Eq)]
pub enum NotificationKind {
    /// `browser.event`: a session changed.
    BrowserEvent,
    /// `runtime.protocol_error`: the worker could not read what it was sent.
    ProtocolError,
    /// Anything else, kept as it came.
    Unknown,
}

pub open spec fn notification_kind_spec(method_name: Seq<char>) -> NotificationKind {
    if method_name == method::BROWSER_EVENT@ {
        NotificationKind::BrowserEvent
    } else if method_name == method::RUNTIME_PROTOCOL_ERROR@ {
        NotificationKind::ProtocolError
    } else {
        NotificationKind::Unknown
    }
}

/// Tells how a notification with this method is to be read.
pub fn notification_kind(method_name: &str) -> (r: NotificationKind)
    ensures
        r == notification_kind_spec(method_name@),
{
    if str_eq(method_name, method::BROWSER_EVENT) {
        NotificationKind::BrowserEvent
    } else if str_eq(method_name, method::RUNTIME_PROTOCOL_ERROR) {
        NotificationKind::ProtocolError
    } else {
        NotificationKind::Unknown
    }
}

/// What happened while waiting for the worker to announce it is ready.
pub enum ReadyEvent {
    /// The start-up deadline passed.
    DeadlinePassed,
    /// A notification with this method arrived.
    Notification(String),
    /// Receiving failed.
    Failed(TransportError),
}

/// What to do next while waiting for readiness.
#[derive(Debug, Clone, PartialEq, Eq)]
pub enum ReadyStep {
    /// The worker is ready.
    Ready,
    /// Keep the notification for later and wait again.
    Buffer,
    /// Give up.
    Fail(BrowserError),
}

/// One step of the wait for `runtime.ready`: the deadline ends it with
/// `ReadyTimeout`, `runtime.ready` ends it, any other notification is kept
/// for later, and a receive error ends it with that error.
pub open spec fn ready_step_spec(event: ReadyEvent, request_timeout_ms: u64) -> ReadyStep {
    match event {
        ReadyEvent::DeadlinePassed => ReadyStep::Fail(BrowserError::ReadyTimeout { timeout_ms: request_timeout_ms }),
        ReadyEvent::Notification(m) => if m@ == method::RUNTIME_READY@ {
            ReadyStep::Ready
        } else {
            ReadyStep::Buffer
        },
        ReadyEvent::Failed(e) => ReadyStep::Fail(BrowserError::Transport(e)),
    }
}

/// Decides one step of the wait for `runtime.ready`, as `ready_step_spec`
/// says.
pub fn ready_step(event: ReadyEvent, request_timeout_ms: u64) -> (r: ReadyStep)
    ensures
        r == ready_step_spec(event, request_timeout_ms),
{
    match event {
        ReadyEvent::DeadlinePassed => ReadyStep::Fail(
            BrowserError::ReadyTimeout { timeout_ms: request_timeout_ms },
        ),
        ReadyEvent::Notification(m) => {
            if str_eq(m.as_str(), method::RUNTIME_READY) {
                ReadyStep::Ready
            } else {
                ReadyStep::Buffer
            }
        },
        ReadyEvent::Failed(e) => ReadyStep::Fail(BrowserError::Transport(e)),
    }
}

/// What `Child::try_wait` reported about the worker process.
#[derive(Debug, Clone, PartialEq, Eq)]
pub enum WorkerStatus {
    Exited,
    Running,
    /// Asking failed, with this message.
    Unknown(String),
}

/// What to do next while stopping the worker.
#[derive(Debug, Clone, PartialEq, Eq)]
pub enum ShutdownStep {
    /// The worker is gone; stopping succeeded.
    Done,
    /// Wait a little and ask again.
    Wait,
    /// The grace period is over: kill the worker and reap it.
    Kill,
    /// Stopping failed.
    Fail(BrowserError),
}

/// The stop/run state of one worker process.
#[derive(Debug, Clone, Copy, PartialEq, Eq)]
pub struct WorkerLifecycle {
    pub stopped: bool,
}

impl WorkerLifecycle {
    /// A worker that was just started.
    pub fn started() -> (r: Self)
        ensures
            !r.stopped,
    {
        WorkerLifecycle { stopped: false }
    }

    /// Whether a shutdown request must still be sent: not once stopped.
    pub fn needs_shutdown(&self) -> (r: bool)
        ensures
            r == !self.stopped,
    {
        !self.stopped
    }

    /// Whether the worker counts as running: not stopped, and still alive.
    pub fn is_running(&self, status: &WorkerStatus) -> (r: bool)
        ensures
            r == (!self.stopped && *status == WorkerStatus::Running),
    {
        !self.stopped && match status {
            WorkerStatus::Running => true,
            _ => false,
        }
    }

    /// Decides one step of stopping, after the shutdown request: an exited
    /// worker is done; a live one is waited for until the deadline, then
    /// killed; a failure to ask ends stopping with `Wait`. An exited worker
    /// and a failure to ask leave the worker stopped; waiting and killing
    /// leave it as it was.
    pub fn shutdown_step(&mut self, status: WorkerStatus, before_deadline: bool) -> (r: ShutdownStep)
        ensures
            match status {
                WorkerStatus::Exited => r == ShutdownStep::Done,
                WorkerStatus::Running => if before_deadline {
                    r == ShutdownStep::Wait
                } else {
                    r == ShutdownStep::Kill
                },
                WorkerStatus::Unknown(m) => r == ShutdownStep::Fail(BrowserError::Wait(m)),
            },
            final(self).stopped == stopped_after(old(self).stopped, r),
    {
        match status {
            WorkerStatus::Exited => {
                self.stopped = true;
                ShutdownStep::Done
            },
            WorkerStatus::Running => {
                if before_deadline {
                    ShutdownStep::Wait
                } else {
                    ShutdownStep::Kill
                }
            },
            WorkerStatus::Unknown(m) => {
                self.stopped = true;
                ShutdownStep::Fail(BrowserError::Wait(m))
            },
        }
    }

    /// Records how killing the worker went: a killed worker is stopped; a
    /// failure to kill is reported and leaves it as it was.
    pub fn finish_kill(&mut self, killed: Result<(), String>) -> (r: Result<(), BrowserError>)
        ensures
            match killed {
                Ok(()) => r is Ok,
                Err(m) => r == Err::<(), BrowserError>(BrowserError::Kill(m)),
            },
            final(self).stopped == stopped_after_kill(old(self).stopped, killed is Ok),
    {
        match killed {
            Ok(()) => {
                self.stopped = true;
                Ok(())
            },
            Err(m) => Err(BrowserError::Kill(m)),
        }
    }

    /// Records that the worker was stopped without the shutdown handshake
    /// (when it is dropped).
    pub fn mark_stopped(&mut self)
        ensures
            final(self).stopped,
    {
        self.stopped = true;
    }
}

/// The parameters of a notification as the client read them: decoded for
/// the two methods it understands, left as they came otherwise.
pub enum DecodedParams {
    BrowserEvent(Result<BrowserEventParams, String>),
    ProtocolError(Result<ProtocolErrorParams, String>),
    NotRead,
}

/// `decoded` is what a notification of kind `kind` is decoded into.
pub open spec fn decoded_for(kind: NotificationKind, decoded: DecodedParams) -> bool {
    match kind {
        NotificationKind::BrowserEvent => decoded is BrowserEvent,
        NotificationKind::ProtocolError => decoded is ProtocolError,
        NotificationKind::Unknown => decoded is NotRead,
    }
}

impl RuntimeNotification {
    /// A notification with `method` and `params`: a method the client does
    /// not know is kept unchanged; the two it knows are read from their
    /// decoded parameters.
    pub fn from_incoming(method: String, params: serde_json::Value, decoded: DecodedParams) -> (r: Self)
        requires
            decoded_for(notification_kind_spec(method@), decoded),
        ensures
            match decoded {
                DecodedParams::NotRead => r == RuntimeNotification::Unknown { method, params },
                DecodedParams::BrowserEvent(Ok(p)) => r == RuntimeNotification::BrowserEvent(p),
                DecodedParams::BrowserEvent(Err(m)) => r matches RuntimeNotification::ProtocolError(e)
                    && e.message@ == "invalid browser.event payload: "@ + m@,
                DecodedParams::ProtocolError(Ok(p)) => r == RuntimeNotification::ProtocolError(p),
                DecodedParams::ProtocolError(Err(m)) => r matches RuntimeNotification::ProtocolError(e)
                    && e.message@ == "invalid protocol error payload: "@ + m@,
            },
    {
        match decoded {
            DecodedParams::BrowserEvent(result) => Self::from_browser_event(result),
            DecodedParams::ProtocolError(result) => Self::from_protocol_error(result),
            DecodedParams::NotRead => RuntimeNotification::Unknown { method, params },
        }
    }
}

/// Notifications kept for later, oldest first.
pub struct NotificationQueue {
    items: Vec<RuntimeNotification>,
}

impl NotificationQueue {
    pub closed spec fn items(&self) -> Seq<RuntimeNotification> {
        self.items@
    }

    /// An empty queue.
    pub fn new() -> (r: Self)
        ensures
            r.items().len() == 0,
    {
        NotificationQueue { items: Vec::new() }
    }

    /// Keeps `notification` after those already kept.
    pub fn push(&mut self, notification: RuntimeNotification)
        ensures
            final(self).items() == old(self).items().push(notification),
    {
        self.items.push(notification);
    }

    /// One step of the wait for `runtime.ready`: decides it as `ready_step`
    /// does and, when the step keeps the notification that arrived, keeps it
    /// after those already kept.
    pub fn wait_step(&mut self, event: ReadyEvent, arrived: Option<RuntimeNotification>, request_timeout_ms: u64) -> (r:
        ReadyStep)
        ensures
            r == ready_step_spec(event, request_timeout_ms),
            final(self).items() == kept_after(old(self).items(), event, arrived, request_timeout_ms),
    {
        let step = ready_step(event, request_timeout_ms);
        match step {
            ReadyStep::Buffer => match arrived {
                Some(notification) => self.items.push(notification),
                None => {},
            },
            _ => {},
        }
        step
    }

    /// Hands out every kept notification, oldest first, followed by
    /// `later` in its order; the queue is then empty.
    pub fn drain_then(&mut self, later: Vec<RuntimeNotification>) -> (r: Vec<RuntimeNotification>)
        ensures
            r@ == old(self).items() + later@,
            final(self).items().len() == 0,
    {
        let mut out: Vec<RuntimeNotification> = Vec::new();
        std::mem::swap(&mut out, &mut self.items);
        let mut rest = later;
        let ghost first = out@;
        let ghost second = rest@;
        out.append(&mut rest);
        assert(out@ =~= first + second);
        out
    }
}

/// Whether a worker counts as stopped after a shutdown step `step`, having
/// been stopped (`was`) before it.
pub open spec fn stopped_after(was: bool, step: ShutdownStep) -> bool {
    was || step is Done || step is Fail
}

/// Whether a worker counts as stopped after a kill that succeeded or not,
/// having been stopped (`was`) before it.
pub open spec fn stopped_after_kill(was: bool, killed: bool) -> bool {
    was || killed
}

/// Once a worker is stopped it stays stopped: no shutdown step and no kill
/// outcome makes it need a shutdown again, so a second shutdown (which asks
/// `needs_shutdown` first) does nothing.
pub proof fn stopped_stays_stopped(step: ShutdownStep, killed: bool)
    ensures
        stopped_after(true, step),
        stopped_after_kill(true, killed),
{
}

/// The notifications kept after one step of the wait for `runtime.ready`:
/// `arrived` joins the end of `kept` when the step keeps it.
pub open spec fn kept_after(
    kept: Seq<RuntimeNotification>,
    event: ReadyEvent,
    arrived: Option<RuntimeNotification>,
    request_timeout_ms: u64,
) -> Seq<RuntimeNotification> {
    match (ready_step_spec(event, request_timeout_ms), arrived) {
        (ReadyStep::Buffer, Some(n)) => kept.push(n),
        _ => kept,
    }
}

/// The notifications kept after the wait has taken the `arrivals` in turn,
/// each a notification with its method.
pub open spec fn kept_through(
    kept: Seq<RuntimeNotification>,
    arrivals: Seq<(String, RuntimeNotification)>,
    request_timeout_ms: u64,
) -> Seq<RuntimeNotification>
    decreases arrivals.len(),
{
    if arrivals.len() == 0 {
        kept
    } else {
        kept_through(
            kept_after(kept, ReadyEvent::Notification(arrivals[0].0), Some(arrivals[0].1), request_timeout_ms),
            arrivals.drop_first(),
            request_timeout_ms,
        )
    }
}

/// While waiting for `runtime.ready`, every notification with another method
/// is kept and the wait goes on; `runtime.ready` ends the wait. Starting from
/// an empty queue, the notifications that arrived before `runtime.ready` are
/// kept in the order they arrived, and when the queue is drained they come
/// out first, in that order, before everything received afterwards.
pub proof fn notifications_before_ready_come_first(
    arrivals: Seq<(String, RuntimeNotification)>,
    later: Seq<RuntimeNotification>,
    request_timeout_ms: u64,
)
    requires
        forall|i: int| 0 <= i < arrivals.len() ==> #[trigger] arrivals[i].0@ != method::RUNTIME_READY@,
    ensures
        forall|i: int|
            0 <= i < arrivals.len() ==> #[trigger] ready_step_spec(
                ReadyEvent::Notification(arrivals[i].0),
                request_timeout_ms,
            ) == ReadyStep::Buffer,
        forall|ready: String|
            ready@ == method::RUNTIME_READY@ ==> #[trigger] ready_step_spec(ReadyEvent::Notification(ready), request_timeout_ms)
                == ReadyStep::Ready,
        kept_through(Seq::empty(), arrivals, request_timeout_ms) == arrivals.map_values(
            |a: (String, RuntimeNotification)| a.1,
        ),
        (kept_through(Seq::empty(), arrivals, request_timeout_ms) + later).take(arrivals.len() as int)
            == arrivals.map_values(|a: (String, RuntimeNotification)| a.1),
        (kept_through(Seq::empty(), arrivals, request_timeout_ms) + later).skip(arrivals.len() as int) == later,
{
    lemma_kept_through(Seq::empty(), arrivals, request_timeout_ms);
    let kept = arrivals.map_values(|a: (String, RuntimeNotification)| a.1);
    assert(Seq::<RuntimeNotification>::empty() + kept =~= kept);
    assert((kept + later).take(arrivals.len() as int) =~= kept);
    assert((kept + later).skip(arrivals.len() as int) =~= later);
}

/// Arrivals none of which is `runtime.ready` are all kept, in order, after
/// what was kept before.
proof fn lemma_kept_through(
    kept: Seq<RuntimeNotification>,
    arrivals: Seq<(String, RuntimeNotification)>,
    request_timeout_ms: u64,
)
    requires
        forall|i: int| 0 <= i < arrivals.len() ==> #[trigger] arrivals[i].0@ != method::RUNTIME_READY@,
    ensures
        kept_through(kept, arrivals, request_timeout_ms) == kept + arrivals.map_values(
            |a: (String, RuntimeNotification)| a.1,
        ),
    decreases arrivals.len(),
{
    if arrivals.len() == 0 {
        assert(kept + arrivals.map_values(|a: (String, RuntimeNotification)| a.1) =~= kept);
    } else {
        let rest = arrivals.drop_first();
        assert(arrivals[0].0@ != method::RUNTIME_READY@);
        assert forall|i: int| 0 <= i < rest.len() implies #[trigger] rest[i].0@ != method::RUNTIME_READY@ by {
            assert(rest[i] == arrivals[i + 1]);
        }
        lemma_kept_through(kept.push(arrivals[0].1), rest, request_timeout_ms);
        assert(kept.push(arrivals[0].1) + rest.map_values(|a: (String, RuntimeNotification)| a.1) =~= kept
            + arrivals.map_values(|a: (String, RuntimeNotification)| a.1));
    }
}

} // verus!
