use std::path::{Path, PathBuf};

use jobless::config::{AppConfig, BrowserEngine};
use jobless::manager::{
    browser_engine_name, first_existing, resolve_with_answers, launch_command, notification_kind, ready_step, resolve_runtime_paths,
    runtime_candidates, worker_candidates, BrowserError, BrowserManagerConfig, HostFacts, NotificationKind,
    ReadyEvent, ReadyStep, RuntimeNotification, RuntimePaths, BrowserSession, DecodedParams, NotificationQueue, ShutdownStep, WorkerLifecycle, WorkerStatus,
};
use jobless::paths::{bundled_runtime_dir, first_answered, AppPaths, Disk};
use jobless::protocol::method;
use jobless::protocol::{BrowserEvent, BrowserEventParams, BrowserOpenResult, ProtocolErrorParams};
use jobless::transport::TransportError;

fn text(path: &Path) -> String {
    path.to_string_lossy().into_owned()
}

fn exact_dir(parent: &Path, name: &str) -> PathBuf {
    tempfile::Builder::new().prefix(name).rand_bytes(0).tempdir_in(parent).unwrap().keep()
}

fn exact_file(parent: &Path, name: &str) -> PathBuf {
    let file = tempfile::Builder::new().prefix(name).rand_bytes(0).tempfile_in(parent).unwrap();
    let (_, path) = file.keep().unwrap();
    path
}

fn repo_layout(root: &Path) -> (PathBuf, PathBuf, PathBuf) {
    let runtime_dir = exact_dir(root, "runtime");
    let worker_src = exact_dir(&exact_dir(&runtime_dir, "browser-worker"), "src");
    let worker = exact_file(&worker_src, "main.ts");
    let bun_dir = exact_dir(&runtime_dir, "bun");
    let bun = exact_file(&bun_dir, "bun");
    (runtime_dir, worker, bun)
}

fn host(root: &Path) -> HostFacts {
    HostFacts { cwd: text(root), windows: false }
}

#[test]
fn resolves_development_runtime_from_repo_layout() {
    let root = tempfile::tempdir().unwrap();
    let (runtime_dir, worker, bun) = repo_layout(root.path());

    let paths = AppPaths::with_overrides(
        Some(text(&root.path().join("config/config.toml"))),
        Some(text(&root.path().join("data"))),
        text(&runtime_dir),
    )
    .unwrap();
    let resolved = resolve_runtime_paths(&mut Disk::new(), &AppConfig::default(), &paths, &host(root.path())).unwrap();

    assert_eq!(PathBuf::from(&resolved.runtime_bin), bun);
    assert_eq!(PathBuf::from(&resolved.worker_entry), worker);
}

#[test]
fn a_missing_worker_is_reported_under_the_runtime_directory() {
    let root = tempfile::tempdir().unwrap();
    let runtime_dir = root.path().join("empty-runtime");
    let paths = AppPaths::from_normalized(text(root.path()), text(&root.path().join("c.toml")), text(root.path()), text(&runtime_dir));
    let result = resolve_runtime_paths(&mut Disk::new(), &AppConfig::default(), &paths, &host(root.path()));
    assert_eq!(result, Err(BrowserError::MissingWorker { path: text(&runtime_dir.join("browser-worker/src/main.ts")) }));
}

#[test]
fn configured_paths_win_and_a_missing_absolute_runtime_is_an_error() {
    let root = tempfile::tempdir().unwrap();
    let paths = AppPaths::from_normalized(text(root.path()), text(&root.path().join("c.toml")), text(root.path()), text(root.path()));
    let mut config = AppConfig::default();
    config.runtime.worker_entry = Some("/nowhere/main.ts".to_string());
    config.runtime.bin = Some("/nowhere/bun".to_string());
    let result = resolve_runtime_paths(&mut Disk::new(), &config, &paths, &host(root.path()));
    assert_eq!(result, Err(BrowserError::MissingRuntime { path: "/nowhere/bun".to_string() }));

    config.runtime.bin = Some("bun-on-path".to_string());
    config.runtime.dir = Some("/opt/rt".to_string());
    let resolved = resolve_runtime_paths(&mut Disk::new(), &config, &paths, &host(root.path())).unwrap();
    assert_eq!(resolved.runtime_bin, "bun-on-path");
    assert_eq!(resolved.worker_entry, "/nowhere/main.ts");
    assert_eq!(resolved.runtime_dir, "/opt/rt");
    assert_eq!(resolved.chromium_dir, "/opt/rt/chromium");
}

#[test]
fn without_a_bundled_runtime_the_one_on_the_path_is_used() {
    let root = tempfile::tempdir().unwrap();
    let mut config = AppConfig::default();
    config.runtime.worker_entry = Some("main.ts".to_string());
    let paths = AppPaths::from_normalized(text(root.path()), text(&root.path().join("c.toml")), text(root.path()), text(root.path()));
    let resolved = resolve_runtime_paths(&mut Disk::new(), &config, &paths, &host(root.path())).unwrap();
    assert_eq!(resolved.runtime_bin, "bun");
    let windows = HostFacts { cwd: text(root.path()), windows: true };
    assert_eq!(resolve_runtime_paths(&mut Disk::new(), &config, &paths, &windows).unwrap().runtime_bin, "bun.exe");
}

#[test]
fn the_worker_is_also_found_under_the_working_directory() {
    let root = tempfile::tempdir().unwrap();
    let (_, worker, _) = repo_layout(root.path());
    let paths = AppPaths::from_normalized(text(root.path()), text(&root.path().join("c.toml")), text(root.path()), "/elsewhere".to_string());
    let resolved = resolve_runtime_paths(&mut Disk::new(), &AppConfig::default(), &paths, &host(root.path())).unwrap();
    assert_eq!(PathBuf::from(&resolved.worker_entry), worker);
    assert_eq!(resolved.runtime_bin, "bun");
}

#[test]
fn candidates_are_listed_in_search_order() {
    assert_eq!(runtime_candidates("/rt"), vec!["/rt/bun/bun.exe".to_string(), "/rt/bun/bun".to_string()]);
    assert_eq!(
        worker_candidates("/rt", "/cwd"),
        vec![
            "/rt/browser-worker/src/main.ts".to_string(),
            "/cwd/runtime/browser-worker/src/main.ts".to_string(),
            "/cwd/browser-worker/src/main.ts".to_string(),
        ]
    );
    let root = tempfile::tempdir().unwrap();
    let second = exact_file(root.path(), "second");
    let third = exact_file(root.path(), "third");
    let candidates = vec![text(&root.path().join("first")), text(&second), text(&third)];
    assert_eq!(first_existing(&mut Disk::new(), &candidates), Some(text(&second)));
    assert_eq!(first_existing(&mut Disk::new(), &vec![text(&root.path().join("none"))]), None);
}

#[test]
fn manager_settings_follow_the_configuration() {
    let root = tempfile::tempdir().unwrap();
    let (runtime_dir, worker, bun) = repo_layout(root.path());
    let paths = AppPaths::from_normalized(text(root.path()), text(&root.path().join("c.toml")), text(&root.path().join("data")), text(&runtime_dir));
    let mut config = AppConfig::default();
    config.browser.headless = true;
    config.rpc.request_timeout_ms = 1_500;
    let manager = BrowserManagerConfig::from_app(&mut Disk::new(), &config, &paths, &host(root.path())).unwrap();
    assert_eq!(PathBuf::from(&manager.runtime.runtime_bin), bun);
    assert_eq!(PathBuf::from(&manager.runtime.worker_entry), worker);
    assert_eq!(PathBuf::from(&manager.runtime.chromium_dir), runtime_dir.join("chromium"));
    assert_eq!(PathBuf::from(&manager.data_dir), root.path().join("data"));
    assert_eq!(manager.engine, BrowserEngine::Patchright);
    assert!(manager.headless);
    assert_eq!(manager.request_timeout_ms, 1_500);
    assert_eq!(manager.shutdown_timeout_ms, 3_000);
    assert_eq!(manager.max_frame_bytes, 4 * 1024 * 1024);
    assert_eq!(browser_engine_name(manager.engine), "patchright");
}

#[test]
fn notifications_are_sorted_by_method() {
    assert_eq!(notification_kind("browser.event"), NotificationKind::BrowserEvent);
    assert_eq!(notification_kind("runtime.protocol_error"), NotificationKind::ProtocolError);
    assert_eq!(notification_kind("runtime.ready"), NotificationKind::Unknown);
}

#[test]
fn browser_event_notifications_carry_their_parameters() {
    let params = BrowserEventParams { session_id: "session-1".to_string(), event: BrowserEvent::Crashed };
    assert_eq!(RuntimeNotification::from_browser_event(Ok(params.clone())), RuntimeNotification::BrowserEvent(params));
    assert_eq!(
        RuntimeNotification::from_browser_event(Err("missing field `event`".to_string())),
        RuntimeNotification::ProtocolError(ProtocolErrorParams {
            message: "invalid browser.event payload: missing field `event`".to_string()
        })
    );
    assert_eq!(
        RuntimeNotification::from_protocol_error(Err("eof".to_string())),
        RuntimeNotification::ProtocolError(ProtocolErrorParams { message: "invalid protocol error payload: eof".to_string() })
    );
    let worker = ProtocolErrorParams { message: "bad frame".to_string() };
    assert_eq!(RuntimeNotification::from_protocol_error(Ok(worker.clone())), RuntimeNotification::ProtocolError(worker));
}

#[test]
fn waiting_for_readiness() {
    assert_eq!(ready_step(ReadyEvent::Notification("runtime.ready".to_string()), 10), ReadyStep::Ready);
    assert_eq!(ready_step(ReadyEvent::Notification("browser.event".to_string()), 10), ReadyStep::Buffer);
    assert_eq!(
        ready_step(ReadyEvent::DeadlinePassed, 10_000),
        ReadyStep::Fail(BrowserError::ReadyTimeout { timeout_ms: 10_000 })
    );
    assert_eq!(
        ready_step(ReadyEvent::Failed(TransportError::Disconnected), 10),
        ReadyStep::Fail(BrowserError::Transport(TransportError::Disconnected))
    );
}

#[test]
fn stopping_the_worker() {
    let mut lifecycle = WorkerLifecycle::started();
    assert!(lifecycle.needs_shutdown());
    assert!(lifecycle.is_running(&WorkerStatus::Running));
    assert!(!lifecycle.is_running(&WorkerStatus::Exited));
    assert_eq!(lifecycle.shutdown_step(WorkerStatus::Running, true), ShutdownStep::Wait);
    assert!(lifecycle.needs_shutdown());
    assert_eq!(lifecycle.shutdown_step(WorkerStatus::Running, false), ShutdownStep::Kill);
    assert!(lifecycle.needs_shutdown());
    assert_eq!(lifecycle.finish_kill(Err("denied".to_string())), Err(BrowserError::Kill("denied".to_string())));
    assert!(lifecycle.needs_shutdown());
    assert_eq!(lifecycle.finish_kill(Ok(())), Ok(()));
    assert!(!lifecycle.needs_shutdown());
    assert!(!lifecycle.is_running(&WorkerStatus::Running));

    let mut exited = WorkerLifecycle::started();
    assert_eq!(exited.shutdown_step(WorkerStatus::Exited, true), ShutdownStep::Done);
    assert!(!exited.needs_shutdown());

    let mut unknown = WorkerLifecycle::started();
    assert_eq!(
        unknown.shutdown_step(WorkerStatus::Unknown("EINTR".to_string()), true),
        ShutdownStep::Fail(BrowserError::Wait("EINTR".to_string()))
    );
    assert!(!unknown.needs_shutdown());

    let mut dropped = WorkerLifecycle::started();
    dropped.mark_stopped();
    assert!(!dropped.needs_shutdown());
}

#[test]
fn the_worker_command_carries_the_settings() {
    let root = tempfile::tempdir().unwrap();
    let (runtime_dir, _, _) = repo_layout(root.path());
    let paths = AppPaths::from_normalized(text(root.path()), text(&root.path().join("c.toml")), "/data".to_string(), text(&runtime_dir));
    let mut manager = BrowserManagerConfig::from_app(&mut Disk::new(), &AppConfig::default(), &paths, &host(root.path())).unwrap();
    let command = launch_command(&manager);
    assert_eq!(command.program, manager.runtime.runtime_bin);
    assert_eq!(
        command.args,
        vec![
            manager.runtime.worker_entry.clone(),
            "--data-dir".to_string(),
            "/data".to_string(),
            "--engine".to_string(),
            "patchright".to_string(),
            "--headless".to_string(),
            "false".to_string(),
        ]
    );
    assert_eq!(command.env, vec![("PLAYWRIGHT_BROWSERS_PATH".to_string(), manager.runtime.chromium_dir.clone())]);
    manager.headless = true;
    assert_eq!(launch_command(&manager).args[6], "true");
}

#[test]
fn an_opened_page_becomes_the_session() {
    let session = BrowserSession::from_open_result(BrowserOpenResult { session_id: "s-9".to_string(), url: "about:blank".to_string() });
    assert_eq!(session, BrowserSession { session_id: "s-9".to_string(), url: "about:blank".to_string() });
}

#[test]
fn incoming_notifications_are_read_by_method() {
    let params = serde_json::Value::String("raw".to_string());
    assert_eq!(
        RuntimeNotification::from_incoming("worker.custom".to_string(), params.clone(), DecodedParams::NotRead),
        RuntimeNotification::Unknown { method: "worker.custom".to_string(), params: params.clone() }
    );
    let event = BrowserEventParams { session_id: "s".to_string(), event: BrowserEvent::Opened };
    assert_eq!(
        RuntimeNotification::from_incoming(
            "browser.event".to_string(),
            params.clone(),
            DecodedParams::BrowserEvent(Ok(event.clone()))
        ),
        RuntimeNotification::BrowserEvent(event)
    );
    assert_eq!(
        RuntimeNotification::from_incoming(
            "runtime.protocol_error".to_string(),
            params,
            DecodedParams::ProtocolError(Err("bad".to_string()))
        ),
        RuntimeNotification::ProtocolError(ProtocolErrorParams { message: "invalid protocol error payload: bad".to_string() })
    );
}

#[test]
fn kept_notifications_come_out_first_in_order() {
    let note = |m: &str| RuntimeNotification::ProtocolError(ProtocolErrorParams { message: m.to_string() });
    let mut queue = NotificationQueue::new();
    queue.push(note("a"));
    queue.push(note("b"));
    assert_eq!(queue.drain_then(vec![note("c")]), vec![note("a"), note("b"), note("c")]);
    assert_eq!(queue.drain_then(Vec::new()), Vec::<RuntimeNotification>::new());
}

#[test]
fn parses_browser_event_notifications() {
    let mut fields = serde_json::Map::new();
    fields.insert("session_id".to_string(), serde_json::Value::String("session-1".to_string()));
    fields.insert("event".to_string(), serde_json::Value::String("crashed".to_string()));
    let params = serde_json::Value::Object(fields);
    let decoded = BrowserEventParams { session_id: "session-1".to_string(), event: BrowserEvent::Crashed };
    let notification = RuntimeNotification::from_incoming(
        method::BROWSER_EVENT.to_string(),
        params,
        DecodedParams::BrowserEvent(Ok(decoded)),
    );

    assert_eq!(
        notification,
        RuntimeNotification::BrowserEvent(BrowserEventParams {
            session_id: "session-1".to_string(),
            event: BrowserEvent::Crashed,
        })
    );
}

#[test]
fn the_first_candidate_answered_yes_is_taken() {
    let candidates = vec!["/a".to_string(), "/b".to_string(), "/c".to_string()];
    assert_eq!(first_answered(&candidates, &vec![false, true, true]), Some("/b".to_string()));
    assert_eq!(first_answered(&candidates, &vec![true, false, false]), Some("/a".to_string()));
    assert_eq!(first_answered(&candidates, &vec![false, false, false]), None);
    assert_eq!(first_answered(&candidates, &vec![false]), None);
}

#[test]
fn resolution_follows_the_answers_given() {
    let paths = AppPaths::from_normalized("/c".to_string(), "/c/config.toml".to_string(), "/d".to_string(), "/rt".to_string());
    let host = HostFacts { cwd: "/w".to_string(), windows: false };
    let config = AppConfig::default();

    let resolved = resolve_with_answers(&config, &paths, &host, &vec![false, true], &vec![true, false, false], true).unwrap();
    assert_eq!(resolved.runtime_dir, "/rt");
    assert_eq!(resolved.runtime_bin, "/rt/bun/bun");
    assert_eq!(resolved.worker_entry, "/rt/browser-worker/src/main.ts");
    assert_eq!(resolved.chromium_dir, "/rt/chromium");

    let resolved = resolve_with_answers(&config, &paths, &host, &vec![false, false], &vec![false, true, true], false).unwrap();
    assert_eq!(resolved.runtime_bin, "bun");
    assert_eq!(resolved.worker_entry, "/w/runtime/browser-worker/src/main.ts");

    assert_eq!(
        resolve_with_answers(&config, &paths, &host, &vec![true, true], &vec![false, false, true], false),
        Err(BrowserError::MissingRuntime { path: "/rt/bun/bun.exe".to_string() })
    );
    assert_eq!(
        resolve_with_answers(&config, &paths, &host, &vec![true, true], &vec![false, false, false], false),
        Err(BrowserError::MissingWorker { path: "/rt/browser-worker/src/main.ts".to_string() })
    );
    let windows = HostFacts { cwd: "/w".to_string(), windows: true };
    let resolved = resolve_with_answers(&config, &paths, &windows, &vec![false, false], &vec![false, false, true], false).unwrap();
    assert_eq!(resolved.runtime_bin, "bun.exe");
    assert_eq!(resolved.worker_entry, "/w/browser-worker/src/main.ts");
}

#[test]
fn the_bundled_runtime_follows_the_answers_given() {
    let exe = Some("/app/bin/jobless".to_string());
    assert_eq!(bundled_runtime_dir(&exe, "/w", &vec![true, true]), "/app/bin/runtime");
    assert_eq!(bundled_runtime_dir(&exe, "/w", &vec![false, true]), "/app/Resources/runtime");
    assert_eq!(bundled_runtime_dir(&exe, "/w", &vec![false, false]), "/w/runtime");
    assert_eq!(bundled_runtime_dir(&None, "/w", &Vec::new()), "/w/runtime");
}

#[test]
fn the_wait_for_readiness_keeps_other_notifications_in_order() {
    let note = |m: &str| RuntimeNotification::ProtocolError(ProtocolErrorParams { message: m.to_string() });
    let mut queue = NotificationQueue::new();
    assert_eq!(
        queue.wait_step(ReadyEvent::Notification("browser.event".to_string()), Some(note("a")), 10),
        ReadyStep::Buffer
    );
    assert_eq!(
        queue.wait_step(ReadyEvent::Notification("runtime.protocol_error".to_string()), Some(note("b")), 10),
        ReadyStep::Buffer
    );
    assert_eq!(
        queue.wait_step(ReadyEvent::Notification("runtime.ready".to_string()), Some(note("ready")), 10),
        ReadyStep::Ready
    );
    assert_eq!(
        queue.wait_step(ReadyEvent::DeadlinePassed, None, 10),
        ReadyStep::Fail(BrowserError::ReadyTimeout { timeout_ms: 10 })
    );
    assert_eq!(
        queue.wait_step(ReadyEvent::Failed(TransportError::Disconnected), Some(note("lost")), 10),
        ReadyStep::Fail(BrowserError::Transport(TransportError::Disconnected))
    );
    assert_eq!(queue.drain_then(vec![note("c")]), vec![note("a"), note("b"), note("c")]);
}

#[test]
fn manager_settings_take_the_resolved_paths() {
    let paths = AppPaths::from_normalized("/c".to_string(), "/c/config.toml".to_string(), "/d".to_string(), "/rt".to_string());
    let mut config = AppConfig::default();
    config.rpc.shutdown_timeout_ms = 700;
    let runtime = RuntimePaths {
        runtime_dir: "/rt".to_string(),
        runtime_bin: "bun".to_string(),
        worker_entry: "/w/main.ts".to_string(),
        chromium_dir: "/rt/chromium".to_string(),
    };
    let manager = BrowserManagerConfig::from_resolution(&config, &paths, Ok(runtime.clone())).unwrap();
    assert_eq!(manager.runtime, runtime);
    assert_eq!(manager.data_dir, "/d");
    assert_eq!(manager.shutdown_timeout_ms, 700);
    assert_eq!(manager.request_timeout_ms, 10_000);
    let missing = BrowserError::MissingWorker { path: "/rt/browser-worker/src/main.ts".to_string() };
    match BrowserManagerConfig::from_resolution(&config, &paths, Err(missing.clone())) {
        Err(error) => assert_eq!(error, missing),
        Ok(_) => panic!("a failed resolution must be passed on"),
    }
}
