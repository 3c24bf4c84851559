use jobless::config::BrowserEngine;
use jobless::manager::{BrowserError, BrowserManagerConfig, BrowserSession, RuntimePaths};
use jobless::protocol::RuntimeHealthResult;
use jobless::runtime::{RuntimeService, RuntimeServiceError, StartPlan};

fn service() -> RuntimeService {
    RuntimeService::new(BrowserManagerConfig {
        runtime: RuntimePaths {
            runtime_dir: "/missing".to_string(),
            runtime_bin: "/missing/bun".to_string(),
            worker_entry: "/missing/main.ts".to_string(),
            chromium_dir: "/missing/chromium".to_string(),
        },
        data_dir: "/missing/data".to_string(),
        engine: BrowserEngine::Patchright,
        headless: true,
        request_timeout_ms: 1,
        shutdown_timeout_ms: 1,
        max_frame_bytes: 1024,
    })
}

fn healthy() -> RuntimeHealthResult {
    let mut health = RuntimeHealthResult::default();
    health.runtime.name = "bun".to_string();
    health.browser.available = true;
    health
}

#[test]
fn operations_require_a_running_runtime() {
    let service = service();
    assert!(!service.is_running());
    assert!(matches!(service.open("about:blank", "default"), Err(RuntimeServiceError::NotRunning)));
}

#[test]
fn closing_requires_a_running_runtime() {
    let mut service = service();
    assert_eq!(service.close(), Err(RuntimeServiceError::NotRunning));
    assert!(!service.is_browser_open());
}

#[test]
fn starting_launches_once() {
    let mut service = service();
    match service.start() {
        StartPlan::Launch(config) => assert_eq!(config.runtime.runtime_bin, "/missing/bun"),
        StartPlan::AlreadyRunning => panic!("a stopped runtime must launch"),
    }
    assert_eq!(service.finish_start(Ok(healthy())), Ok(()));
    assert!(service.is_running());
    assert_eq!(service.health().unwrap().runtime.name, "bun");
    assert!(matches!(service.start(), StartPlan::AlreadyRunning));
}

#[test]
fn a_failed_launch_leaves_the_runtime_stopped() {
    let mut service = service();
    let error = BrowserError::MissingRuntime { path: "/missing/bun".to_string() };
    assert_eq!(service.finish_start(Err(error.clone())), Err(RuntimeServiceError::Browser(error)));
    assert!(!service.is_running());
    assert!(service.health().is_none());
}

#[test]
fn a_session_is_opened_closed_and_forgotten_on_stop() {
    let mut service = service();
    service.finish_start(Ok(healthy())).unwrap();
    let request = service.open("about:blank", "smoke").unwrap();
    assert_eq!(request.url, "about:blank");
    assert_eq!(request.profile_id, "smoke");
    let session = BrowserSession { session_id: "s-1".to_string(), url: "about:blank".to_string() };
    assert_eq!(service.finish_open(Ok(session.clone())), Ok(session));
    assert!(service.is_browser_open());

    let close = service.close().unwrap();
    assert_eq!(close.session_id, Some("s-1".to_string()));
    assert!(!service.is_browser_open());
    assert_eq!(service.close().unwrap().session_id, None);

    assert!(service.stop());
    assert!(!service.is_running());
    assert!(service.health().is_none());
    assert!(!service.stop());
}

#[test]
fn a_failed_open_keeps_the_previous_session() {
    let mut service = service();
    service.finish_start(Ok(healthy())).unwrap();
    let first = BrowserSession { session_id: "s-1".to_string(), url: "a".to_string() };
    service.finish_open(Ok(first)).unwrap();
    let failure = BrowserError::Decode("bad".to_string());
    assert_eq!(service.finish_open(Err(failure.clone())), Err(RuntimeServiceError::Browser(failure)));
    assert_eq!(service.close().unwrap().session_id, Some("s-1".to_string()));
}

#[test]
fn the_service_keeps_its_launch_settings() {
    let service = service();
    assert_eq!(service.config().max_frame_bytes, 1024);
    assert_eq!(service.config().data_dir, "/missing/data");
}

#[test]
fn runtime_errors_read_as_messages() {
    assert_eq!(RuntimeServiceError::NotRunning.message(), "browser runtime is not running");
    let missing = RuntimeServiceError::Browser(BrowserError::MissingRuntime { path: "/x/bun".to_string() });
    assert_eq!(missing.message(), "Bun runtime was not found at `/x/bun`");
    let ready = RuntimeServiceError::Browser(BrowserError::ReadyTimeout { timeout_ms: 1_500 });
    assert_eq!(ready.message(), "timed out waiting for runtime.ready after 1.5s");
}
