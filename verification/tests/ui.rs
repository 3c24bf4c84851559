use jobless::ui::{
    browser_controls, detail_translation_key, page_title_key, status_label_key, status_tone, AppStatus, Page,
    RuntimeStatus, StatusTone, ThemePreference,
};

#[test]
fn preference_cycles_through_system_light_and_dark() {
    assert_eq!(ThemePreference::System.next(), ThemePreference::Light);
    assert_eq!(ThemePreference::Light.next(), ThemePreference::Dark);
    assert_eq!(ThemePreference::Dark.next(), ThemePreference::System);
}

#[test]
fn three_presses_return_to_the_start() {
    for p in [ThemePreference::System, ThemePreference::Light, ThemePreference::Dark] {
        assert_eq!(p.next().next().next(), p);
        assert_ne!(p.next(), p);
        assert_ne!(p.next().next(), p);
    }
}

#[test]
fn labels_use_translation_keys() {
    assert_eq!(page_title_key(Page::Accounts), "page.accounts");
    assert_eq!(page_title_key(Page::Settings), "page.settings");
    assert_eq!(status_label_key(RuntimeStatus::Running), "runtime.status.running");
    assert_eq!(status_label_key(RuntimeStatus::Stopping), "runtime.status.stopping");
    assert_eq!(status_tone(RuntimeStatus::Running), StatusTone::Success);
    assert_eq!(status_tone(RuntimeStatus::Failed), StatusTone::Danger);
    assert_eq!(status_tone(RuntimeStatus::Stopped), StatusTone::Muted);
    assert_eq!(status_tone(RuntimeStatus::Starting), StatusTone::Warning);
    assert_eq!(detail_translation_key("browser.opened"), Some("browser.opened"));
    assert_eq!(detail_translation_key("runtime.idle"), Some("runtime.idle"));
    assert_eq!(detail_translation_key("worker exited"), None);
}

#[test]
fn controls_follow_the_runtime_state() {
    let stopped = browser_controls(false, false);
    assert!(stopped.start && !stopped.open && !stopped.close && !stopped.stop);
    let running = browser_controls(true, false);
    assert!(!running.start && running.open && !running.close && running.stop);
    let open = browser_controls(true, true);
    assert!(!open.start && !open.open && open.close && open.stop);
}

#[test]
fn status_follows_the_runtime_operations() {
    let mut status = AppStatus::initial(None, None);
    assert_eq!(status.status, RuntimeStatus::Stopped);
    assert_eq!(status.detail, "runtime.idle");

    assert!(status.request_start(false, true));
    assert_eq!((status.status, status.detail.as_str()), (RuntimeStatus::Starting, "runtime.starting"));
    status.finish_start(Ok(()));
    assert_eq!((status.status, status.detail.as_str()), (RuntimeStatus::Running, "runtime.ready"));
    assert!(!status.request_start(true, true));
    assert_eq!(status.status, RuntimeStatus::Running);

    status.request_open();
    assert_eq!(status.detail, "browser.opening");
    status.finish_open(Ok(()));
    assert_eq!(status.detail, "browser.opened");
    status.request_close();
    assert_eq!((status.status, status.detail.as_str()), (RuntimeStatus::Running, "browser.closing"));
    status.finish_close(Err("worker exited".to_string()));
    assert_eq!((status.status, status.detail.as_str()), (RuntimeStatus::Failed, "worker exited"));
    status.request_stop();
    assert_eq!(status.status, RuntimeStatus::Stopping);
    status.finish_stop(Ok(()));
    assert_eq!((status.status, status.detail.as_str()), (RuntimeStatus::Stopped, "runtime.idle"));
}

#[test]
fn start_up_failures_are_shown() {
    let storage = AppStatus::initial(Some("disk full".to_string()), Some("no runtime".to_string()));
    assert_eq!((storage.status, storage.detail.as_str()), (RuntimeStatus::Failed, "disk full"));
    let runtime = AppStatus::initial(None, Some("no runtime".to_string()));
    assert_eq!(runtime.detail, "no runtime");
    let mut unavailable = AppStatus::initial(None, None);
    assert!(!unavailable.request_start(false, false));
    assert_eq!((unavailable.status, unavailable.detail.as_str()), (RuntimeStatus::Failed, "runtime.unavailable"));
}

#[test]
fn theme_labels_use_translation_keys() {
    assert_eq!(ThemePreference::System.label_key(), "theme.system");
    assert_eq!(ThemePreference::Light.label_key(), "theme.light");
    assert_eq!(ThemePreference::Dark.label_key(), "theme.dark");
}
