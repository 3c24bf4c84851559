//! What the main window shows and which of its controls can be used,
//! decided from the runtime state.
use vstd::prelude::*;

use crate::text::str_eq;

verus! {

/// The colour-scheme preference offered by the theme switch.
#[derive(Debug, Clone, Copy, PartialEq, Eq, Structural)]
pub enum ThemePreference {
    System,
    Light,
    Dark,
}

/// The preference that follows `p` when the switch is pressed.
pub open spec fn next_preference(p: ThemePreference) -> ThemePreference {
    match p {
        ThemePreference::System => ThemePreference::Light,
        ThemePreference::Light => ThemePreference::Dark,
        ThemePreference::Dark => ThemePreference::System,
    }
}

impl ThemePreference {
    /// Cycles System -> Light -> Dark -> System.
    pub fn next(self) -> (r: Self)
        ensures
            r == next_preference(self),
    {
        match self {
            ThemePreference::System => ThemePreference::Light,
            ThemePreference::Light => ThemePreference::Dark,
            ThemePreference::Dark => ThemePreference::System,
        }
    }
}

impl ThemePreference {
    /// The translation key of the preference's label.
    pub fn label_key(self) -> (r: &'static str)
        ensures
            self == ThemePreference::System ==> r@ == "theme.system"@,
            self == ThemePreference::Light ==> r@ == "theme.light"@,
            self == ThemePreference::Dark ==> r@ == "theme.dark"@,
    {
        match self {
            ThemePreference::System => "theme.system",
            ThemePreference::Light => "theme.light",
            ThemePreference::Dark => "theme.dark",
        }
    }
}

/// Pressing the theme switch three times returns to the starting preference,
/// and fewer presses never do.
pub proof fn theme_cycle_has_period_three(p: ThemePreference)
    ensures
        next_preference(next_preference(next_preference(p))) == p,
        next_preference(p) != p,
        next_preference(next_preference(p)) != p,
{
}

/// The pages of the main window.
#[derive(Debug, Clone, Copy, PartialEq, Eq, Structural)]
pub enum Page {
    Accounts,
    Tasks,
    Browser,
    History,
    Settings,
}

/// The translation key of a page's title.
pub fn page_title_key(page: Page) -> (r: &'static str)
    ensures
        page == Page::Accounts ==> r@ == "page.accounts"@,
        page == Page::Tasks ==> r@ == "page.tasks"@,
        page == Page::Browser ==> r@ == "page.browser"@,
        page == Page::History ==> r@ == "page.history"@,
        page == Page::Settings ==> r@ == "page.settings"@,
{
    match page {
        Page::Accounts => "page.accounts",
        Page::Tasks => "page.tasks",
        Page::Browser => "page.browser",
        Page::History => "page.history",
        Page::Settings => "page.settings",
    }
}

/// What the window shows the runtime to be doing.
#[derive(Debug, Clone, Copy, PartialEq, Eq, Structural)]
pub enum RuntimeStatus {
    Stopped,
    Starting,
    Running,
    Stopping,
    Failed,
}

/// The translation key of a status label.
pub fn status_label_key(status: RuntimeStatus) -> (r: &'static str)
    ensures
        status == RuntimeStatus::Stopped ==> r@ == "runtime.status.stopped"@,
        status == RuntimeStatus::Starting ==> r@ == "runtime.status.starting"@,
        status == RuntimeStatus::Running ==> r@ == "runtime.status.running"@,
        status == RuntimeStatus::Stopping ==> r@ == "runtime.status.stopping"@,
        status == RuntimeStatus::Failed ==> r@ == "runtime.status.failed"@,
{
    match status {
        RuntimeStatus::Stopped => "runtime.status.stopped",
        RuntimeStatus::Starting => "runtime.status.starting",
        RuntimeStatus::Running => "runtime.status.running",
        RuntimeStatus::Stopping => "runtime.status.stopping",
        RuntimeStatus::Failed => "runtime.status.failed",
    }
}

/// The colour of the status dot.
#[derive(Debug, Clone, Copy, PartialEq, Eq, Structural)]
pub enum StatusTone {
    Success,
    Danger,
    Muted,
    Warning,
}

/// Running is a success, failure a danger, stopped muted, and a transition
/// a warning.
pub fn status_tone(status: RuntimeStatus) -> (r: StatusTone)
    ensures
        r == match status {
            RuntimeStatus::Running => StatusTone::Success,
            RuntimeStatus::Failed => StatusTone::Danger,
            RuntimeStatus::Stopped => StatusTone::Muted,
            RuntimeStatus::Starting | RuntimeStatus::Stopping => StatusTone::Warning,
        },
{
    match status {
        RuntimeStatus::Running => StatusTone::Success,
        RuntimeStatus::Failed => StatusTone::Danger,
        RuntimeStatus::Stopped => StatusTone::Muted,
        RuntimeStatus::Starting | RuntimeStatus::Stopping => StatusTone::Warning,
    }
}

/// The detail codes that have a translation; any other detail (an error
/// message) is shown as it is.
pub open spec fn is_detail_code(d: Seq<char>) -> bool {
    ||| d == "runtime.idle"@
    ||| d == "runtime.starting"@
    ||| d == "runtime.ready"@
    ||| d == "runtime.stopping"@
    ||| d == "browser.opening"@
    ||| d == "browser.opened"@
    ||| d == "browser.closing"@
    ||| d == "browser.closed"@
}

/// The translation key of a detail, when it is a detail code.
pub fn detail_translation_key(detail: &str) -> (r: Option<&'static str>)
    ensures
        is_detail_code(detail@) ==> (r matches Some(k) && k@ == detail@),
        !is_detail_code(detail@) ==> r is None,
{
    let codes: [&'static str; 8] = [
        "runtime.idle",
        "runtime.starting",
        "runtime.ready",
        "runtime.stopping",
        "browser.opening",
        "browser.opened",
        "browser.closing",
        "browser.closed",
    ];
    let mut i: usize = 0;
    while i < 8
        invariant
            i <= 8,
            codes@ == seq![
                "runtime.idle",
                "runtime.starting",
                "runtime.ready",
                "runtime.stopping",
                "browser.opening",
                "browser.opened",
                "browser.closing",
                "browser.closed",
            ],
            forall|j: int| 0 <= j < i ==> codes@[j]@ != detail@,
        decreases 8 - i,
    {
        if str_eq(codes[i], detail) {
            return Some(codes[i]);
        }
        i = i + 1;
    }
    None
}

/// Which runtime buttons can be pressed.
#[derive(Debug, Clone, Copy, PartialEq, Eq, Structural)]
pub struct BrowserControls {
    pub start: bool,
    pub open: bool,
    pub close: bool,
    pub stop: bool,
}

/// Start only when the runtime is not running; open a page only when it runs
/// and no browser is open; close only an open browser; stop only a running
/// runtime.
pub fn browser_controls(runtime_ready: bool, browser_open: bool) -> (r: BrowserControls)
    ensures
        r.start == !runtime_ready,
        r.open == (runtime_ready && !browser_open),
        r.close == browser_open,
        r.stop == runtime_ready,
        !(r.start && r.stop),
        !(r.open && r.close),
{
    BrowserControls {
        start: !runtime_ready,
        open: runtime_ready && !browser_open,
        close: browser_open,
        stop: runtime_ready,
    }
}

/// The runtime status and detail line shown on the browser page.
#[derive(Debug, Clone, PartialEq, Eq)]
pub struct AppStatus {
    pub status: RuntimeStatus,
    pub detail: String,
}

impl AppStatus {
    /// The status at start-up: failed with the first error (storage before
    /// runtime) when either could not be set up, else stopped and idle.
    pub fn initial(storage_error: Option<String>, runtime_error: Option<String>) -> (r: Self)
        ensures
            match (storage_error, runtime_error) {
                (Some(e), _) => r.status == RuntimeStatus::Failed && r.detail@ == e@,
                (None, Some(e)) => r.status == RuntimeStatus::Failed && r.detail@ == e@,
                (None, None) => r.status == RuntimeStatus::Stopped && r.detail@ == "runtime.idle"@,
            },
    {
        match (storage_error, runtime_error) {
            (Some(e), _) => AppStatus { status: RuntimeStatus::Failed, detail: e },
            (None, Some(e)) => AppStatus { status: RuntimeStatus::Failed, detail: e },
            (None, None) => AppStatus { status: RuntimeStatus::Stopped, detail: "runtime.idle".to_string() },
        }
    }

    /// The start button was pressed. Nothing happens when the runtime runs
    /// already; without a runtime the start fails at once; otherwise the
    /// status becomes starting and the launch goes ahead (`true`).
    pub fn request_start(&mut self, runtime_ready: bool, runtime_available: bool) -> (launch: bool)
        ensures
            runtime_ready ==> !launch && *final(self) == *old(self),
            !runtime_ready && !runtime_available ==> !launch && final(self).status
                == RuntimeStatus::Failed && final(self).detail@ == "runtime.unavailable"@,
            !runtime_ready && runtime_available ==> launch && final(self).status
                == RuntimeStatus::Starting && final(self).detail@ == "runtime.starting"@,
    {
        if runtime_ready {
            return false;
        }
        if !runtime_available {
            self.status = RuntimeStatus::Failed;
            self.detail = "runtime.unavailable".to_string();
            return false;
        }
        self.status = RuntimeStatus::Starting;
        self.detail = "runtime.starting".to_string();
        true
    }

    /// A background operation ended: success shows `status` with the detail
    /// code `done`, failure shows the error.
    fn settle(&mut self, outcome: Result<(), String>, status: RuntimeStatus, done: &str)
        ensures
            match outcome {
                Ok(()) => final(self).status == status && final(self).detail@ == done@,
                Err(e) => final(self).status == RuntimeStatus::Failed && final(self).detail@ == e@,
            },
    {
        match outcome {
            Ok(()) => {
                self.status = status;
                self.detail = done.to_string();
            },
            Err(error) => {
                self.status = RuntimeStatus::Failed;
                self.detail = error;
            },
        }
    }

    /// The launch ended: running and ready, or failed with the error.
    pub fn finish_start(&mut self, outcome: Result<(), String>)
        ensures
            match outcome {
                Ok(()) => final(self).status == RuntimeStatus::Running && final(self).detail@
                    == "runtime.ready"@,
                Err(e) => final(self).status == RuntimeStatus::Failed && final(self).detail@ == e@,
            },
    {
        self.settle(outcome, RuntimeStatus::Running, "runtime.ready");
    }

    /// Opening the test page began.
    pub fn request_open(&mut self)
        ensures
            final(self).status == RuntimeStatus::Starting,
            final(self).detail@ == "browser.opening"@,
    {
        self.status = RuntimeStatus::Starting;
        self.detail = "browser.opening".to_string();
    }

    /// Opening the test page ended.
    pub fn finish_open(&mut self, outcome: Result<(), String>)
        ensures
            match outcome {
                Ok(()) => final(self).status == RuntimeStatus::Running && final(self).detail@
                    == "browser.opened"@,
                Err(e) => final(self).status == RuntimeStatus::Failed && final(self).detail@ == e@,
            },
    {
        self.settle(outcome, RuntimeStatus::Running, "browser.opened");
    }

    /// Closing the browser began; the status stays as it is.
    pub fn request_close(&mut self)
        ensures
            final(self).status == old(self).status,
            final(self).detail@ == "browser.closing"@,
    {
        self.detail = "browser.closing".to_string();
    }

    /// Closing the browser ended.
    pub fn finish_close(&mut self, outcome: Result<(), String>)
        ensures
            match outcome {
                Ok(()) => final(self).status == RuntimeStatus::Running && final(self).detail@
                    == "browser.closed"@,
                Err(e) => final(self).status == RuntimeStatus::Failed && final(self).detail@ == e@,
            },
    {
        self.settle(outcome, RuntimeStatus::Running, "browser.closed");
    }

    /// Stopping the runtime began.
    pub fn request_stop(&mut self)
        ensures
            final(self).status == RuntimeStatus::Stopping,
            final(self).detail@ == "runtime.stopping"@,
    {
        self.status = RuntimeStatus::Stopping;
        self.detail = "runtime.stopping".to_string();
    }

    /// Stopping the runtime ended: stopped and idle, or failed.
    pub fn finish_stop(&mut self, outcome: Result<(), String>)
        ensures
            match outcome {
                Ok(()) => final(self).status == RuntimeStatus::Stopped && final(self).detail@
                    == "runtime.idle"@,
                Err(e) => final(self).status == RuntimeStatus::Failed && final(self).detail@ == e@,
            },
    {
        self.settle(outcome, RuntimeStatus::Stopped, "runtime.idle");
    }
}

} // verus!
