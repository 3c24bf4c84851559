//! The runtime service: the use cases of the browser runtime (start, open a
//! page, close it, stop) as decisions over the service state. Whoever owns
//! the worker process carries out each decision and reports the outcome.
use vstd::prelude::*;

use crate::config::AppConfig;
use crate::manager::{
    browser_message,
    manager_config_matches, probed_resolution, runtime_probes, BrowserError, BrowserManagerConfig,
    BrowserSession, HostFacts,
};
use crate::paths::{asked_since, extends, AppPaths, Disk};
use crate::protocol::{BrowserCloseParams, BrowserOpenParams, RuntimeHealthResult};

verus! {

/// Why a runtime use case failed.
#[derive(Debug, Clone, PartialEq, Eq)]
pub enum RuntimeServiceError {
    /// The browser runtime is not running.
    NotRunning,
    Browser(BrowserError),
}

/// How a runtime error reads.
pub open spec fn runtime_message(e: RuntimeServiceError) -> Seq<char> {
    match e {
        RuntimeServiceError::NotRunning => "browser runtime is not running"@,
        RuntimeServiceError::Browser(b) => browser_message(b),
    }
}

impl RuntimeServiceError {
    /// The error as it is shown.
    pub fn message(&self) -> (r: String)
        ensures
            r@ == runtime_message(*self),
    {
        match self {
            RuntimeServiceError::NotRunning => "browser runtime is not running".to_string(),
            RuntimeServiceError::Browser(b) => b.message(),
        }
    }
}

/// What starting the runtime requires.
#[derive(Debug, Clone)]
pub enum StartPlan {
    /// It runs already; nothing to do.
    AlreadyRunning,
    /// Launch a worker with these settings, then ask it for its health.
    Launch(BrowserManagerConfig),
}

/// The manager configuration a service was built with, or the error that
/// prevented it.
pub open spec fn service_config_result(r: Result<RuntimeService, RuntimeServiceError>) -> Result<
    BrowserManagerConfig,
    BrowserError,
> {
    match r {
        Ok(s) => Ok(s.spec_config()),
        Err(RuntimeServiceError::Browser(e)) => Err(e),
        Err(RuntimeServiceError::NotRunning) => arbitrary(),
    }
}

/// The state of the runtime as the application sees it.
pub struct RuntimeService {
    config: BrowserManagerConfig,
    running: bool,
    session: Option<BrowserSession>,
    health: Option<RuntimeHealthResult>,
}

impl RuntimeService {
    /// A runtime runs exactly when its health is known, and a browser is only
    /// open in a running runtime.
    pub open spec fn well_formed(&self) -> bool {
        &&& self.spec_running() == self.spec_health().is_some()
        &&& self.spec_session().is_some() ==> self.spec_running()
    }

    pub closed spec fn spec_running(&self) -> bool {
        self.running
    }

    pub closed spec fn spec_session(&self) -> Option<BrowserSession> {
        self.session
    }

    pub closed spec fn spec_health(&self) -> Option<RuntimeHealthResult> {
        self.health
    }

    pub closed spec fn spec_config(&self) -> BrowserManagerConfig {
        self.config
    }

    /// A stopped runtime that will launch with `config`.
    pub fn new(config: BrowserManagerConfig) -> (r: Self)
        ensures
            r.well_formed(),
            !r.spec_running(),
            r.spec_session() is None,
            r.spec_health() is None,
            r.spec_config() == config,
    {
        RuntimeService { config, running: false, session: None, health: None }
    }

    /// A stopped runtime configured from the application settings.
    pub fn from_config(disk: &mut Disk, config: &AppConfig, paths: &AppPaths, host: &HostFacts) -> (r: Result<
        Self,
        RuntimeServiceError,
    >)
        ensures
            extends(*old(disk), *final(disk)),
            exists|nb: int, nw: int|
                #[trigger] runtime_probes(*config, paths@, *host, asked_since(*old(disk), *final(disk)), nb, nw)
                    && manager_config_matches(
                    service_config_result(r),
                    probed_resolution(*config, paths@, *host, asked_since(*old(disk), *final(disk)), nb, nw),
                    *config,
                    paths@,
                ),
            !(r matches Err(RuntimeServiceError::NotRunning)),
            r matches Ok(s) ==> s.well_formed() && !s.spec_running() && s.spec_session() is None,
    {
        match BrowserManagerConfig::from_app(disk, config, paths, host) {
            Ok(manager_config) => Ok(Self::new(manager_config)),
            Err(error) => Err(RuntimeServiceError::Browser(error)),
        }
    }

    pub fn is_running(&self) -> (r: bool)
        ensures
            r == self.spec_running(),
    {
        self.running
    }

    pub fn is_browser_open(&self) -> (r: bool)
        ensures
            r == self.spec_session().is_some(),
    {
        self.session.is_some()
    }

    /// The worker's health, learnt when it started.
    pub fn health(&self) -> (r: Option<&RuntimeHealthResult>)
        ensures
            match r {
                Some(h) => self.spec_health() == Some(*h),
                None => self.spec_health() is None,
            },
    {
        self.health.as_ref()
    }

    /// The launch settings.
    pub fn config(&self) -> (r: &BrowserManagerConfig)
        ensures
            *r == self.spec_config(),
    {
        &self.config
    }

    /// What starting takes: nothing when the runtime runs already, else a
    /// launch with the configured settings.
    pub fn start(&self) -> (r: StartPlan)
        ensures
            self.spec_running() ==> r is AlreadyRunning,
            !self.spec_running() ==> (r matches StartPlan::Launch(c) && c == self.spec_config()),
    {
        if self.running {
            StartPlan::AlreadyRunning
        } else {
            StartPlan::Launch(self.config.duplicate())
        }
    }

    /// Records how a launch ended: a worker that started and answered its
    /// health check makes the runtime run with that health; a failure leaves
    /// the runtime as it was and is reported.
    pub fn finish_start(&mut self, outcome: Result<RuntimeHealthResult, BrowserError>) -> (r: Result<
        (),
        RuntimeServiceError,
    >)
        ensures
            old(self).well_formed() ==> final(self).well_formed(),
            final(self).spec_config() == old(self).spec_config(),
            match outcome {
                Ok(h) => {
                    &&& r is Ok
                    &&& final(self).spec_running()
                    &&& final(self).spec_health() == Some(h)
                    &&& final(self).spec_session() == old(self).spec_session()
                },
                Err(e) => {
                    &&& r == Err::<(), RuntimeServiceError>(RuntimeServiceError::Browser(e))
                    &&& final(self).spec_running() == old(self).spec_running()
                    &&& final(self).spec_health() == old(self).spec_health()
                    &&& final(self).spec_session() == old(self).spec_session()
                },
            },
    {
        match outcome {
            Ok(health) => {
                self.running = true;
                self.health = Some(health);
                Ok(())
            },
            Err(error) => Err(RuntimeServiceError::Browser(error)),
        }
    }

    /// The request that opens `url` in profile `profile_id`; refused with
    /// `NotRunning` when the runtime is not running.
    pub fn open(&self, url: &str, profile_id: &str) -> (r: Result<BrowserOpenParams, RuntimeServiceError>)
        ensures
            !self.spec_running() ==> r == Err::<BrowserOpenParams, RuntimeServiceError>(
                RuntimeServiceError::NotRunning,
            ),
            self.spec_running() ==> (r matches Ok(p) && p.url@ == url@ && p.profile_id@
                == profile_id@),
    {
        if !self.running {
            return Err(RuntimeServiceError::NotRunning);
        }
        Ok(BrowserOpenParams { url: url.to_string(), profile_id: profile_id.to_string() })
    }

    /// Records how opening ended: the opened session becomes the current one.
    pub fn finish_open(&mut self, outcome: Result<BrowserSession, BrowserError>) -> (r: Result<
        BrowserSession,
        RuntimeServiceError,
    >)
        requires
            old(self).spec_running(),
        ensures
            old(self).well_formed() ==> final(self).well_formed(),
            final(self).spec_running() == old(self).spec_running(),
            final(self).spec_health() == old(self).spec_health(),
            final(self).spec_config() == old(self).spec_config(),
            match outcome {
                Ok(s) => r == Ok::<BrowserSession, RuntimeServiceError>(s)
                    && final(self).spec_session() == Some(s),
                Err(e) => r == Err::<BrowserSession, RuntimeServiceError>(
                    RuntimeServiceError::Browser(e),
                ) && final(self).spec_session() == old(self).spec_session(),
            },
    {
        match outcome {
            Ok(session) => {
                self.session = Some(session.duplicate());
                Ok(session)
            },
            Err(error) => Err(RuntimeServiceError::Browser(error)),
        }
    }

    /// The request that closes the current session (all sessions when none is
    /// known); the session is forgotten either way. Refused with `NotRunning`,
    /// leaving everything as it was, when the runtime is not running.
    pub fn close(&mut self) -> (r: Result<BrowserCloseParams, RuntimeServiceError>)
        ensures
            old(self).well_formed() ==> final(self).well_formed(),
            final(self).spec_running() == old(self).spec_running(),
            final(self).spec_health() == old(self).spec_health(),
            final(self).spec_config() == old(self).spec_config(),
            !old(self).spec_running() ==> r == Err::<BrowserCloseParams, RuntimeServiceError>(
                RuntimeServiceError::NotRunning,
            ) && final(self).spec_session() == old(self).spec_session(),
            old(self).spec_running() ==> final(self).spec_session() is None && (r matches Ok(p)
                && p.session_id == match old(self).spec_session() {
                Some(s) => Some(s.session_id),
                None => None,
            }),
    {
        if !self.running {
            return Err(RuntimeServiceError::NotRunning);
        }
        let session_id = match self.session.take() {
            Some(session) => Some(session.session_id),
            None => None,
        };
        Ok(BrowserCloseParams { session_id })
    }

    /// Stops the runtime: the session and health are forgotten; tells whether
    /// a worker was running and must now be shut down.
    pub fn stop(&mut self) -> (r: bool)
        ensures
            r == old(self).spec_running(),
            final(self).well_formed(),
            !final(self).spec_running(),
            final(self).spec_session() is None,
            final(self).spec_health() is None,
            final(self).spec_config() == old(self).spec_config(),
    {
        self.session = None;
        self.health = None;
        let was_running = self.running;
        self.running = false;
        was_running
    }
}

} // verus!
