use vstd::prelude::*;

use crate::errors::Error;
use crate::state::{
    is_operational, is_valid_status, AppStatus, BackendRestartFailed, BackendRunning,
    BackendStartFailed, BackendStatus, BackendStopped, BackendUndergoingFactoryReset,
    FrontendMisconfigured, FrontendRunning, FrontendRunningWithMisconfiguration, FrontendStatus,
    FrontendUndergoingFactoryReset,
};

verus! {

/// HTTP 205 Reset Content, the answer to a factory reset.
pub const STATUS_RESET_CONTENT: u16 = 205;

pub open spec fn operational() -> AppStatus {
    AppStatus {
        frontend: FrontendStatus::Running(FrontendRunning {}),
        backend: BackendStatus::Running(BackendRunning {}),
    }
}

pub open spec fn with_misconfiguration(e: Error) -> AppStatus {
    AppStatus {
        frontend: FrontendStatus::RunningWithMisconfiguration(FrontendRunningWithMisconfiguration { error: e }),
        backend: BackendStatus::Running(BackendRunning {}),
    }
}

pub open spec fn restart_failed(e: Error) -> AppStatus {
    AppStatus {
        frontend: FrontendStatus::Running(FrontendRunning {}),
        backend: BackendStatus::RestartFailed(BackendRestartFailed { error: e }),
    }
}

pub open spec fn start_failed(e: Error) -> AppStatus {
    AppStatus {
        frontend: FrontendStatus::Running(FrontendRunning {}),
        backend: BackendStatus::StartFailed(BackendStartFailed { error: e }),
    }
}

pub open spec fn configuration_needed(e: Error) -> AppStatus {
    AppStatus {
        frontend: FrontendStatus::Misconfigured(FrontendMisconfigured { error: e }),
        backend: BackendStatus::Stopped(BackendStopped {}),
    }
}

pub open spec fn undergoing_factory_reset() -> AppStatus {
    AppStatus {
        frontend: FrontendStatus::UndergoingFactoryReset(FrontendUndergoingFactoryReset {}),
        backend: BackendStatus::UndergoingFactoryReset(BackendUndergoingFactoryReset {}),
    }
}

/// `/lifecycle/frontend-reload` (from Operational): a bad new configuration
/// is not applied, the frontend keeps running with the previous one.
pub open spec fn after_frontend_reload(reload: Result<(), Error>) -> (AppStatus, Result<(), Error>) {
    match reload {
        Ok(()) => (operational(), Ok(())),
        Err(e) => (with_misconfiguration(e), Err(e)),
    }
}

/// `/lifecycle/reload`: reload the frontend, then the backend.
pub open spec fn after_reload(
    s: AppStatus,
    frontend: Result<(), Error>,
    backend: Result<(), Error>,
) -> (AppStatus, Result<(), Error>) {
    match frontend {
        Err(e) => (s, Err(e)),
        Ok(()) => (operational(), backend),
    }
}

/// `/lifecycle/backend-restart` from a running, restarting or
/// restart-failed backend: the outcome of the restart.
pub open spec fn after_backend_restart(restart: Result<(), Error>) -> (AppStatus, Result<(), Error>) {
    match restart {
        Ok(()) => (operational(), Ok(())),
        Err(e) => (restart_failed(e), Err(e)),
    }
}

/// Starting the backend (again) from a starting or start-failed backend.
pub open spec fn after_backend_start(start: Result<(), Error>) -> (AppStatus, Result<(), Error>) {
    match start {
        Ok(()) => (operational(), Ok(())),
        Err(e) => (start_failed(e), Err(e)),
    }
}

/// `/lifecycle/reload` when the configuration is needed: load it, then
/// bootstrap the backend.
pub open spec fn after_init_config(
    frontend: Result<(), Error>,
    bootstrap: Result<(), Error>,
) -> (AppStatus, Result<(), Error>) {
    match frontend {
        Err(e) => (configuration_needed(e), Err(e)),
        Ok(()) => after_backend_start(bootstrap),
    }
}

/// `/lifecycle/factory-reset`: erase the data, then try to start with the
/// configuration left (for instance in the environment).
pub open spec fn after_factory_reset(
    reset: Result<(), Error>,
    config: Result<(), Error>,
    bootstrap: Result<(), Error>,
) -> (AppStatus, Result<u16, Error>) {
    match reset {
        Err(e) => (undergoing_factory_reset(), Err(e)),
        Ok(()) => match config {
            // Expected: after a factory reset, the configuration is needed.
            Err(e) => (configuration_needed(e), Ok(STATUS_RESET_CONTENT)),
            Ok(()) => match bootstrap {
                Ok(()) => (operational(), Ok(STATUS_RESET_CONTENT)),
                Err(e) => (start_failed(e), Err(e)),
            },
        },
    }
}

impl AppStatus {
    /// Reloads the frontend of an operational app.
    pub fn reload_frontend(self, reload: Result<(), Error>) -> (r: (AppStatus, Result<(), Error>))
        requires
            is_operational(self),
        ensures
            r == after_frontend_reload(reload),
    {
        match reload {
            Ok(()) => (AppStatus::operational(), Ok(())),
            Err(e) => {
                let state = FrontendRunning {};
                let frontend = <FrontendRunning as crate::state::TransitionWith<
                    FrontendRunningWithMisconfiguration,
                    Error,
                >>::transition_with(state, e.clone());
                (
                    AppStatus {
                        frontend: FrontendStatus::RunningWithMisconfiguration(frontend),
                        backend: BackendStatus::Running(BackendRunning {}),
                    },
                    Err(e),
                )
            },
        }
    }

    /// Reloads the frontend, then the backend.
    pub fn reload(self, frontend: Result<(), Error>, backend: Result<(), Error>) -> (r: (
        AppStatus,
        Result<(), Error>,
    ))
        requires
            self.backend is Running,
            self.frontend is Running || self.frontend is RunningWithMisconfiguration,
        ensures
            r == after_reload(self, frontend, backend),
    {
        match frontend {
            Err(e) => (self, Err(e)),
            Ok(()) => (AppStatus::operational(), backend),
        }
    }

    /// Reloads the backend of an operational app; the status does not change.
    pub fn reload_backend(self, reload: Result<(), Error>) -> (r: (AppStatus, Result<(), Error>))
        requires
            is_operational(self),
        ensures
            r == (self, reload),
    {
        (self, reload)
    }

    /// Restarts the backend.
    pub fn restart_backend(self, restart: Result<(), Error>) -> (r: (AppStatus, Result<(), Error>))
        requires
            self.frontend is Running,
            self.backend is Running || self.backend is Restarting || self.backend is RestartFailed,
        ensures
            r == after_backend_restart(restart),
    {
        match restart {
            Ok(()) => (AppStatus::operational(), Ok(())),
            Err(e) => (
                AppStatus {
                    frontend: FrontendStatus::Running(FrontendRunning {}),
                    backend: BackendStatus::RestartFailed(BackendRestartFailed { error: e.clone() }),
                },
                Err(e),
            ),
        }
    }

    /// Starts the backend (again).
    pub fn start_backend(self, start: Result<(), Error>) -> (r: (AppStatus, Result<(), Error>))
        requires
            self.frontend is Running,
            self.backend is Starting || self.backend is StartFailed,
        ensures
            r == after_backend_start(start),
    {
        match start {
            Ok(()) => (AppStatus::operational(), Ok(())),
            Err(e) => (
                AppStatus {
                    frontend: FrontendStatus::Running(FrontendRunning {}),
                    backend: BackendStatus::StartFailed(BackendStartFailed { error: e.clone() }),
                },
                Err(e),
            ),
        }
    }

    /// Loads the configuration when it was needed, then bootstraps.
    pub fn init_config(self, frontend: Result<(), Error>, bootstrap: Result<(), Error>) -> (r: (
        AppStatus,
        Result<(), Error>,
    ))
        requires
            self.frontend is Misconfigured,
            self.backend is Stopped,
        ensures
            r == after_init_config(frontend, bootstrap),
    {
        match frontend {
            Err(e) => (
                AppStatus {
                    frontend: FrontendStatus::Misconfigured(FrontendMisconfigured { error: e.clone() }),
                    backend: BackendStatus::Stopped(BackendStopped {}),
                },
                Err(e),
            ),
            Ok(()) => AppStatus::starting().start_backend(bootstrap),
        }
    }

    /// Performs a factory reset.
    pub fn factory_reset(
        self,
        reset: Result<(), Error>,
        config: Result<(), Error>,
        bootstrap: Result<(), Error>,
    ) -> (r: (AppStatus, Result<u16, Error>))
        ensures
            r == after_factory_reset(reset, config, bootstrap),
    {
        match reset {
            Err(e) => (
                AppStatus {
                    frontend: FrontendStatus::UndergoingFactoryReset(FrontendUndergoingFactoryReset {}),
                    backend: BackendStatus::UndergoingFactoryReset(BackendUndergoingFactoryReset {}),
                },
                Err(e),
            ),
            Ok(()) => match config {
                Err(e) => (
                    AppStatus {
                        frontend: FrontendStatus::Misconfigured(FrontendMisconfigured { error: e }),
                        backend: BackendStatus::Stopped(BackendStopped {}),
                    },
                    Ok(STATUS_RESET_CONTENT),
                ),
                Ok(()) => match bootstrap {
                    Ok(()) => (AppStatus::operational(), Ok(STATUS_RESET_CONTENT)),
                    Err(e) => (
                        AppStatus {
                            frontend: FrontendStatus::Running(FrontendRunning {}),
                            backend: BackendStatus::StartFailed(BackendStartFailed { error: e.clone() }),
                        },
                        Err(e),
                    ),
                },
            },
        }
    }
}

/// Every lifecycle operation leaves the app in one of the statuses it has a
/// router for.
pub proof fn law_lifecycle_keeps_valid_status(
    s: AppStatus,
    a: Result<(), Error>,
    b: Result<(), Error>,
    c: Result<(), Error>,
)
    requires
        is_valid_status(s),
    ensures
        is_operational(s) ==> is_valid_status(after_frontend_reload(a).0),
        (s.backend is Running && (s.frontend is Running || s.frontend is RunningWithMisconfiguration))
            ==> is_valid_status(after_reload(s, a, b).0),
        is_valid_status(after_backend_restart(a).0),
        is_valid_status(after_backend_start(a).0),
        is_valid_status(after_init_config(a, b).0),
        is_valid_status(after_factory_reset(a, b, c).0),
{
}

/// A failed configuration reload never stops nor restarts the XMPP server:
/// the backend status stays what it was.
pub proof fn law_frontend_failure_keeps_backend(s: AppStatus, e: Error, b: Result<(), Error>)
    requires
        is_valid_status(s),
    ensures
        is_operational(s) ==> after_frontend_reload(Err(e)).0.backend == s.backend,
        (s.backend is Running && (s.frontend is Running || s.frontend is RunningWithMisconfiguration))
            ==> after_reload(s, Err(e), b).0 == s,
{
}

/// Whatever the status before, an operation whose steps all succeed leaves
/// the app operational.
pub proof fn law_success_is_operational()
    ensures
        is_operational(after_frontend_reload(Ok(())).0),
        is_operational(after_backend_restart(Ok(())).0),
        is_operational(after_backend_start(Ok(())).0),
        is_operational(after_init_config(Ok(()), Ok(())).0),
        is_operational(after_factory_reset(Ok(()), Ok(()), Ok(())).0),
        forall|s: AppStatus| is_operational(#[trigger] after_reload(s, Ok(()), Ok(())).0),
{
}

/// What each lifecycle operation answers: the outcome of its steps, up to
/// the first that fails. A reload whose frontend step succeeds answers
/// exactly what the backend step gave; one whose frontend step fails
/// answers that failure. The answer is a success only if every step run
/// succeeded, except after a factory reset, where a missing configuration
/// is expected.
pub proof fn law_operations_answer_their_steps(
    s: AppStatus,
    a: Result<(), Error>,
    b: Result<(), Error>,
    c: Result<(), Error>,
)
    ensures
        a is Ok ==> after_reload(s, a, b).1 == b,
        a is Err ==> after_reload(s, a, b).1 == a,
        after_reload(s, a, b).1 is Ok <==> (a is Ok && b is Ok),
        a is Ok ==> after_frontend_reload(a).1 is Ok,
        a is Err ==> after_frontend_reload(a).1 == a,
        a is Ok ==> after_backend_restart(a).1 is Ok,
        a is Err ==> after_backend_restart(a).1 == a,
        a is Ok ==> after_backend_start(a).1 is Ok,
        a is Err ==> after_backend_start(a).1 == a,
        a is Ok && b is Ok ==> after_init_config(a, b).1 is Ok,
        a is Ok && b is Err ==> after_init_config(a, b).1 == b,
        a is Err ==> after_init_config(a, b).1 == a,
        a is Err ==> after_factory_reset(a, b, c).1 == Err::<u16, Error>(a->Err_0),
        a is Ok && b is Err ==> after_factory_reset(a, b, c).1 == Ok::<u16, Error>(205),
        a is Ok && b is Ok && c is Ok ==> after_factory_reset(a, b, c).1 == Ok::<u16, Error>(205),
        a is Ok && b is Ok && c is Err ==> after_factory_reset(a, b, c).1 == Err::<u16, Error>(c->Err_0),
{
}

} // verus!
