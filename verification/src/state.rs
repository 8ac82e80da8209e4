use vstd::prelude::*;

use crate::errors::{service_unavailable, too_early, Error, STATUS_SERVICE_UNAVAILABLE, STATUS_TOO_EARLY};

verus! {

// MARK: Substates

/// Frontend running with a valid configuration.
#[derive(Debug, Clone)]
pub struct FrontendRunning {}

/// The configuration on disk is incorrect but was not applied: the frontend
/// still runs with the previous one.
#[derive(Debug, Clone)]
pub struct FrontendRunningWithMisconfiguration {
    pub error: Error,
}

/// The frontend cannot start because of a bad configuration (after a
/// factory reset).
#[derive(Debug, Clone)]
pub struct FrontendMisconfigured {
    pub error: Error,
}

/// A factory reset is in progress.
#[derive(Debug, Clone)]
pub struct FrontendUndergoingFactoryReset {}

/// The backend (XMPP server) is starting for the first time.
#[derive(Debug, Clone)]
pub struct BackendStarting {}

/// The backend is restarting.
#[derive(Debug, Clone)]
pub struct BackendRestarting {}

/// The backend is stopped.
#[derive(Debug, Clone)]
pub struct BackendStopped {}

/// The backend is running.
#[derive(Debug, Clone)]
pub struct BackendRunning {}

/// The backend failed to start.
#[derive(Debug, Clone)]
pub struct BackendStartFailed {
    pub error: Error,
}

/// The backend failed to restart.
#[derive(Debug, Clone)]
pub struct BackendRestartFailed {
    pub error: Error,
}

/// A factory reset is in progress.
#[derive(Debug, Clone)]
pub struct BackendUndergoingFactoryReset {}

/// What every frontend state has: it can be left for a factory reset.
pub trait FrontendStateTrait: Sized {
    fn into_undergoing_factory_reset(self) -> FrontendUndergoingFactoryReset;
}

impl FrontendStateTrait for FrontendRunning {
    fn into_undergoing_factory_reset(self) -> FrontendUndergoingFactoryReset {
        FrontendUndergoingFactoryReset {}
    }
}

impl FrontendStateTrait for FrontendRunningWithMisconfiguration {
    fn into_undergoing_factory_reset(self) -> FrontendUndergoingFactoryReset {
        FrontendUndergoingFactoryReset {}
    }
}

impl FrontendStateTrait for FrontendMisconfigured {
    fn into_undergoing_factory_reset(self) -> FrontendUndergoingFactoryReset {
        FrontendUndergoingFactoryReset {}
    }
}

impl FrontendStateTrait for FrontendUndergoingFactoryReset {
    fn into_undergoing_factory_reset(self) -> FrontendUndergoingFactoryReset {
        self
    }
}

/// A transition into `Self` from `T`, with `Data`.
pub trait TransitionFrom<T, Data>: Sized {
    fn transition_from(state: T, data: Data) -> Self;
}

/// The transition from `Self` into `T`, with `Data`.
pub trait TransitionWith<T, Data>: Sized {
    fn transition_with(self, data: Data) -> T;
}

impl TransitionFrom<BackendStarting, Error> for BackendStartFailed {
    fn transition_from(state: BackendStarting, data: Error) -> (r: BackendStartFailed)
        ensures
            r.error == data,
    {
        BackendStartFailed { error: data }
    }
}

impl TransitionWith<BackendStartFailed, Error> for BackendStarting {
    fn transition_with(self, data: Error) -> (r: BackendStartFailed)
        ensures
            r.error == data,
    {
        BackendStartFailed::transition_from(self, data)
    }
}

impl TransitionFrom<BackendRestarting, Error> for BackendRestartFailed {
    fn transition_from(state: BackendRestarting, data: Error) -> (r: BackendRestartFailed)
        ensures
            r.error == data,
    {
        BackendRestartFailed { error: data }
    }
}

impl TransitionWith<BackendRestartFailed, Error> for BackendRestarting {
    fn transition_with(self, data: Error) -> (r: BackendRestartFailed)
        ensures
            r.error == data,
    {
        BackendRestartFailed::transition_from(self, data)
    }
}

impl TransitionFrom<FrontendRunning, Error> for FrontendRunningWithMisconfiguration {
    fn transition_from(state: FrontendRunning, data: Error) -> (r: FrontendRunningWithMisconfiguration)
        ensures
            r.error == data,
    {
        FrontendRunningWithMisconfiguration { error: data }
    }
}

impl TransitionWith<FrontendRunningWithMisconfiguration, Error> for FrontendRunning {
    fn transition_with(self, data: Error) -> (r: FrontendRunningWithMisconfiguration)
        ensures
            r.error == data,
    {
        FrontendRunningWithMisconfiguration::transition_from(self, data)
    }
}

// MARK: App status

/// Where the frontend (the API and its configuration) stands.
#[derive(Debug, Clone)]
pub enum FrontendStatus {
    Running(FrontendRunning),
    RunningWithMisconfiguration(FrontendRunningWithMisconfiguration),
    Misconfigured(FrontendMisconfigured),
    UndergoingFactoryReset(FrontendUndergoingFactoryReset),
}

/// Where the backend (the XMPP server) stands.
#[derive(Debug, Clone)]
pub enum BackendStatus {
    Starting(BackendStarting),
    Restarting(BackendRestarting),
    Stopped(BackendStopped),
    Running(BackendRunning),
    StartFailed(BackendStartFailed),
    RestartFailed(BackendRestartFailed),
    UndergoingFactoryReset(BackendUndergoingFactoryReset),
}

/// The pair of substates the whole app is in.
#[derive(Debug, Clone)]
pub struct AppStatus {
    pub frontend: FrontendStatus,
    pub backend: BackendStatus,
}

/// The pairs of substates the app can be in, each with its own router.
pub open spec fn is_valid_status(s: AppStatus) -> bool {
    match (s.frontend, s.backend) {
        (FrontendStatus::Running(_), BackendStatus::Running(_)) => true,
        (FrontendStatus::Running(_), BackendStatus::Starting(_)) => true,
        (FrontendStatus::Running(_), BackendStatus::Restarting(_)) => true,
        (FrontendStatus::Running(_), BackendStatus::RestartFailed(_)) => true,
        (FrontendStatus::Running(_), BackendStatus::StartFailed(_)) => true,
        (FrontendStatus::RunningWithMisconfiguration(_), BackendStatus::Running(_)) => true,
        (FrontendStatus::UndergoingFactoryReset(_), BackendStatus::UndergoingFactoryReset(_)) => true,
        (FrontendStatus::Misconfigured(_), BackendStatus::Stopped(_)) => true,
        _ => false,
    }
}

pub open spec fn is_operational(s: AppStatus) -> bool {
    s.frontend is Running && s.backend is Running
}

impl AppStatus {
    /// Both substates running.
    pub fn operational() -> (s: AppStatus)
        ensures
            is_operational(s),
    {
        AppStatus {
            frontend: FrontendStatus::Running(FrontendRunning {}),
            backend: BackendStatus::Running(BackendRunning {}),
        }
    }

    /// At startup: the frontend runs and the backend starts.
    pub fn starting() -> (s: AppStatus)
        ensures
            s.frontend is Running,
            s.backend is Starting,
    {
        AppStatus {
            frontend: FrontendStatus::Running(FrontendRunning {}),
            backend: BackendStatus::Starting(BackendStarting {}),
        }
    }

    /// Human-readable name of the status, as logged on changes.
    pub fn state_name(&self) -> (n: &'static str)
        requires
            is_valid_status(*self),
        ensures
            n@ == spec_state_name(*self),
    {
        match (&self.frontend, &self.backend) {
            (FrontendStatus::Running(_), BackendStatus::Running(_)) => "Operational",
            (FrontendStatus::Running(_), BackendStatus::Starting(_)) => "Starting",
            (FrontendStatus::Running(_), BackendStatus::Restarting(_)) => "Restarting",
            (FrontendStatus::Running(_), BackendStatus::RestartFailed(_)) => "Restart failed",
            (FrontendStatus::Running(_), BackendStatus::StartFailed(_)) => "Bootstrapping failed",
            (FrontendStatus::RunningWithMisconfiguration(_), _) => "Running with misconfiguration",
            (FrontendStatus::UndergoingFactoryReset(_), _) => "Undergoing factory reset",
            _ => "Configuration needed",
        }
    }

    /// Whether a new configuration must be checked against the current one
    /// before it is applied: not while the app has no usable configuration.
    pub fn validates_config_changes(&self) -> (b: bool)
        ensures
            b == !(self.frontend is UndergoingFactoryReset || self.frontend is Misconfigured),
    {
        match &self.frontend {
            FrontendStatus::UndergoingFactoryReset(_) => false,
            FrontendStatus::Misconfigured(_) => false,
            _ => true,
        }
    }
}

pub open spec fn spec_state_name(s: AppStatus) -> Seq<char> {
    match (s.frontend, s.backend) {
        (FrontendStatus::Running(_), BackendStatus::Running(_)) => "Operational"@,
        (FrontendStatus::Running(_), BackendStatus::Starting(_)) => "Starting"@,
        (FrontendStatus::Running(_), BackendStatus::Restarting(_)) => "Restarting"@,
        (FrontendStatus::Running(_), BackendStatus::RestartFailed(_)) => "Restart failed"@,
        (FrontendStatus::Running(_), BackendStatus::StartFailed(_)) => "Bootstrapping failed"@,
        (FrontendStatus::RunningWithMisconfiguration(_), _) => "Running with misconfiguration"@,
        (FrontendStatus::UndergoingFactoryReset(_), _) => "Undergoing factory reset"@,
        _ => "Configuration needed"@,
    }
}

// MARK: Health

/// What a health route answers.
#[derive(Debug, Clone)]
pub enum Health {
    /// 200 OK.
    Healthy,
    /// An error, possibly with a `Retry-After` delay in seconds.
    Unhealthy { error: Error, retry_after: Option<u64> },
}

/// `h` is an error with this code, HTTP status, message, description and
/// `Retry-After` delay.
pub open spec fn unhealthy_with(
    h: Health,
    code: Seq<char>,
    status: u16,
    message: Seq<char>,
    description: Seq<char>,
    retry: Option<u64>,
) -> bool {
    match h {
        Health::Unhealthy { error, retry_after } => {
            &&& error.code@ == code
            &&& error.status == status
            &&& error.message@ == message
            &&& error.description@ == description
            &&& retry_after == retry
        },
        _ => false,
    }
}

/// `h` is the error `e`, with no `Retry-After` delay.
pub open spec fn unhealthy_error(h: Health, e: Error) -> bool {
    h == (Health::Unhealthy { error: e, retry_after: None })
}

pub open spec fn factory_reset_health(h: Health) -> bool {
    unhealthy_with(
        h,
        "FACTORY_RESET_IN_PROGRESS"@,
        STATUS_SERVICE_UNAVAILABLE,
        "Factory reset in progress"@,
        "Come back in a few moments to find your brand-new Prose Workspace."@,
        Some(15u64),
    )
}

/// The factory reset in progress, retry in 15 seconds.
fn factory_reset_in_progress() -> (h: Health)
    ensures
        factory_reset_health(h),
{
    proof {
        reveal_strlit("FACTORY_RESET_IN_PROGRESS");
        reveal_strlit("Factory reset in progress");
        reveal_strlit("Come back in a few moments to find your brand-new Prose Workspace.");
    }
    Health::Unhealthy {
        error: service_unavailable(
            "FACTORY_RESET_IN_PROGRESS",
            "Factory reset in progress",
            "Come back in a few moments to find your brand-new Prose Workspace.",
        ),
        retry_after: Some(15),
    }
}

impl BackendStatus {
    /// The health of the XMPP server.
    pub fn health(&self) -> (h: Health)
        ensures
            (h is Healthy) == (*self is Running),
            *self is Stopped ==> unhealthy_with(
                h,
                "SERVER_STOPPED"@,
                STATUS_SERVICE_UNAVAILABLE,
                "Prose Server stopped"@,
                "Contact an administrator to fix this."@,
                None,
            ),
            *self is Starting || *self is Restarting ==> unhealthy_with(
                h,
                "SERVER_STARTING"@,
                STATUS_TOO_EARLY,
                "A moment please"@,
                "Your Prose Server is starting."@,
                Some(1u64),
            ),
            *self is StartFailed ==> unhealthy_error(h, self->StartFailed_0.error),
            *self is RestartFailed ==> unhealthy_error(h, self->RestartFailed_0.error),
            *self is UndergoingFactoryReset ==> factory_reset_health(h),
    {
        match self {
            BackendStatus::Running(_) => Health::Healthy,
            BackendStatus::Stopped(_) => {
                proof {
                    reveal_strlit("SERVER_STOPPED");
                    reveal_strlit("Prose Server stopped");
                    reveal_strlit("Contact an administrator to fix this.");
                }
                Health::Unhealthy {
                    error: service_unavailable(
                        "SERVER_STOPPED",
                        "Prose Server stopped",
                        "Contact an administrator to fix this.",
                    ),
                    retry_after: None,
                }
            },
            BackendStatus::Starting(_) | BackendStatus::Restarting(_) => {
                proof {
                    reveal_strlit("SERVER_STARTING");
                    reveal_strlit("A moment please");
                    reveal_strlit("Your Prose Server is starting.");
                }
                Health::Unhealthy {
                    error: too_early(
                        "SERVER_STARTING",
                        "A moment please",
                        "Your Prose Server is starting.",
                    ),
                    retry_after: Some(1),
                }
            },
            BackendStatus::StartFailed(s) => Health::Unhealthy { error: s.error.clone(), retry_after: None },
            BackendStatus::RestartFailed(s) => Health::Unhealthy {
                error: s.error.clone(),
                retry_after: None,
            },
            BackendStatus::UndergoingFactoryReset(_) => factory_reset_in_progress(),
        }
    }
}

impl FrontendStatus {
    /// The health of the API configuration.
    pub fn health(&self) -> (h: Health)
        ensures
            (h is Healthy) == (*self is Running),
            *self is RunningWithMisconfiguration ==> unhealthy_error(
                h,
                self->RunningWithMisconfiguration_0.error,
            ),
            *self is Misconfigured ==> unhealthy_error(h, self->Misconfigured_0.error),
            *self is UndergoingFactoryReset ==> factory_reset_health(h),
    {
        match self {
            FrontendStatus::Running(_) => Health::Healthy,
            FrontendStatus::RunningWithMisconfiguration(s) => Health::Unhealthy {
                error: s.error.clone(),
                retry_after: None,
            },
            FrontendStatus::Misconfigured(s) => Health::Unhealthy { error: s.error.clone(), retry_after: None },
            FrontendStatus::UndergoingFactoryReset(_) => factory_reset_in_progress(),
        }
    }
}

impl AppStatus {
    /// `/health`: the health of the backend, not of the API as a whole, so
    /// that a misconfigured frontend keeps the XMPP server available.
    pub fn health(&self) -> (h: Health)
        ensures
            (h is Healthy) == (self.backend is Running),
            self.backend is Stopped ==> unhealthy_with(
                h,
                "SERVER_STOPPED"@,
                STATUS_SERVICE_UNAVAILABLE,
                "Prose Server stopped"@,
                "Contact an administrator to fix this."@,
                None,
            ),
            self.backend is Starting || self.backend is Restarting ==> unhealthy_with(
                h,
                "SERVER_STARTING"@,
                STATUS_TOO_EARLY,
                "A moment please"@,
                "Your Prose Server is starting."@,
                Some(1u64),
            ),
            self.backend is StartFailed ==> unhealthy_error(h, self.backend->StartFailed_0.error),
            self.backend is RestartFailed ==> unhealthy_error(h, self.backend->RestartFailed_0.error),
            self.backend is UndergoingFactoryReset ==> factory_reset_health(h),
    {
        self.backend.health()
    }

    /// `/config-health`: the health of the frontend.
    pub fn config_health(&self) -> (h: Health)
        ensures
            (h is Healthy) == (self.frontend is Running),
            self.frontend is RunningWithMisconfiguration ==> unhealthy_error(
                h,
                self.frontend->RunningWithMisconfiguration_0.error,
            ),
            self.frontend is Misconfigured ==> unhealthy_error(h, self.frontend->Misconfigured_0.error),
            self.frontend is UndergoingFactoryReset ==> factory_reset_health(h),
    {
        self.frontend.health()
    }
}

} // verus!
