use prose_pod_server::errors::{
    auto_log, conflict_error, forbidden, internal_server_error, missing_configuration,
    missing_configuration_details, service_unavailable, too_early, unauthorized, validation_error,
    Error,
};
use prose_pod_server::jid::{BareJid, JidDomain, JidNode};
use prose_pod_server::json::JsonValue;
use prose_pod_server::lifecycle::STATUS_RESET_CONTENT;
use prose_pod_server::state::{AppStatus, BackendStatus, FrontendStatus, Health};

fn some_error() -> Error {
    service_unavailable("SOMETHING_FAILED", "Something failed", "It failed.")
}

#[test]
fn jid_parsing() {
    let jid = BareJid::from_str("alice@example.org").unwrap();
    assert_eq!(jid.node().as_str(), "alice");
    assert_eq!(jid.domain().as_str(), "example.org");
    assert_eq!(jid.to_string(), "alice@example.org");
    assert_eq!(BareJid::from_str("example.org").unwrap_err(), "Missing '@'.");
    assert_eq!(
        BareJid::from_str("alice@example.org/phone").unwrap_err(),
        "Resource part not permitted."
    );
    let rebuilt = BareJid::new(&jid.node(), &jid.domain());
    assert_eq!(rebuilt.as_str(), "alice@example.org");
    assert!(JidNode::from_str("a@b").is_err());
    assert!(JidNode::from_str("a/b").is_err());
    assert!(JidDomain::from_str("example.org/x").is_err());
    assert_eq!(JidDomain::from_str("example.org").unwrap().as_str(), "example.org");
}

#[test]
fn jid_node_is_before_the_first_at() {
    let jid = BareJid::from_str("a@b@c").unwrap();
    assert_eq!(jid.node().as_str(), "a");
    assert_eq!(jid.domain().as_str(), "b@c");
}

#[test]
fn error_helpers() {
    let e = unauthorized("No token.");
    assert_eq!((e.kind, e.code, e.status), ("AUTH_ERROR", "UNAUTHORIZED", 401));
    assert_eq!(e.message, "Unauthorized");
    assert_eq!(e.to_string(), "Unauthorized");
    let e = forbidden("Only admins can do that.");
    assert_eq!((e.code, e.status), ("FORBIDDEN", 403));
    let e = too_early("SERVER_STARTING", "A moment please", "Starting.");
    assert_eq!((e.kind, e.status), ("LIFECYCLE_ERROR", 425));
    let e = conflict_error("CONFLICT", "Conflict", "Already exists.");
    assert_eq!(e.status, 409);
    let e = validation_error("BAD_REQUEST", "Bad request", "Missing data.");
    assert_eq!((e.kind, e.status), ("VALIDATION_ERROR", 400));
    let e = internal_server_error("42", "BOOM", "Something went wrong.");
    assert_eq!(e.status, 500);
    assert_eq!(e.description, "Something went wrong. (logged as error_id=42)");
    assert_eq!(auto_log("Oops.", "7"), "Oops. (logged as error_id=7)");
    let e = missing_configuration("1");
    assert_eq!(e.code, "MISSING_CONFIGURATION");
    assert_eq!(
        missing_configuration_details("backups.s3"),
        "Missing key `backups.s3` in the app configuration. Add it to `prose.toml` or use environment variables."
    );
}

#[test]
fn error_json() {
    let e = forbidden("Only admins can do that.");
    let json = e.to_json();
    let JsonValue::Object(entries) = json else { panic!("not an object") };
    let keys: Vec<&str> = entries.iter().map(|(k, _)| k.as_str()).collect();
    assert!(keys.contains(&"error"));
    assert!(keys.contains(&"message"));
    assert!(keys.contains(&"description"));
}

#[test]
fn lifecycle_frontend_reload() {
    let (s, r) = AppStatus::operational().reload_frontend(Ok(()));
    assert!(r.is_ok());
    assert!(matches!(s.frontend, FrontendStatus::Running(_)));
    let (s, r) = AppStatus::operational().reload_frontend(Err(some_error()));
    assert!(r.is_err());
    assert!(matches!(s.frontend, FrontendStatus::RunningWithMisconfiguration(_)));
    assert!(matches!(s.backend, BackendStatus::Running(_)));
    assert_eq!(s.state_name(), "Running with misconfiguration");
}

#[test]
fn lifecycle_backend_restart_and_start() {
    let (s, r) = AppStatus::operational().restart_backend(Err(some_error()));
    assert!(r.is_err());
    assert!(matches!(s.backend, BackendStatus::RestartFailed(_)));
    assert_eq!(s.state_name(), "Restart failed");
    let (s, r) = s.restart_backend(Ok(()));
    assert!(r.is_ok());
    assert_eq!(s.state_name(), "Operational");

    let (s, _) = AppStatus::starting().start_backend(Err(some_error()));
    assert_eq!(s.state_name(), "Bootstrapping failed");
    let (s, r) = s.start_backend(Ok(()));
    assert!(r.is_ok());
    assert_eq!(s.state_name(), "Operational");
}

#[test]
fn lifecycle_factory_reset() {
    let (s, r) = AppStatus::operational().factory_reset(Ok(()), Err(some_error()), Ok(()));
    assert_eq!(r.unwrap(), STATUS_RESET_CONTENT);
    assert_eq!(s.state_name(), "Configuration needed");
    let (s, r) = AppStatus::operational().factory_reset(Ok(()), Ok(()), Ok(()));
    assert_eq!(r.unwrap(), 205);
    assert_eq!(s.state_name(), "Operational");
    let (s, r) = AppStatus::operational().factory_reset(Err(some_error()), Ok(()), Ok(()));
    assert!(r.is_err());
    assert_eq!(s.state_name(), "Undergoing factory reset");
    let (s, r) = AppStatus::operational().factory_reset(Ok(()), Ok(()), Err(some_error()));
    assert!(r.is_err());
    assert_eq!(s.state_name(), "Bootstrapping failed");
}

#[test]
fn lifecycle_init_config() {
    let (s, _) = AppStatus::operational().factory_reset(Ok(()), Err(some_error()), Ok(()));
    assert!(!s.validates_config_changes());
    let (s, r) = s.init_config(Ok(()), Ok(()));
    assert!(r.is_ok());
    assert_eq!(s.state_name(), "Operational");
    assert!(s.validates_config_changes());
}

#[test]
fn health_follows_the_backend() {
    assert!(matches!(AppStatus::operational().health(), Health::Healthy));
    match AppStatus::starting().health() {
        Health::Unhealthy { error, retry_after } => {
            assert_eq!(error.code, "SERVER_STARTING");
            assert_eq!(error.status, 425);
            assert_eq!(retry_after, Some(1));
        }
        Health::Healthy => panic!("a starting backend is not healthy"),
    }
    let (s, _) = AppStatus::operational().reload_frontend(Err(some_error()));
    assert!(matches!(s.health(), Health::Healthy));
    match s.config_health() {
        Health::Unhealthy { error, retry_after } => {
            assert_eq!(error.code, "SOMETHING_FAILED");
            assert_eq!(retry_after, None);
        }
        Health::Healthy => panic!("a misconfigured frontend is not healthy"),
    }
    let (s, _) = AppStatus::operational().factory_reset(Err(some_error()), Ok(()), Ok(()));
    match s.health() {
        Health::Unhealthy { error, retry_after } => {
            assert_eq!(error.code, "FACTORY_RESET_IN_PROGRESS");
            assert_eq!(retry_after, Some(15));
        }
        Health::Healthy => panic!("a backend being reset is not healthy"),
    }
}
