use prose_pod_server::avatar::{avatar_body, AvatarBody};
use prose_pod_server::duration::parse_duration_seconds;
use prose_pod_server::errors::internal_server_error;
use prose_pod_server::jid::{JidDomain, JidNode};
use prose_pod_server::secrets::Password;
use prose_pod_server::users::{
    admin_jids, counted_user_roles, first_account_jid, first_account_response,
    GetUsersStatsResponse, UserCreateOutcome,
};

#[test]
fn iso8601_durations() {
    assert_eq!(parse_duration_seconds("PT3H"), Some(3 * 3600));
    assert_eq!(parse_duration_seconds("PT15M"), Some(15 * 60));
    assert_eq!(parse_duration_seconds("P1W"), Some(7 * 24 * 3600));
    assert_eq!(parse_duration_seconds("P1DT2H"), Some(26 * 3600));
    assert_eq!(parse_duration_seconds("PT3H15M10S"), Some(3 * 3600 + 15 * 60 + 10));
    assert_eq!(parse_duration_seconds("PT0S"), Some(0));
    assert_eq!(parse_duration_seconds("P2W3D"), Some(17 * 24 * 3600));
}

#[test]
fn malformed_durations() {
    for s in ["", "P", "PT", "1W", "P1", "PT15M3H", "P1H", "PT1D", "P1W1W", "P1DT", "PTT1H", "P-1D", "pT1H"] {
        assert_eq!(parse_duration_seconds(s), None, "{s}");
    }
    assert_eq!(parse_duration_seconds("PT18446744073709551615S"), Some(u64::MAX));
    assert_eq!(parse_duration_seconds("PT18446744073709551616S"), None);
    assert_eq!(parse_duration_seconds("P30500568904943W"), Some(18446744073709526400));
    assert_eq!(parse_duration_seconds("P30500568904944W"), None);
}

#[test]
fn avatar_content_types() {
    assert_eq!(avatar_body(None), Some(AvatarBody::Bytes));
    assert_eq!(avatar_body(Some(b"application/octet-stream")), Some(AvatarBody::Bytes));
    assert_eq!(avatar_body(Some(b"image/png")), Some(AvatarBody::Bytes));
    assert_eq!(avatar_body(Some(b"image/")), Some(AvatarBody::Bytes));
    assert_eq!(avatar_body(Some(b"text/plain")), Some(AvatarBody::Base64Text));
    assert_eq!(avatar_body(Some(b"application/json")), Some(AvatarBody::Base64Json));
    assert_eq!(avatar_body(Some(b"text/plain; charset=utf-8")), None);
    assert_eq!(avatar_body(Some(b"video/mp4")), None);
}

#[test]
fn passwords_are_long_enough() {
    assert_eq!(Password::try_from("0123456789abcdef".to_owned()).unwrap().as_str(), "0123456789abcdef");
    let err = Password::try_from("short".to_owned()).unwrap_err();
    assert_eq!(err.code, "PASSWORD_TOO_SHORT");
    assert_eq!(err.status, 400);
    assert_eq!(err.description, "Passwords must be at least 16 characters long.");
    // The length is counted in bytes.
    assert!(Password::try_from("éééééééé".to_owned()).is_ok());
}

#[test]
fn user_counts() {
    assert_eq!(counted_user_roles(), vec!["prosody:member", "prosody:admin", "prosody:operator"]);
    assert_eq!(GetUsersStatsResponse::from_role_counts(&[3, 1, 0]).count, 4);
    assert_eq!(GetUsersStatsResponse::from_role_counts(&[]).count, 0);
    let jids = admin_jids(&vec!["a@example.org".to_owned(), "b@example.org".to_owned()]);
    assert_eq!(jids.iter().map(|j| j.as_str()).collect::<Vec<_>>(), vec!["a@example.org", "b@example.org"]);
}

#[test]
fn first_account() {
    let username = JidNode::from_str("alice").unwrap();
    let domain = JidDomain::from_str("example.org").unwrap();
    let err = first_account_jid(1, &username, &domain).unwrap_err();
    assert_eq!(err.code, "FIRST_ACCOUNT_ALREADY_CREATED");
    assert_eq!(err.status, 409);
    assert_eq!(first_account_jid(0, &username, &domain).unwrap().as_str(), "alice@example.org");

    let created = first_account_response(username.clone(), UserCreateOutcome::Created).unwrap();
    assert_eq!(created.username.as_str(), "alice");
    assert_eq!(created.role, "prosody:admin");
    let err = first_account_response(username.clone(), UserCreateOutcome::Conflict).unwrap_err();
    assert_eq!(err.code, "USERNAME_ALREADY_TAKEN");
    let internal = internal_server_error("9", "PROSODYCTL_FAILED", "Something went wrong.");
    let err = first_account_response(username, UserCreateOutcome::Internal(internal)).unwrap_err();
    assert_eq!(err.code, "PROSODYCTL_FAILED");
}

#[test]
fn full_durations_add_up_their_components() {
    assert_eq!(
        parse_duration_seconds("P1W2DT3H4M5S"),
        Some(604800 + 2 * 86400 + 3 * 3600 + 4 * 60 + 5)
    );
    assert_eq!(parse_duration_seconds("P0W0DT0H0M0S"), Some(0));
    assert_eq!(parse_duration_seconds("P10W"), Some(10 * 604800));
}
