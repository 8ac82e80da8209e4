use prose_pod_server::auth::{AuthToken, CallerInfo};
use prose_pod_server::avatar::{Avatar, AvatarDecodeError, AVATAR_MAX_LENGTH_BYTES};
use prose_pod_server::jid::{BareJid, JidDomain, JidNode};
use prose_pod_server::pod_api::{accept_not_found, ProsePodApi, ProsePodApiError};
use prose_pod_server::secrets::{
    validate_password, Password, PasswordValidationError, SecretTable, SecretsStore, TokenSource,
};
use prose_pod_server::startup::{
    account_setup_commands, begin_service_account_setup, bootstrap_config, service_account_vcard, ServiceAccount, group_membership_commands, is_generated_by_prose,
    oauth2_client_registration, prosody_config_backup_file_name, roster_sync_commands,
    ProsodyctlCommand,
};

fn jid(s: &str) -> BareJid {
    BareJid::from_str(s).unwrap()
}

fn caller(role: &str) -> CallerInfo {
    CallerInfo { jid: jid("bob@example.org"), primary_role: role.to_owned() }
}

#[test]
fn admin_roles() {
    assert!(caller("prosody:admin").is_admin());
    assert!(caller("prosody:operator").is_admin());
    assert!(!caller("prosody:member").is_admin());
    assert!(!caller("prosody:registered").is_admin());
    assert!(!caller("Prosody:admin").is_admin());
    let err = caller("prosody:member").ensure_admin_role().unwrap_err();
    assert_eq!(err.status, 403);
    assert_eq!(err.description, "Only admins can do that.");
    assert!(caller("prosody:operator").ensure_admin_role().is_ok());
}

#[test]
fn bearer_tokens() {
    let token = AuthToken::from_authorization_header(Some(Ok("Bearer abc.def"))).unwrap();
    assert_eq!(token.0, "abc.def");

    let err = AuthToken::from_authorization_header(None).unwrap_err();
    assert_eq!(err.status, 401);
    assert_eq!(err.description, "No 'authorization' header found.");

    let err = AuthToken::from_authorization_header(Some(Err("failed to convert header to a str")))
        .unwrap_err();
    assert_eq!(
        err.description,
        "Bad 'authorization' header value: failed to convert header to a str"
    );

    let err = AuthToken::from_authorization_header(Some(Ok("Basic abc"))).unwrap_err();
    assert_eq!(err.description, "The 'authorization' header does not start with 'Bearer '.");

    let err = AuthToken::from_authorization_header(Some(Ok("bearer abc"))).unwrap_err();
    assert_eq!(err.code, "UNAUTHORIZED");

    assert_eq!(AuthToken::from_authorization_header(Some(Ok("Bearer "))).unwrap().0, "");
}

#[test]
fn secret_table_reads_back_writes() {
    let alice = jid("alice@example.org");
    let bob = jid("bob@example.org");
    let mut table = SecretTable::new();
    assert_eq!(table.get(&alice), None);
    assert_eq!(table.insert(&alice, "a1".to_owned()), None);
    assert_eq!(table.insert(&bob, "b1".to_owned()), None);
    assert_eq!(table.insert(&alice, "a2".to_owned()), Some("a1".to_owned()));
    assert_eq!(table.get(&alice), Some("a2".to_owned()));
    assert_eq!(table.get(&bob), Some("b1".to_owned()));
    assert_eq!(table.remove(&alice), Some("a2".to_owned()));
    assert_eq!(table.get(&alice), None);
    assert_eq!(table.remove(&alice), None);
    assert_eq!(table.get(&bob), Some("b1".to_owned()));
}

#[test]
fn password_update_discards_the_token() {
    let account = jid("prose-workspace@example.org");
    let mut store = SecretsStore::new();
    assert_eq!(
        store.get_password(&account).unwrap_err(),
        "No password stored for `prose-workspace@example.org`"
    );

    assert_eq!(store.save_token(&account, AuthToken("t1".to_owned())).map(|t| t.0), None);
    let previous = store.take_token(&account);
    assert_eq!(previous.map(|t| t.0), Some("t1".to_owned()));
    let revocation: Result<(), String> = Ok(());
    assert!(store.set_password(&account, Password::new("p1".to_owned()), revocation).is_ok());
    assert_eq!(store.get_password(&account).unwrap().as_str(), "p1");
    assert!(store.get_token(&account).is_none());
    // The next token saved replaces none.
    assert!(store.save_token(&account, AuthToken("t2".to_owned())).is_none());
    assert_eq!(store.get_token(&account).map(|t| t.0), Some("t2".to_owned()));
}

#[test]
fn failed_revocation_keeps_the_old_password() {
    let account = jid("prose-workspace@example.org");
    let mut store = SecretsStore::new();
    let ok: Result<(), String> = Ok(());
    store.set_password(&account, Password::new("old".to_owned()), ok).unwrap();
    store.save_token(&account, AuthToken("t".to_owned()));
    let _ = store.take_token(&account);
    let failed: Result<(), String> = Err("revocation failed".to_owned());
    assert_eq!(
        store.set_password(&account, Password::new("new".to_owned()), failed),
        Err("revocation failed".to_owned())
    );
    assert_eq!(store.get_password_opt(&account).unwrap().as_str(), "old");
}

#[test]
fn pod_api_urls_and_errors() {
    let api = ProsePodApi { url: "http://prose-pod-api:8080".to_owned() };
    assert_eq!(api.url("/restore"), "http://prose-pod-api:8080/restore");
    assert_eq!(
        ProsePodApiError::NotFound("no such backup".to_owned()).to_string(),
        "Not found: no such backup"
    );
    assert_eq!(ProsePodApiError::Other("Network error".to_owned()).to_string(), "Network error");
    assert_eq!(ProsePodApiError::BadRequest("x".to_owned()).to_string(), "Bad request: x");
    let r: Result<Vec<u8>, ProsePodApiError> =
        accept_not_found(ProsePodApiError::NotFound("gone".to_owned()));
    assert_eq!(r.unwrap(), Vec::<u8>::new());
    let r: Result<u32, ProsePodApiError> =
        accept_not_found(ProsePodApiError::Conflict("taken".to_owned()));
    assert_eq!(r.unwrap_err().to_string(), "Conflict: taken");
}

#[test]
fn prosody_config_header() {
    assert!(is_generated_by_prose(b"-- Prose Pod Server"));
    assert!(!is_generated_by_prose(b"-- Prose Pod"));
    assert!(!is_generated_by_prose(b"admins = { }\n--"));
    assert!(!is_generated_by_prose(b""));
    assert_eq!(
        prosody_config_backup_file_name(1_700_000_000),
        "prosody.prose-backup-1700000000.cfg.lua"
    );
}

#[test]
fn avatars() {
    let png = vec![0x89, b'P', b'N', b'G'];
    let avatar = Avatar::try_from_bytes(png.clone(), Some("image/png".to_owned())).unwrap();
    assert_eq!(avatar.media_type(), "image/png");
    assert_eq!(avatar.into_bytes(), png);
    assert!(matches!(
        Avatar::try_from_bytes(png, None),
        Err(AvatarDecodeError::UnsupportedMediaType)
    ));
    let too_large = vec![0u8; AVATAR_MAX_LENGTH_BYTES + 1];
    assert!(matches!(
        Avatar::try_from_bytes(too_large, Some("image/png".to_owned())),
        Err(AvatarDecodeError::TooLarge)
    ));
    assert_eq!(Avatar::decode_base64(b"aGVsbG8=").unwrap(), b"hello".to_vec());
    assert!(matches!(Avatar::decode_base64(b"not base64!"), Err(AvatarDecodeError::InvalidBase64(_))));
}

#[test]
fn token_source_prefers_the_cache() {
    let account = jid("prose-workspace@example.org");
    let mut store = SecretsStore::new();
    assert_eq!(
        store.token_source(&account).unwrap_err(),
        "No password stored for `prose-workspace@example.org`"
    );
    let ok: Result<(), String> = Ok(());
    store.set_password(&account, Password::new("secret".to_owned()), ok).unwrap();
    match store.token_source(&account).unwrap() {
        TokenSource::LogIn { username, password } => {
            assert_eq!(username.as_str(), "prose-workspace");
            assert_eq!(password.as_str(), "secret");
        }
        TokenSource::Cached(_) => panic!("no token is cached yet"),
    }
    store.save_token(&account, AuthToken("tok".to_owned()));
    match store.token_source(&account).unwrap() {
        TokenSource::Cached(token) => assert_eq!(token.0, "tok"),
        TokenSource::LogIn { .. } => panic!("the token is cached"),
    }
}

#[test]
fn bootstrap_commands() {
    let account = jid("prose-workspace@example.org");
    let cmds = account_setup_commands(&account, "pw", true);
    assert_eq!(cmds.len(), 2);
    assert!(matches!(&cmds[0], ProsodyctlCommand::UserPassword { jid, password } if jid == "prose-workspace@example.org" && password == "pw"));
    assert!(matches!(&cmds[1], ProsodyctlCommand::UserSetRole { role, .. } if role == "prosody:registered"));
    let cmds = account_setup_commands(&account, "pw", false);
    assert_eq!(cmds.len(), 1);
    assert!(matches!(&cmds[0], ProsodyctlCommand::UserCreate { role, .. } if role == "prosody:registered"));

    let users = vec!["prose-workspace".to_owned(), "bot".to_owned()];
    let groups = vec!["team".to_owned(), "ops".to_owned(), "all".to_owned()];
    let cmds = group_membership_commands("example.org", &users, &groups);
    assert_eq!(cmds.len(), 6);
    assert!(matches!(&cmds[4], ProsodyctlCommand::GroupsAddMember { host, group_id, username }
        if host == "example.org" && group_id == "ops" && username == "bot"));
    let cmds = roster_sync_commands("example.org", &groups);
    assert_eq!(cmds.len(), 3);
    assert!(matches!(&cmds[2], ProsodyctlCommand::GroupsSync { group_id, .. } if group_id == "all"));

    let client = oauth2_client_registration();
    assert_eq!(client.client_name, "Prose Pod Server API");
    assert_eq!(client.grant_types, vec!["authorization_code", "refresh_token", "password"]);
}

#[test]
fn service_account_passwords_are_for_admins() {
    let account = jid("prose-workspace@example.org");
    let mut store = SecretsStore::new();
    let ok: Result<(), String> = Ok(());
    store.set_password(&account, Password::new("secret".to_owned()), ok).unwrap();
    let username = JidNode::from_str("prose-workspace").unwrap();
    let domain = JidDomain::from_str("example.org").unwrap();
    let password = store
        .service_account_password(&caller("prosody:admin"), &username, &domain)
        .unwrap();
    assert_eq!(password.as_str(), "secret");
    let err = store
        .service_account_password(&caller("prosody:member"), &username, &domain)
        .unwrap_err();
    assert_eq!(err.status, 403);
    assert_eq!(err.description, "Only admins can do that.");
}

#[test]
fn service_account_credentials_are_stored() {
    let mut store = SecretsStore::new();
    let workspace = jid("prose-workspace@example.org");
    store.save_token(&workspace, AuthToken("old token".to_owned()));

    // A configured password is used.
    let configured = ServiceAccount {
        jid: workspace.clone(),
        name: "example.org".to_owned(),
        password: Some("configured-password".to_owned()),
    };
    let (password, previous) =
        begin_service_account_setup(&mut store, &configured, Password::new("random".to_owned()));
    assert_eq!(password.as_str(), "configured-password");
    assert_eq!(previous.map(|t| t.0), Some("old token".to_owned()));
    let revocation: Result<(), String> = Ok(());
    store.set_password(&workspace, password, revocation).unwrap();
    assert!(store.save_token(&workspace, AuthToken("new token".to_owned())).is_none());
    assert_eq!(store.get_password(&workspace).unwrap().as_str(), "configured-password");
    assert_eq!(store.get_token(&workspace).map(|t| t.0), Some("new token".to_owned()));

    // Otherwise the random one drawn by the caller is.
    let unconfigured = ServiceAccount { password: None, ..configured };
    let (password, previous) =
        begin_service_account_setup(&mut store, &unconfigured, Password::new("random".to_owned()));
    assert_eq!(password.as_str(), "random");
    assert_eq!(previous.map(|t| t.0), Some("new token".to_owned()));
    let revocation: Result<(), String> = Ok(());
    store.set_password(&workspace, password, revocation).unwrap();
    assert_eq!(store.get_password(&workspace).unwrap().as_str(), "random");
    assert!(store.get_token(&workspace).is_none());
}

#[test]
fn passwords_have_a_minimum_length() {
    assert_eq!(validate_password(&Password::new("0123456789abcdef".to_owned()), 16), Ok(()));
    assert_eq!(
        validate_password(&Password::new("short".to_owned()), 16),
        Err(PasswordValidationError::TooShort { min_len: 16, len: 5 })
    );
    // The length is counted in bytes.
    assert_eq!(
        validate_password(&Password::new("ééé".to_owned()), 7),
        Err(PasswordValidationError::TooShort { min_len: 7, len: 6 })
    );
}

#[test]
fn service_accounts_get_an_application_vcard_once() {
    let account = ServiceAccount {
        jid: jid("prose-workspace@example.org"),
        name: "example.org".to_owned(),
        password: None,
    };
    assert!(service_account_vcard(&account, true).is_none());
    let v = service_account_vcard(&account, false).unwrap();
    assert_eq!(v.formatted_name, "example.org");
    assert_eq!(v.kind, "application");
}

#[test]
fn bootstrap_config_fills_in_the_domain() {
    let template = "VirtualHost \"{{server_domain}}\"\nadmins = { \"admin@{{server_domain}}\" } -- {{server}}\n";
    assert_eq!(
        bootstrap_config(template, "example.org"),
        "VirtualHost \"example.org\"\nadmins = { \"admin@example.org\" } -- {{server}}\n"
    );
    assert_eq!(bootstrap_config("{{server_domain}}{{server_domain}}", "a"), "aa");
    assert_eq!(bootstrap_config("", "a"), "");
}
