//! What the server decides while it bootstraps Prosody: the service
//! accounts it sets up, and whether an existing Prosody configuration must
//! be kept aside.
use vstd::prelude::*;

use crate::app_config::AppConfig;
use crate::auth::AuthToken;
use crate::jid::{jid_of, BareJid};
use crate::secrets::{Password, SecretsStore};
use crate::text::{decimal, push_decimal, push_str, replace_all, replace_all_str};

verus! {

/// The role given to service accounts (Prosody has no role for accounts
/// that are not users).
pub const SERVICE_ACCOUNT_ROLE: &'static str = "prosody:registered";

/// Where Prosody's configuration lives.
pub const PROSODY_CONFIG_FILE_PATH: &'static str = "/etc/prosody/prosody.cfg.lua";

/// Where Prosody's certificates live.
pub const PROSODY_CERTS_DIR: &'static str = "/etc/prosody/certs";

/// The first line of every Prosody configuration that Prose generates.
pub const PROSE_CONFIG_HEADER: &'static str = "-- Prose Pod Server";

/// A service account to set up: its JID, the name its vCard gets, and the
/// password the configuration gives it (a random one is used otherwise).
#[derive(Debug)]
pub struct ServiceAccount {
    pub jid: BareJid,
    pub name: String,
    pub password: Option<String>,
}

/// The service accounts, read from the configuration: for now only the
/// Workspace account, named after the server's domain.
pub fn service_accounts(config: &AppConfig) -> (accounts: Vec<ServiceAccount>)
    ensures
        accounts@.len() == 1,
        accounts@[0].jid@ == jid_of(
            config.service_accounts.prose_workspace.xmpp_node@,
            config.server.domain@,
        ),
        accounts@[0].name@ == config.server.domain@,
        match config.service_accounts.prose_workspace.password {
            Some(p) => accounts@[0].password is Some && accounts@[0].password->Some_0@ == p@,
            None => accounts@[0].password is None,
        },
{
    let password = match &config.service_accounts.prose_workspace.password {
        Some(p) => Some(p.clone()),
        None => None,
    };
    let account = ServiceAccount {
        jid: config.workspace_jid(),
        name: config.server.domain.to_string(),
        password,
    };
    vec![account]
}

/// The first step of setting a service account up. It gives the password
/// the account gets: the one the configuration gives it, or else
/// `random_password`, a fresh random password drawn by the caller. And it
/// takes the token cached for the account out of `store`, so that it can be
/// revoked before the new password is stored with
/// [`SecretsStore::set_password`]; the token obtained by logging in with the
/// new password is then cached with [`SecretsStore::save_token`].
pub fn begin_service_account_setup(
    store: &mut SecretsStore,
    account: &ServiceAccount,
    random_password: Password,
) -> (r: (Password, Option<AuthToken>))
    ensures
        match account.password {
            Some(c) => r.0@ == c@,
            None => r.0@ == random_password@,
        },
        final(store).tokens@ == old(store).tokens@.remove(account.jid@),
        final(store).passwords@ == old(store).passwords@,
        r.1 is Some <==> old(store).tokens@.contains_key(account.jid@),
        r.1 is Some ==> r.1->Some_0.0@ == old(store).tokens@[account.jid@],
{
    let password = match &account.password {
        Some(c) => Password::new(c.clone()),
        None => random_password,
    };
    let previous = store.take_token(&account.jid);
    (password, previous)
}

/// The vCard given to a service account that has none.
#[derive(Debug)]
pub struct ServiceAccountVCard {
    /// Its formatted name.
    pub formatted_name: String,
    /// Its `KIND`: service accounts are applications, not people.
    pub kind: String,
}

/// The vCard to create for a service account once it is set up: none if it
/// already has one (`has_vcard`), else one named after the account, of kind
/// `application`.
pub fn service_account_vcard(account: &ServiceAccount, has_vcard: bool) -> (v: Option<ServiceAccountVCard>)
    ensures
        has_vcard ==> v is None,
        !has_vcard ==> (v matches Some(c) && c.formatted_name@ == account.name@ && c.kind@
            == "application"@),
{
    if has_vcard {
        None
    } else {
        proof {
            reveal_strlit("application");
        }
        Some(ServiceAccountVCard { formatted_name: account.name.clone(), kind: "application".to_owned() })
    }
}

/// The placeholder for the server's domain in Prosody's bootstrap
/// configuration template.
pub const SERVER_DOMAIN_PLACEHOLDER: &'static str = "{{server_domain}}";

/// The Prosody configuration that Prosody first starts with, before the
/// server configures it: the bootstrap template with every
/// [`SERVER_DOMAIN_PLACEHOLDER`] replaced by the server's domain.
pub fn bootstrap_config(template: &str, server_domain: &str) -> (s: String)
    ensures
        s@ == replace_all(template@, SERVER_DOMAIN_PLACEHOLDER@, server_domain@),
{
    proof {
        reveal_strlit("{{server_domain}}");
    }
    replace_all_str(template, SERVER_DOMAIN_PLACEHOLDER, server_domain)
}

/// The bytes of [`PROSE_CONFIG_HEADER`].
pub open spec fn prose_header_bytes() -> Seq<u8> {
    Seq::new(PROSE_CONFIG_HEADER@.len(), |i: int| PROSE_CONFIG_HEADER@[i] as u8)
}

/// Whether a Prosody configuration was generated by Prose, from the bytes
/// read at its start (as many as the header has, or fewer if the read
/// returned fewer): they must be the header.
pub fn is_generated_by_prose(first_bytes: &[u8]) -> (b: bool)
    ensures
        b == (first_bytes@ == prose_header_bytes()),
{
    let header = PROSE_CONFIG_HEADER.as_bytes();
    proof {
        reveal_strlit("-- Prose Pod Server");
        assert(vstd::string::is_ascii(PROSE_CONFIG_HEADER));
        vstd::string::is_ascii_spec_bytes(PROSE_CONFIG_HEADER);
        assert(header@ =~= prose_header_bytes());
    }
    if first_bytes.len() != header.len() {
        return false;
    }
    let mut i: usize = 0;
    while i < header.len()
        invariant
            i <= header@.len(),
            first_bytes@.len() == header@.len(),
            header@ == prose_header_bytes(),
            forall|j: int| 0 <= j < i ==> first_bytes@[j] == header@[j],
        decreases header@.len() - i,
    {
        if first_bytes[i] != header[i] {
            assert(first_bytes@[i as int] != prose_header_bytes()[i as int]);
            return false;
        }
        i = i + 1;
    }
    assert(first_bytes@ =~= header@);
    true
}

/// The name under which a Prosody configuration not generated by Prose is
/// kept aside, at Unix time `unix_timestamp` (seconds).
pub fn prosody_config_backup_file_name(unix_timestamp: u64) -> (name: String)
    ensures
        name@ == "prosody.prose-backup-"@ + decimal(unix_timestamp as nat) + ".cfg.lua"@,
{
    let mut name = "prosody.prose-backup-".to_owned();
    push_decimal(&mut name, unix_timestamp);
    push_str(&mut name, ".cfg.lua");
    name
}

/// A `prosodyctl` command that bootstrapping runs.
#[derive(Debug)]
pub enum ProsodyctlCommand {
    /// `user password <jid> <password>`.
    UserPassword { jid: String, password: String },
    /// `user setrole <jid> <role>`.
    UserSetRole { jid: String, role: String },
    /// `user create <jid> <password> <role>`.
    UserCreate { jid: String, password: String, role: String },
    /// `groups add_member <host> <group_id> <username>`, delaying the roster
    /// update.
    GroupsAddMember { host: String, group_id: String, username: String },
    /// `groups sync <host> <group_id>`.
    GroupsSync { host: String, group_id: String },
}

/// The commands that set a service account up: an account that exists gets
/// its password and role set; otherwise it is created with them.
pub fn account_setup_commands(jid: &BareJid, password: &str, exists: bool) -> (cmds: Vec<
    ProsodyctlCommand,
>)
    ensures
        exists ==> cmds@.len() == 2 && (cmds@[0] matches ProsodyctlCommand::UserPassword {
            jid: j,
            password: p,
        } && j@ == jid@ && p@ == password@) && (cmds@[1] matches ProsodyctlCommand::UserSetRole {
            jid: j,
            role: r,
        } && j@ == jid@ && r@ == SERVICE_ACCOUNT_ROLE@),
        !exists ==> cmds@.len() == 1 && (cmds@[0] matches ProsodyctlCommand::UserCreate {
            jid: j,
            password: p,
            role: r,
        } && j@ == jid@ && p@ == password@ && r@ == SERVICE_ACCOUNT_ROLE@),
{
    if exists {
        vec![
            ProsodyctlCommand::UserPassword { jid: jid.to_string(), password: password.to_owned() },
            ProsodyctlCommand::UserSetRole {
                jid: jid.to_string(),
                role: SERVICE_ACCOUNT_ROLE.to_owned(),
            },
        ]
    } else {
        vec![
            ProsodyctlCommand::UserCreate {
                jid: jid.to_string(),
                password: password.to_owned(),
                role: SERVICE_ACCOUNT_ROLE.to_owned(),
            },
        ]
    }
}

/// Every service account joins every group: for each account in turn, one
/// command per group, in order.
pub fn group_membership_commands(host: &str, usernames: &Vec<String>, group_ids: &Vec<String>) -> (cmds:
    Vec<ProsodyctlCommand>)
    requires
        usernames@.len() * group_ids@.len() <= usize::MAX,
    ensures
        cmds@.len() == usernames@.len() * group_ids@.len(),
        forall|u: int, g: int|
            0 <= u < usernames@.len() && 0 <= g < group_ids@.len() ==> (#[trigger] cmds@[u
                * group_ids@.len() + g] matches ProsodyctlCommand::GroupsAddMember {
                host: h,
                group_id: gid,
                username: name,
            } && h@ == host@ && gid@ == group_ids@[g]@ && name@ == usernames@[u]@),
{
    let n = group_ids.len();
    let mut cmds: Vec<ProsodyctlCommand> = Vec::new();
    let mut u: usize = 0;
    while u < usernames.len()
        invariant
            u <= usernames@.len(),
            n == group_ids@.len(),
            usernames@.len() * n <= usize::MAX,
            cmds@.len() == u * n,
            forall|a: int, g: int|
                0 <= a < u && 0 <= g < n ==> (#[trigger] cmds@[a * n + g] matches ProsodyctlCommand::GroupsAddMember {
                    host: h,
                    group_id: gid,
                    username: name,
                } && h@ == host@ && gid@ == group_ids@[g]@ && name@ == usernames@[a]@),
        decreases usernames@.len() - u,
    {
        proof {
            assert((u + 1) * n <= usernames@.len() * n) by (nonlinear_arith)
                requires
                    u + 1 <= usernames@.len(),
            ;
        }
        let mut g: usize = 0;
        while g < n
            invariant
                u < usernames@.len(),
                g <= n,
                n == group_ids@.len(),
                (u + 1) * n <= usize::MAX,
                cmds@.len() == u * n + g,
                forall|a: int, h: int|
                    0 <= a < u && 0 <= h < n ==> (#[trigger] cmds@[a * n + h] matches ProsodyctlCommand::GroupsAddMember {
                        host: hh,
                        group_id: gid,
                        username: name,
                    } && hh@ == host@ && gid@ == group_ids@[h]@ && name@ == usernames@[a]@),
                forall|h: int|
                    0 <= h < g ==> (#[trigger] cmds@[u * n + h] matches ProsodyctlCommand::GroupsAddMember {
                        host: hh,
                        group_id: gid,
                        username: name,
                    } && hh@ == host@ && gid@ == group_ids@[h]@ && name@ == usernames@[u as int]@),
            decreases n - g,
        {
            proof {
                assert(u * n + g < (u + 1) * n) by (nonlinear_arith)
                    requires
                        g < n,
                ;
            }
            let ghost before = cmds@;
            cmds.push(
                ProsodyctlCommand::GroupsAddMember {
                    host: host.to_owned(),
                    group_id: group_ids[g].clone(),
                    username: usernames[u].clone(),
                },
            );
            proof {
                assert forall|a: int, h: int| 0 <= a < u && 0 <= h < n implies #[trigger] cmds@[a * n + h]
                    == before[a * n + h] by {
                    assert(a * n + h < u * n) by (nonlinear_arith)
                        requires
                            a < u,
                            h < n,
                            0 <= a,
                            0 <= h,
                    ;
                }
            }
            g = g + 1;
        }
        proof {
            assert((u + 1) * n == u * n + n) by (nonlinear_arith);
            assert forall|a: int, h: int| 0 <= a < u + 1 && 0 <= h < n implies (#[trigger] cmds@[a * n + h] matches ProsodyctlCommand::GroupsAddMember {
                host: hh,
                group_id: gid,
                username: name,
            } && hh@ == host@ && gid@ == group_ids@[h]@ && name@ == usernames@[a]@) by {
                if a == u {
                    assert(cmds@[u * n + h] == cmds@[a * n + h]);
                }
            }
        }
        u = u + 1;
    }
    cmds
}

/// Rosters are synchronized group by group, so that every member is
/// subscribed to the others.
pub fn roster_sync_commands(host: &str, group_ids: &Vec<String>) -> (cmds: Vec<ProsodyctlCommand>)
    ensures
        cmds@.len() == group_ids@.len(),
        forall|g: int|
            0 <= g < group_ids@.len() ==> (#[trigger] cmds@[g] matches ProsodyctlCommand::GroupsSync {
                host: h,
                group_id: gid,
            } && h@ == host@ && gid@ == group_ids@[g]@),
{
    let mut cmds: Vec<ProsodyctlCommand> = Vec::new();
    let mut g: usize = 0;
    while g < group_ids.len()
        invariant
            g <= group_ids@.len(),
            cmds@.len() == g,
            forall|h: int|
                0 <= h < g ==> (#[trigger] cmds@[h] matches ProsodyctlCommand::GroupsSync {
                    host: hh,
                    group_id: gid,
                } && hh@ == host@ && gid@ == group_ids@[h]@),
        decreases group_ids@.len() - g,
    {
        cmds.push(ProsodyctlCommand::GroupsSync { host: host.to_owned(), group_id: group_ids[g].clone() });
        g = g + 1;
    }
    cmds
}

/// The OAuth 2.0 client that the server registers with Prosody.
#[derive(Debug)]
pub struct OAuth2ClientRegistration {
    pub client_name: String,
    pub client_uri: String,
    pub redirect_uris: Vec<String>,
    pub grant_types: Vec<String>,
}

/// The server registers as `Prose Pod Server API`, with the authorization
/// code, refresh token and password grants.
pub fn oauth2_client_registration() -> (c: OAuth2ClientRegistration)
    ensures
        c.client_name@ == "Prose Pod Server API"@,
        c.client_uri@ == "https://prose-pod-server:8080"@,
        c.redirect_uris@.len() == 1,
        c.redirect_uris@[0]@ == "https://prose-pod-server:8080/redirect"@,
        c.grant_types@.len() == 3,
        c.grant_types@[0]@ == "authorization_code"@,
        c.grant_types@[1]@ == "refresh_token"@,
        c.grant_types@[2]@ == "password"@,
{
    OAuth2ClientRegistration {
        client_name: "Prose Pod Server API".to_owned(),
        client_uri: "https://prose-pod-server:8080".to_owned(),
        redirect_uris: vec!["https://prose-pod-server:8080/redirect".to_owned()],
        grant_types: vec![
            "authorization_code".to_owned(),
            "refresh_token".to_owned(),
            "password".to_owned(),
        ],
    }
}

} // verus!
