use vstd::prelude::*;

use crate::jid::{jid_of, BareJid, JidDomain, JidNode};
use crate::text::{decimal, push_decimal, push_str};

verus! {

/// `{ enabled = … }`.
#[derive(Debug, Clone, PartialEq, Eq)]
pub struct EnabledConfig {
    pub enabled: bool,
}

/// `vendor_analytics.usage.user_lang`.
#[derive(Debug, Clone, PartialEq, Eq)]
pub struct UserLangConfig {
    pub enabled: bool,
    pub max_locales: Option<usize>,
}

/// `vendor_analytics.usage.user_platform`. The lists are sets: order and
/// repetitions do not matter.
#[derive(Debug, Clone, PartialEq, Eq)]
pub struct UserPlatformConfig {
    pub enabled: bool,
    pub allow_list: Option<Vec<String>>,
    pub deny_list: Option<Vec<String>>,
}

/// `vendor_analytics.usage`.
#[derive(Debug, Clone, PartialEq, Eq)]
pub struct VendorAnalyticsUsageConfig {
    pub enabled: bool,
    pub meta_user_count: EnabledConfig,
    pub pod_version: EnabledConfig,
    pub user_app_version: EnabledConfig,
    pub user_lang: UserLangConfig,
    pub user_platform: UserPlatformConfig,
}

/// `vendor_analytics.acquisition`.
#[derive(Debug, Clone, PartialEq, Eq)]
pub struct VendorAnalyticsAcquisitionConfig {
    pub enabled: bool,
    pub pod_domain: EnabledConfig,
}

/// `vendor_analytics`: what the Pod may send to the vendor's analytics.
#[derive(Debug, Clone, PartialEq, Eq)]
pub struct VendorAnalyticsConfig {
    pub enabled: bool,
    /// Name of the preset that was applied. The presets themselves are
    /// resolved while loading the configuration and are not kept.
    pub preset: String,
    pub min_cohort_size: Option<u8>,
    pub usage: VendorAnalyticsUsageConfig,
    pub acquisition: VendorAnalyticsAcquisitionConfig,
}

/// Whether `list` holds the string `s`.
pub open spec fn list_contains(list: Seq<String>, s: Seq<char>) -> bool {
    exists|i: int| 0 <= i < list.len() && list[i]@ == s
}

/// Whether `list` holds `s`.
pub fn list_contains_str(list: &Vec<String>, s: &String) -> (b: bool)
    ensures
        b == list_contains(list@, s@),
{
    let mut i: usize = 0;
    while i < list.len()
        invariant
            i <= list.len(),
            forall|j: int| 0 <= j < i ==> list@[j]@ != s@,
        decreases list.len() - i,
    {
        if list[i] == *s {
            return true;
        }
        i = i + 1;
    }
    false
}


/// Name of the configuration file.
pub const CONFIG_FILE_NAME: &'static str = "prose.toml";
/// Directory of the configuration file.
pub const API_CONFIG_DIR: &'static str = "/etc/prose";

pub const SERVER_HTTP_PORT: u16 = 5280;
pub const SERVER_API_PORT: u16 = 8080;
pub const SERVER_LOCAL_HOSTNAME: &'static str = "prose-pod-server";
pub const MAIN_TEAM_GROUP_ID: &'static str = "team";
pub const DEFAULT_MAIN_TEAM_NAME: &'static str = "Team";

/// The configuration file could not be used; the message says why.
#[derive(Debug, Clone, PartialEq, Eq)]
pub struct InvalidConfiguration {
    pub message: String,
}

impl InvalidConfiguration {
    /// What the error displays as: `Invalid 'prose.toml' configuration file: {message}`.
    pub fn to_string(&self) -> (s: String)
        ensures
            s@ == "Invalid 'prose.toml' configuration file: "@ + self.message@,
    {
        let mut s = "Invalid 'prose.toml' configuration file: ".to_owned();
        push_str(&mut s, self.message.as_str());
        s
    }
}

/// Log verbosity.
#[derive(Debug, Clone, Copy, PartialEq, Eq, Structural)]
pub enum LogLevel {
    Trace,
    Debug,
    Info,
    Warn,
    Error,
}

/// Log output format.
#[derive(Debug, Clone, Copy, PartialEq, Eq, Structural)]
pub enum LogFormat {
    Full,
    Compact,
    Json,
    Pretty,
}

/// What timestamps log lines carry.
#[derive(Debug, Clone, Copy, PartialEq, Eq, Structural)]
pub enum LogTimer {
    Off,
    Time,
    Uptime,
}

/// A string that names no variant of the enum it was parsed as.
#[derive(Debug, Clone, Copy, PartialEq, Eq, Structural)]
pub struct VariantNotFound;

pub open spec fn log_level_name(l: LogLevel) -> Seq<char> {
    match l {
        LogLevel::Trace => "trace"@,
        LogLevel::Debug => "debug"@,
        LogLevel::Info => "info"@,
        LogLevel::Warn => "warn"@,
        LogLevel::Error => "error"@,
    }
}

pub open spec fn log_format_name(f: LogFormat) -> Seq<char> {
    match f {
        LogFormat::Full => "full"@,
        LogFormat::Compact => "compact"@,
        LogFormat::Json => "json"@,
        LogFormat::Pretty => "pretty"@,
    }
}

pub open spec fn log_timer_name(t: LogTimer) -> Seq<char> {
    match t {
        LogTimer::Off => "none"@,
        LogTimer::Time => "time"@,
        LogTimer::Uptime => "uptime"@,
    }
}

/// Whether two strings are equal.
pub fn str_eq(a: &str, b: &str) -> (r: bool)
    ensures
        r == (a@ == b@),
{
    a.to_owned() == b.to_owned()
}

impl LogLevel {
    /// The snake_case name.
    pub fn as_str(&self) -> (s: &'static str)
        ensures
            s@ == log_level_name(*self),
    {
        match self {
            LogLevel::Trace => "trace",
            LogLevel::Debug => "debug",
            LogLevel::Info => "info",
            LogLevel::Warn => "warn",
            LogLevel::Error => "error",
        }
    }

    /// Parses a snake_case name.
    pub fn from_str(s: &str) -> (r: Result<LogLevel, VariantNotFound>)
        ensures
            match r {
                Ok(l) => log_level_name(l) == s@,
                Err(_) => forall|l: LogLevel| log_level_name(l) != s@,
            },
    {
        if str_eq(s, "trace") {
            Ok(LogLevel::Trace)
        } else if str_eq(s, "debug") {
            Ok(LogLevel::Debug)
        } else if str_eq(s, "info") {
            Ok(LogLevel::Info)
        } else if str_eq(s, "warn") {
            Ok(LogLevel::Warn)
        } else if str_eq(s, "error") {
            Ok(LogLevel::Error)
        } else {
            Err(VariantNotFound)
        }
    }
}

impl LogFormat {
    /// The snake_case name.
    pub fn as_str(&self) -> (s: &'static str)
        ensures
            s@ == log_format_name(*self),
    {
        match self {
            LogFormat::Full => "full",
            LogFormat::Compact => "compact",
            LogFormat::Json => "json",
            LogFormat::Pretty => "pretty",
        }
    }

    /// Parses a snake_case name.
    pub fn from_str(s: &str) -> (r: Result<LogFormat, VariantNotFound>)
        ensures
            match r {
                Ok(f) => log_format_name(f) == s@,
                Err(_) => forall|f: LogFormat| log_format_name(f) != s@,
            },
    {
        if str_eq(s, "full") {
            Ok(LogFormat::Full)
        } else if str_eq(s, "compact") {
            Ok(LogFormat::Compact)
        } else if str_eq(s, "json") {
            Ok(LogFormat::Json)
        } else if str_eq(s, "pretty") {
            Ok(LogFormat::Pretty)
        } else {
            Err(VariantNotFound)
        }
    }
}

impl LogTimer {
    /// The snake_case name.
    pub fn as_str(&self) -> (s: &'static str)
        ensures
            s@ == log_timer_name(*self),
    {
        match self {
            LogTimer::Off => "none",
            LogTimer::Time => "time",
            LogTimer::Uptime => "uptime",
        }
    }

    /// Parses a snake_case name.
    pub fn from_str(s: &str) -> (r: Result<LogTimer, VariantNotFound>)
        ensures
            match r {
                Ok(t) => log_timer_name(t) == s@,
                Err(_) => forall|t: LogTimer| log_timer_name(t) != s@,
            },
    {
        if str_eq(s, "none") {
            Ok(LogTimer::Off)
        } else if str_eq(s, "time") {
            Ok(LogTimer::Time)
        } else if str_eq(s, "uptime") {
            Ok(LogTimer::Uptime)
        } else {
            Err(VariantNotFound)
        }
    }
}

/// Parsing the name of a log level gives the level back, and distinct
/// levels have distinct names (likewise for formats and timers).
pub proof fn law_log_names_round_trip()
    ensures
        forall|a: LogLevel, b: LogLevel| log_level_name(a) == log_level_name(b) ==> a == b,
        forall|a: LogFormat, b: LogFormat| log_format_name(a) == log_format_name(b) ==> a == b,
        forall|a: LogTimer, b: LogTimer| log_timer_name(a) == log_timer_name(b) ==> a == b,
{
    reveal_strlit("trace");
    reveal_strlit("debug");
    reveal_strlit("info");
    reveal_strlit("warn");
    reveal_strlit("error");
    reveal_strlit("full");
    reveal_strlit("compact");
    reveal_strlit("json");
    reveal_strlit("pretty");
    reveal_strlit("none");
    reveal_strlit("time");
    reveal_strlit("uptime");
    assert forall|a: LogLevel, b: LogLevel| log_level_name(a) == log_level_name(b) implies a == b by {
        assert(log_level_name(a)[0] == log_level_name(b)[0]);
    }
    assert forall|a: LogFormat, b: LogFormat| log_format_name(a) == log_format_name(b) implies a == b by {
        assert(log_format_name(a)[0] == log_format_name(b)[0]);
    }
    assert forall|a: LogTimer, b: LogTimer| log_timer_name(a) == log_timer_name(b) implies a == b by {
        assert(log_timer_name(a)[0] == log_timer_name(b)[0]);
    }
}

/// `log.opentelemetry`.
#[derive(Debug, Clone, PartialEq, Eq)]
pub struct OpenTelemetryConfig {
    pub enabled: bool,
}

/// `log`.
#[derive(Debug, Clone, PartialEq, Eq)]
pub struct LogConfig {
    pub level: LogLevel,
    pub format: LogFormat,
    pub timer: LogTimer,
    pub with_file: bool,
    pub with_target: bool,
    pub with_thread_ids: bool,
    pub with_line_number: bool,
    pub with_span_events: bool,
    pub with_thread_names: bool,
    pub opentelemetry: OpenTelemetryConfig,
}

/// The logging keys that need a restart to change: all but the level.
pub open spec fn static_log_config_eq(a: LogConfig, b: LogConfig) -> bool {
    &&& a.format == b.format
    &&& a.timer == b.timer
    &&& a.with_file == b.with_file
    &&& a.with_target == b.with_target
    &&& a.with_thread_ids == b.with_thread_ids
    &&& a.with_line_number == b.with_line_number
    &&& a.with_span_events == b.with_span_events
    &&& a.with_thread_names == b.with_thread_names
    &&& a.opentelemetry.enabled == b.opentelemetry.enabled
}

/// `policies`. Optional values, to tell apart what the user chose.
#[derive(Debug, Clone, PartialEq, Eq)]
pub struct PoliciesConfig {
    pub auto_update_enabled: Option<bool>,
}

/// `server`.
#[derive(Debug, Clone)]
pub struct ServerConfig {
    pub domain: JidDomain,
    pub local_hostname: String,
    pub http_port: u16,
    pub log_level: LogLevel,
}

impl ServerConfig {
    /// `http://{local_hostname}:{http_port}`.
    pub fn http_url(&self) -> (s: String)
        ensures
            s@ == "http://"@ + self.local_hostname@ + ":"@ + decimal(self.http_port as nat),
    {
        let mut s = "http://".to_owned();
        push_str(&mut s, self.local_hostname.as_str());
        push_str(&mut s, ":");
        push_decimal(&mut s, self.http_port as u64);
        s
    }
}

/// An IP address.
#[derive(Debug, Clone, Copy, PartialEq, Eq, Structural)]
pub enum IpAddress {
    V4(u8, u8, u8, u8),
    V6(u16, u16, u16, u16, u16, u16, u16, u16),
}

/// An IP address and a port.
#[derive(Debug, Clone, Copy, PartialEq, Eq, Structural)]
pub struct SocketAddress {
    pub ip: IpAddress,
    pub port: u16,
}

/// `server_api`: where the API serves.
#[derive(Debug, Clone, PartialEq, Eq)]
pub struct ServerApiConfig {
    /// IP address to serve on.
    pub address: IpAddress,
    /// Port to serve on.
    pub port: u16,
}

impl ServerApiConfig {
    /// The socket address to serve on.
    pub fn address(&self) -> (a: SocketAddress)
        ensures
            a.ip == self.address,
            a.port == self.port,
    {
        SocketAddress { ip: self.address, port: self.port }
    }
}

/// `teams`.
#[derive(Debug, Clone, PartialEq, Eq)]
pub struct TeamsConfig {
    pub main_team_name: String,
}

impl TeamsConfig {
    /// The main team is named `Team` by default.
    pub fn default() -> (c: TeamsConfig)
        ensures
            c.main_team_name@ == DEFAULT_MAIN_TEAM_NAME@,
    {
        TeamsConfig { main_team_name: DEFAULT_MAIN_TEAM_NAME.to_owned() }
    }
}

/// `pod.address`.
#[derive(Debug, Clone, Default, PartialEq, Eq)]
pub struct PodAddress {
    pub domain: Option<String>,
    pub ipv4: Option<String>,
    pub ipv6: Option<String>,
}

/// A service account of the Pod.
#[derive(Debug, Clone)]
pub struct ServiceAccountConfig {
    pub xmpp_node: JidNode,
    pub password: Option<String>,
}

/// `service_accounts`.
#[derive(Debug, Clone)]
pub struct ServiceAccountsConfig {
    pub prose_workspace: ServiceAccountConfig,
}

pub const PROSE_WORKSPACE_USERNAME: &'static str = "prose-workspace";

impl ServiceAccountsConfig {
    /// The JID of the Workspace service account on `server_domain`.
    pub fn prose_workspace_jid(&self, server_domain: &JidDomain) -> (j: BareJid)
        ensures
            j@ == jid_of(self.prose_workspace.xmpp_node@, server_domain@),
    {
        BareJid::new(&self.prose_workspace.xmpp_node, server_domain)
    }

    /// The Workspace account is `prose-workspace`, with no password set.
    pub fn default() -> (c: ServiceAccountsConfig)
        ensures
            c.prose_workspace.xmpp_node@ == PROSE_WORKSPACE_USERNAME@,
            c.prose_workspace.password is None,
    {
        proof {
            reveal_strlit("prose-workspace");
        }
        let node = match JidNode::from_str(PROSE_WORKSPACE_USERNAME) {
            Ok(n) => n,
            // `PROSE_WORKSPACE_USERNAME` holds neither `@` nor `/`.
            Err(_) => vstd::pervasive::unreached(),
        };
        ServiceAccountsConfig {
            prose_workspace: ServiceAccountConfig { xmpp_node: node, password: None },
        }
    }
}


/// `auth`.
#[derive(Debug)]
pub struct AuthConfig {
    pub token_ttl: std::time::Duration,
    pub oauth2_registration_key: String,
}

/// `dashboard`.
#[derive(Debug, Clone, PartialEq, Eq)]
pub struct DashboardConfig {
    pub url: String,
}

/// `proxy`.
#[derive(Debug, Clone, PartialEq, Eq)]
pub struct ProxyConfig {
    pub cloud_api_url: String,
    pub prose_files_url: String,
}

/// The Prose Pod Server configuration (`prose.toml`).
#[derive(Debug)]
pub struct AppConfig {
    pub auth: AuthConfig,
    pub dashboard: DashboardConfig,
    pub log: LogConfig,
    pub policies: PoliciesConfig,
    pub proxy: ProxyConfig,
    pub server: ServerConfig,
    pub server_api: ServerApiConfig,
    pub service_accounts: ServiceAccountsConfig,
    pub teams: TeamsConfig,
    pub vendor_analytics: VendorAnalyticsConfig,
}

/// What a configuration reload changes that only takes effect after a
/// restart.
#[derive(Debug, Clone, Copy, PartialEq, Eq)]
pub struct ConfigChangeWarnings {
    /// The API address or port changed.
    pub server_api_address_changed: bool,
    /// A logging key other than the level changed.
    pub static_log_config_changed: bool,
}

/// Why a configuration cannot be applied at runtime.
pub const SERVER_DOMAIN_CHANGE_ERROR: &'static str = "Once set, the server domain cannot be changed. Such migrations are planned, but are not a priority. If that’s a feature you need, contact us at <https://prose.org/contact/>. Until then, you need to perform a factory reset or host a second Prose instance if you want to use another domain.";

/// Logged when the API address changes at runtime.
pub const SERVER_API_ADDRESS_CHANGE_WARNING: &'static str = "The Prose Pod Server API address cannot be changed at runtime. You need to restart the Prose Pod Server for this change to be effective. If you need no-downtime restarts, contact us at <https://prose.org/contact/>.";

/// Logged when a static logging key changes at runtime.
pub const STATIC_LOG_CONFIG_CHANGE_WARNING: &'static str = "For technical reasons, logging configuration keys related to formatting (`format`, `timer`, `with_file`, `with_target`, `with_thread_ids`, `with_line_number`, `with_span_events`, `with_thread_names`, `opentelemetry.enabled`) need a restart to be applied. You need to restart the Prose Pod Server for this change to be effective. If this bothers you, feel free to contact us at <https://prose.org/contact/>.";

impl AppConfig {
    /// The JID of the Workspace service account.
    pub fn workspace_jid(&self) -> (j: BareJid)
        ensures
            j@ == jid_of(self.service_accounts.prose_workspace.xmpp_node@, self.server.domain@),
    {
        self.service_accounts.prose_workspace_jid(&self.server.domain)
    }

    /// The Dashboard URL.
    pub fn dashboard_url(&self) -> (u: &String)
        ensures
            u@ == self.dashboard.url@,
    {
        &self.dashboard.url
    }

    /// When reloading the configuration at runtime, tells whether the
    /// changes can be applied: the server domain cannot change. Other
    /// changes are accepted, some of them with a warning that they need a
    /// restart.
    pub fn validate_config_changes(old_config: &AppConfig, new_config: &AppConfig) -> (r: Result<
        ConfigChangeWarnings,
        &'static str,
    >)
        ensures
            new_config.server.domain@ != old_config.server.domain@ ==> r == Err::<
                ConfigChangeWarnings,
                &'static str,
            >(SERVER_DOMAIN_CHANGE_ERROR),
            new_config.server.domain@ == old_config.server.domain@ ==> r == Ok::<
                ConfigChangeWarnings,
                &'static str,
            >(
                ConfigChangeWarnings {
                    server_api_address_changed: new_config.server_api.address != old_config.server_api.address
                        || new_config.server_api.port != old_config.server_api.port,
                    static_log_config_changed: !static_log_config_eq(new_config.log, old_config.log),
                },
            ),
    {
        if !str_eq(new_config.server.domain.as_str(), old_config.server.domain.as_str()) {
            return Err(SERVER_DOMAIN_CHANGE_ERROR);
        }
        let server_api_address_changed = new_config.server_api.address() != old_config.server_api.address();
        let (n, o) = (&new_config.log, &old_config.log);
        let static_log_config_changed = !(n.format == o.format && n.timer == o.timer
            && n.with_file == o.with_file && n.with_target == o.with_target
            && n.with_thread_ids == o.with_thread_ids && n.with_line_number == o.with_line_number
            && n.with_span_events == o.with_span_events
            && n.with_thread_names == o.with_thread_names
            && n.opentelemetry.enabled == o.opentelemetry.enabled);
        Ok(ConfigChangeWarnings { server_api_address_changed, static_log_config_changed })
    }
}

/// Information about a group of users.
#[derive(Debug, Clone, PartialEq, Eq)]
pub struct GroupInfo {
    pub name: String,
}

/// The groups every Pod has, by group ID.
#[derive(Debug, Clone)]
pub struct Groups(pub Vec<(String, GroupInfo)>);

impl Groups {
    /// Only the main team for now: group `team`, named as configured.
    pub fn new(config: &TeamsConfig) -> (g: Groups)
        ensures
            g.0@.len() == 1,
            g.0@[0].0@ == MAIN_TEAM_GROUP_ID@,
            g.0@[0].1.name@ == config.main_team_name@,
    {
        let mut data: Vec<(String, GroupInfo)> = Vec::new();
        data.push((MAIN_TEAM_GROUP_ID.to_owned(), GroupInfo { name: config.main_team_name.clone() }));
        Groups(data)
    }
}

/// Changing any logging key but the level needs a restart, and is flagged:
/// the format, the timer, the file, target, thread IDs, line number, span
/// events and thread names flags, and whether OpenTelemetry is enabled.
/// Changing only the level needs none.
pub proof fn law_static_log_changes_are_flagged(a: LogConfig, b: LogConfig)
    ensures
        a.format != b.format ==> !static_log_config_eq(a, b),
        a.timer != b.timer ==> !static_log_config_eq(a, b),
        a.with_file != b.with_file ==> !static_log_config_eq(a, b),
        a.with_target != b.with_target ==> !static_log_config_eq(a, b),
        a.with_thread_ids != b.with_thread_ids ==> !static_log_config_eq(a, b),
        a.with_line_number != b.with_line_number ==> !static_log_config_eq(a, b),
        a.with_span_events != b.with_span_events ==> !static_log_config_eq(a, b),
        a.with_thread_names != b.with_thread_names ==> !static_log_config_eq(a, b),
        a.opentelemetry.enabled != b.opentelemetry.enabled ==> !static_log_config_eq(a, b),
        static_log_config_eq(a, LogConfig { level: b.level, ..a }),
        static_log_config_eq(a, b) == static_log_config_eq(b, a),
{
}

} // verus!
