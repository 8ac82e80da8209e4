use prose_pod_server::app_config::{
    AppConfig, AuthConfig, DashboardConfig, EnabledConfig, Groups, IpAddress, LogConfig,
    LogFormat, LogLevel, LogTimer, OpenTelemetryConfig, PodAddress, PoliciesConfig, ProxyConfig,
    ServerApiConfig, ServerConfig, ServiceAccountsConfig, TeamsConfig, UserLangConfig,
    UserPlatformConfig, VendorAnalyticsAcquisitionConfig, VendorAnalyticsConfig,
    VendorAnalyticsUsageConfig, SERVER_DOMAIN_CHANGE_ERROR,
};
use prose_pod_server::defaults::default_config_static;
use prose_pod_server::jid::JidDomain;
use prose_pod_server::json::{JsonNumber, JsonValue};
use prose_pod_server::presets::{
    analytics_presets_to_apply, apply_analytics_preset, dynamic_defaults, preset_entries,
    Inherits, PresetEntry,
};

fn preset(name: &str, inherits: Option<&str>) -> PresetEntry {
    PresetEntry {
        name: name.to_owned(),
        inherits: match inherits {
            Some(parent) => Inherits::Name(parent.to_owned()),
            None => Inherits::Absent,
        },
    }
}

/// The presets that the default configuration defines.
fn default_presets() -> Vec<PresetEntry> {
    vec![
        preset("all", None),
        preset("default", Some("all")),
        preset("gdpr", Some("default")),
        preset("lgpd", Some("gdpr")),
    ]
}

fn log_config() -> LogConfig {
    LogConfig {
        level: LogLevel::Info,
        format: LogFormat::Json,
        timer: LogTimer::Time,
        with_file: false,
        with_target: true,
        with_thread_ids: false,
        with_line_number: false,
        with_span_events: false,
        with_thread_names: false,
        opentelemetry: OpenTelemetryConfig { enabled: false },
    }
}

fn app_config(domain: &str) -> AppConfig {
    AppConfig {
        auth: AuthConfig {
            token_ttl: std::time::Duration::from_secs(3 * 3600),
            oauth2_registration_key: "key".to_owned(),
        },
        dashboard: DashboardConfig { url: format!("https://admin.prose.{domain}") },
        log: log_config(),
        policies: PoliciesConfig { auto_update_enabled: None },
        proxy: ProxyConfig {
            cloud_api_url: "https://prose.org/_api/cloud".to_owned(),
            prose_files_url: "https://files.prose.org".to_owned(),
        },
        server: ServerConfig {
            domain: JidDomain::from_str(domain).unwrap(),
            local_hostname: "prose-pod-server".to_owned(),
            http_port: 5280,
            log_level: LogLevel::Info,
        },
        server_api: ServerApiConfig { address: IpAddress::V4(0, 0, 0, 0), port: 8080 },
        service_accounts: ServiceAccountsConfig::default(),
        teams: TeamsConfig::default(),
        vendor_analytics: VendorAnalyticsConfig {
            enabled: true,
            preset: "default".to_owned(),
            min_cohort_size: None,
            usage: VendorAnalyticsUsageConfig {
                enabled: true,
                meta_user_count: EnabledConfig { enabled: true },
                pod_version: EnabledConfig { enabled: true },
                user_app_version: EnabledConfig { enabled: true },
                user_lang: UserLangConfig { enabled: true, max_locales: None },
                user_platform: UserPlatformConfig {
                    enabled: true,
                    allow_list: None,
                    deny_list: None,
                },
            },
            acquisition: VendorAnalyticsAcquisitionConfig {
                enabled: true,
                pod_domain: EnabledConfig { enabled: false },
            },
        },
    }
}

fn get<'a>(v: &'a JsonValue, path: &[&str]) -> Option<&'a JsonValue> {
    let mut cur = v;
    for key in path {
        match cur {
            JsonValue::Object(entries) => {
                cur = &entries.iter().find(|(k, _)| k == key)?.1;
            }
            _ => return None,
        }
    }
    Some(cur)
}

#[test]
fn test_error_on_unknown_analytics_preset() {
    let res1 = apply_analytics_preset("custom", default_presets());

    assert_eq!(
        res1.err().map(|e| e.to_string()),
        Some(r#"Invalid 'prose.toml' configuration file: Invalid preset 'custom'. Expected one of: ["all", "default", "gdpr", "lgpd"]"#.to_owned())
    );

    let mut presets = default_presets();
    presets.push(preset("custom3", Some("custom2")));
    presets.push(preset("custom2", Some("custom")));
    let res1 = apply_analytics_preset("custom3", presets);

    assert_eq!(
        res1.err().map(|e| e.to_string()),
        Some(r#"Invalid 'prose.toml' configuration file: Invalid preset 'custom' inherited by 'custom3 -> custom2'. Expected one of: ["all", "default", "gdpr", "lgpd"] (removing cyclic references)"#.to_owned())
    );
}

#[test]
fn preset_chains_follow_inheritance() {
    assert_eq!(
        apply_analytics_preset("lgpd", default_presets()).unwrap(),
        vec!["lgpd", "gdpr", "default", "all"]
    );
    assert_eq!(apply_analytics_preset("all", default_presets()).unwrap(), vec!["all"]);
    let mut presets = default_presets();
    presets.push(preset("custom2", Some("custom1")));
    presets.push(preset("custom1", None));
    assert_eq!(apply_analytics_preset("custom2", presets).unwrap(), vec!["custom2", "custom1"]);
}

#[test]
fn preset_cycles_are_errors() {
    let presets = vec![preset("a", Some("b")), preset("b", Some("a"))];
    assert_eq!(
        apply_analytics_preset("a", presets).unwrap_err().message,
        r#"Invalid preset 'a' inherited by 'a -> b'. Expected one of: [] (removing cyclic references)"#
    );
}

#[test]
fn preset_inherits_must_be_a_string() {
    let presets = vec![PresetEntry { name: "x".to_owned(), inherits: Inherits::NotAString }];
    assert_eq!(
        apply_analytics_preset("x", presets).unwrap_err().message,
        "Invalid preset 'x'. `inherits` should be a string."
    );
}

#[test]
fn default_configuration_defines_the_presets() {
    let defaults = default_config_static(false, "random-key");
    let presets = get(&defaults, &["vendor_analytics", "presets"]).unwrap();
    assert_eq!(preset_entries(presets), default_presets());
    assert_eq!(
        get(&defaults, &["vendor_analytics", "preset"]),
        Some(&JsonValue::String("default".to_owned()))
    );
    assert_eq!(
        get(&defaults, &["vendor_analytics", "presets", "gdpr", "min_cohort_size"]),
        Some(&JsonValue::Number(JsonNumber::PosInt(20)))
    );
    assert_eq!(
        get(&defaults, &["vendor_analytics", "presets", "default", "acquisition", "pod_domain", "enabled"]),
        Some(&JsonValue::Bool(false))
    );
}

#[test]
fn default_configuration_depends_on_the_build() {
    let release = default_config_static(false, "k1");
    let debug = default_config_static(true, "k2");
    assert_eq!(get(&release, &["log", "format"]), Some(&JsonValue::String("json".to_owned())));
    assert_eq!(get(&debug, &["log", "format"]), Some(&JsonValue::String("pretty".to_owned())));
    assert_eq!(get(&release, &["log", "timer"]), Some(&JsonValue::String("time".to_owned())));
    assert_eq!(get(&debug, &["log", "timer"]), Some(&JsonValue::String("uptime".to_owned())));
    assert_eq!(get(&debug, &["log", "opentelemetry", "enabled"]), Some(&JsonValue::Bool(true)));
    assert_eq!(
        get(&debug, &["auth", "oauth2_registration_key"]),
        Some(&JsonValue::String("k2".to_owned()))
    );
    assert_eq!(
        get(&release, &["server", "http_port"]),
        Some(&JsonValue::Number(JsonNumber::PosInt(5280)))
    );
    assert_eq!(
        get(&release, &["service_accounts", "prose_workspace", "xmpp_node"]),
        Some(&JsonValue::String("prose-workspace".to_owned()))
    );
}

#[test]
fn presets_are_read_only_if_all_are_tables() {
    let presets = JsonValue::Object(vec![
        ("a".to_owned(), JsonValue::Object(vec![])),
        ("b".to_owned(), JsonValue::Bool(true)),
    ]);
    assert_eq!(preset_entries(&presets), vec![]);
    let presets = JsonValue::Object(vec![(
        "a".to_owned(),
        JsonValue::Object(vec![("inherits".to_owned(), JsonValue::Bool(true))]),
    )]);
    assert_eq!(
        preset_entries(&presets),
        vec![PresetEntry { name: "a".to_owned(), inherits: Inherits::NotAString }]
    );
}

#[test]
fn presets_applied_are_the_selected_then_default() {
    assert_eq!(analytics_presets_to_apply(Some("gdpr")), vec!["gdpr", "default"]);
    assert_eq!(analytics_presets_to_apply(None), vec!["default"]);
}

#[test]
fn dynamic_defaults_without_static_address() {
    let d = dynamic_defaults("example.org", &PodAddress::default());
    assert_eq!(d.pod_address_domain.as_deref(), Some("prose.example.org"));
    assert_eq!(d.dashboard_url.as_deref(), Some("https://admin.prose.example.org"));

    let named = PodAddress { domain: Some("pod.example.net".to_owned()), ipv4: None, ipv6: None };
    let d = dynamic_defaults("example.org", &named);
    assert_eq!(d.dashboard_url.as_deref(), Some("https://admin.pod.example.net"));

    let static_ip = PodAddress { domain: None, ipv4: Some("10.0.0.1".to_owned()), ipv6: None };
    let d = dynamic_defaults("example.org", &static_ip);
    assert_eq!(d.pod_address_domain, None);
    assert_eq!(d.dashboard_url, None);
}

#[test]
fn log_names_round_trip() {
    for level in [LogLevel::Trace, LogLevel::Debug, LogLevel::Info, LogLevel::Warn, LogLevel::Error] {
        assert_eq!(LogLevel::from_str(level.as_str()), Ok(level));
    }
    for format in [LogFormat::Full, LogFormat::Compact, LogFormat::Json, LogFormat::Pretty] {
        assert_eq!(LogFormat::from_str(format.as_str()), Ok(format));
    }
    for timer in [LogTimer::Off, LogTimer::Time, LogTimer::Uptime] {
        assert_eq!(LogTimer::from_str(timer.as_str()), Ok(timer));
    }
    assert_eq!(LogTimer::Off.as_str(), "none");
    assert!(LogLevel::from_str("verbose").is_err());
}

#[test]
fn server_domain_cannot_change_at_runtime() {
    let old = app_config("example.org");
    let new = app_config("example.net");
    assert_eq!(AppConfig::validate_config_changes(&old, &new), Err(SERVER_DOMAIN_CHANGE_ERROR));
}

#[test]
fn static_changes_are_accepted_with_warnings() {
    let old = app_config("example.org");
    let same = app_config("example.org");
    let w = AppConfig::validate_config_changes(&old, &same).unwrap();
    assert!(!w.server_api_address_changed);
    assert!(!w.static_log_config_changed);

    let mut new = app_config("example.org");
    new.server_api.port = 8081;
    new.log.level = LogLevel::Debug;
    let w = AppConfig::validate_config_changes(&old, &new).unwrap();
    assert!(w.server_api_address_changed);
    assert!(!w.static_log_config_changed);

    let mut new = app_config("example.org");
    new.log.format = LogFormat::Pretty;
    let w = AppConfig::validate_config_changes(&old, &new).unwrap();
    assert!(!w.server_api_address_changed);
    assert!(w.static_log_config_changed);
}

#[test]
fn config_derived_values() {
    let config = app_config("example.org");
    assert_eq!(config.workspace_jid().as_str(), "prose-workspace@example.org");
    assert_eq!(config.server.http_url(), "http://prose-pod-server:5280");
    assert_eq!(config.dashboard_url(), "https://admin.prose.example.org");
    let groups = Groups::new(&config.teams);
    assert_eq!(groups.0.len(), 1);
    assert_eq!(groups.0[0].0, "team");
    assert_eq!(groups.0[0].1.name, "Team");
    let address = config.server_api.address();
    assert_eq!(address.ip, IpAddress::V4(0, 0, 0, 0));
    assert_eq!(address.port, 8080);
}

#[test]
fn unknown_preset_lists_the_presets_sorted() {
    let presets = vec![
        preset("lgpd", Some("gdpr")),
        preset("all", None),
        preset("gdpr", Some("default")),
        preset("default", Some("all")),
    ];
    assert_eq!(
        apply_analytics_preset("nope", presets).unwrap_err().message,
        r#"Invalid preset 'nope'. Expected one of: ["all", "default", "gdpr", "lgpd"]"#
    );
}
