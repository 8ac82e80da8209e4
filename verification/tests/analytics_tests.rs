use prose_pod_server::analytics::{anonymize, process_event, process_event_checked, user_count_range};
use prose_pod_server::app_config::{
    EnabledConfig, UserLangConfig, UserPlatformConfig, VendorAnalyticsAcquisitionConfig,
    VendorAnalyticsConfig, VendorAnalyticsUsageConfig,
};
use prose_pod_server::json::{JsonNumber, JsonValue};

use sha2::{Digest, Sha256};
use std::io::Write as _;

fn obj(entries: Vec<(&str, JsonValue)>) -> JsonValue {
    JsonValue::Object(entries.into_iter().map(|(k, v)| (k.to_owned(), v)).collect())
}

fn s(v: &str) -> JsonValue {
    JsonValue::String(v.to_owned())
}

fn get<'a>(v: &'a JsonValue, path: &[&str]) -> Option<&'a JsonValue> {
    let mut cur = v;
    for key in path {
        match cur {
            JsonValue::Object(entries) => {
                cur = &entries.iter().find(|(k, _)| k == key)?.1;
            }
            _ => return None,
        }
    }
    Some(cur)
}

fn get_str<'a>(v: &'a JsonValue, path: &[&str]) -> Option<&'a str> {
    match get(v, path) {
        Some(JsonValue::String(s)) => Some(s.as_str()),
        _ => None,
    }
}

fn default_analytics_config() -> VendorAnalyticsConfig {
    VendorAnalyticsConfig {
        enabled: true,
        preset: "default".to_owned(),
        min_cohort_size: None,
        usage: VendorAnalyticsUsageConfig {
            enabled: true,
            meta_user_count: EnabledConfig { enabled: true },
            pod_version: EnabledConfig { enabled: true },
            user_app_version: EnabledConfig { enabled: true },
            user_lang: UserLangConfig { enabled: true, max_locales: None },
            user_platform: UserPlatformConfig { enabled: true, allow_list: None, deny_list: None },
        },
        acquisition: VendorAnalyticsAcquisitionConfig {
            enabled: true,
            pod_domain: EnabledConfig { enabled: false },
        },
    }
}

fn sample_event() -> JsonValue {
    obj(vec![
        ("event", s("app_open")),
        (
            "origin",
            obj(vec![
                ("name", s("prose-app-web")),
                ("version", s("1.2.3")),
                (
                    "app",
                    obj(vec![
                        ("version", s("1.2.3")),
                        ("platform", s("macos")),
                        (
                            "user_preferred_locales",
                            JsonValue::Array(vec![s("en"), s("fr"), s("de")]),
                        ),
                    ]),
                ),
                ("pod", obj(vec![("version", s("0.9.0")), ("user_hash", s("d1c2e691c1a0f256"))])),
            ]),
        ),
    ])
}

fn is_lower_hex(s: &str) -> bool {
    s.len() % 2 == 0 && s.bytes().all(|b| matches!(b, b'0'..=b'9' | b'a'..=b'f'))
}

#[test]
fn test_user_count_range() {
    assert_eq!(user_count_range(0), (0, 4), "0");
    assert_eq!(user_count_range(4), (0, 4), "4");
    assert_eq!(user_count_range(5), (5, 9), "5");
    assert_eq!(user_count_range(9), (5, 9), "9");
    assert_eq!(user_count_range(100), (100, 199), "100");
    assert_eq!(user_count_range(199), (100, 199), "199");
    assert_eq!(user_count_range(200), (200, 299), "200");
    assert_eq!(user_count_range(299), (200, 299), "299");
    assert_eq!(user_count_range(300), (300, 399), "300");
}

#[test]
fn test_sha256_update_not_idempotent() -> Result<(), Box<dyn std::error::Error>> {
    let hash_write = {
        let mut hasher = Sha256::new();
        hasher.write("ab".as_bytes())?;
        hasher.write("cd".as_bytes())?;
        hasher.finalize()
    };
    let hash_update_intermediary = {
        let mut hasher = Sha256::new();
        hasher.update("ab");
        hasher.finalize()
    };
    let hash_update = {
        let mut hasher = Sha256::new();
        hasher.update("ab");
        hasher.update("cd");
        hasher.finalize()
    };

    assert_eq!(hash_update, hash_write);
    assert_ne!(hash_update, hash_update_intermediary);

    Ok(())
}

#[test]
fn test_anonymize_user_id() {
    // A fixed salt of the size the server draws at random.
    let server_salt: Vec<u8> = (0..256u32).map(|i| (i * 7 % 251) as u8).collect();

    let user1: &[u8] = "d1c2e691c1a0f256".as_bytes();
    let hash1: String = anonymize(user1, &server_salt);
    assert!(is_lower_hex(hash1.as_str()));

    let user2: &[u8] = "d4fb3752f9a55da7".as_bytes();
    let hash2: String = anonymize(user2, &server_salt);
    assert!(is_lower_hex(hash2.as_str()));

    // Ensure `user_hash` is used (not just `server_hash`).
    assert_ne!(hash1, hash2);
}

#[test]
fn anonymize_is_the_hex_prefix_of_the_salted_sha256() {
    let salt = b"salt";
    let user: &[u8] = b"d4fb3752f9a55da7";
    let mut data = user.to_vec();
    data.extend_from_slice(salt);
    let expected = hex::encode(Sha256::digest(&data));
    let got = anonymize(user, salt);
    assert_eq!(got.len(), 16);
    assert_eq!(got, expected[..16]);
    assert_eq!(anonymize(user, salt), got);
    assert_ne!(anonymize(user, b"other salt"), got);
}

#[test]
fn user_count_range_buckets() {
    assert_eq!(user_count_range(10), (10, 19));
    assert_eq!(user_count_range(19), (10, 19));
    assert_eq!(user_count_range(20), (20, 49));
    assert_eq!(user_count_range(50), (50, 99));
    assert_eq!(user_count_range(1_000), (1_000, 1_099));
    assert_eq!(user_count_range(12_345), (12_300, 12_399));
}

#[test]
fn disabled_analytics_send_nothing() {
    let mut config = default_analytics_config();
    config.enabled = false;
    assert_eq!(process_event(sample_event(), &config, "example.org", 42, b"salt"), None);
}

#[test]
fn small_cohorts_send_nothing() {
    let mut config = default_analytics_config();
    config.min_cohort_size = Some(20);
    assert_eq!(process_event(sample_event(), &config, "example.org", 19, b"salt"), None);
    assert!(process_event(sample_event(), &config, "example.org", 20, b"salt").is_some());
}

#[test]
fn processed_event_is_marked_proxied_and_bucketed() {
    let config = default_analytics_config();
    let out = process_event(sample_event(), &config, "example.org", 42, b"salt").unwrap();
    assert_eq!(get(&out, &["proxied"]), Some(&JsonValue::Bool(true)));
    assert_eq!(
        get(&out, &["origin", "pod", "user_count_min"]),
        Some(&JsonValue::Number(JsonNumber::PosInt(20)))
    );
    assert_eq!(
        get(&out, &["origin", "pod", "user_count_max"]),
        Some(&JsonValue::Number(JsonNumber::PosInt(49)))
    );
    assert_eq!(get_str(&out, &["origin", "pod", "user_count_range"]), Some("20–49"));
    assert_eq!(get_str(&out, &["origin", "pod", "user_count_range_open"]), Some("20+"));
    // The user hash is anonymized.
    assert_eq!(
        get_str(&out, &["origin", "pod", "user_hash"]),
        Some(anonymize(b"d1c2e691c1a0f256", b"salt").as_str())
    );
    // The Pod domain is opt-in.
    assert_eq!(get(&out, &["origin", "pod", "identifiable"]), None);
}

#[test]
fn disabled_data_points_are_removed() {
    let mut config = default_analytics_config();
    config.usage.pod_version.enabled = false;
    config.usage.user_app_version.enabled = false;
    config.usage.user_lang.max_locales = Some(2);
    config.usage.user_platform.deny_list = Some(vec!["macos".to_owned()]);
    config.acquisition.pod_domain.enabled = true;
    let out = process_event(sample_event(), &config, "example.org", 3, b"salt").unwrap();
    assert_eq!(get(&out, &["origin", "pod", "version"]), None);
    assert_eq!(get(&out, &["origin", "app", "version"]), None);
    assert_eq!(get(&out, &["origin", "version"]), None);
    assert_eq!(get(&out, &["origin", "app", "platform"]), None);
    assert_eq!(
        get(&out, &["origin", "app", "user_preferred_locales"]),
        Some(&JsonValue::Array(vec![s("en"), s("fr")]))
    );
    assert_eq!(get_str(&out, &["origin", "pod", "identifiable", "domain"]), Some("example.org"));
}

#[test]
fn platform_allow_list_keeps_only_allowed_platforms() {
    let mut config = default_analytics_config();
    config.usage.user_platform.allow_list = Some(vec!["linux".to_owned()]);
    let out = process_event(sample_event(), &config, "example.org", 3, b"salt").unwrap();
    assert_eq!(get(&out, &["origin", "app", "platform"]), None);

    config.usage.user_platform.allow_list = Some(vec!["macos".to_owned()]);
    let out = process_event(sample_event(), &config, "example.org", 3, b"salt").unwrap();
    assert_eq!(get_str(&out, &["origin", "app", "platform"]), Some("macos"));
}

#[test]
fn malformed_events_cannot_be_processed() {
    let config = default_analytics_config();
    let event = obj(vec![("origin", s("not an object"))]);
    assert_eq!(process_event_checked(event, &config, "example.org", 3, b"salt"), None);
    assert!(process_event_checked(sample_event(), &config, "example.org", 3, b"salt").is_some());
}

#[test]
fn unknown_keys_are_sent_as_written() {
    let mut event = sample_event();
    if let JsonValue::Object(entries) = &mut event {
        entries.push(("data".to_owned(), obj(vec![("credential_type", s("password"))])));
    }
    let config = default_analytics_config();
    let out = process_event(event, &config, "example.org", 42, b"salt").unwrap();
    assert_eq!(get_str(&out, &["event"]), Some("app_open"));
    assert_eq!(get_str(&out, &["data", "credential_type"]), Some("password"));
}

#[test]
fn the_raw_user_hash_never_leaves() {
    let mut config = default_analytics_config();
    config.usage.meta_user_count.enabled = false;
    config.usage.pod_version.enabled = false;
    let out = process_event(sample_event(), &config, "example.org", 42, b"other salt").unwrap();
    let sent = get_str(&out, &["origin", "pod", "user_hash"]).unwrap();
    assert_ne!(sent, "d1c2e691c1a0f256");
    assert_eq!(sent, anonymize(b"d1c2e691c1a0f256", b"other salt"));
}

#[test]
fn pod_domain_leaves_only_when_opted_in() {
    let mut config = default_analytics_config();
    let a = process_event(sample_event(), &config, "a.example", 42, b"salt");
    let b = process_event(sample_event(), &config, "b.example", 42, b"salt");
    assert_eq!(a, b);
    config.acquisition.pod_domain.enabled = true;
    let out = process_event(sample_event(), &config, "a.example", 42, b"salt").unwrap();
    assert_eq!(get_str(&out, &["origin", "pod", "identifiable", "domain"]), Some("a.example"));
    // Opting in to acquisition data as a whole is needed too.
    config.acquisition.enabled = false;
    let out = process_event(sample_event(), &config, "a.example", 42, b"salt").unwrap();
    assert_eq!(get(&out, &["origin", "pod", "identifiable"]), None);
}

#[test]
fn locales_are_cut_to_the_maximum() {
    let mut config = default_analytics_config();
    config.usage.user_lang.max_locales = Some(1);
    let out = process_event(sample_event(), &config, "example.org", 3, b"salt").unwrap();
    assert_eq!(
        get(&out, &["origin", "app", "user_preferred_locales"]),
        Some(&JsonValue::Array(vec![s("en")]))
    );
    // A list shorter than the maximum is sent whole.
    config.usage.user_lang.max_locales = Some(5);
    let out = process_event(sample_event(), &config, "example.org", 3, b"salt").unwrap();
    assert_eq!(
        get(&out, &["origin", "app", "user_preferred_locales"]),
        Some(&JsonValue::Array(vec![s("en"), s("fr"), s("de")]))
    );
}

#[test]
fn platform_is_sent_only_when_allowed() {
    let mut config = default_analytics_config();
    let out = process_event(sample_event(), &config, "example.org", 3, b"salt").unwrap();
    assert_eq!(get_str(&out, &["origin", "app", "platform"]), Some("macos"));
    config.usage.user_platform.enabled = false;
    let out = process_event(sample_event(), &config, "example.org", 3, b"salt").unwrap();
    assert_eq!(get(&out, &["origin", "app", "platform"]), None);
    config.usage.user_platform.enabled = true;
    config.usage.user_platform.deny_list = Some(vec!["linux".to_owned()]);
    config.usage.user_platform.allow_list = Some(vec!["macos".to_owned(), "linux".to_owned()]);
    let out = process_event(sample_event(), &config, "example.org", 3, b"salt").unwrap();
    assert_eq!(get_str(&out, &["origin", "app", "platform"]), Some("macos"));
}
