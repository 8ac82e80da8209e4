//! The configuration that `prose.toml` and the environment are merged
//! into: every default the server has, as a document.
use vstd::prelude::*;

use crate::json::{entries_view, lemma_object_view, JsonNumber, JsonValue, JsonView};

verus! {

pub open spec fn str_view(s: Seq<char>) -> JsonView {
    JsonView::Str(s)
}

pub open spec fn bool_view(b: bool) -> JsonView {
    JsonView::Bool(b)
}

pub open spec fn uint_view(n: u64) -> JsonView {
    JsonView::Number(JsonNumber::PosInt(n))
}

/// `{ enabled = b }`.
pub open spec fn enabled_view(b: bool) -> JsonView {
    JsonView::Object(seq![("enabled"@, bool_view(b))])
}

fn string_value(s: &str) -> (j: JsonValue)
    ensures
        j@ == str_view(s@),
{
    JsonValue::String(s.to_owned())
}

fn bool_value(b: bool) -> (j: JsonValue)
    ensures
        j@ == bool_view(b),
{
    JsonValue::Bool(b)
}

fn uint_value(n: u64) -> (j: JsonValue)
    ensures
        j@ == uint_view(n),
{
    JsonValue::Number(JsonNumber::PosInt(n))
}

/// An object from its entries, in order.
fn object(entries: Vec<(String, JsonValue)>) -> (j: JsonValue)
    ensures
        j@ == JsonView::Object(
            Seq::new(entries@.len(), |i: int| (entries@[i].0@, entries@[i].1@)),
        ),
{
    proof {
        lemma_object_view(entries);
        assert(entries_view(entries@) =~= Seq::new(
            entries@.len(),
            |i: int| (entries@[i].0@, entries@[i].1@),
        ));
    }
    JsonValue::Object(entries)
}

fn enabled(b: bool) -> (j: JsonValue)
    ensures
        j@ == enabled_view(b),
{
    let e = vec![("enabled".to_owned(), bool_value(b))];
    let j = object(e);
    proof {
        if let JsonView::Object(s) = j@ {
            assert(s =~= seq![("enabled"@, bool_view(b))]);
        }
    }
    j
}

/// `[teams]`.
pub open spec fn teams_defaults() -> JsonView {
    JsonView::Object(seq![("main_team_name"@, str_view("Team"@))])
}

/// `[auth]`; `oauth2_registration_key` is drawn at random at each start.
pub open spec fn auth_defaults(oauth2_registration_key: Seq<char>) -> JsonView {
    JsonView::Object(
        seq![
            ("token_ttl"@, str_view("PT3H"@)),
            ("password_reset_token_ttl"@, str_view("PT15M"@)),
            ("invitation_ttl"@, str_view("P1W"@)),
            ("oauth2_registration_key"@, str_view(oauth2_registration_key)),
        ],
    )
}

/// `[server]`.
pub open spec fn server_defaults() -> JsonView {
    JsonView::Object(
        seq![
            ("local_hostname"@, str_view("prose-pod-server"@)),
            ("http_port"@, uint_view(5280)),
            ("log_level"@, str_view("info"@)),
        ],
    )
}

/// `[server_api]`.
pub open spec fn server_api_defaults() -> JsonView {
    JsonView::Object(
        seq![("address"@, str_view("0.0.0.0"@)), ("port"@, uint_view(8080))],
    )
}

/// `[log]`: debug builds log in a human-readable format, with the time
/// since start, file names and line numbers, and export traces.
pub open spec fn log_defaults(debug: bool) -> JsonView {
    JsonView::Object(
        seq![
            ("level"@, str_view("info"@)),
            ("format"@, str_view(if debug { "pretty"@ } else { "json"@ })),
            ("timer"@, str_view(if debug { "uptime"@ } else { "time"@ })),
            ("with_file"@, bool_view(debug)),
            ("with_target"@, bool_view(true)),
            ("with_thread_ids"@, bool_view(false)),
            ("with_line_number"@, bool_view(debug)),
            ("with_span_events"@, bool_view(false)),
            ("with_thread_names"@, bool_view(false)),
            ("opentelemetry"@, enabled_view(debug)),
        ],
    )
}

/// `[service_accounts]`.
pub open spec fn service_accounts_defaults() -> JsonView {
    JsonView::Object(
        seq![
            (
                "prose_workspace"@,
                JsonView::Object(seq![("xmpp_node"@, str_view("prose-workspace"@))]),
            ),
        ],
    )
}

/// The `all` analytics preset: every data point enabled.
pub open spec fn preset_all() -> JsonView {
    JsonView::Object(
        seq![
            ("enabled"@, bool_view(true)),
            (
                "usage"@,
                JsonView::Object(
                    seq![
                        ("enabled"@, bool_view(true)),
                        ("meta_user_count"@, enabled_view(true)),
                        ("pod_version"@, enabled_view(true)),
                        ("user_app_version"@, enabled_view(true)),
                        ("user_lang"@, enabled_view(true)),
                        ("user_platform"@, enabled_view(true)),
                    ],
                ),
            ),
            (
                "acquisition"@,
                JsonView::Object(
                    seq![("enabled"@, bool_view(true)), ("pod_domain"@, enabled_view(true))],
                ),
            ),
        ],
    )
}

/// The `default` analytics preset: `all`, with identifying data points
/// made opt-in.
pub open spec fn preset_default() -> JsonView {
    JsonView::Object(
        seq![
            ("inherits"@, str_view("all"@)),
            ("acquisition"@, JsonView::Object(seq![("pod_domain"@, enabled_view(false))])),
        ],
    )
}

/// The `gdpr` analytics preset: `default`, with no event under 20 users
/// and at most 2 locales.
pub open spec fn preset_gdpr() -> JsonView {
    JsonView::Object(
        seq![
            ("inherits"@, str_view("default"@)),
            ("min_cohort_size"@, uint_view(20)),
            (
                "usage"@,
                JsonView::Object(
                    seq![
                        ("user_lang"@, JsonView::Object(seq![("max_locales"@, uint_view(2))])),
                    ],
                ),
            ),
        ],
    )
}

/// The `lgpd` analytics preset: `gdpr`.
pub open spec fn preset_lgpd() -> JsonView {
    JsonView::Object(seq![("inherits"@, str_view("gdpr"@))])
}

/// `[vendor_analytics]`.
pub open spec fn vendor_analytics_defaults() -> JsonView {
    JsonView::Object(
        seq![
            ("preset"@, str_view("default"@)),
            (
                "presets"@,
                JsonView::Object(
                    seq![
                        ("all"@, preset_all()),
                        ("default"@, preset_default()),
                        ("gdpr"@, preset_gdpr()),
                        ("lgpd"@, preset_lgpd()),
                    ],
                ),
            ),
        ],
    )
}

/// `[proxy]`.
pub open spec fn proxy_defaults() -> JsonView {
    JsonView::Object(
        seq![
            ("cloud_api_url"@, str_view("https://prose.org/_api/cloud"@)),
            ("prose_files_url"@, str_view("https://files.prose.org"@)),
        ],
    )
}

/// Every static default of the configuration.
pub open spec fn static_defaults(debug: bool, oauth2_registration_key: Seq<char>) -> JsonView {
    JsonView::Object(
        seq![
            ("teams"@, teams_defaults()),
            ("auth"@, auth_defaults(oauth2_registration_key)),
            ("server"@, server_defaults()),
            ("server_api"@, server_api_defaults()),
            ("log"@, log_defaults(debug)),
            ("service_accounts"@, service_accounts_defaults()),
            ("vendor_analytics"@, vendor_analytics_defaults()),
            ("proxy"@, proxy_defaults()),
        ],
    )
}

fn teams() -> (j: JsonValue)
    ensures
        j@ == teams_defaults(),
{
    let j = object(vec![("main_team_name".to_owned(), string_value("Team"))]);
    proof {
        if let JsonView::Object(s) = j@ {
            assert(s =~= seq![("main_team_name"@, str_view("Team"@))]);
        }
    }
    j
}

fn auth(oauth2_registration_key: &str) -> (j: JsonValue)
    ensures
        j@ == auth_defaults(oauth2_registration_key@),
{
    let j = object(
        vec![
            ("token_ttl".to_owned(), string_value("PT3H")),
            ("password_reset_token_ttl".to_owned(), string_value("PT15M")),
            ("invitation_ttl".to_owned(), string_value("P1W")),
            ("oauth2_registration_key".to_owned(), string_value(oauth2_registration_key)),
        ],
    );
    proof {
        if let JsonView::Object(s) = j@ {
            if let JsonView::Object(t) = auth_defaults(oauth2_registration_key@) {
                assert(s =~= t);
            }
        }
    }
    j
}

fn server() -> (j: JsonValue)
    ensures
        j@ == server_defaults(),
{
    let j = object(
        vec![
            ("local_hostname".to_owned(), string_value("prose-pod-server")),
            ("http_port".to_owned(), uint_value(5280)),
            ("log_level".to_owned(), string_value("info")),
        ],
    );
    proof {
        if let JsonView::Object(s) = j@ {
            if let JsonView::Object(t) = server_defaults() {
                assert(s =~= t);
            }
        }
    }
    j
}

fn server_api() -> (j: JsonValue)
    ensures
        j@ == server_api_defaults(),
{
    let j = object(
        vec![
            ("address".to_owned(), string_value("0.0.0.0")),
            ("port".to_owned(), uint_value(8080)),
        ],
    );
    proof {
        if let JsonView::Object(s) = j@ {
            if let JsonView::Object(t) = server_api_defaults() {
                assert(s =~= t);
            }
        }
    }
    j
}

fn log(debug: bool) -> (j: JsonValue)
    ensures
        j@ == log_defaults(debug),
{
    let format = if debug {
        "pretty"
    } else {
        "json"
    };
    let timer = if debug {
        "uptime"
    } else {
        "time"
    };
    let j = object(
        vec![
            ("level".to_owned(), string_value("info")),
            ("format".to_owned(), string_value(format)),
            ("timer".to_owned(), string_value(timer)),
            ("with_file".to_owned(), bool_value(debug)),
            ("with_target".to_owned(), bool_value(true)),
            ("with_thread_ids".to_owned(), bool_value(false)),
            ("with_line_number".to_owned(), bool_value(debug)),
            ("with_span_events".to_owned(), bool_value(false)),
            ("with_thread_names".to_owned(), bool_value(false)),
            ("opentelemetry".to_owned(), enabled(debug)),
        ],
    );
    proof {
        if let JsonView::Object(s) = j@ {
            if let JsonView::Object(t) = log_defaults(debug) {
                assert(s =~= t);
            }
        }
    }
    j
}

fn service_accounts() -> (j: JsonValue)
    ensures
        j@ == service_accounts_defaults(),
{
    let inner = object(vec![("xmpp_node".to_owned(), string_value("prose-workspace"))]);
    let j = object(vec![("prose_workspace".to_owned(), inner)]);
    proof {
        if let JsonView::Object(s) = inner@ {
            assert(s =~= seq![("xmpp_node"@, str_view("prose-workspace"@))]);
        }
        if let JsonView::Object(s) = j@ {
            if let JsonView::Object(t) = service_accounts_defaults() {
                assert(s =~= t);
            }
        }
    }
    j
}

fn all_preset() -> (j: JsonValue)
    ensures
        j@ == preset_all(),
{
    let usage = object(
        vec![
            ("enabled".to_owned(), bool_value(true)),
            ("meta_user_count".to_owned(), enabled(true)),
            ("pod_version".to_owned(), enabled(true)),
            ("user_app_version".to_owned(), enabled(true)),
            ("user_lang".to_owned(), enabled(true)),
            ("user_platform".to_owned(), enabled(true)),
        ],
    );
    let acquisition = object(
        vec![("enabled".to_owned(), bool_value(true)), ("pod_domain".to_owned(), enabled(true))],
    );
    let ghost usage_view = usage@;
    let ghost acquisition_view = acquisition@;
    let j = object(
        vec![
            ("enabled".to_owned(), bool_value(true)),
            ("usage".to_owned(), usage),
            ("acquisition".to_owned(), acquisition),
        ],
    );
    proof {
        if let JsonView::Object(s) = usage_view {
            assert(s =~= seq![
                ("enabled"@, bool_view(true)),
                ("meta_user_count"@, enabled_view(true)),
                ("pod_version"@, enabled_view(true)),
                ("user_app_version"@, enabled_view(true)),
                ("user_lang"@, enabled_view(true)),
                ("user_platform"@, enabled_view(true)),
            ]);
        }
        if let JsonView::Object(s) = acquisition_view {
            assert(s =~= seq![("enabled"@, bool_view(true)), ("pod_domain"@, enabled_view(true))]);
        }
        if let JsonView::Object(s) = j@ {
            if let JsonView::Object(t) = preset_all() {
                assert(s =~= t);
            }
        }
    }
    j
}

fn default_preset() -> (j: JsonValue)
    ensures
        j@ == preset_default(),
{
    let acquisition = object(vec![("pod_domain".to_owned(), enabled(false))]);
    let ghost acquisition_view = acquisition@;
    let j = object(
        vec![
            ("inherits".to_owned(), string_value("all")),
            ("acquisition".to_owned(), acquisition),
        ],
    );
    proof {
        if let JsonView::Object(s) = acquisition_view {
            assert(s =~= seq![("pod_domain"@, enabled_view(false))]);
        }
        if let JsonView::Object(s) = j@ {
            if let JsonView::Object(t) = preset_default() {
                assert(s =~= t);
            }
        }
    }
    j
}

fn gdpr_preset() -> (j: JsonValue)
    ensures
        j@ == preset_gdpr(),
{
    let user_lang = object(vec![("max_locales".to_owned(), uint_value(2))]);
    let ghost user_lang_view = user_lang@;
    let usage = object(vec![("user_lang".to_owned(), user_lang)]);
    let ghost usage_view = usage@;
    let j = object(
        vec![
            ("inherits".to_owned(), string_value("default")),
            ("min_cohort_size".to_owned(), uint_value(20)),
            ("usage".to_owned(), usage),
        ],
    );
    proof {
        if let JsonView::Object(s) = user_lang_view {
            assert(s =~= seq![("max_locales"@, uint_view(2))]);
        }
        if let JsonView::Object(s) = usage_view {
            assert(s =~= seq![
                ("user_lang"@, JsonView::Object(seq![("max_locales"@, uint_view(2))])),
            ]);
        }
        if let JsonView::Object(s) = j@ {
            if let JsonView::Object(t) = preset_gdpr() {
                assert(s =~= t);
            }
        }
    }
    j
}

fn lgpd_preset() -> (j: JsonValue)
    ensures
        j@ == preset_lgpd(),
{
    let j = object(vec![("inherits".to_owned(), string_value("gdpr"))]);
    proof {
        if let JsonView::Object(s) = j@ {
            assert(s =~= seq![("inherits"@, str_view("gdpr"@))]);
        }
    }
    j
}

fn vendor_analytics() -> (j: JsonValue)
    ensures
        j@ == vendor_analytics_defaults(),
{
    let presets = object(
        vec![
            ("all".to_owned(), all_preset()),
            ("default".to_owned(), default_preset()),
            ("gdpr".to_owned(), gdpr_preset()),
            ("lgpd".to_owned(), lgpd_preset()),
        ],
    );
    let ghost presets_view = presets@;
    let j = object(
        vec![("preset".to_owned(), string_value("default")), ("presets".to_owned(), presets)],
    );
    proof {
        if let JsonView::Object(s) = presets_view {
            assert(s =~= seq![
                ("all"@, preset_all()),
                ("default"@, preset_default()),
                ("gdpr"@, preset_gdpr()),
                ("lgpd"@, preset_lgpd()),
            ]);
        }
        if let JsonView::Object(s) = j@ {
            if let JsonView::Object(t) = vendor_analytics_defaults() {
                assert(s =~= t);
            }
        }
    }
    j
}

fn proxy() -> (j: JsonValue)
    ensures
        j@ == proxy_defaults(),
{
    let j = object(
        vec![
            ("cloud_api_url".to_owned(), string_value("https://prose.org/_api/cloud")),
            ("prose_files_url".to_owned(), string_value("https://files.prose.org")),
        ],
    );
    proof {
        if let JsonView::Object(s) = j@ {
            if let JsonView::Object(t) = proxy_defaults() {
                assert(s =~= t);
            }
        }
    }
    j
}

/// The static defaults of the configuration, which `prose.toml` and the
/// environment override. `debug` tells a debug build;
/// `oauth2_registration_key` is a key drawn at random.
pub fn default_config_static(debug: bool, oauth2_registration_key: &str) -> (j: JsonValue)
    ensures
        j@ == static_defaults(debug, oauth2_registration_key@),
{
    let j = object(
        vec![
            ("teams".to_owned(), teams()),
            ("auth".to_owned(), auth(oauth2_registration_key)),
            ("server".to_owned(), server()),
            ("server_api".to_owned(), server_api()),
            ("log".to_owned(), log(debug)),
            ("service_accounts".to_owned(), service_accounts()),
            ("vendor_analytics".to_owned(), vendor_analytics()),
            ("proxy".to_owned(), proxy()),
        ],
    );
    proof {
        if let JsonView::Object(s) = j@ {
            if let JsonView::Object(t) = static_defaults(debug, oauth2_registration_key@) {
                assert(s =~= t);
            }
        }
    }
    j
}

} // verus!
