use vstd::prelude::*;
use vstd::utf8::encode_utf8;

use crate::app_config::{list_contains, list_contains_str, UserPlatformConfig, VendorAnalyticsConfig};
use crate::json::{
    as_str, disjoint_paths, edit_at, get_key, get_path, keys_path, lemma_update_path_assign,
    lemma_update_path_disjoint, lemma_update_path_edit, key_at_most_once, lemma_remove_key_once,
    lemma_remove_other_key_once, lemma_get_path_push, lemma_update_path_other, opt_json_view,
    opt_string_view, str_at_keys, update_path,
    EditView, JsonEdit, JsonNumber, JsonValue, JsonView,
};
use crate::text::{push_decimal, push_str, decimal, substring};

verus! {

/// The cohort bucket `(min, max)` that a user count falls into:
/// 0–4, 5–9, 10–19, 20–49, 50–99, then by hundreds.
pub open spec fn spec_user_count_range(user_count: u64) -> (u64, u64) {
    if user_count <= 4 {
        (0, 4)
    } else if user_count <= 9 {
        (5, 9)
    } else if user_count <= 19 {
        (10, 19)
    } else if user_count <= 49 {
        (20, 49)
    } else if user_count <= 99 {
        (50, 99)
    } else {
        let floor = (user_count - user_count % 100) as u64;
        (floor, (floor + 99) as u64)
    }
}

/// Buckets a user count so analytics never expose an exact count.
pub fn user_count_range(user_count: u64) -> (range: (u64, u64))
    requires
        // Above this, the upper bound of the last bucket overflows `u64`.
        user_count <= 18446744073709551599u64,
    ensures
        range == spec_user_count_range(user_count),
        range.0 <= user_count <= range.1,
{
    if user_count <= 4 {
        (0, 4)
    } else if user_count <= 9 {
        (5, 9)
    } else if user_count <= 19 {
        (10, 19)
    } else if user_count <= 49 {
        (20, 49)
    } else if user_count <= 99 {
        (50, 99)
    } else {
        let hundreds_floor = user_count - user_count % 100;
        (hundreds_floor, hundreds_floor + 99)
    }
}


/// Name for the SHA-256 digest of `data`.
pub uninterp spec fn sha256(data: Seq<u8>) -> Seq<u8>;

/// `sha2::Sha256::digest`: the SHA-256 digest of `data`, which is 32 bytes
/// long. What the digest is, is left to the name [`sha256`].
#[verifier::external_body]
fn sha256_digest(data: &[u8]) -> (d: Vec<u8>)
    ensures
        d@ == sha256(data@),
        d@.len() == 32,
{
    <sha2::Sha256 as sha2::Digest>::digest(data).to_vec()
}

/// Lower-case hexadecimal digit for `n < 16`.
pub open spec fn hex_digit(n: u8) -> char {
    if n < 10 {
        ((n + 48) as u8) as char
    } else {
        ((n + 87) as u8) as char
    }
}

/// Lower-case hexadecimal notation of `bytes`, two digits per byte.
pub open spec fn hex_lower(bytes: Seq<u8>) -> Seq<char>
    decreases bytes.len(),
{
    if bytes.len() == 0 {
        Seq::empty()
    } else {
        seq![hex_digit(bytes[0] / 16), hex_digit(bytes[0] % 16)] + hex_lower(bytes.drop_first())
    }
}

pub proof fn lemma_hex_lower_len(bytes: Seq<u8>)
    ensures
        hex_lower(bytes).len() == 2 * bytes.len(),
    decreases bytes.len(),
{
    if bytes.len() > 0 {
        lemma_hex_lower_len(bytes.drop_first());
    }
}

/// `c` is a lower-case hexadecimal digit: `0`-`9` or `a`-`f`.
pub open spec fn is_lower_hex_digit(c: char) -> bool {
    ('0' <= c && c <= '9') || ('a' <= c && c <= 'f')
}

pub proof fn lemma_hex_lower_digits(bytes: Seq<u8>)
    ensures
        forall|i: int| 0 <= i < hex_lower(bytes).len() ==> is_lower_hex_digit(#[trigger] hex_lower(bytes)[i]),
    decreases bytes.len(),
{
    lemma_hex_lower_len(bytes);
    if bytes.len() > 0 {
        let b = bytes[0];
        lemma_hex_lower_digits(bytes.drop_first());
        assert(is_lower_hex_digit(hex_digit(b / 16))) by {
            assert(b / 16 < 16) by (nonlinear_arith)
                requires
                    b < 256,
            ;
        }
        assert(is_lower_hex_digit(hex_digit(b % 16)));
        let rest = hex_lower(bytes.drop_first());
        assert forall|i: int| 0 <= i < hex_lower(bytes).len() implies is_lower_hex_digit(
            #[trigger] hex_lower(bytes)[i],
        ) by {
            if i >= 2 {
                assert(hex_lower(bytes)[i] == rest[i - 2]);
            }
        }
    }
}

/// `hex::encode`: the lower-case hexadecimal notation of `data`.
#[verifier::external_body]
fn hex_encode(data: &[u8]) -> (s: String)
    ensures
        s@ == hex_lower(data@),
{
    hex::encode(data)
}

fn concat_bytes(a: &[u8], b: &[u8]) -> (r: Vec<u8>)
    ensures
        r@ == a@ + b@,
{
    let mut r: Vec<u8> = Vec::new();
    let mut i: usize = 0;
    while i < a.len()
        invariant
            i <= a.len(),
            r@ == a@.take(i as int),
        decreases a.len() - i,
    {
        r.push(a[i]);
        assert(a@.take(i + 1) =~= a@.take(i as int).push(a@[i as int]));
        i = i + 1;
    }
    let mut j: usize = 0;
    while j < b.len()
        invariant
            j <= b.len(),
            i == a.len(),
            r@ == a@ + b@.take(j as int),
        decreases b.len() - j,
    {
        r.push(b[j]);
        assert(b@.take(j + 1) =~= b@.take(j as int).push(b@[j as int]));
        j = j + 1;
    }
    assert(a@.take(a.len() as int) =~= a@);
    assert(b@.take(b.len() as int) =~= b@);
    r
}

/// The anonymous form of a user hash: the first 16 hex digits of the
/// SHA-256 digest of the hash followed by the server salt.
pub open spec fn spec_anonymize(user_hash: Seq<u8>, server_salt: Seq<u8>) -> Seq<char> {
    hex_lower(sha256(user_hash + server_salt)).take(16)
}

/// Anonymizes a user hash with a random server-side salt, so the analytics
/// service cannot link it back to the user.
pub fn anonymize(user_hash: &[u8], server_salt: &[u8]) -> (r: String)
    ensures
        r@ == spec_anonymize(user_hash@, server_salt@),
        r@.len() == 16,
        forall|i: int| 0 <= i < 16 ==> is_lower_hex_digit(#[trigger] r@[i]),
{
    let data = concat_bytes(user_hash, server_salt);
    let digest = sha256_digest(data.as_slice());
    let hex = hex_encode(digest.as_slice());
    proof {
        lemma_hex_lower_len(digest@);
        lemma_hex_lower_digits(digest@);
    }
    substring(hex.as_str(), 0, 16)
}

/// One edit of an event under processing; `None` stands for a processing
/// that panicked.
pub open spec fn step(st: Option<JsonView>, keys: Seq<&str>, edit: EditView) -> Option<JsonView> {
    match st {
        Some(v) => update_path(v, keys_path(keys), edit),
        None => None,
    }
}

/// The name of the app that sent the event.
pub open spec fn origin_name(e: JsonView) -> Option<Seq<char>> {
    match as_str(get_path(e, keys_path(seq!["origin", "name"]))) {
        Some(n) => Some(n),
        None => as_str(get_path(e, keys_path(seq!["origin", "app", "name"]))),
    }
}

/// Keeps the user platform only if it is allowed by the deny and allow lists.
pub open spec fn platform_step(st: Option<JsonView>, pc: UserPlatformConfig) -> Option<JsonView> {
    match st {
        None => None,
        Some(v) => match as_str(get_path(v, keys_path(seq!["origin", "app", "platform"]))) {
            None => Some(v),
            Some(p) => {
                let a = if pc.deny_list is Some && list_contains(pc.deny_list->0@, p) {
                    step(Some(v), seq!["origin", "app"], EditView::RemoveKey("platform"@))
                } else {
                    Some(v)
                };
                if pc.allow_list is Some && !list_contains(pc.allow_list->0@, p) {
                    step(a, seq!["origin", "app"], EditView::RemoveKey("platform"@))
                } else {
                    a
                }
            },
        },
    }
}

/// Adds the user count bucket, in several forms.
pub open spec fn user_count_step(st: Option<JsonView>, user_count: u64) -> Option<JsonView> {
    if user_count > 18446744073709551599u64 {
        None
    } else {
        let (min, max) = spec_user_count_range(user_count);
        let s1 = step(
            st,
            seq!["origin", "pod", "user_count_min"],
            EditView::Assign(JsonView::Number(JsonNumber::PosInt(min))),
        );
        let s2 = step(
            s1,
            seq!["origin", "pod", "user_count_max"],
            EditView::Assign(JsonView::Number(JsonNumber::PosInt(max))),
        );
        let s3 = step(
            s2,
            seq!["origin", "pod", "user_count_range"],
            EditView::Assign(JsonView::Str(decimal(min as nat) + "–"@ + decimal(max as nat))),
        );
        step(
            s3,
            seq!["origin", "pod", "user_count_range_open"],
            EditView::Assign(JsonView::Str(decimal(min as nat) + "+"@)),
        )
    }
}

/// Replaces the user hash, if any, by its anonymous form.
pub open spec fn anonymize_step(st: Option<JsonView>, server_salt: Seq<u8>) -> Option<JsonView> {
    match st {
        None => None,
        Some(v) => match as_str(get_path(v, keys_path(seq!["origin", "pod", "user_hash"]))) {
            Some(h) => update_path(
                v,
                keys_path(seq!["origin", "pod", "user_hash"]),
                EditView::Assign(JsonView::Str(spec_anonymize(encode_utf8(h), server_salt))),
            ),
            None => Some(v),
        },
    }
}

/// The usage part of processing: the pod version, the app version, the user
/// platform and the user's locales, each kept or dropped as the usage
/// configuration says.
pub open spec fn usage_filtered(e: JsonView, c: VendorAnalyticsConfig) -> Option<JsonView> {
    let u = c.usage;
    let name = origin_name(e);
    let s1 = if !(u.enabled && u.pod_version.enabled) {
        step(Some(e), seq!["origin", "pod"], EditView::RemoveKey("version"@))
    } else {
        Some(e)
    };
    let s2 = if !(u.enabled && u.user_app_version.enabled) && name is Some
        && "prose-app-"@.is_prefix_of(name->0) {
        step(
            step(s1, seq!["origin", "app"], EditView::RemoveKey("version"@)),
            seq!["origin"],
            EditView::RemoveKey("version"@),
        )
    } else {
        s1
    };
    let s3 = if u.enabled && u.user_platform.enabled {
        platform_step(s2, u.user_platform)
    } else {
        step(s2, seq!["origin", "app"], EditView::RemoveKey("platform"@))
    };
    if u.enabled && u.user_lang.enabled {
        match u.user_lang.max_locales {
            Some(m) => step(
                s3,
                seq!["origin", "app", "user_preferred_locales"],
                EditView::Truncate(m as nat),
            ),
            None => s3,
        }
    } else {
        step(s3, seq!["origin", "app"], EditView::RemoveKey("user_preferred_locales"@))
    }
}

/// What processing does to an analytics event: `Some(None)` when the event
/// must not be sent, `Some(Some(e))` with the event to send, and `None` when
/// processing fails because the event does not have the expected shape (a
/// non-object where an object is expected), or the user count is too large
/// to bucket.
pub open spec fn processed_event(
    e: JsonView,
    c: VendorAnalyticsConfig,
    pod_domain: Seq<char>,
    user_count: u64,
    server_salt: Seq<u8>,
) -> Option<Option<JsonView>> {
    if !c.enabled {
        Some(None)
    } else if c.min_cohort_size is Some && user_count < c.min_cohort_size->0 {
        Some(None)
    } else {
        let u = c.usage;
        let s4 = usage_filtered(e, c);
        let s5 = if c.acquisition.enabled && c.acquisition.pod_domain.enabled {
            step(
                s4,
                seq!["origin", "pod", "identifiable", "domain"],
                EditView::Assign(JsonView::Str(pod_domain)),
            )
        } else {
            s4
        };
        let s6 = if u.enabled && u.meta_user_count.enabled {
            user_count_step(s5, user_count)
        } else {
            s5
        };
        let s7 = anonymize_step(s6, server_salt);
        let s8 = step(s7, seq!["proxied"], EditView::Assign(JsonView::Bool(true)));
        match s8 {
            Some(v) => Some(Some(v)),
            None => None,
        }
    }
}

fn path1<'a>(a: &'a str) -> (p: Vec<&'a str>)
    ensures
        p@ == seq![a],
{
    let p = vec![a];
    assert(p@ =~= seq![a]);
    p
}

fn path2<'a>(a: &'a str, b: &'a str) -> (p: Vec<&'a str>)
    ensures
        p@ == seq![a, b],
{
    let p = vec![a, b];
    assert(p@ =~= seq![a, b]);
    p
}

fn path3<'a>(a: &'a str, b: &'a str, c: &'a str) -> (p: Vec<&'a str>)
    ensures
        p@ == seq![a, b, c],
{
    let p = vec![a, b, c];
    assert(p@ =~= seq![a, b, c]);
    p
}

fn path4<'a>(a: &'a str, b: &'a str, c: &'a str, d: &'a str) -> (p: Vec<&'a str>)
    ensures
        p@ == seq![a, b, c, d],
{
    let p = vec![a, b, c, d];
    assert(p@ =~= seq![a, b, c, d]);
    p
}

fn step_exec(st: Option<JsonValue>, keys: Vec<&str>, edit: JsonEdit) -> (r: Option<JsonValue>)
    ensures
        opt_json_view(r) == step(opt_json_view(st), keys@, edit@),
{
    match st {
        Some(v) => edit_at(v, keys, edit),
        None => None,
    }
}

fn str_value(s: String) -> (v: JsonValue)
    ensures
        v@ == JsonView::Str(s@),
{
    JsonValue::String(s)
}

fn platform_step_exec(st: Option<JsonValue>, pc: &UserPlatformConfig) -> (r: Option<JsonValue>)
    ensures
        opt_json_view(r) == platform_step(opt_json_view(st), *pc),
{
    match st {
        None => None,
        Some(v) => match str_at_keys(&v, path3("origin", "app", "platform")) {
            None => Some(v),
            Some(p) => {
                let denied = match &pc.deny_list {
                    Some(list) => list_contains_str(list, &p),
                    None => false,
                };
                let a = if denied {
                    step_exec(Some(v), path2("origin", "app"), JsonEdit::RemoveKey("platform".to_owned()))
                } else {
                    Some(v)
                };
                let not_allowed = match &pc.allow_list {
                    Some(list) => !list_contains_str(list, &p),
                    None => false,
                };
                if not_allowed {
                    step_exec(a, path2("origin", "app"), JsonEdit::RemoveKey("platform".to_owned()))
                } else {
                    a
                }
            },
        },
    }
}

fn user_count_step_exec(st: Option<JsonValue>, user_count: u64) -> (r: Option<JsonValue>)
    ensures
        opt_json_view(r) == user_count_step(opt_json_view(st), user_count),
{
    if user_count > 18446744073709551599u64 {
        return None;
    }
    let (min, max) = user_count_range(user_count);
    let s1 = step_exec(
        st,
        path3("origin", "pod", "user_count_min"),
        JsonEdit::Assign(JsonValue::Number(JsonNumber::PosInt(min))),
    );
    let s2 = step_exec(
        s1,
        path3("origin", "pod", "user_count_max"),
        JsonEdit::Assign(JsonValue::Number(JsonNumber::PosInt(max))),
    );
    let mut range = String::new();
    push_decimal(&mut range, min);
    push_str(&mut range, "–");
    push_decimal(&mut range, max);
    let s3 = step_exec(
        s2,
        path3("origin", "pod", "user_count_range"),
        JsonEdit::Assign(str_value(range)),
    );
    let mut open = String::new();
    push_decimal(&mut open, min);
    push_str(&mut open, "+");
    assert(open@ =~= decimal(min as nat) + "+"@);
    step_exec(
        s3,
        path3("origin", "pod", "user_count_range_open"),
        JsonEdit::Assign(str_value(open)),
    )
}

fn anonymize_step_exec(st: Option<JsonValue>, server_salt: &[u8]) -> (r: Option<JsonValue>)
    ensures
        opt_json_view(r) == anonymize_step(opt_json_view(st), server_salt@),
{
    match st {
        None => None,
        Some(v) => match str_at_keys(&v, path3("origin", "pod", "user_hash")) {
            Some(h) => {
                let anonymous = anonymize(h.as_str().as_bytes(), server_salt);
                edit_at(v, path3("origin", "pod", "user_hash"), JsonEdit::Assign(str_value(anonymous)))
            },
            None => Some(v),
        },
    }
}

/// Processing of an analytics event, with `Err` where it cannot be done
/// (see [`processed_event`]).
fn process_event_or_fail(
    event: JsonValue,
    config: &VendorAnalyticsConfig,
    pod_domain_value: &str,
    user_count: u64,
    server_salt: &[u8],
) -> (r: Result<Option<JsonValue>, ()>)
    ensures
        match r {
            Ok(res) => processed_event(event@, *config, pod_domain_value@, user_count, server_salt@)
                == Some(opt_json_view(res)),
            Err(()) => processed_event(event@, *config, pod_domain_value@, user_count, server_salt@)
                is None,
        },
{
    if !config.enabled {
        return Ok(None);
    }
    if let Some(min_cohort_size) = config.min_cohort_size {
        if user_count < min_cohort_size as u64 {
            return Ok(None);
        }
    }
    let usage = &config.usage;
    let ghost e = event@;
    let name = match str_at_keys(&event, path2("origin", "name")) {
        Some(n) => Some(n),
        None => str_at_keys(&event, path3("origin", "app", "name")),
    };
    assert(opt_string_view(name) == origin_name(e));

    let s1 = if !(usage.enabled && usage.pod_version.enabled) {
        step_exec(Some(event), path2("origin", "pod"), JsonEdit::RemoveKey("version".to_owned()))
    } else {
        Some(event)
    };
    let app_prefixed = match &name {
        Some(n) => crate::text::starts_with(n.as_str(), "prose-app-"),
        None => false,
    };
    let s2 = if !(usage.enabled && usage.user_app_version.enabled) && app_prefixed {
        let s = step_exec(s1, path2("origin", "app"), JsonEdit::RemoveKey("version".to_owned()));
        step_exec(s, path1("origin"), JsonEdit::RemoveKey("version".to_owned()))
    } else {
        s1
    };
    let s3 = if usage.enabled && usage.user_platform.enabled {
        platform_step_exec(s2, &usage.user_platform)
    } else {
        step_exec(s2, path2("origin", "app"), JsonEdit::RemoveKey("platform".to_owned()))
    };
    let s4 = if usage.enabled && usage.user_lang.enabled {
        match usage.user_lang.max_locales {
            Some(m) => step_exec(
                s3,
                path3("origin", "app", "user_preferred_locales"),
                JsonEdit::Truncate(m),
            ),
            None => s3,
        }
    } else {
        step_exec(s3, path2("origin", "app"), JsonEdit::RemoveKey("user_preferred_locales".to_owned()))
    };
    let s5 = if config.acquisition.enabled && config.acquisition.pod_domain.enabled {
        step_exec(
            s4,
            path4("origin", "pod", "identifiable", "domain"),
            JsonEdit::Assign(str_value(pod_domain_value.to_owned())),
        )
    } else {
        s4
    };
    let s6 = if usage.enabled && usage.meta_user_count.enabled {
        user_count_step_exec(s5, user_count)
    } else {
        s5
    };
    let s7 = anonymize_step_exec(s6, server_salt);
    let s8 = step_exec(s7, path1("proxied"), JsonEdit::Assign(JsonValue::Bool(true)));
    match s8 {
        Some(v) => Ok(Some(v)),
        None => Err(()),
    }
}

/// Whether `event` can be processed, that is [`process_event`] would not
/// fail on it.
pub fn can_process_event(
    event: &JsonValue,
    config: &VendorAnalyticsConfig,
    pod_domain_value: &str,
    user_count: u64,
    server_salt: &[u8],
) -> (b: bool)
    ensures
        b == processed_event(event@, *config, pod_domain_value@, user_count, server_salt@) is Some,
{
    process_event_or_fail(event.deep_clone(), config, pod_domain_value, user_count, server_salt).is_ok()
}

/// Filters and anonymizes an analytics event before it is proxied to the
/// vendor's analytics service, following the vendor analytics
/// configuration. `None` means that nothing must be sent.
pub fn process_event(
    event: JsonValue,
    config: &VendorAnalyticsConfig,
    pod_domain_value: &str,
    user_count: u64,
    server_salt: &[u8],
) -> (r: Option<JsonValue>)
    requires
        processed_event(event@, *config, pod_domain_value@, user_count, server_salt@) is Some,
    ensures
        processed_event(event@, *config, pod_domain_value@, user_count, server_salt@)
            == Some(opt_json_view(r)),
{
    match process_event_or_fail(event, config, pod_domain_value, user_count, server_salt) {
        Ok(r) => r,
        Err(()) => None,
    }
}

/// [`process_event`] on any event: `None` for an event that cannot be
/// processed (see [`can_process_event`]), where [`process_event`] is not
/// called.
pub fn process_event_checked(
    event: JsonValue,
    config: &VendorAnalyticsConfig,
    pod_domain_value: &str,
    user_count: u64,
    server_salt: &[u8],
) -> (r: Option<Option<JsonValue>>)
    ensures
        r is None <==> processed_event(event@, *config, pod_domain_value@, user_count, server_salt@) is None,
        r is Some ==> processed_event(event@, *config, pod_domain_value@, user_count, server_salt@)
            == Some(opt_json_view(r->Some_0)),
{
    if can_process_event(&event, config, pod_domain_value, user_count, server_salt) {
        Some(process_event(event, config, pod_domain_value, user_count, server_salt))
    } else {
        None
    }
}

/// `b` is the processing of `a` so far, and did not change `a`'s key `k`.
pub open spec fn keeps_key(a: Option<JsonView>, b: Option<JsonView>, k: Seq<char>) -> bool {
    b matches Some(y) ==> (a matches Some(x) && get_key(y, k) == get_key(x, k))
}

proof fn lemma_step_keeps(st: Option<JsonView>, keys: Seq<&str>, edit: EditView, k: Seq<char>)
    requires
        keys.len() > 0,
        keys[0]@ != k,
    ensures
        keeps_key(st, step(st, keys, edit), k),
{
    if let Some(v) = st {
        lemma_update_path_other(v, keys_path(keys), edit, k);
    }
}

proof fn lemma_keeps_trans(a: Option<JsonView>, b: Option<JsonView>, c: Option<JsonView>, k: Seq<char>)
    requires
        keeps_key(a, b, k),
        keeps_key(b, c, k),
    ensures
        keeps_key(a, c, k),
{
}

proof fn lemma_platform_keeps(st: Option<JsonView>, pc: UserPlatformConfig, k: Seq<char>)
    requires
        k != "origin"@,
    ensures
        keeps_key(st, platform_step(st, pc), k),
{
    if let Some(v) = st {
        if let Some(p) = as_str(get_path(v, keys_path(seq!["origin", "app", "platform"]))) {
            let keys = seq!["origin", "app"];
            let edit = EditView::RemoveKey("platform"@);
            lemma_step_keeps(Some(v), keys, edit, k);
            let a = if pc.deny_list is Some && list_contains(pc.deny_list->0@, p) {
                step(Some(v), keys, edit)
            } else {
                Some(v)
            };
            lemma_step_keeps(a, keys, edit, k);
        }
    }
}

proof fn lemma_user_count_keeps(st: Option<JsonView>, user_count: u64, k: Seq<char>)
    requires
        k != "origin"@,
    ensures
        keeps_key(st, user_count_step(st, user_count), k),
{
    if user_count <= 18446744073709551599u64 {
        let (min, max) = spec_user_count_range(user_count);
        let s1 = step(
            st,
            seq!["origin", "pod", "user_count_min"],
            EditView::Assign(JsonView::Number(JsonNumber::PosInt(min))),
        );
        let s2 = step(
            s1,
            seq!["origin", "pod", "user_count_max"],
            EditView::Assign(JsonView::Number(JsonNumber::PosInt(max))),
        );
        let s3 = step(
            s2,
            seq!["origin", "pod", "user_count_range"],
            EditView::Assign(JsonView::Str(decimal(min as nat) + "–"@ + decimal(max as nat))),
        );
        let s4 = step(
            s3,
            seq!["origin", "pod", "user_count_range_open"],
            EditView::Assign(JsonView::Str(decimal(min as nat) + "+"@)),
        );
        lemma_step_keeps(
            st,
            seq!["origin", "pod", "user_count_min"],
            EditView::Assign(JsonView::Number(JsonNumber::PosInt(min))),
            k,
        );
        lemma_step_keeps(
            s1,
            seq!["origin", "pod", "user_count_max"],
            EditView::Assign(JsonView::Number(JsonNumber::PosInt(max))),
            k,
        );
        lemma_step_keeps(
            s2,
            seq!["origin", "pod", "user_count_range"],
            EditView::Assign(JsonView::Str(decimal(min as nat) + "–"@ + decimal(max as nat))),
            k,
        );
        lemma_step_keeps(
            s3,
            seq!["origin", "pod", "user_count_range_open"],
            EditView::Assign(JsonView::Str(decimal(min as nat) + "+"@)),
            k,
        );
        assert(user_count_step(st, user_count) == s4);
    }
}

proof fn lemma_anonymize_keeps(st: Option<JsonView>, server_salt: Seq<u8>, k: Seq<char>)
    requires
        k != "origin"@,
    ensures
        keeps_key(st, anonymize_step(st, server_salt), k),
{
    if let Some(v) = st {
        if let Some(h) = as_str(get_path(v, keys_path(seq!["origin", "pod", "user_hash"]))) {
            lemma_update_path_other(
                v,
                keys_path(seq!["origin", "pod", "user_hash"]),
                EditView::Assign(JsonView::Str(spec_anonymize(encode_utf8(h), server_salt))),
                k,
            );
        }
    }
}

/// The server only overrides what it knows of an analytics event: every
/// top-level key other than `origin` and `proxied` (such as the event's
/// `name` and `data`) is sent as the client wrote it.
pub proof fn law_process_event_keeps_unknown_keys(
    e: JsonView,
    c: VendorAnalyticsConfig,
    pod_domain: Seq<char>,
    user_count: u64,
    server_salt: Seq<u8>,
    k: Seq<char>,
)
    requires
        k != "origin"@,
        k != "proxied"@,
    ensures
        processed_event(e, c, pod_domain, user_count, server_salt) matches Some(Some(out)) ==> get_key(
            out,
            k,
        ) == get_key(e, k),
{
    reveal_strlit("origin");
    reveal_strlit("proxied");
    if c.enabled && !(c.min_cohort_size is Some && user_count < c.min_cohort_size->0) {
        let u = c.usage;
        let name = origin_name(e);
        let s0 = Some(e);
        let s1 = if !(u.enabled && u.pod_version.enabled) {
            step(s0, seq!["origin", "pod"], EditView::RemoveKey("version"@))
        } else {
            s0
        };
        lemma_step_keeps(s0, seq!["origin", "pod"], EditView::RemoveKey("version"@), k);
        let s1a = step(s1, seq!["origin", "app"], EditView::RemoveKey("version"@));
        lemma_step_keeps(s1, seq!["origin", "app"], EditView::RemoveKey("version"@), k);
        lemma_step_keeps(s1a, seq!["origin"], EditView::RemoveKey("version"@), k);
        let s2 = if !(u.enabled && u.user_app_version.enabled) && name is Some
            && "prose-app-"@.is_prefix_of(name->0) {
            step(s1a, seq!["origin"], EditView::RemoveKey("version"@))
        } else {
            s1
        };
        assert(keeps_key(s0, s2, k));
        lemma_platform_keeps(s2, u.user_platform, k);
        lemma_step_keeps(s2, seq!["origin", "app"], EditView::RemoveKey("platform"@), k);
        let s3 = if u.enabled && u.user_platform.enabled {
            platform_step(s2, u.user_platform)
        } else {
            step(s2, seq!["origin", "app"], EditView::RemoveKey("platform"@))
        };
        assert(keeps_key(s0, s3, k));
        let s4 = if u.enabled && u.user_lang.enabled {
            match u.user_lang.max_locales {
                Some(m) => {
                    lemma_step_keeps(
                        s3,
                        seq!["origin", "app", "user_preferred_locales"],
                        EditView::Truncate(m as nat),
                        k,
                    );
                    step(
                        s3,
                        seq!["origin", "app", "user_preferred_locales"],
                        EditView::Truncate(m as nat),
                    )
                },
                None => s3,
            }
        } else {
            lemma_step_keeps(
                s3,
                seq!["origin", "app"],
                EditView::RemoveKey("user_preferred_locales"@),
                k,
            );
            step(s3, seq!["origin", "app"], EditView::RemoveKey("user_preferred_locales"@))
        };
        assert(keeps_key(s0, s4, k));
        lemma_step_keeps(
            s4,
            seq!["origin", "pod", "identifiable", "domain"],
            EditView::Assign(JsonView::Str(pod_domain)),
            k,
        );
        let s5 = if c.acquisition.enabled && c.acquisition.pod_domain.enabled {
            step(
                s4,
                seq!["origin", "pod", "identifiable", "domain"],
                EditView::Assign(JsonView::Str(pod_domain)),
            )
        } else {
            s4
        };
        assert(keeps_key(s0, s5, k));
        lemma_user_count_keeps(s5, user_count, k);
        let s6 = if u.enabled && u.meta_user_count.enabled {
            user_count_step(s5, user_count)
        } else {
            s5
        };
        assert(keeps_key(s0, s6, k));
        lemma_anonymize_keeps(s6, server_salt, k);
        let s7 = anonymize_step(s6, server_salt);
        assert(keeps_key(s0, s7, k));
        lemma_step_keeps(s7, seq!["proxied"], EditView::Assign(JsonView::Bool(true)), k);
        let s8 = step(s7, seq!["proxied"], EditView::Assign(JsonView::Bool(true)));
        assert(keeps_key(s0, s8, k));
    }
}

/// The path of the user hash in an event.
pub open spec fn user_hash_path() -> Seq<Seq<char>> {
    keys_path(seq!["origin", "pod", "user_hash"])
}

/// `b` is the processing of `a` so far, and did not change what `a` holds
/// at path `q`.
pub open spec fn keeps_path(a: Option<JsonView>, b: Option<JsonView>, q: Seq<Seq<char>>) -> bool {
    b matches Some(y) ==> (a matches Some(x) && get_path(y, q) == get_path(x, q))
}

proof fn lemma_step_keeps_path(st: Option<JsonView>, keys: Seq<&str>, edit: EditView, q: Seq<Seq<char>>)
    requires
        disjoint_paths(keys_path(keys), q, edit),
    ensures
        keeps_path(st, step(st, keys, edit), q),
{
    if let Some(v) = st {
        lemma_update_path_disjoint(v, keys_path(keys), edit, q);
    }
}

proof fn lemma_user_hash_disjoint()
    ensures
        disjoint_paths(keys_path(seq!["origin", "pod"]), user_hash_path(), EditView::RemoveKey("version"@)),
        forall|e: EditView| disjoint_paths(keys_path(seq!["origin", "app"]), user_hash_path(), e),
        disjoint_paths(keys_path(seq!["origin"]), user_hash_path(), EditView::RemoveKey("version"@)),
        forall|e: EditView|
            disjoint_paths(keys_path(seq!["origin", "app", "user_preferred_locales"]), user_hash_path(), e),
        forall|e: EditView|
            disjoint_paths(keys_path(seq!["origin", "pod", "identifiable", "domain"]), user_hash_path(), e),
        forall|e: EditView| disjoint_paths(keys_path(seq!["origin", "pod", "user_count_min"]), user_hash_path(), e),
        forall|e: EditView| disjoint_paths(keys_path(seq!["origin", "pod", "user_count_max"]), user_hash_path(), e),
        forall|e: EditView| disjoint_paths(keys_path(seq!["origin", "pod", "user_count_range"]), user_hash_path(), e),
        forall|e: EditView|
            disjoint_paths(keys_path(seq!["origin", "pod", "user_count_range_open"]), user_hash_path(), e),
        forall|e: EditView| disjoint_paths(keys_path(seq!["proxied"]), user_hash_path(), e),
{
    reveal_strlit("origin");
    reveal_strlit("pod");
    reveal_strlit("app");
    reveal_strlit("user_hash");
    reveal_strlit("version");
    reveal_strlit("user_preferred_locales");
    reveal_strlit("identifiable");
    reveal_strlit("user_count_min");
    reveal_strlit("user_count_max");
    reveal_strlit("user_count_range");
    reveal_strlit("user_count_range_open");
    reveal_strlit("proxied");
    reveal_with_fuel(disjoint_paths, 4);
    let uh = user_hash_path();
    assert(uh[0] == "origin"@ && uh[1] == "pod"@ && uh[2] == "user_hash"@);
    assert(uh.drop_first()[0] == "pod"@);
    assert(uh.drop_first().drop_first()[0] == "user_hash"@);
    assert("app"@ != "pod"@) by {
        assert("app"@[0] != "pod"@[0]);
    }
    assert("version"@ != "pod"@) by {
        assert("version"@.len() != "pod"@.len());
    }
    assert("version"@ != "user_hash"@) by {
        assert("version"@.len() != "user_hash"@.len());
    }
    assert("identifiable"@ != "user_hash"@) by {
        assert("identifiable"@.len() != "user_hash"@.len());
    }
    assert("user_count_min"@ != "user_hash"@) by {
        assert("user_count_min"@.len() != "user_hash"@.len());
    }
    assert("user_count_max"@ != "user_hash"@) by {
        assert("user_count_max"@.len() != "user_hash"@.len());
    }
    assert("user_count_range"@ != "user_hash"@) by {
        assert("user_count_range"@.len() != "user_hash"@.len());
    }
    assert("user_count_range_open"@ != "user_hash"@) by {
        assert("user_count_range_open"@.len() != "user_hash"@.len());
    }
    assert("proxied"@ != "origin"@) by {
        assert("proxied"@[0] != "origin"@[0]);
    }
    let p1 = keys_path(seq!["origin", "pod"]);
    assert(p1.drop_first().drop_first().len() == 0);
    let p3 = keys_path(seq!["origin"]);
    assert(p3.drop_first().len() == 0);
    assert forall|e: EditView| disjoint_paths(keys_path(seq!["origin", "app"]), uh, e) by {
        let p = keys_path(seq!["origin", "app"]);
        assert(p.drop_first()[0] == "app"@);
    }
    assert forall|e: EditView|
        disjoint_paths(keys_path(seq!["origin", "app", "user_preferred_locales"]), uh, e) by {
        let p = keys_path(seq!["origin", "app", "user_preferred_locales"]);
        assert(p.drop_first()[0] == "app"@);
    }
    assert forall|e: EditView| disjoint_paths(keys_path(seq!["origin", "pod", "identifiable", "domain"]), uh, e) by {
        let p = keys_path(seq!["origin", "pod", "identifiable", "domain"]);
        assert(p.drop_first()[0] == "pod"@);
        assert(p.drop_first().drop_first()[0] == "identifiable"@);
    }
    assert forall|e: EditView| disjoint_paths(keys_path(seq!["origin", "pod", "user_count_min"]), uh, e) by {
        let p = keys_path(seq!["origin", "pod", "user_count_min"]);
        assert(p.drop_first().drop_first()[0] == "user_count_min"@);
    }
    assert forall|e: EditView| disjoint_paths(keys_path(seq!["origin", "pod", "user_count_max"]), uh, e) by {
        let p = keys_path(seq!["origin", "pod", "user_count_max"]);
        assert(p.drop_first().drop_first()[0] == "user_count_max"@);
    }
    assert forall|e: EditView| disjoint_paths(keys_path(seq!["origin", "pod", "user_count_range"]), uh, e) by {
        let p = keys_path(seq!["origin", "pod", "user_count_range"]);
        assert(p.drop_first().drop_first()[0] == "user_count_range"@);
    }
    assert forall|e: EditView|
        disjoint_paths(keys_path(seq!["origin", "pod", "user_count_range_open"]), uh, e) by {
        let p = keys_path(seq!["origin", "pod", "user_count_range_open"]);
        assert(p.drop_first().drop_first()[0] == "user_count_range_open"@);
    }
    assert forall|e: EditView| disjoint_paths(keys_path(seq!["proxied"]), uh, e) by {
        let p = keys_path(seq!["proxied"]);
        assert(p[0] == "proxied"@);
    }
}

/// Adding the user count bucket leaves what is at path `q` as it was, when
/// `q` is none of the bucket's paths.
proof fn lemma_user_count_keeps_path(st: Option<JsonView>, user_count: u64, q: Seq<Seq<char>>)
    requires
        forall|e: EditView| disjoint_paths(keys_path(seq!["origin", "pod", "user_count_min"]), q, e),
        forall|e: EditView| disjoint_paths(keys_path(seq!["origin", "pod", "user_count_max"]), q, e),
        forall|e: EditView| disjoint_paths(keys_path(seq!["origin", "pod", "user_count_range"]), q, e),
        forall|e: EditView| disjoint_paths(keys_path(seq!["origin", "pod", "user_count_range_open"]), q, e),
    ensures
        keeps_path(st, user_count_step(st, user_count), q),
{
    if user_count <= 18446744073709551599u64 {
        let (min, max) = spec_user_count_range(user_count);
        let e1 = EditView::Assign(JsonView::Number(JsonNumber::PosInt(min)));
        let e2 = EditView::Assign(JsonView::Number(JsonNumber::PosInt(max)));
        let e3 = EditView::Assign(JsonView::Str(decimal(min as nat) + "–"@ + decimal(max as nat)));
        let e4 = EditView::Assign(JsonView::Str(decimal(min as nat) + "+"@));
        let t1 = step(st, seq!["origin", "pod", "user_count_min"], e1);
        let t2 = step(t1, seq!["origin", "pod", "user_count_max"], e2);
        let t3 = step(t2, seq!["origin", "pod", "user_count_range"], e3);
        lemma_step_keeps_path(st, seq!["origin", "pod", "user_count_min"], e1, q);
        lemma_step_keeps_path(t1, seq!["origin", "pod", "user_count_max"], e2, q);
        lemma_step_keeps_path(t2, seq!["origin", "pod", "user_count_range"], e3, q);
        lemma_step_keeps_path(t3, seq!["origin", "pod", "user_count_range_open"], e4, q);
    }
}

/// The user hash that leaves the server is never the one the app sent: when
/// the event holds one (a string) and is sent, it is sent anonymized with
/// the server's salt.
pub proof fn law_process_event_anonymizes_user_hash(
    e: JsonView,
    c: VendorAnalyticsConfig,
    pod_domain: Seq<char>,
    user_count: u64,
    server_salt: Seq<u8>,
)
    ensures
        processed_event(e, c, pod_domain, user_count, server_salt) matches Some(Some(out)) ==> (as_str(
            get_path(e, user_hash_path()),
        ) matches Some(h) ==> get_path(out, user_hash_path()) == JsonView::Str(
            spec_anonymize(encode_utf8(h), server_salt),
        )),
{
    lemma_user_hash_disjoint();
    let q = user_hash_path();
    if c.enabled && !(c.min_cohort_size is Some && user_count < c.min_cohort_size->0) {
        let u = c.usage;
        let name = origin_name(e);
        let s0 = Some(e);
        let s1 = if !(u.enabled && u.pod_version.enabled) {
            step(s0, seq!["origin", "pod"], EditView::RemoveKey("version"@))
        } else {
            s0
        };
        lemma_step_keeps_path(s0, seq!["origin", "pod"], EditView::RemoveKey("version"@), q);
        let s1a = step(s1, seq!["origin", "app"], EditView::RemoveKey("version"@));
        lemma_step_keeps_path(s1, seq!["origin", "app"], EditView::RemoveKey("version"@), q);
        lemma_step_keeps_path(s1a, seq!["origin"], EditView::RemoveKey("version"@), q);
        let s2 = if !(u.enabled && u.user_app_version.enabled) && name is Some
            && "prose-app-"@.is_prefix_of(name->0) {
            step(s1a, seq!["origin"], EditView::RemoveKey("version"@))
        } else {
            s1
        };
        assert(keeps_path(s0, s2, q));
        let platform_edit = EditView::RemoveKey("platform"@);
        lemma_step_keeps_path(s2, seq!["origin", "app"], platform_edit, q);
        if let Some(v) = s2 {
            if let Some(p) = as_str(get_path(v, keys_path(seq!["origin", "app", "platform"]))) {
                let a = if u.user_platform.deny_list is Some && list_contains(
                    u.user_platform.deny_list->0@,
                    p,
                ) {
                    step(Some(v), seq!["origin", "app"], platform_edit)
                } else {
                    Some(v)
                };
                lemma_step_keeps_path(a, seq!["origin", "app"], platform_edit, q);
            }
        }
        let s3 = if u.enabled && u.user_platform.enabled {
            platform_step(s2, u.user_platform)
        } else {
            step(s2, seq!["origin", "app"], platform_edit)
        };
        assert(keeps_path(s0, s3, q));
        let s4 = if u.enabled && u.user_lang.enabled {
            match u.user_lang.max_locales {
                Some(m) => {
                    lemma_step_keeps_path(
                        s3,
                        seq!["origin", "app", "user_preferred_locales"],
                        EditView::Truncate(m as nat),
                        q,
                    );
                    step(
                        s3,
                        seq!["origin", "app", "user_preferred_locales"],
                        EditView::Truncate(m as nat),
                    )
                },
                None => s3,
            }
        } else {
            lemma_step_keeps_path(
                s3,
                seq!["origin", "app"],
                EditView::RemoveKey("user_preferred_locales"@),
                q,
            );
            step(s3, seq!["origin", "app"], EditView::RemoveKey("user_preferred_locales"@))
        };
        assert(keeps_path(s0, s4, q));
        lemma_step_keeps_path(
            s4,
            seq!["origin", "pod", "identifiable", "domain"],
            EditView::Assign(JsonView::Str(pod_domain)),
            q,
        );
        let s5 = if c.acquisition.enabled && c.acquisition.pod_domain.enabled {
            step(
                s4,
                seq!["origin", "pod", "identifiable", "domain"],
                EditView::Assign(JsonView::Str(pod_domain)),
            )
        } else {
            s4
        };
        assert(keeps_path(s0, s5, q));
        lemma_user_count_keeps_path(s5, user_count, q);
        let s6 = if u.enabled && u.meta_user_count.enabled {
            user_count_step(s5, user_count)
        } else {
            s5
        };
        assert(keeps_path(s0, s6, q));
        let s7 = anonymize_step(s6, server_salt);
        if let Some(v6) = s6 {
            if let Some(h) = as_str(get_path(v6, q)) {
                lemma_update_path_assign(
                    v6,
                    q,
                    JsonView::Str(spec_anonymize(encode_utf8(h), server_salt)),
                );
            }
        }
        lemma_step_keeps_path(s7, seq!["proxied"], EditView::Assign(JsonView::Bool(true)), q);
    }
}

/// The path of the pod's domain in an event.
pub open spec fn pod_domain_path() -> Seq<Seq<char>> {
    keys_path(seq!["origin", "pod", "identifiable", "domain"])
}

proof fn lemma_pod_domain_disjoint()
    ensures
        forall|e: EditView| disjoint_paths(keys_path(seq!["origin", "pod", "user_count_min"]), pod_domain_path(), e),
        forall|e: EditView| disjoint_paths(keys_path(seq!["origin", "pod", "user_count_max"]), pod_domain_path(), e),
        forall|e: EditView|
            disjoint_paths(keys_path(seq!["origin", "pod", "user_count_range"]), pod_domain_path(), e),
        forall|e: EditView|
            disjoint_paths(keys_path(seq!["origin", "pod", "user_count_range_open"]), pod_domain_path(), e),
        forall|e: EditView| disjoint_paths(user_hash_path(), pod_domain_path(), e),
        forall|e: EditView| disjoint_paths(keys_path(seq!["proxied"]), pod_domain_path(), e),
{
    reveal_strlit("origin");
    reveal_strlit("pod");
    reveal_strlit("identifiable");
    reveal_strlit("domain");
    reveal_strlit("user_hash");
    reveal_strlit("user_count_min");
    reveal_strlit("user_count_max");
    reveal_strlit("user_count_range");
    reveal_strlit("user_count_range_open");
    reveal_strlit("proxied");
    reveal_with_fuel(disjoint_paths, 4);
    let dp = pod_domain_path();
    assert(dp[0] == "origin"@ && dp[1] == "pod"@ && dp[2] == "identifiable"@);
    assert(dp.drop_first()[0] == "pod"@);
    assert(dp.drop_first().drop_first()[0] == "identifiable"@);
    assert("user_count_min"@ != "identifiable"@) by {
        assert("user_count_min"@.len() != "identifiable"@.len());
    }
    assert("user_count_max"@ != "identifiable"@) by {
        assert("user_count_max"@.len() != "identifiable"@.len());
    }
    assert("user_count_range"@ != "identifiable"@) by {
        assert("user_count_range"@.len() != "identifiable"@.len());
    }
    assert("user_count_range_open"@ != "identifiable"@) by {
        assert("user_count_range_open"@.len() != "identifiable"@.len());
    }
    assert("user_hash"@ != "identifiable"@) by {
        assert("user_hash"@.len() != "identifiable"@.len());
    }
    assert("proxied"@ != "origin"@) by {
        assert("proxied"@[0] != "origin"@[0]);
    }
    assert forall|e: EditView| disjoint_paths(keys_path(seq!["origin", "pod", "user_count_min"]), dp, e) by {
        let p = keys_path(seq!["origin", "pod", "user_count_min"]);
        assert(p.drop_first().drop_first()[0] == "user_count_min"@);
    }
    assert forall|e: EditView| disjoint_paths(keys_path(seq!["origin", "pod", "user_count_max"]), dp, e) by {
        let p = keys_path(seq!["origin", "pod", "user_count_max"]);
        assert(p.drop_first().drop_first()[0] == "user_count_max"@);
    }
    assert forall|e: EditView| disjoint_paths(keys_path(seq!["origin", "pod", "user_count_range"]), dp, e) by {
        let p = keys_path(seq!["origin", "pod", "user_count_range"]);
        assert(p.drop_first().drop_first()[0] == "user_count_range"@);
    }
    assert forall|e: EditView|
        disjoint_paths(keys_path(seq!["origin", "pod", "user_count_range_open"]), dp, e) by {
        let p = keys_path(seq!["origin", "pod", "user_count_range_open"]);
        assert(p.drop_first().drop_first()[0] == "user_count_range_open"@);
    }
    assert forall|e: EditView| disjoint_paths(user_hash_path(), dp, e) by {
        let p = user_hash_path();
        assert(p.drop_first().drop_first()[0] == "user_hash"@);
    }
    assert forall|e: EditView| disjoint_paths(keys_path(seq!["proxied"]), dp, e) by {
        let p = keys_path(seq!["proxied"]);
        assert(p[0] == "proxied"@);
    }
}

/// The pod's domain leaves the server only when the configuration opts in to
/// sharing it: otherwise the domain given has no effect on what is sent, and
/// when it opts in, a sent event carries that domain.
pub proof fn law_pod_domain_only_when_opted_in(
    e: JsonView,
    c: VendorAnalyticsConfig,
    d1: Seq<char>,
    d2: Seq<char>,
    user_count: u64,
    server_salt: Seq<u8>,
)
    ensures
        !(c.acquisition.enabled && c.acquisition.pod_domain.enabled) ==> processed_event(
            e,
            c,
            d1,
            user_count,
            server_salt,
        ) == processed_event(e, c, d2, user_count, server_salt),
        c.acquisition.enabled && c.acquisition.pod_domain.enabled ==> (processed_event(
            e,
            c,
            d1,
            user_count,
            server_salt,
        ) matches Some(Some(out)) ==> get_path(out, pod_domain_path()) == JsonView::Str(d1)),
{
    lemma_pod_domain_disjoint();
    let q = pod_domain_path();
    if c.enabled && !(c.min_cohort_size is Some && user_count < c.min_cohort_size->0)
        && c.acquisition.enabled && c.acquisition.pod_domain.enabled {
        let u = c.usage;
        let s4 = usage_filtered(e, c);
        if let Some(v4) = s4 {
            lemma_update_path_assign(v4, q, JsonView::Str(d1));
        }
        let s5 = step(s4, seq!["origin", "pod", "identifiable", "domain"], EditView::Assign(JsonView::Str(d1)));
        lemma_user_count_keeps_path(s5, user_count, q);
        let s6 = if u.enabled && u.meta_user_count.enabled {
            user_count_step(s5, user_count)
        } else {
            s5
        };
        assert(keeps_path(s5, s6, q));
        let s7 = anonymize_step(s6, server_salt);
        if let Some(v6) = s6 {
            if let Some(h) = as_str(get_path(v6, user_hash_path())) {
                lemma_update_path_disjoint(
                    v6,
                    user_hash_path(),
                    EditView::Assign(JsonView::Str(spec_anonymize(encode_utf8(h), server_salt))),
                    q,
                );
            }
        }
        assert(keeps_path(s6, s7, q));
        lemma_step_keeps_path(s7, seq!["proxied"], EditView::Assign(JsonView::Bool(true)), q);
    }
}

/// The path of the user's preferred locales in an event.
pub open spec fn locales_path() -> Seq<Seq<char>> {
    keys_path(seq!["origin", "app", "user_preferred_locales"])
}

proof fn lemma_locales_disjoint()
    ensures
        disjoint_paths(keys_path(seq!["origin", "pod"]), locales_path(), EditView::RemoveKey("version"@)),
        disjoint_paths(keys_path(seq!["origin", "app"]), locales_path(), EditView::RemoveKey("version"@)),
        disjoint_paths(keys_path(seq!["origin"]), locales_path(), EditView::RemoveKey("version"@)),
        disjoint_paths(keys_path(seq!["origin", "app"]), locales_path(), EditView::RemoveKey("platform"@)),
        forall|e: EditView|
            disjoint_paths(keys_path(seq!["origin", "pod", "identifiable", "domain"]), locales_path(), e),
        forall|e: EditView| disjoint_paths(keys_path(seq!["origin", "pod", "user_count_min"]), locales_path(), e),
        forall|e: EditView| disjoint_paths(keys_path(seq!["origin", "pod", "user_count_max"]), locales_path(), e),
        forall|e: EditView| disjoint_paths(keys_path(seq!["origin", "pod", "user_count_range"]), locales_path(), e),
        forall|e: EditView|
            disjoint_paths(keys_path(seq!["origin", "pod", "user_count_range_open"]), locales_path(), e),
        forall|e: EditView| disjoint_paths(user_hash_path(), locales_path(), e),
        forall|e: EditView| disjoint_paths(keys_path(seq!["proxied"]), locales_path(), e),
{
    reveal_strlit("origin");
    reveal_strlit("pod");
    reveal_strlit("app");
    reveal_strlit("version");
    reveal_strlit("platform");
    reveal_strlit("user_preferred_locales");
    reveal_strlit("proxied");
    reveal_with_fuel(disjoint_paths, 4);
    let lp = locales_path();
    assert(lp[0] == "origin"@ && lp[1] == "app"@ && lp[2] == "user_preferred_locales"@);
    assert(lp.drop_first()[0] == "app"@);
    assert(lp.drop_first().drop_first()[0] == "user_preferred_locales"@);
    assert("pod"@ != "app"@) by {
        assert("pod"@[0] != "app"@[0]);
    }
    assert("app"@ != "version"@) by {
        assert("app"@.len() != "version"@.len());
    }
    assert("user_preferred_locales"@ != "version"@) by {
        assert("user_preferred_locales"@.len() != "version"@.len());
    }
    assert("user_preferred_locales"@ != "platform"@) by {
        assert("user_preferred_locales"@.len() != "platform"@.len());
    }
    assert("proxied"@ != "origin"@) by {
        assert("proxied"@[0] != "origin"@[0]);
    }
    let p1 = keys_path(seq!["origin", "pod"]);
    assert(p1.drop_first()[0] == "pod"@);
    let p2 = keys_path(seq!["origin", "app"]);
    assert(p2.drop_first()[0] == "app"@);
    assert(p2.drop_first().drop_first().len() == 0);
    let p3 = keys_path(seq!["origin"]);
    assert(p3.drop_first().len() == 0);
    assert forall|e: EditView|
        disjoint_paths(keys_path(seq!["origin", "pod", "identifiable", "domain"]), lp, e) by {
        let p = keys_path(seq!["origin", "pod", "identifiable", "domain"]);
        assert(p.drop_first()[0] == "pod"@);
    }
    assert forall|e: EditView| disjoint_paths(keys_path(seq!["origin", "pod", "user_count_min"]), lp, e) by {
        let p = keys_path(seq!["origin", "pod", "user_count_min"]);
        assert(p.drop_first()[0] == "pod"@);
    }
    assert forall|e: EditView| disjoint_paths(keys_path(seq!["origin", "pod", "user_count_max"]), lp, e) by {
        let p = keys_path(seq!["origin", "pod", "user_count_max"]);
        assert(p.drop_first()[0] == "pod"@);
    }
    assert forall|e: EditView| disjoint_paths(keys_path(seq!["origin", "pod", "user_count_range"]), lp, e) by {
        let p = keys_path(seq!["origin", "pod", "user_count_range"]);
        assert(p.drop_first()[0] == "pod"@);
    }
    assert forall|e: EditView|
        disjoint_paths(keys_path(seq!["origin", "pod", "user_count_range_open"]), lp, e) by {
        let p = keys_path(seq!["origin", "pod", "user_count_range_open"]);
        assert(p.drop_first()[0] == "pod"@);
    }
    assert forall|e: EditView| disjoint_paths(user_hash_path(), lp, e) by {
        let p = user_hash_path();
        assert(p.drop_first()[0] == "pod"@);
    }
    assert forall|e: EditView| disjoint_paths(keys_path(seq!["proxied"]), lp, e) by {
        let p = keys_path(seq!["proxied"]);
        assert(p[0] == "proxied"@);
    }
}

/// With the language data point on and a maximum of `m` locales, the
/// user's preferred locales are sent cut to their first `m`: a list of
/// locales comes out as its first `m` entries (all of them when it has
/// fewer), and anything else as it was sent in.
pub proof fn law_locales_are_truncated(
    e: JsonView,
    c: VendorAnalyticsConfig,
    pod_domain: Seq<char>,
    user_count: u64,
    server_salt: Seq<u8>,
)
    ensures
        c.usage.enabled && c.usage.user_lang.enabled ==> (c.usage.user_lang.max_locales matches Some(m)
            ==> (processed_event(e, c, pod_domain, user_count, server_salt) matches Some(Some(out)) ==> ({
            let sent = get_path(out, locales_path());
            match get_path(e, locales_path()) {
                JsonView::Array(a) => sent == JsonView::Array(
                    if m <= a.len() {
                        a.take(m as int)
                    } else {
                        a
                    },
                ),
                other => sent == other,
            }
        }))),
{
    lemma_locales_disjoint();
    let q = locales_path();
    if c.enabled && !(c.min_cohort_size is Some && user_count < c.min_cohort_size->0) && c.usage.enabled
        && c.usage.user_lang.enabled && c.usage.user_lang.max_locales is Some {
        let m = c.usage.user_lang.max_locales->0;
        let u = c.usage;
        let name = origin_name(e);
        let s0 = Some(e);
        let s1 = if !(u.enabled && u.pod_version.enabled) {
            step(s0, seq!["origin", "pod"], EditView::RemoveKey("version"@))
        } else {
            s0
        };
        lemma_step_keeps_path(s0, seq!["origin", "pod"], EditView::RemoveKey("version"@), q);
        let s1a = step(s1, seq!["origin", "app"], EditView::RemoveKey("version"@));
        lemma_step_keeps_path(s1, seq!["origin", "app"], EditView::RemoveKey("version"@), q);
        lemma_step_keeps_path(s1a, seq!["origin"], EditView::RemoveKey("version"@), q);
        let s2 = if !(u.enabled && u.user_app_version.enabled) && name is Some
            && "prose-app-"@.is_prefix_of(name->0) {
            step(s1a, seq!["origin"], EditView::RemoveKey("version"@))
        } else {
            s1
        };
        assert(keeps_path(s0, s2, q));
        let platform_edit = EditView::RemoveKey("platform"@);
        lemma_step_keeps_path(s2, seq!["origin", "app"], platform_edit, q);
        if let Some(v) = s2 {
            if let Some(p) = as_str(get_path(v, keys_path(seq!["origin", "app", "platform"]))) {
                let a = if u.user_platform.deny_list is Some && list_contains(
                    u.user_platform.deny_list->0@,
                    p,
                ) {
                    step(Some(v), seq!["origin", "app"], platform_edit)
                } else {
                    Some(v)
                };
                lemma_step_keeps_path(a, seq!["origin", "app"], platform_edit, q);
            }
        }
        let s3 = if u.enabled && u.user_platform.enabled {
            platform_step(s2, u.user_platform)
        } else {
            step(s2, seq!["origin", "app"], platform_edit)
        };
        assert(keeps_path(s0, s3, q));
        let truncate = EditView::Truncate(m as nat);
        if let Some(v3) = s3 {
            lemma_update_path_edit(v3, q, truncate);
        }
        let s4 = step(s3, seq!["origin", "app", "user_preferred_locales"], truncate);
        assert(s4 == usage_filtered(e, c));
        let domain = EditView::Assign(JsonView::Str(pod_domain));
        lemma_step_keeps_path(s4, seq!["origin", "pod", "identifiable", "domain"], domain, q);
        let s5 = if c.acquisition.enabled && c.acquisition.pod_domain.enabled {
            step(s4, seq!["origin", "pod", "identifiable", "domain"], domain)
        } else {
            s4
        };
        assert(keeps_path(s4, s5, q));
        lemma_user_count_keeps_path(s5, user_count, q);
        let s6 = if u.enabled && u.meta_user_count.enabled {
            user_count_step(s5, user_count)
        } else {
            s5
        };
        assert(keeps_path(s5, s6, q));
        let s7 = anonymize_step(s6, server_salt);
        if let Some(v6) = s6 {
            if let Some(h) = as_str(get_path(v6, user_hash_path())) {
                lemma_update_path_disjoint(
                    v6,
                    user_hash_path(),
                    EditView::Assign(JsonView::Str(spec_anonymize(encode_utf8(h), server_salt))),
                    q,
                );
            }
        }
        assert(keeps_path(s6, s7, q));
        lemma_step_keeps_path(s7, seq!["proxied"], EditView::Assign(JsonView::Bool(true)), q);
    }
}

/// The path of the app's description in an event.
pub open spec fn app_path() -> Seq<Seq<char>> {
    keys_path(seq!["origin", "app"])
}

/// The path of the user's platform in an event.
pub open spec fn platform_path() -> Seq<Seq<char>> {
    keys_path(seq!["origin", "app", "platform"])
}

/// Platform `p` passes the deny list and the allow list, where given.
pub open spec fn platform_allowed(pc: UserPlatformConfig, p: Seq<char>) -> bool {
    &&& !(pc.deny_list is Some && list_contains(pc.deny_list->0@, p))
    &&& (pc.allow_list is Some ==> list_contains(pc.allow_list->0@, p))
}

/// The app's description, in the event under processing, holds the
/// platform key at most once.
spec fn single_platform(st: Option<JsonView>) -> bool {
    st matches Some(v) ==> key_at_most_once(get_path(v, app_path()), "platform"@)
}

proof fn lemma_remove_platform(st: Option<JsonView>)
    requires
        single_platform(st),
    ensures
        step(st, seq!["origin", "app"], EditView::RemoveKey("platform"@)) matches Some(w) ==> (get_path(
            w,
            platform_path(),
        ) == JsonView::Null && single_platform(Some(w))),
{
    if let Some(v) = st {
        let edit = EditView::RemoveKey("platform"@);
        lemma_update_path_edit(v, app_path(), edit);
        lemma_remove_key_once(get_path(v, app_path()), "platform"@);
        if let Some(w) = step(st, seq!["origin", "app"], edit) {
            lemma_get_path_push(w, app_path(), "platform"@);
            assert(platform_path() =~= app_path().push("platform"@));
        }
    }
}

proof fn lemma_remove_other_in_app(st: Option<JsonView>, key: Seq<char>)
    requires
        single_platform(st),
    ensures
        single_platform(step(st, seq!["origin", "app"], EditView::RemoveKey(key))),
{
    if let Some(v) = st {
        lemma_update_path_edit(v, app_path(), EditView::RemoveKey(key));
        lemma_remove_other_key_once(get_path(v, app_path()), key, "platform"@);
    }
}

proof fn lemma_platform_disjoint()
    ensures
        disjoint_paths(keys_path(seq!["origin", "pod"]), platform_path(), EditView::RemoveKey("version"@)),
        disjoint_paths(keys_path(seq!["origin", "pod"]), app_path(), EditView::RemoveKey("version"@)),
        disjoint_paths(keys_path(seq!["origin", "app"]), platform_path(), EditView::RemoveKey("version"@)),
        disjoint_paths(keys_path(seq!["origin"]), platform_path(), EditView::RemoveKey("version"@)),
        disjoint_paths(keys_path(seq!["origin"]), app_path(), EditView::RemoveKey("version"@)),
        forall|e: EditView|
            disjoint_paths(keys_path(seq!["origin", "app", "user_preferred_locales"]), platform_path(), e),
        disjoint_paths(
            keys_path(seq!["origin", "app"]),
            platform_path(),
            EditView::RemoveKey("user_preferred_locales"@),
        ),
        forall|e: EditView|
            disjoint_paths(keys_path(seq!["origin", "pod", "identifiable", "domain"]), platform_path(), e),
        forall|e: EditView| disjoint_paths(keys_path(seq!["origin", "pod", "user_count_min"]), platform_path(), e),
        forall|e: EditView| disjoint_paths(keys_path(seq!["origin", "pod", "user_count_max"]), platform_path(), e),
        forall|e: EditView|
            disjoint_paths(keys_path(seq!["origin", "pod", "user_count_range"]), platform_path(), e),
        forall|e: EditView|
            disjoint_paths(keys_path(seq!["origin", "pod", "user_count_range_open"]), platform_path(), e),
        forall|e: EditView| disjoint_paths(user_hash_path(), platform_path(), e),
        forall|e: EditView| disjoint_paths(keys_path(seq!["proxied"]), platform_path(), e),
{
    reveal_strlit("origin");
    reveal_strlit("pod");
    reveal_strlit("app");
    reveal_strlit("version");
    reveal_strlit("platform");
    reveal_strlit("user_preferred_locales");
    reveal_strlit("proxied");
    reveal_with_fuel(disjoint_paths, 4);
    let q = platform_path();
    let ap = app_path();
    assert(q[0] == "origin"@ && q[1] == "app"@ && q[2] == "platform"@);
    assert(q.drop_first()[0] == "app"@);
    assert(q.drop_first().drop_first()[0] == "platform"@);
    assert(ap.drop_first()[0] == "app"@);
    assert("pod"@ != "app"@) by {
        assert("pod"@[0] != "app"@[0]);
    }
    assert("app"@ != "version"@) by {
        assert("app"@.len() != "version"@.len());
    }
    assert("platform"@ != "version"@) by {
        assert("platform"@.len() != "version"@.len());
    }
    assert("user_preferred_locales"@ != "platform"@) by {
        assert("user_preferred_locales"@.len() != "platform"@.len());
    }
    assert("proxied"@ != "origin"@) by {
        assert("proxied"@[0] != "origin"@[0]);
    }
    let p1 = keys_path(seq!["origin", "pod"]);
    assert(p1.drop_first()[0] == "pod"@);
    let p2 = keys_path(seq!["origin", "app"]);
    assert(p2.drop_first()[0] == "app"@);
    assert(p2.drop_first().drop_first().len() == 0);
    let p3 = keys_path(seq!["origin"]);
    assert(p3.drop_first().len() == 0);
    assert forall|e: EditView|
        disjoint_paths(keys_path(seq!["origin", "app", "user_preferred_locales"]), q, e) by {
        let p = keys_path(seq!["origin", "app", "user_preferred_locales"]);
        assert(p.drop_first().drop_first()[0] == "user_preferred_locales"@);
    }
    assert forall|e: EditView|
        disjoint_paths(keys_path(seq!["origin", "pod", "identifiable", "domain"]), q, e) by {
        let p = keys_path(seq!["origin", "pod", "identifiable", "domain"]);
        assert(p.drop_first()[0] == "pod"@);
    }
    assert forall|e: EditView| disjoint_paths(keys_path(seq!["origin", "pod", "user_count_min"]), q, e) by {
        let p = keys_path(seq!["origin", "pod", "user_count_min"]);
        assert(p.drop_first()[0] == "pod"@);
    }
    assert forall|e: EditView| disjoint_paths(keys_path(seq!["origin", "pod", "user_count_max"]), q, e) by {
        let p = keys_path(seq!["origin", "pod", "user_count_max"]);
        assert(p.drop_first()[0] == "pod"@);
    }
    assert forall|e: EditView| disjoint_paths(keys_path(seq!["origin", "pod", "user_count_range"]), q, e) by {
        let p = keys_path(seq!["origin", "pod", "user_count_range"]);
        assert(p.drop_first()[0] == "pod"@);
    }
    assert forall|e: EditView|
        disjoint_paths(keys_path(seq!["origin", "pod", "user_count_range_open"]), q, e) by {
        let p = keys_path(seq!["origin", "pod", "user_count_range_open"]);
        assert(p.drop_first()[0] == "pod"@);
    }
    assert forall|e: EditView| disjoint_paths(user_hash_path(), q, e) by {
        let p = user_hash_path();
        assert(p.drop_first()[0] == "pod"@);
    }
    assert forall|e: EditView| disjoint_paths(keys_path(seq!["proxied"]), q, e) by {
        let p = keys_path(seq!["proxied"]);
        assert(p[0] == "proxied"@);
    }
}

/// The usage steps before the platform's leave the event's platform, and
/// how often its key occurs, as they were.
proof fn lemma_before_platform(e: JsonView, c: VendorAnalyticsConfig) -> (s2: Option<JsonView>)
    requires
        key_at_most_once(get_path(e, app_path()), "platform"@),
    ensures
        keeps_path(Some(e), s2, platform_path()),
        single_platform(s2),
        usage_filtered(e, c) == ({
            let u = c.usage;
            let s3 = if u.enabled && u.user_platform.enabled {
                platform_step(s2, u.user_platform)
            } else {
                step(s2, seq!["origin", "app"], EditView::RemoveKey("platform"@))
            };
            if u.enabled && u.user_lang.enabled {
                match u.user_lang.max_locales {
                    Some(m) => step(
                        s3,
                        seq!["origin", "app", "user_preferred_locales"],
                        EditView::Truncate(m as nat),
                    ),
                    None => s3,
                }
            } else {
                step(s3, seq!["origin", "app"], EditView::RemoveKey("user_preferred_locales"@))
            }
        }),
{
    lemma_platform_disjoint();
    let q = platform_path();
    let u = c.usage;
    let name = origin_name(e);
    let s0 = Some(e);
    let version = EditView::RemoveKey("version"@);
    let s1 = if !(u.enabled && u.pod_version.enabled) {
        step(s0, seq!["origin", "pod"], version)
    } else {
        s0
    };
    lemma_step_keeps_path(s0, seq!["origin", "pod"], version, q);
    lemma_step_keeps_path(s0, seq!["origin", "pod"], version, app_path());
    let s1a = step(s1, seq!["origin", "app"], version);
    lemma_step_keeps_path(s1, seq!["origin", "app"], version, q);
    lemma_remove_other_in_app(s1, "version"@);
    lemma_step_keeps_path(s1a, seq!["origin"], version, q);
    lemma_step_keeps_path(s1a, seq!["origin"], version, app_path());
    if !(u.enabled && u.user_app_version.enabled) && name is Some && "prose-app-"@.is_prefix_of(name->0) {
        step(s1a, seq!["origin"], version)
    } else {
        s1
    }
}

/// The user's platform is sent only when the platform data point is on and
/// the platform passes the deny and allow lists, and then it is sent as the
/// app gave it. (The app's description is a JSON object, so it holds the
/// platform key at most once.)
pub proof fn law_platform_sent_only_if_allowed(
    e: JsonView,
    c: VendorAnalyticsConfig,
    pod_domain: Seq<char>,
    user_count: u64,
    server_salt: Seq<u8>,
)
    requires
        key_at_most_once(get_path(e, app_path()), "platform"@),
    ensures
        processed_event(e, c, pod_domain, user_count, server_salt) matches Some(Some(out)) ==> ({
            let pc = c.usage.user_platform;
            let sent = as_str(get_path(out, platform_path()));
            let given = as_str(get_path(e, platform_path()));
            &&& sent matches Some(p) ==> c.usage.enabled && pc.enabled && platform_allowed(pc, p) && given
                == Some(p)
            &&& given matches Some(p) ==> (c.usage.enabled && pc.enabled && platform_allowed(pc, p) ==> sent
                == Some(p))
        }),
{
    lemma_platform_disjoint();
    let q = platform_path();
    if c.enabled && !(c.min_cohort_size is Some && user_count < c.min_cohort_size->0) {
        let u = c.usage;
        let pc = u.user_platform;
        let platform_edit = EditView::RemoveKey("platform"@);
        let s2 = lemma_before_platform(e, c);
        lemma_remove_platform(s2);
        if let Some(v2) = s2 {
            if let Some(p) = as_str(get_path(v2, q)) {
                let a = if pc.deny_list is Some && list_contains(pc.deny_list->0@, p) {
                    step(Some(v2), seq!["origin", "app"], platform_edit)
                } else {
                    Some(v2)
                };
                lemma_remove_platform(a);
            }
        }
        let s3 = if u.enabled && pc.enabled {
            platform_step(s2, pc)
        } else {
            step(s2, seq!["origin", "app"], platform_edit)
        };
        let s4 = if u.enabled && u.user_lang.enabled {
            match u.user_lang.max_locales {
                Some(m) => {
                    lemma_step_keeps_path(
                        s3,
                        seq!["origin", "app", "user_preferred_locales"],
                        EditView::Truncate(m as nat),
                        q,
                    );
                    step(s3, seq!["origin", "app", "user_preferred_locales"], EditView::Truncate(m as nat))
                },
                None => s3,
            }
        } else {
            lemma_step_keeps_path(s3, seq!["origin", "app"], EditView::RemoveKey("user_preferred_locales"@), q);
            step(s3, seq!["origin", "app"], EditView::RemoveKey("user_preferred_locales"@))
        };
        assert(s4 == usage_filtered(e, c));
        assert(keeps_path(s3, s4, q));
        let domain = EditView::Assign(JsonView::Str(pod_domain));
        lemma_step_keeps_path(s4, seq!["origin", "pod", "identifiable", "domain"], domain, q);
        let s5 = if c.acquisition.enabled && c.acquisition.pod_domain.enabled {
            step(s4, seq!["origin", "pod", "identifiable", "domain"], domain)
        } else {
            s4
        };
        assert(keeps_path(s4, s5, q));
        lemma_user_count_keeps_path(s5, user_count, q);
        let s6 = if u.enabled && u.meta_user_count.enabled {
            user_count_step(s5, user_count)
        } else {
            s5
        };
        assert(keeps_path(s5, s6, q));
        let s7 = anonymize_step(s6, server_salt);
        if let Some(v6) = s6 {
            if let Some(h) = as_str(get_path(v6, user_hash_path())) {
                lemma_update_path_disjoint(
                    v6,
                    user_hash_path(),
                    EditView::Assign(JsonView::Str(spec_anonymize(encode_utf8(h), server_salt))),
                    q,
                );
            }
        }
        assert(keeps_path(s6, s7, q));
        lemma_step_keeps_path(s7, seq!["proxied"], EditView::Assign(JsonView::Bool(true)), q);
    }
}

/// The path of the pod's description in an event.
pub open spec fn pod_path() -> Seq<Seq<char>> {
    keys_path(seq!["origin", "pod"])
}

/// The path of the pod's version in an event.
pub open spec fn pod_version_path() -> Seq<Seq<char>> {
    keys_path(seq!["origin", "pod", "version"])
}

proof fn lemma_pod_version_disjoint()
    ensures
        disjoint_paths(keys_path(seq!["origin", "app"]), pod_version_path(), EditView::RemoveKey("version"@)),
        disjoint_paths(keys_path(seq!["origin"]), pod_version_path(), EditView::RemoveKey("version"@)),
        forall|e: EditView| disjoint_paths(keys_path(seq!["origin", "app"]), pod_version_path(), e),
        forall|e: EditView|
            disjoint_paths(keys_path(seq!["origin", "app", "user_preferred_locales"]), pod_version_path(), e),
        forall|e: EditView|
            disjoint_paths(keys_path(seq!["origin", "pod", "identifiable", "domain"]), pod_version_path(), e),
        forall|e: EditView|
            disjoint_paths(keys_path(seq!["origin", "pod", "user_count_min"]), pod_version_path(), e),
        forall|e: EditView|
            disjoint_paths(keys_path(seq!["origin", "pod", "user_count_max"]), pod_version_path(), e),
        forall|e: EditView|
            disjoint_paths(keys_path(seq!["origin", "pod", "user_count_range"]), pod_version_path(), e),
        forall|e: EditView|
            disjoint_paths(keys_path(seq!["origin", "pod", "user_count_range_open"]), pod_version_path(), e),
        forall|e: EditView| disjoint_paths(user_hash_path(), pod_version_path(), e),
        forall|e: EditView| disjoint_paths(keys_path(seq!["proxied"]), pod_version_path(), e),
{
    reveal_strlit("origin");
    reveal_strlit("pod");
    reveal_strlit("app");
    reveal_strlit("version");
    reveal_strlit("identifiable");
    reveal_strlit("user_hash");
    reveal_strlit("user_count_min");
    reveal_strlit("user_count_max");
    reveal_strlit("user_count_range");
    reveal_strlit("user_count_range_open");
    reveal_strlit("proxied");
    reveal_with_fuel(disjoint_paths, 4);
    let q = pod_version_path();
    assert(q[0] == "origin"@ && q[1] == "pod"@ && q[2] == "version"@);
    assert(q.drop_first()[0] == "pod"@);
    assert(q.drop_first().drop_first()[0] == "version"@);
    assert("pod"@ != "app"@) by {
        assert("pod"@[0] != "app"@[0]);
    }
    assert("pod"@ != "version"@) by {
        assert("pod"@.len() != "version"@.len());
    }
    assert("identifiable"@ != "version"@) by {
        assert("identifiable"@.len() != "version"@.len());
    }
    assert("user_count_min"@ != "version"@) by {
        assert("user_count_min"@.len() != "version"@.len());
    }
    assert("user_count_max"@ != "version"@) by {
        assert("user_count_max"@.len() != "version"@.len());
    }
    assert("user_count_range"@ != "version"@) by {
        assert("user_count_range"@.len() != "version"@.len());
    }
    assert("user_count_range_open"@ != "version"@) by {
        assert("user_count_range_open"@.len() != "version"@.len());
    }
    assert("user_hash"@ != "version"@) by {
        assert("user_hash"@.len() != "version"@.len());
    }
    assert("proxied"@ != "origin"@) by {
        assert("proxied"@[0] != "origin"@[0]);
    }
    let p2 = keys_path(seq!["origin", "app"]);
    assert(p2.drop_first()[0] == "app"@);
    let p3 = keys_path(seq!["origin"]);
    assert(p3.drop_first().len() == 0);
    assert forall|e: EditView| disjoint_paths(keys_path(seq!["origin", "app"]), q, e) by {
        assert(p2.drop_first()[0] == "app"@);
    }
    assert forall|e: EditView|
        disjoint_paths(keys_path(seq!["origin", "app", "user_preferred_locales"]), q, e) by {
        let p = keys_path(seq!["origin", "app", "user_preferred_locales"]);
        assert(p.drop_first()[0] == "app"@);
    }
    assert forall|e: EditView|
        disjoint_paths(keys_path(seq!["origin", "pod", "identifiable", "domain"]), q, e) by {
        let p = keys_path(seq!["origin", "pod", "identifiable", "domain"]);
        assert(p.drop_first().drop_first()[0] == "identifiable"@);
    }
    assert forall|e: EditView| disjoint_paths(keys_path(seq!["origin", "pod", "user_count_min"]), q, e) by {
        let p = keys_path(seq!["origin", "pod", "user_count_min"]);
        assert(p.drop_first().drop_first()[0] == "user_count_min"@);
    }
    assert forall|e: EditView| disjoint_paths(keys_path(seq!["origin", "pod", "user_count_max"]), q, e) by {
        let p = keys_path(seq!["origin", "pod", "user_count_max"]);
        assert(p.drop_first().drop_first()[0] == "user_count_max"@);
    }
    assert forall|e: EditView| disjoint_paths(keys_path(seq!["origin", "pod", "user_count_range"]), q, e) by {
        let p = keys_path(seq!["origin", "pod", "user_count_range"]);
        assert(p.drop_first().drop_first()[0] == "user_count_range"@);
    }
    assert forall|e: EditView|
        disjoint_paths(keys_path(seq!["origin", "pod", "user_count_range_open"]), q, e) by {
        let p = keys_path(seq!["origin", "pod", "user_count_range_open"]);
        assert(p.drop_first().drop_first()[0] == "user_count_range_open"@);
    }
    assert forall|e: EditView| disjoint_paths(user_hash_path(), q, e) by {
        let p = user_hash_path();
        assert(p.drop_first().drop_first()[0] == "user_hash"@);
    }
    assert forall|e: EditView| disjoint_paths(keys_path(seq!["proxied"]), q, e) by {
        let p = keys_path(seq!["proxied"]);
        assert(p[0] == "proxied"@);
    }
}

/// Every step after the first one of processing leaves the pod's version
/// as that first step left it: the event sent holds the version of the
/// event as it was, or as it was with the version removed.
proof fn lemma_pod_version_after_first_step(
    e: JsonView,
    c: VendorAnalyticsConfig,
    pod_domain: Seq<char>,
    user_count: u64,
    server_salt: Seq<u8>,
)
    ensures
        processed_event(e, c, pod_domain, user_count, server_salt) matches Some(Some(out)) ==> ({
            let q = pod_version_path();
            &&& c.usage.enabled && c.usage.pod_version.enabled ==> get_path(out, q) == get_path(e, q)
            &&& !(c.usage.enabled && c.usage.pod_version.enabled) ==> (update_path(
                e,
                pod_path(),
                EditView::RemoveKey("version"@),
            ) matches Some(w) && get_path(out, q) == get_path(w, q))
        }),
{
    lemma_pod_version_disjoint();
    let q = pod_version_path();
    if c.enabled && !(c.min_cohort_size is Some && user_count < c.min_cohort_size->0) {
        let u = c.usage;
        let pc = u.user_platform;
        let name = origin_name(e);
        let version = EditView::RemoveKey("version"@);
        let s1 = if !(u.enabled && u.pod_version.enabled) {
            step(Some(e), seq!["origin", "pod"], version)
        } else {
            Some(e)
        };
        let s1a = step(s1, seq!["origin", "app"], version);
        lemma_step_keeps_path(s1, seq!["origin", "app"], version, q);
        lemma_step_keeps_path(s1a, seq!["origin"], version, q);
        let s2 = if !(u.enabled && u.user_app_version.enabled) && name is Some
            && "prose-app-"@.is_prefix_of(name->0) {
            step(s1a, seq!["origin"], version)
        } else {
            s1
        };
        assert(keeps_path(s1, s2, q));
        let platform_edit = EditView::RemoveKey("platform"@);
        lemma_step_keeps_path(s2, seq!["origin", "app"], platform_edit, q);
        if let Some(v) = s2 {
            if let Some(p) = as_str(get_path(v, keys_path(seq!["origin", "app", "platform"]))) {
                let a = if pc.deny_list is Some && list_contains(pc.deny_list->0@, p) {
                    step(Some(v), seq!["origin", "app"], platform_edit)
                } else {
                    Some(v)
                };
                lemma_step_keeps_path(a, seq!["origin", "app"], platform_edit, q);
            }
        }
        let s3 = if u.enabled && pc.enabled {
            platform_step(s2, pc)
        } else {
            step(s2, seq!["origin", "app"], platform_edit)
        };
        assert(keeps_path(s2, s3, q));
        let s4 = if u.enabled && u.user_lang.enabled {
            match u.user_lang.max_locales {
                Some(m) => {
                    lemma_step_keeps_path(
                        s3,
                        seq!["origin", "app", "user_preferred_locales"],
                        EditView::Truncate(m as nat),
                        q,
                    );
                    step(s3, seq!["origin", "app", "user_preferred_locales"], EditView::Truncate(m as nat))
                },
                None => s3,
            }
        } else {
            lemma_step_keeps_path(s3, seq!["origin", "app"], EditView::RemoveKey("user_preferred_locales"@), q);
            step(s3, seq!["origin", "app"], EditView::RemoveKey("user_preferred_locales"@))
        };
        assert(s4 == usage_filtered(e, c));
        assert(keeps_path(s1, s4, q));
        let domain = EditView::Assign(JsonView::Str(pod_domain));
        lemma_step_keeps_path(s4, seq!["origin", "pod", "identifiable", "domain"], domain, q);
        let s5 = if c.acquisition.enabled && c.acquisition.pod_domain.enabled {
            step(s4, seq!["origin", "pod", "identifiable", "domain"], domain)
        } else {
            s4
        };
        assert(keeps_path(s4, s5, q));
        lemma_user_count_keeps_path(s5, user_count, q);
        let s6 = if u.enabled && u.meta_user_count.enabled {
            user_count_step(s5, user_count)
        } else {
            s5
        };
        assert(keeps_path(s5, s6, q));
        let s7 = anonymize_step(s6, server_salt);
        if let Some(v6) = s6 {
            if let Some(h) = as_str(get_path(v6, user_hash_path())) {
                lemma_update_path_disjoint(
                    v6,
                    user_hash_path(),
                    EditView::Assign(JsonView::Str(spec_anonymize(encode_utf8(h), server_salt))),
                    q,
                );
            }
        }
        assert(keeps_path(s6, s7, q));
        lemma_step_keeps_path(s7, seq!["proxied"], EditView::Assign(JsonView::Bool(true)), q);
        assert(keeps_path(s1, s7, q));
    }
}

/// With the pod-version data point on, the pod's version is sent exactly as
/// the app gave it.
pub proof fn law_pod_version_kept_when_enabled(
    e: JsonView,
    c: VendorAnalyticsConfig,
    pod_domain: Seq<char>,
    user_count: u64,
    server_salt: Seq<u8>,
)
    ensures
        c.usage.enabled && c.usage.pod_version.enabled ==> (processed_event(
            e,
            c,
            pod_domain,
            user_count,
            server_salt,
        ) matches Some(Some(out)) ==> get_path(out, pod_version_path()) == get_path(e, pod_version_path())),
{
    lemma_pod_version_after_first_step(e, c, pod_domain, user_count, server_salt);
}

/// With usage data or the pod-version data point off, no pod version is
/// sent: it reads `null` in the event sent. (The pod's description is a
/// JSON object, so it holds the version key at most once.)
pub proof fn law_pod_version_removed_when_disabled(
    e: JsonView,
    c: VendorAnalyticsConfig,
    pod_domain: Seq<char>,
    user_count: u64,
    server_salt: Seq<u8>,
)
    requires
        key_at_most_once(get_path(e, pod_path()), "version"@),
    ensures
        !(c.usage.enabled && c.usage.pod_version.enabled) ==> (processed_event(
            e,
            c,
            pod_domain,
            user_count,
            server_salt,
        ) matches Some(Some(out)) ==> get_path(out, pod_version_path()) == JsonView::Null),
{
    lemma_pod_version_after_first_step(e, c, pod_domain, user_count, server_salt);
    let edit = EditView::RemoveKey("version"@);
    lemma_update_path_edit(e, pod_path(), edit);
    lemma_remove_key_once(get_path(e, pod_path()), "version"@);
    if let Some(w) = update_path(e, pod_path(), edit) {
        lemma_get_path_push(w, pod_path(), "version"@);
        assert(pod_version_path() =~= pod_path().push("version"@));
    }
}

/// Whether `x` is where a user-count bucket starts: 0, 5, 10, 20, 50, then
/// every hundred.
pub open spec fn is_bucket_start(x: int) -> bool {
    x == 0 || x == 5 || x == 10 || x == 20 || x == 50 || (x >= 100 && x % 100 == 0)
}

/// The bucket of a user count holds it, starts at a bucket start, ends just
/// before the next one, and holds no other start: it is the one bucket of
/// 0–4, 5–9, 10–19, 20–49, 50–99, 100–199, 200–299, ... that the count falls in.
pub proof fn law_user_count_bucket(n: u64)
    requires
        n <= 18446744073709551599u64,
    ensures
        ({
            let (lo, hi) = spec_user_count_range(n);
            &&& lo <= n <= hi
            &&& is_bucket_start(lo as int)
            &&& is_bucket_start(hi + 1)
            &&& forall|x: int| lo < x <= hi ==> !is_bucket_start(x)
        }),
{
    let (lo, hi) = spec_user_count_range(n);
    if n >= 100 {
        assert(lo == n - n % 100);
        assert(lo % 100 == 0);
        assert((hi + 1) % 100 == 0);
        assert forall|x: int| lo < x <= hi implies !is_bucket_start(x) by {
            assert(x % 100 != 0) by {
                assert(lo % 100 == 0);
                assert(0 < x - lo < 100);
            }
        }
    }
}

/// Nothing is sent while vendor analytics are off, nor for a Pod with fewer
/// users than the minimum cohort size; otherwise processing either fails or
/// gives an event to send.
pub proof fn law_nothing_sent_when_disabled_or_small_cohort(
    e: JsonView,
    c: VendorAnalyticsConfig,
    pod_domain: Seq<char>,
    user_count: u64,
    server_salt: Seq<u8>,
)
    ensures
        !c.enabled ==> processed_event(e, c, pod_domain, user_count, server_salt) == Some(None::<JsonView>),
        (c.min_cohort_size matches Some(m) && user_count < m) ==> processed_event(
            e,
            c,
            pod_domain,
            user_count,
            server_salt,
        ) == Some(None::<JsonView>),
        c.enabled && (c.min_cohort_size matches Some(m) ==> user_count >= m) ==> processed_event(
            e,
            c,
            pod_domain,
            user_count,
            server_salt,
        ) != Some(None::<JsonView>),
{
}

/// Every event sent is marked as proxied by the server.
pub proof fn law_sent_events_are_marked_proxied(
    e: JsonView,
    c: VendorAnalyticsConfig,
    pod_domain: Seq<char>,
    user_count: u64,
    server_salt: Seq<u8>,
)
    ensures
        processed_event(e, c, pod_domain, user_count, server_salt) matches Some(Some(out)) ==> get_path(
            out,
            keys_path(seq!["proxied"]),
        ) == JsonView::Bool(true),
{
    if c.enabled && !(c.min_cohort_size is Some && user_count < c.min_cohort_size->0) {
        let u = c.usage;
        let s4 = usage_filtered(e, c);
        let s5 = if c.acquisition.enabled && c.acquisition.pod_domain.enabled {
            step(s4, seq!["origin", "pod", "identifiable", "domain"], EditView::Assign(JsonView::Str(pod_domain)))
        } else {
            s4
        };
        let s6 = if u.enabled && u.meta_user_count.enabled {
            user_count_step(s5, user_count)
        } else {
            s5
        };
        let s7 = anonymize_step(s6, server_salt);
        if let Some(v7) = s7 {
            lemma_update_path_assign(v7, keys_path(seq!["proxied"]), JsonView::Bool(true));
        }
    }
}

/// The paths of the user count bucket in an event.
pub open spec fn user_count_min_path() -> Seq<Seq<char>> {
    keys_path(seq!["origin", "pod", "user_count_min"])
}

pub open spec fn user_count_max_path() -> Seq<Seq<char>> {
    keys_path(seq!["origin", "pod", "user_count_max"])
}

pub open spec fn user_count_range_path() -> Seq<Seq<char>> {
    keys_path(seq!["origin", "pod", "user_count_range"])
}

pub open spec fn user_count_range_open_path() -> Seq<Seq<char>> {
    keys_path(seq!["origin", "pod", "user_count_range_open"])
}

proof fn lemma_bucket_paths_disjoint()
    ensures
        forall|e: EditView| disjoint_paths(user_count_max_path(), user_count_min_path(), e),
        forall|e: EditView| disjoint_paths(user_count_range_path(), user_count_min_path(), e),
        forall|e: EditView| disjoint_paths(user_count_range_open_path(), user_count_min_path(), e),
        forall|e: EditView| disjoint_paths(user_count_range_path(), user_count_max_path(), e),
        forall|e: EditView| disjoint_paths(user_count_range_open_path(), user_count_max_path(), e),
        forall|e: EditView| disjoint_paths(user_count_range_open_path(), user_count_range_path(), e),
        forall|e: EditView| disjoint_paths(user_hash_path(), user_count_min_path(), e),
        forall|e: EditView| disjoint_paths(user_hash_path(), user_count_max_path(), e),
        forall|e: EditView| disjoint_paths(user_hash_path(), user_count_range_path(), e),
        forall|e: EditView| disjoint_paths(user_hash_path(), user_count_range_open_path(), e),
        forall|e: EditView| disjoint_paths(keys_path(seq!["proxied"]), user_count_min_path(), e),
        forall|e: EditView| disjoint_paths(keys_path(seq!["proxied"]), user_count_max_path(), e),
        forall|e: EditView| disjoint_paths(keys_path(seq!["proxied"]), user_count_range_path(), e),
        forall|e: EditView| disjoint_paths(keys_path(seq!["proxied"]), user_count_range_open_path(), e),
{
    reveal_strlit("origin");
    reveal_strlit("pod");
    reveal_strlit("user_hash");
    reveal_strlit("user_count_min");
    reveal_strlit("user_count_max");
    reveal_strlit("user_count_range");
    reveal_strlit("user_count_range_open");
    reveal_strlit("proxied");
    reveal_with_fuel(disjoint_paths, 4);
    let pmin = user_count_min_path();
    let pmax = user_count_max_path();
    let pr = user_count_range_path();
    let po = user_count_range_open_path();
    let ph = user_hash_path();
    let px = keys_path(seq!["proxied"]);
    assert(pmin.drop_first().drop_first()[0] == "user_count_min"@);
    assert(pmax.drop_first().drop_first()[0] == "user_count_max"@);
    assert(pr.drop_first().drop_first()[0] == "user_count_range"@);
    assert(po.drop_first().drop_first()[0] == "user_count_range_open"@);
    assert(ph.drop_first().drop_first()[0] == "user_hash"@);
    assert(pmin[0] == "origin"@ && pmax[0] == "origin"@ && pr[0] == "origin"@ && po[0] == "origin"@);
    assert(pmin.drop_first()[0] == "pod"@ && pmax.drop_first()[0] == "pod"@);
    assert(pr.drop_first()[0] == "pod"@ && po.drop_first()[0] == "pod"@ && ph.drop_first()[0] == "pod"@);
    assert(px[0] == "proxied"@);
    assert("user_count_min"@ != "user_count_max"@) by {
        assert("user_count_min"@[12] != "user_count_max"@[12]);
    }
    assert("user_count_min"@ != "user_count_range"@) by {
        assert("user_count_min"@.len() != "user_count_range"@.len());
    }
    assert("user_count_min"@ != "user_count_range_open"@) by {
        assert("user_count_min"@.len() != "user_count_range_open"@.len());
    }
    assert("user_count_max"@ != "user_count_range"@) by {
        assert("user_count_max"@.len() != "user_count_range"@.len());
    }
    assert("user_count_max"@ != "user_count_range_open"@) by {
        assert("user_count_max"@.len() != "user_count_range_open"@.len());
    }
    assert("user_count_range"@ != "user_count_range_open"@) by {
        assert("user_count_range"@.len() != "user_count_range_open"@.len());
    }
    assert("user_hash"@ != "user_count_min"@) by {
        assert("user_hash"@.len() != "user_count_min"@.len());
    }
    assert("user_hash"@ != "user_count_max"@) by {
        assert("user_hash"@.len() != "user_count_max"@.len());
    }
    assert("user_hash"@ != "user_count_range"@) by {
        assert("user_hash"@.len() != "user_count_range"@.len());
    }
    assert("user_hash"@ != "user_count_range_open"@) by {
        assert("user_hash"@.len() != "user_count_range_open"@.len());
    }
    assert("proxied"@ != "origin"@) by {
        assert("proxied"@[0] != "origin"@[0]);
    }
}

/// With the user count data point on, an event sent carries the bucket of
/// the Pod's user count (see [`law_user_count_bucket`]): its least and
/// greatest counts, the range written `min–max`, and `min+`.
pub proof fn law_user_count_bucket_sent(
    e: JsonView,
    c: VendorAnalyticsConfig,
    pod_domain: Seq<char>,
    user_count: u64,
    server_salt: Seq<u8>,
)
    ensures
        c.usage.enabled && c.usage.meta_user_count.enabled ==> (processed_event(
            e,
            c,
            pod_domain,
            user_count,
            server_salt,
        ) matches Some(Some(out)) ==> ({
            let (lo, hi) = spec_user_count_range(user_count);
            &&& get_path(out, user_count_min_path()) == JsonView::Number(JsonNumber::PosInt(lo))
            &&& get_path(out, user_count_max_path()) == JsonView::Number(JsonNumber::PosInt(hi))
            &&& get_path(out, user_count_range_path()) == JsonView::Str(
                decimal(lo as nat) + "–"@ + decimal(hi as nat),
            )
            &&& get_path(out, user_count_range_open_path()) == JsonView::Str(decimal(lo as nat) + "+"@)
        })),
{
    lemma_bucket_paths_disjoint();
    let u = c.usage;
    if c.enabled && !(c.min_cohort_size is Some && user_count < c.min_cohort_size->0) && u.enabled
        && u.meta_user_count.enabled && user_count <= 18446744073709551599u64 {
        let s4 = usage_filtered(e, c);
        let s5 = if c.acquisition.enabled && c.acquisition.pod_domain.enabled {
            step(s4, seq!["origin", "pod", "identifiable", "domain"], EditView::Assign(JsonView::Str(pod_domain)))
        } else {
            s4
        };
        let (min, max) = spec_user_count_range(user_count);
        let x1 = JsonView::Number(JsonNumber::PosInt(min));
        let x2 = JsonView::Number(JsonNumber::PosInt(max));
        let x3 = JsonView::Str(decimal(min as nat) + "–"@ + decimal(max as nat));
        let x4 = JsonView::Str(decimal(min as nat) + "+"@);
        let t1 = step(s5, seq!["origin", "pod", "user_count_min"], EditView::Assign(x1));
        let t2 = step(t1, seq!["origin", "pod", "user_count_max"], EditView::Assign(x2));
        let t3 = step(t2, seq!["origin", "pod", "user_count_range"], EditView::Assign(x3));
        let t4 = step(t3, seq!["origin", "pod", "user_count_range_open"], EditView::Assign(x4));
        if let Some(v) = s5 {
            lemma_update_path_assign(v, user_count_min_path(), x1);
        }
        if let Some(v) = t1 {
            lemma_update_path_assign(v, user_count_max_path(), x2);
        }
        if let Some(v) = t2 {
            lemma_update_path_assign(v, user_count_range_path(), x3);
        }
        if let Some(v) = t3 {
            lemma_update_path_assign(v, user_count_range_open_path(), x4);
        }
        lemma_step_keeps_path(t1, seq!["origin", "pod", "user_count_max"], EditView::Assign(x2), user_count_min_path());
        lemma_step_keeps_path(t2, seq!["origin", "pod", "user_count_range"], EditView::Assign(x3), user_count_min_path());
        lemma_step_keeps_path(t3, seq!["origin", "pod", "user_count_range_open"], EditView::Assign(x4), user_count_min_path());
        lemma_step_keeps_path(t2, seq!["origin", "pod", "user_count_range"], EditView::Assign(x3), user_count_max_path());
        lemma_step_keeps_path(t3, seq!["origin", "pod", "user_count_range_open"], EditView::Assign(x4), user_count_max_path());
        lemma_step_keeps_path(t3, seq!["origin", "pod", "user_count_range_open"], EditView::Assign(x4), user_count_range_path());
        assert(t4 == user_count_step(s5, user_count));
        let s7 = anonymize_step(t4, server_salt);
        if let Some(v6) = t4 {
            if let Some(h) = as_str(get_path(v6, user_hash_path())) {
                let edit = EditView::Assign(JsonView::Str(spec_anonymize(encode_utf8(h), server_salt)));
                lemma_update_path_disjoint(v6, user_hash_path(), edit, user_count_min_path());
                lemma_update_path_disjoint(v6, user_hash_path(), edit, user_count_max_path());
                lemma_update_path_disjoint(v6, user_hash_path(), edit, user_count_range_path());
                lemma_update_path_disjoint(v6, user_hash_path(), edit, user_count_range_open_path());
            }
        }
        let proxied = EditView::Assign(JsonView::Bool(true));
        lemma_step_keeps_path(s7, seq!["proxied"], proxied, user_count_min_path());
        lemma_step_keeps_path(s7, seq!["proxied"], proxied, user_count_max_path());
        lemma_step_keeps_path(s7, seq!["proxied"], proxied, user_count_range_path());
        lemma_step_keeps_path(s7, seq!["proxied"], proxied, user_count_range_open_path());
    }
}

} // verus!
