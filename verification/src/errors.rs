use vstd::prelude::*;

use crate::json::{lemma_object_view, JsonValue, JsonView};
use crate::text::push_str;

verus! {

/// HTTP status codes used by the API errors.
pub const STATUS_BAD_REQUEST: u16 = 400;
pub const STATUS_UNAUTHORIZED: u16 = 401;
pub const STATUS_FORBIDDEN: u16 = 403;
pub const STATUS_CONFLICT: u16 = 409;
pub const STATUS_GONE: u16 = 410;
pub const STATUS_TOO_EARLY: u16 = 425;
pub const STATUS_INTERNAL_SERVER_ERROR: u16 = 500;
pub const STATUS_SERVICE_UNAVAILABLE: u16 = 503;

/// To use when we don't want to leak internal info.
pub const ERROR_CODE_INTERNAL: &'static str = "INTERNAL_ERROR";

/// Only `A`–`Z` and `_`.
pub open spec fn is_upper_snake_case(s: Seq<char>) -> bool {
    forall|i: int| 0 <= i < s.len() ==> (('A' <= #[trigger] s[i] && s[i] <= 'Z') || s[i] == '_')
}

/// An error kind groups error codes: upper snake case, ending with `_ERROR`.
pub open spec fn valid_kind(kind: Seq<char>) -> bool {
    &&& kind.len() > 0
    &&& is_upper_snake_case(kind)
    &&& "_ERROR"@.is_suffix_of(kind)
}

/// An error code: non-empty, upper snake case.
pub open spec fn valid_code(code: Seq<char>) -> bool {
    code.len() > 0 && is_upper_snake_case(code)
}

/// An error message: non-empty, not ending with a period.
pub open spec fn valid_message(message: Seq<char>) -> bool {
    message.len() > 0 && message.last() != '.'
}

/// An error description: non-empty.
pub open spec fn valid_description(description: Seq<char>) -> bool {
    description.len() > 0
}

/// An error as the API sends it to its clients.
#[derive(Debug)]
pub struct Error {
    /// Groups error codes, e.g. `AUTH_ERROR`.
    pub kind: &'static str,
    /// E.g. `FORBIDDEN`.
    pub code: &'static str,
    /// HTTP status code.
    pub status: u16,
    pub message: String,
    pub description: String,
}

/// The JSON body of the HTTP response for an error.
pub open spec fn error_json(e: Error) -> JsonView {
    JsonView::Object(
        seq![
            ("error"@, JsonView::Bool(true)),
            ("kind"@, JsonView::Str(e.kind@)),
            ("code"@, JsonView::Str(e.code@)),
            ("message"@, JsonView::Str(e.message@)),
            ("description"@, JsonView::Str(e.description@)),
        ],
    )
}

impl Error {
    /// An API error. Its fields must follow the naming rules of
    /// [`valid_kind`], [`valid_code`], [`valid_message`] and
    /// [`valid_description`].
    pub fn new(
        kind: &'static str,
        code: &'static str,
        status: u16,
        message: &str,
        description: &str,
    ) -> (e: Error)
        requires
            valid_kind(kind@),
            valid_code(code@),
            valid_message(message@),
            valid_description(description@),
        ensures
            e.kind == kind,
            e.code == code,
            e.status == status,
            e.message@ == message@,
            e.description@ == description@,
    {
        Error {
            kind,
            code,
            status,
            message: message.to_owned(),
            description: description.to_owned(),
        }
    }

    /// The message, which is what the error displays as.
    pub fn to_string(&self) -> (s: String)
        ensures
            s@ == self.message@,
    {
        self.message.clone()
    }

    /// The JSON body of the HTTP response for this error.
    pub fn to_json(&self) -> (j: JsonValue)
        ensures
            j@ == error_json(*self),
    {
        let mut entries: Vec<(String, JsonValue)> = Vec::new();
        entries.push(("error".to_owned(), JsonValue::Bool(true)));
        entries.push(("kind".to_owned(), JsonValue::String(self.kind.to_owned())));
        entries.push(("code".to_owned(), JsonValue::String(self.code.to_owned())));
        entries.push(("message".to_owned(), JsonValue::String(self.message.clone())));
        entries.push(("description".to_owned(), JsonValue::String(self.description.clone())));
        proof {
            lemma_object_view(entries);
        }
        let j = JsonValue::Object(entries);
        assert(crate::json::entries_view(entries@) =~= seq![
            ("error"@, JsonView::Bool(true)),
            ("kind"@, JsonView::Str(self.kind@)),
            ("code"@, JsonView::Str(self.code@)),
            ("message"@, JsonView::Str(self.message@)),
            ("description"@, JsonView::Str(self.description@)),
        ]);
        j
    }
}

impl Clone for Error {
    fn clone(&self) -> (r: Self)
        ensures
            r == *self,
    {
        Error {
            kind: self.kind,
            code: self.code,
            status: self.status,
            message: self.message.clone(),
            description: self.description.clone(),
        }
    }
}

/// The public description of an error whose details were logged under
/// `error_id`.
pub open spec fn spec_auto_log(public_description: Seq<char>, error_id: Seq<char>) -> Seq<char> {
    public_description + " (logged as error_id="@ + error_id + ")"@
}

/// References the log entry `error_id` (where the error's debug information
/// is logged) in a user-facing description.
pub fn auto_log(public_description: &str, error_id: &str) -> (s: String)
    ensures
        s@ == spec_auto_log(public_description@, error_id@),
{
    let mut s = public_description.to_owned();
    push_str(&mut s, " (logged as error_id=");
    push_str(&mut s, error_id);
    push_str(&mut s, ")");
    s
}

proof fn lemma_auto_log_valid(public_description: Seq<char>, error_id: Seq<char>)
    ensures
        valid_description(spec_auto_log(public_description, error_id)),
{
    reveal_strlit(")");
    assert(spec_auto_log(public_description, error_id).len() > 0);
}

/// `public_description` is a short user-facing description which must not
/// leak internal information; the error details are logged under
/// `error_id`.
pub fn internal_server_error(error_id: &str, code: &'static str, public_description: &str) -> (e: Error)
    requires
        valid_code(code@),
    ensures
        e.kind@ == "INTERNAL_ERROR"@,
        e.code == code,
        e.status == STATUS_INTERNAL_SERVER_ERROR,
        e.message@ == "Internal server error"@,
        e.description@ == spec_auto_log(public_description@, error_id@),
{
    proof {
        reveal_strlit("INTERNAL_ERROR");
        reveal_strlit("_ERROR");
        reveal_strlit("Internal server error");
        lemma_auto_log_valid(public_description@, error_id@);
    }
    let description = auto_log(public_description, error_id);
    Error::new(
        "INTERNAL_ERROR",
        code,
        STATUS_INTERNAL_SERVER_ERROR,
        "Internal server error",
        description.as_str(),
    )
}


/// The error for a key missing from the app configuration; what is logged
/// under `error_id` is [`missing_configuration_details`].
pub fn missing_configuration(error_id: &str) -> (e: Error)
    ensures
        e.kind@ == "INTERNAL_ERROR"@,
        e.code@ == "MISSING_CONFIGURATION"@,
        e.status == STATUS_INTERNAL_SERVER_ERROR,
        e.message@ == "Internal server error"@,
        e.description@ == spec_auto_log(
            "Your Prose Server is misconfigured. Contact an administrator to fix this."@,
            error_id@,
        ),
{
    proof {
        reveal_strlit("MISSING_CONFIGURATION");
    }
    internal_server_error(
        error_id,
        "MISSING_CONFIGURATION",
        "Your Prose Server is misconfigured. Contact an administrator to fix this.",
    )
}

/// What is logged when `config_key` is missing from the app configuration.
pub fn missing_configuration_details(config_key: &str) -> (s: String)
    ensures
        s@ == "Missing key `"@ + config_key@
            + "` in the app configuration. Add it to `prose.toml` or use environment variables."@,
{
    let mut s = "Missing key `".to_owned();
    push_str(&mut s, config_key);
    push_str(
        &mut s,
        "` in the app configuration. Add it to `prose.toml` or use environment variables.",
    );
    s
}

/// 401 Unauthorized.
pub fn unauthorized(description: &str) -> (e: Error)
    requires
        valid_description(description@),
    ensures
        e.kind@ == "AUTH_ERROR"@,
        e.code@ == "UNAUTHORIZED"@,
        e.status == STATUS_UNAUTHORIZED,
        e.message@ == "Unauthorized"@,
        e.description@ == description@,
{
    proof {
        reveal_strlit("AUTH_ERROR");
        reveal_strlit("_ERROR");
        reveal_strlit("UNAUTHORIZED");
        reveal_strlit("Unauthorized");
    }
    Error::new("AUTH_ERROR", "UNAUTHORIZED", STATUS_UNAUTHORIZED, "Unauthorized", description)
}

/// 403 Forbidden.
pub fn forbidden(description: &str) -> (e: Error)
    requires
        valid_description(description@),
    ensures
        e.kind@ == "AUTH_ERROR"@,
        e.code@ == "FORBIDDEN"@,
        e.status == STATUS_FORBIDDEN,
        e.message@ == "Forbidden"@,
        e.description@ == description@,
{
    proof {
        reveal_strlit("AUTH_ERROR");
        reveal_strlit("_ERROR");
        reveal_strlit("FORBIDDEN");
        reveal_strlit("Forbidden");
    }
    Error::new("AUTH_ERROR", "FORBIDDEN", STATUS_FORBIDDEN, "Forbidden", description)
}

proof fn lemma_lifecycle_kind()
    ensures
        valid_kind("LIFECYCLE_ERROR"@),
{
    reveal_strlit("LIFECYCLE_ERROR");
    reveal_strlit("_ERROR");
}

/// 425 Too Early (lifecycle error).
pub fn too_early(code: &'static str, message: &str, description: &str) -> (e: Error)
    requires
        valid_code(code@),
        valid_message(message@),
        valid_description(description@),
    ensures
        e.kind@ == "LIFECYCLE_ERROR"@,
        e.code == code,
        e.status == STATUS_TOO_EARLY,
        e.message@ == message@,
        e.description@ == description@,
{
    proof {
        lemma_lifecycle_kind();
    }
    Error::new("LIFECYCLE_ERROR", code, STATUS_TOO_EARLY, message, description)
}

/// 503 Service Unavailable (lifecycle error).
pub fn service_unavailable(code: &'static str, message: &str, description: &str) -> (e: Error)
    requires
        valid_code(code@),
        valid_message(message@),
        valid_description(description@),
    ensures
        e.kind@ == "LIFECYCLE_ERROR"@,
        e.code == code,
        e.status == STATUS_SERVICE_UNAVAILABLE,
        e.message@ == message@,
        e.description@ == description@,
{
    proof {
        lemma_lifecycle_kind();
    }
    Error::new("LIFECYCLE_ERROR", code, STATUS_SERVICE_UNAVAILABLE, message, description)
}

/// 503 Service Unavailable caused by an error logged under `error_id`;
/// `public_description` must not leak internal information.
pub fn service_unavailable_err(
    error_id: &str,
    code: &'static str,
    message: &str,
    public_description: &str,
) -> (e: Error)
    requires
        valid_code(code@),
        valid_message(message@),
    ensures
        e.kind@ == "LIFECYCLE_ERROR"@,
        e.code == code,
        e.status == STATUS_SERVICE_UNAVAILABLE,
        e.message@ == message@,
        e.description@ == spec_auto_log(public_description@, error_id@),
{
    proof {
        lemma_lifecycle_kind();
        lemma_auto_log_valid(public_description@, error_id@);
    }
    let description = auto_log(public_description, error_id);
    Error::new("LIFECYCLE_ERROR", code, STATUS_SERVICE_UNAVAILABLE, message, description.as_str())
}

/// 410 Gone (lifecycle error).
pub fn too_late(code: &'static str, message: &str, description: &str) -> (e: Error)
    requires
        valid_code(code@),
        valid_message(message@),
        valid_description(description@),
    ensures
        e.kind@ == "LIFECYCLE_ERROR"@,
        e.code == code,
        e.status == STATUS_GONE,
        e.message@ == message@,
        e.description@ == description@,
{
    proof {
        lemma_lifecycle_kind();
    }
    Error::new("LIFECYCLE_ERROR", code, STATUS_GONE, message, description)
}

/// 409 Conflict.
pub fn conflict_error(code: &'static str, message: &str, description: &str) -> (e: Error)
    requires
        valid_code(code@),
        valid_message(message@),
        valid_description(description@),
    ensures
        e.kind@ == "CONFLICT_ERROR"@,
        e.code == code,
        e.status == STATUS_CONFLICT,
        e.message@ == message@,
        e.description@ == description@,
{
    proof {
        reveal_strlit("CONFLICT_ERROR");
        reveal_strlit("_ERROR");
    }
    Error::new("CONFLICT_ERROR", code, STATUS_CONFLICT, message, description)
}

/// 400 Bad Request.
pub fn validation_error(code: &'static str, message: &str, description: &str) -> (e: Error)
    requires
        valid_code(code@),
        valid_message(message@),
        valid_description(description@),
    ensures
        e.kind@ == "VALIDATION_ERROR"@,
        e.code == code,
        e.status == STATUS_BAD_REQUEST,
        e.message@ == message@,
        e.description@ == description@,
{
    proof {
        reveal_strlit("VALIDATION_ERROR");
        reveal_strlit("_ERROR");
    }
    Error::new("VALIDATION_ERROR", code, STATUS_BAD_REQUEST, message, description)
}


} // verus!
