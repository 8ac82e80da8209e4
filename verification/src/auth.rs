//! Who made an API call, and what they may do.
use vstd::prelude::*;

use crate::app_config::str_eq;
use crate::errors::{forbidden, unauthorized, Error, STATUS_FORBIDDEN, STATUS_UNAUTHORIZED};
use crate::jid::BareJid;
use crate::text::{push_str, starts_with, substring};

verus! {

/// The Prosody roles that grant admin rights.
pub open spec fn is_admin_role(role: Seq<char>) -> bool {
    role == "prosody:operator"@ || role == "prosody:admin"@
}

/// `e` is the 401 error with the given description.
pub open spec fn unauthorized_with(e: Error, description: Seq<char>) -> bool {
    &&& e.kind@ == "AUTH_ERROR"@
    &&& e.code@ == "UNAUTHORIZED"@
    &&& e.status == STATUS_UNAUTHORIZED
    &&& e.message@ == "Unauthorized"@
    &&& e.description@ == description
}

/// `e` is the 403 error with the given description.
pub open spec fn forbidden_with(e: Error, description: Seq<char>) -> bool {
    &&& e.kind@ == "AUTH_ERROR"@
    &&& e.code@ == "FORBIDDEN"@
    &&& e.status == STATUS_FORBIDDEN
    &&& e.message@ == "Forbidden"@
    &&& e.description@ == description
}

/// An OAuth 2.0 access token.
#[derive(Debug)]
pub struct AuthToken(pub String);

/// Information about who made the API call.
#[derive(Debug)]
pub struct CallerInfo {
    pub jid: BareJid,
    pub primary_role: String,
}

impl CallerInfo {
    /// Whether the caller's primary role is an admin role.
    pub fn is_admin(&self) -> (b: bool)
        ensures
            b == is_admin_role(self.primary_role@),
    {
        let role = self.primary_role.as_str();
        str_eq(role, "prosody:operator") || str_eq(role, "prosody:admin")
    }

    /// Backup operations are reserved to admins: anyone else gets a 403
    /// naming them.
    pub fn ensure_is_admin(&self) -> (r: Result<(), Error>)
        ensures
            r is Ok <==> is_admin_role(self.primary_role@),
            r is Err ==> forbidden_with(r->Err_0, self.jid@ + " is not an admin."@),
    {
        if self.is_admin() {
            Ok(())
        } else {
            let mut description = self.jid.to_string();
            push_str(&mut description, " is not an admin.");
            proof {
                reveal_strlit(" is not an admin.");
            }
            Err(forbidden(description.as_str()))
        }
    }

    /// Workspace changes are reserved to admins: anyone else gets a 403.
    pub fn ensure_admin_role(&self) -> (r: Result<(), Error>)
        ensures
            r is Ok <==> is_admin_role(self.primary_role@),
            r is Err ==> forbidden_with(r->Err_0, "Only admins can do that."@),
    {
        proof {
            reveal_strlit("Only admins can do that.");
        }
        if self.is_admin() {
            Ok(())
        } else {
            Err(forbidden("Only admins can do that."))
        }
    }
}

/// The prefix of a bearer `Authorization` header value.
pub const BEARER_PREFIX: &'static str = "Bearer ";

impl AuthToken {
    /// Reads the bearer token from the first `Authorization` header of a
    /// request. `header` is `None` when the request has none, `Err(reason)`
    /// when its value holds other than visible ASCII (`reason` being what
    /// `http` says of it), and its text otherwise.
    pub fn from_authorization_header(header: Option<Result<&str, &str>>) -> (r: Result<
        AuthToken,
        Error,
    >)
        ensures
            header is None ==> r is Err && unauthorized_with(
                r->Err_0,
                "No 'authorization' header found."@,
            ),
            header matches Some(Err(reason)) ==> r is Err && unauthorized_with(
                r->Err_0,
                "Bad 'authorization' header value: "@ + reason@,
            ),
            header matches Some(Ok(value)) ==> {
                if "Bearer "@.is_prefix_of(value@) {
                    r is Ok && r->Ok_0.0@ == value@.skip(7)
                } else {
                    r is Err && unauthorized_with(
                        r->Err_0,
                        "The 'authorization' header does not start with 'Bearer '."@,
                    )
                }
            },
    {
        proof {
            reveal_strlit("No 'authorization' header found.");
            reveal_strlit("The 'authorization' header does not start with 'Bearer '.");
            reveal_strlit("Bearer ");
        }
        match header {
            None => Err(unauthorized("No 'authorization' header found.")),
            Some(Err(reason)) => {
                let mut description = "Bad 'authorization' header value: ".to_owned();
                push_str(&mut description, reason);
                proof {
                    reveal_strlit("Bad 'authorization' header value: ");
                }
                Err(unauthorized(description.as_str()))
            },
            Some(Ok(value)) => {
                if starts_with(value, BEARER_PREFIX) {
                    let n = value.unicode_len();
                    Ok(AuthToken(substring(value, 7, n)))
                } else {
                    Err(unauthorized("The 'authorization' header does not start with 'Bearer '."))
                }
            },
        }
    }
}

} // verus!
