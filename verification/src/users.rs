//! Users of the Pod: how they are counted, and how the first account (the
//! first admin) is created.
use vstd::prelude::*;

use crate::errors::{conflict_error, Error, STATUS_CONFLICT};
use crate::jid::{jid_of, BareJid, JidDomain, JidNode};

verus! {

/// The roles whose users count as users of the Pod.
pub open spec fn counted_roles() -> Seq<Seq<char>> {
    seq!["prosody:member"@, "prosody:admin"@, "prosody:operator"@]
}

/// The roles whose users count as users of the Pod, in the order they are
/// queried.
pub fn counted_user_roles() -> (roles: Vec<&'static str>)
    ensures
        roles@.len() == 3,
        forall|i: int| 0 <= i < 3 ==> (#[trigger] roles@[i])@ == counted_roles()[i],
{
    vec!["prosody:member", "prosody:admin", "prosody:operator"]
}

/// The sum of counts.
pub open spec fn sum(counts: Seq<usize>) -> int
    decreases counts.len(),
{
    if counts.len() == 0 {
        0
    } else {
        sum(counts.drop_last()) + counts.last()
    }
}

/// The number of users of the Pod.
#[derive(Debug)]
pub struct GetUsersStatsResponse {
    pub count: usize,
}

/// The number of pending invitations.
#[derive(Debug)]
pub struct GetInvitationsStatsResponse {
    pub count: usize,
}

impl GetUsersStatsResponse {
    /// The user count from the number of users of each counted role (the
    /// roles are disjoint: each user has one primary role).
    pub fn from_role_counts(counts: &[usize]) -> (r: GetUsersStatsResponse)
        requires
            sum(counts@) <= usize::MAX,
        ensures
            r.count == sum(counts@),
    {
        let mut total: usize = 0;
        let mut i: usize = 0;
        while i < counts.len()
            invariant
                i <= counts@.len(),
                total == sum(counts@.take(i as int)),
                sum(counts@) <= usize::MAX,
            decreases counts@.len() - i,
        {
            proof {
                assert(counts@.take(i + 1).drop_last() =~= counts@.take(i as int));
                lemma_sum_prefix_bounded(counts@, i + 1);
            }
            total = total + counts[i];
            i = i + 1;
        }
        proof {
            assert(counts@.take(counts@.len() as int) =~= counts@);
        }
        GetUsersStatsResponse { count: total }
    }
}

proof fn lemma_sum_prefix_bounded(counts: Seq<usize>, n: int)
    requires
        0 <= n <= counts.len(),
    ensures
        sum(counts.take(n)) <= sum(counts),
    decreases counts.len(),
{
    if n < counts.len() {
        assert(counts.drop_last().take(n) =~= counts.take(n));
        lemma_sum_prefix_bounded(counts.drop_last(), n);
    } else {
        assert(counts.take(n) =~= counts);
    }
}

/// The JIDs of the admins, as Prosody lists them: every one of them is a
/// valid bare JID.
pub fn admin_jids(jids: &Vec<String>) -> (r: Vec<BareJid>)
    requires
        forall|i: int|
            0 <= i < jids@.len() ==> (#[trigger] jids@[i])@.contains('@') && !jids@[i]@.contains(
                '/',
            ),
    ensures
        r@.len() == jids@.len(),
        forall|i: int| 0 <= i < jids@.len() ==> (#[trigger] r@[i])@ == jids@[i]@,
{
    let mut r: Vec<BareJid> = Vec::new();
    let mut i: usize = 0;
    while i < jids.len()
        invariant
            i <= jids@.len(),
            r@.len() == i,
            forall|j: int| 0 <= j < i ==> (#[trigger] r@[j])@ == jids@[j]@,
            forall|j: int|
                0 <= j < jids@.len() ==> (#[trigger] jids@[j])@.contains('@') && !jids@[j]@.contains(
                    '/',
                ),
        decreases jids@.len() - i,
    {
        let jid = match BareJid::from_str(jids[i].as_str()) {
            Ok(jid) => jid,
            Err(_) => {
                proof {
                    assert(jids@[i as int]@.contains('@'));
                }
                vstd::pervasive::unreached()
            },
        };
        r.push(jid);
        i = i + 1;
    }
    r
}

/// The role of the first account.
pub const FIRST_ACCOUNT_ROLE: &'static str = "prosody:admin";

/// What creating the first account answers: its username and role.
#[derive(Debug)]
pub struct CreateAccountResponse {
    pub username: JidNode,
    pub role: String,
}

/// `e` is the conflict error with this code, message and description.
pub open spec fn conflict_with(e: Error, code: Seq<char>, message: Seq<char>, description: Seq<char>) -> bool {
    &&& e.kind@ == "CONFLICT_ERROR"@
    &&& e.code@ == code
    &&& e.status == STATUS_CONFLICT
    &&& e.message@ == message
    &&& e.description@ == description
}

/// The first account can be created (without an invitation) only while
/// the Pod has no admin (`admin_count`); it is `username` on the server's
/// domain.
pub fn first_account_jid(admin_count: usize, username: &JidNode, domain: &JidDomain) -> (r: Result<
    BareJid,
    Error,
>)
    ensures
        admin_count > 0 ==> r is Err && conflict_with(
            r->Err_0,
            "FIRST_ACCOUNT_ALREADY_CREATED"@,
            "First account already created"@,
            "You now need an invitation to join."@,
        ),
        admin_count == 0 ==> r is Ok && r->Ok_0@ == jid_of(username@, domain@),
{
    if admin_count > 0 {
        proof {
            reveal_strlit("FIRST_ACCOUNT_ALREADY_CREATED");
            reveal_strlit("First account already created");
            reveal_strlit("You now need an invitation to join.");
        }
        return Err(
            conflict_error(
                "FIRST_ACCOUNT_ALREADY_CREATED",
                "First account already created",
                "You now need an invitation to join.",
            ),
        );
    }
    Ok(BareJid::new(username, domain))
}

/// How creating an account went.
#[derive(Debug)]
pub enum UserCreateOutcome {
    Created,
    /// The username is taken.
    Conflict,
    /// Anything else, as the error to answer.
    Internal(Error),
}

/// The answer to the creation of the first account.
pub fn first_account_response(username: JidNode, outcome: UserCreateOutcome) -> (r: Result<
    CreateAccountResponse,
    Error,
>)
    ensures
        outcome is Created ==> r is Ok && r->Ok_0.username@ == username@ && r->Ok_0.role@
            == FIRST_ACCOUNT_ROLE@,
        outcome is Conflict ==> r is Err && conflict_with(
            r->Err_0,
            "USERNAME_ALREADY_TAKEN"@,
            "Username already taken"@,
            "Choose another username."@,
        ),
        outcome is Internal ==> r == Err::<CreateAccountResponse, Error>(outcome->Internal_0),
{
    match outcome {
        UserCreateOutcome::Created => Ok(
            CreateAccountResponse { username, role: FIRST_ACCOUNT_ROLE.to_owned() },
        ),
        UserCreateOutcome::Conflict => {
            proof {
                reveal_strlit("USERNAME_ALREADY_TAKEN");
                reveal_strlit("Username already taken");
                reveal_strlit("Choose another username.");
            }
            Err(
                conflict_error(
                    "USERNAME_ALREADY_TAKEN",
                    "Username already taken",
                    "Choose another username.",
                ),
            )
        },
        UserCreateOutcome::Internal(error) => Err(error),
    }
}

} // verus!
