//! The secrets the server keeps for its service accounts: their passwords
//! and a cache of their auth tokens.
use vstd::prelude::*;

use crate::app_config::str_eq;
use crate::auth::AuthToken;
use crate::auth::{forbidden_with, is_admin_role, CallerInfo};
use crate::jid::{jid_of, node_part, BareJid, JidDomain, JidNode};
use crate::errors::{validation_error, Error, STATUS_BAD_REQUEST};
use crate::text::push_str;
use vstd::utf8::encode_utf8;

verus! {

/// No two entries share a key.
pub open spec fn unique_keys(e: Seq<(String, String)>) -> bool {
    forall|i: int, j: int|
        0 <= i < j < e.len() ==> #[trigger] e[i].0@ != #[trigger] e[j].0@
}

/// Whether some entry has key `k`.
pub open spec fn has_key(e: Seq<(String, String)>, k: Seq<char>) -> bool {
    exists|i: int| 0 <= i < e.len() && #[trigger] e[i].0@ == k
}

/// The map that a list of entries with unique keys stands for.
pub open spec fn entries_map(e: Seq<(String, String)>) -> Map<Seq<char>, Seq<char>> {
    Map::new(
        |k: Seq<char>| has_key(e, k),
        |k: Seq<char>| e[choose|i: int| 0 <= i < e.len() && #[trigger] e[i].0@ == k].1@,
    )
}

proof fn lemma_lookup(e: Seq<(String, String)>, i: int)
    requires
        unique_keys(e),
        0 <= i < e.len(),
    ensures
        entries_map(e).contains_key(e[i].0@),
        entries_map(e)[e[i].0@] == e[i].1@,
{
    let k = e[i].0@;
    assert(has_key(e, k));
    let j = choose|j: int| 0 <= j < e.len() && #[trigger] e[j].0@ == k;
    if j != i {
        if i < j {
            assert(e[i].0@ != e[j].0@);
        } else {
            assert(e[j].0@ != e[i].0@);
        }
    }
}

proof fn lemma_update(e: Seq<(String, String)>, i: int, v: String)
    requires
        unique_keys(e),
        0 <= i < e.len(),
    ensures
        unique_keys(e.update(i, (e[i].0, v))),
        entries_map(e.update(i, (e[i].0, v))) =~= entries_map(e).insert(e[i].0@, v@),
{
    let e2 = e.update(i, (e[i].0, v));
    assert forall|a: int, b: int| 0 <= a < b < e2.len() implies #[trigger] e2[a].0@ != #[trigger] e2[b].0@ by {
        assert(e2[a].0 == e[a].0);
        assert(e2[b].0 == e[b].0);
        assert(e[a].0@ != e[b].0@);
    }
    let m1 = entries_map(e2);
    let m2 = entries_map(e).insert(e[i].0@, v@);
    assert forall|k: Seq<char>| m1.contains_key(k) <==> m2.contains_key(k) by {
        if has_key(e2, k) {
            let j = choose|j: int| 0 <= j < e2.len() && #[trigger] e2[j].0@ == k;
            assert(e[j].0@ == k);
        }
        if has_key(e, k) {
            let j = choose|j: int| 0 <= j < e.len() && #[trigger] e[j].0@ == k;
            assert(e2[j].0@ == k);
        }
        if k == e[i].0@ {
            assert(e2[i].0@ == k);
        }
    }
    assert forall|k: Seq<char>| m1.contains_key(k) implies m1[k] == m2[k] by {
        let j = choose|j: int| 0 <= j < e2.len() && #[trigger] e2[j].0@ == k;
        assert(e2[j].0@ == e[j].0@);
        lemma_lookup(e2, j);
        if j == i {
            assert(e2[j].1 == v);
        } else {
            lemma_lookup(e, j);
            assert(e2[j] == e[j]);
        }
    }
}

proof fn lemma_push(e: Seq<(String, String)>, k: String, v: String)
    requires
        unique_keys(e),
        !has_key(e, k@),
    ensures
        unique_keys(e.push((k, v))),
        entries_map(e.push((k, v))) =~= entries_map(e).insert(k@, v@),
{
    let e2 = e.push((k, v));
    assert forall|a: int, b: int| 0 <= a < b < e2.len() implies #[trigger] e2[a].0@ != #[trigger] e2[b].0@ by {
        if b == e.len() {
            assert(e2[a] == e[a]);
            if e[a].0@ == k@ {
                assert(has_key(e, k@));
            }
        } else {
            assert(e2[a] == e[a]);
            assert(e2[b] == e[b]);
        }
    }
    let m1 = entries_map(e2);
    let m2 = entries_map(e).insert(k@, v@);
    assert forall|key: Seq<char>| m1.contains_key(key) <==> m2.contains_key(key) by {
        if has_key(e2, key) {
            let j = choose|j: int| 0 <= j < e2.len() && #[trigger] e2[j].0@ == key;
            if j < e.len() {
                assert(e[j].0@ == key);
            }
        }
        if has_key(e, key) {
            let j = choose|j: int| 0 <= j < e.len() && #[trigger] e[j].0@ == key;
            assert(e2[j].0@ == key);
        }
        if key == k@ {
            assert(e2[e.len() as int].0@ == key);
        }
    }
    assert forall|key: Seq<char>| m1.contains_key(key) implies m1[key] == m2[key] by {
        let j = choose|j: int| 0 <= j < e2.len() && #[trigger] e2[j].0@ == key;
        lemma_lookup(e2, j);
        if j < e.len() {
            assert(e2[j] == e[j]);
            lemma_lookup(e, j);
        }
    }
}

proof fn lemma_remove(e: Seq<(String, String)>, i: int)
    requires
        unique_keys(e),
        0 <= i < e.len(),
    ensures
        unique_keys(e.remove(i)),
        entries_map(e.remove(i)) =~= entries_map(e).remove(e[i].0@),
{
    let e2 = e.remove(i);
    assert forall|a: int, b: int| 0 <= a < b < e2.len() implies #[trigger] e2[a].0@ != #[trigger] e2[b].0@ by {
        let a1 = if a < i { a } else { a + 1 };
        let b1 = if b < i { b } else { b + 1 };
        assert(e2[a] == e[a1]);
        assert(e2[b] == e[b1]);
        assert(e[a1].0@ != e[b1].0@);
    }
    let m1 = entries_map(e2);
    let m2 = entries_map(e).remove(e[i].0@);
    assert forall|k: Seq<char>| m1.contains_key(k) <==> m2.contains_key(k) by {
        if has_key(e2, k) {
            let j = choose|j: int| 0 <= j < e2.len() && #[trigger] e2[j].0@ == k;
            let j1 = if j < i { j } else { j + 1 };
            assert(e2[j] == e[j1]);
            assert(e[j1].0@ == k);
            if j < i {
                assert(e[j].0@ != e[i].0@);
            } else {
                assert(e[i].0@ != e[j1].0@);
            }
        }
        if has_key(e, k) && k != e[i].0@ {
            let j = choose|j: int| 0 <= j < e.len() && #[trigger] e[j].0@ == k;
            assert(j != i);
            let j2 = if j < i { j } else { j - 1 };
            assert(e2[j2] == e[j]);
            assert(e2[j2].0@ == k);
        }
    }
    assert forall|k: Seq<char>| m1.contains_key(k) implies m1[k] == m2[k] by {
        let j = choose|j: int| 0 <= j < e2.len() && #[trigger] e2[j].0@ == k;
        let j1 = if j < i { j } else { j + 1 };
        assert(e2[j] == e[j1]);
        lemma_lookup(e2, j);
        lemma_lookup(e, j1);
    }
}

/// A table from JIDs to secrets, with at most one entry per JID.
#[derive(Debug)]
pub struct SecretTable {
    entries: Vec<(String, String)>,
}

impl View for SecretTable {
    type V = Map<Seq<char>, Seq<char>>;

    closed spec fn view(&self) -> Map<Seq<char>, Seq<char>> {
        entries_map(self.entries@)
    }
}

impl SecretTable {
    #[verifier::type_invariant]
    spec fn wf(self) -> bool {
        unique_keys(self.entries@)
    }

    /// An empty table.
    pub fn new() -> (t: SecretTable)
        ensures
            t@ == Map::<Seq<char>, Seq<char>>::empty(),
    {
        let t = SecretTable { entries: Vec::new() };
        assert(t@ =~= Map::<Seq<char>, Seq<char>>::empty());
        t
    }

    /// The position of the entry for `key`.
    fn position(&self, key: &str) -> (r: Option<usize>)
        ensures
            match r {
                Some(i) => i < self.entries@.len() && self.entries@[i as int].0@ == key@,
                None => !has_key(self.entries@, key@),
            },
    {
        let mut i: usize = 0;
        while i < self.entries.len()
            invariant
                i <= self.entries@.len(),
                forall|j: int| 0 <= j < i ==> #[trigger] self.entries@[j].0@ != key@,
            decreases self.entries@.len() - i,
        {
            if str_eq(self.entries[i].0.as_str(), key) {
                return Some(i);
            }
            i = i + 1;
        }
        None
    }

    /// The secret stored for `jid`.
    pub fn get(&self, jid: &BareJid) -> (r: Option<String>)
        ensures
            r is Some <==> self@.contains_key(jid@),
            r is Some ==> r->Some_0@ == self@[jid@],
    {
        proof {
            use_type_invariant(self);
        }
        match self.position(jid.as_str()) {
            Some(i) => {
                proof {
                    lemma_lookup(self.entries@, i as int);
                }
                Some(self.entries[i].1.clone())
            },
            None => None,
        }
    }

    /// Stores `secret` for `jid`, in place of what was stored, which is
    /// returned.
    pub fn insert(&mut self, jid: &BareJid, secret: String) -> (previous: Option<String>)
        ensures
            final(self)@ == old(self)@.insert(jid@, secret@),
            previous is Some <==> old(self)@.contains_key(jid@),
            previous is Some ==> previous->Some_0@ == old(self)@[jid@],
    {
        proof {
            use_type_invariant(&*self);
        }
        match self.position(jid.as_str()) {
            Some(i) => {
                let ghost e = self.entries@;
                proof {
                    lemma_lookup(e, i as int);
                    lemma_update(e, i as int, secret);
                }
                let key = self.entries[i].0.clone();
                let previous = self.entries[i].1.clone();
                let mut entries: Vec<(String, String)> = Vec::new();
                std::mem::swap(&mut entries, &mut self.entries);
                entries.set(i, (key, secret));
                assert(entries@ == e.update(i as int, (e[i as int].0, secret)));
                self.entries = entries;
                Some(previous)
            },
            None => {
                let ghost e = self.entries@;
                let key = jid.to_string();
                proof {
                    lemma_push(e, key, secret);
                }
                let mut entries: Vec<(String, String)> = Vec::new();
                std::mem::swap(&mut entries, &mut self.entries);
                entries.push((key, secret));
                self.entries = entries;
                None
            },
        }
    }

    /// Removes what is stored for `jid`, and returns it.
    pub fn remove(&mut self, jid: &BareJid) -> (removed: Option<String>)
        ensures
            final(self)@ == old(self)@.remove(jid@),
            removed is Some <==> old(self)@.contains_key(jid@),
            removed is Some ==> removed->Some_0@ == old(self)@[jid@],
    {
        proof {
            use_type_invariant(&*self);
        }
        match self.position(jid.as_str()) {
            Some(i) => {
                let ghost e = self.entries@;
                proof {
                    lemma_lookup(e, i as int);
                    lemma_remove(e, i as int);
                }
                let mut entries: Vec<(String, String)> = Vec::new();
                std::mem::swap(&mut entries, &mut self.entries);
                let (_, secret) = entries.remove(i);
                self.entries = entries;
                Some(secret)
            },
            None => {
                assert(old(self)@.remove(jid@) =~= old(self)@);
                None
            },
        }
    }
}

/// What reading a table gives back of a write: the secret written for a
/// JID is read back for it, other JIDs read as before, and a removed JID
/// reads as absent.
pub proof fn law_table_read_after_write(
    table: Map<Seq<char>, Seq<char>>,
    jid: Seq<char>,
    secret: Seq<char>,
    other: Seq<char>,
)
    requires
        other != jid,
    ensures
        table.insert(jid, secret).contains_key(jid),
        table.insert(jid, secret)[jid] == secret,
        table.insert(jid, secret).contains_key(other) == table.contains_key(other),
        table.contains_key(other) ==> table.insert(jid, secret)[other] == table[other],
        !table.remove(jid).contains_key(jid),
        table.remove(jid).contains_key(other) == table.contains_key(other),
        table.contains_key(other) ==> table.remove(jid)[other] == table[other],
{
}

/// A service account's password.
#[derive(Debug)]
pub struct Password(String);

impl View for Password {
    type V = Seq<char>;

    closed spec fn view(&self) -> Seq<char> {
        self.0@
    }
}

/// Passwords are at least this many bytes long.
pub const MIN_PASSWORD_LENGTH: usize = 16;

/// `e` is the error for a password shorter than [`MIN_PASSWORD_LENGTH`].
pub open spec fn is_password_too_short_error(e: Error) -> bool {
    &&& e.kind@ == "VALIDATION_ERROR"@
    &&& e.code@ == "PASSWORD_TOO_SHORT"@
    &&& e.status == STATUS_BAD_REQUEST
    &&& e.message@ == "Password too short"@
    &&& e.description@ == "Passwords must be at least 16 characters long."@
}

impl Password {
    /// A password chosen by a user: it must be at least
    /// [`MIN_PASSWORD_LENGTH`] bytes long (in UTF-8).
    pub fn try_from(secret: String) -> (r: Result<Password, Error>)
        ensures
            encode_utf8(secret@).len() >= MIN_PASSWORD_LENGTH ==> r is Ok && r->Ok_0@ == secret@,
            encode_utf8(secret@).len() < MIN_PASSWORD_LENGTH ==> r is Err
                && is_password_too_short_error(r->Err_0),
    {
        if secret.as_str().as_bytes().len() >= MIN_PASSWORD_LENGTH {
            Ok(Password(secret))
        } else {
            proof {
                reveal_strlit("PASSWORD_TOO_SHORT");
                reveal_strlit("Password too short");
                reveal_strlit("Passwords must be at least 16 characters long.");
            }
            Err(
                validation_error(
                    "PASSWORD_TOO_SHORT",
                    "Password too short",
                    "Passwords must be at least 16 characters long.",
                ),
            )
        }
    }

    pub fn new(secret: String) -> (p: Password)
        ensures
            p@ == secret@,
    {
        Password(secret)
    }

    pub fn as_str(&self) -> (s: &str)
        ensures
            s@ == self@,
    {
        self.0.as_str()
    }
}

/// Why a password was refused.
#[derive(Debug, PartialEq, Eq)]
pub enum PasswordValidationError {
    /// It is `len` bytes long, fewer than the `min_len` required.
    TooShort { min_len: u8, len: usize },
}

/// Checks that `password` is at least `min_len` bytes long (in UTF-8).
pub fn validate_password(password: &Password, min_len: u8) -> (r: Result<(), PasswordValidationError>)
    ensures
        encode_utf8(password@).len() >= min_len ==> r is Ok,
        encode_utf8(password@).len() < min_len ==> r == Err::<(), PasswordValidationError>(
            PasswordValidationError::TooShort { min_len, len: encode_utf8(password@).len() as usize },
        ),
{
    let len = password.as_str().as_bytes().len();
    if len < min_len as usize {
        return Err(PasswordValidationError::TooShort { min_len, len });
    }
    Ok(())
}

/// The passwords of the service accounts, and the auth tokens obtained
/// with them.
#[derive(Debug)]
pub struct SecretsStore {
    pub passwords: SecretTable,
    pub tokens: SecretTable,
}

impl SecretsStore {
    /// Nothing stored.
    pub fn new() -> (s: SecretsStore)
        ensures
            s.passwords@ == Map::<Seq<char>, Seq<char>>::empty(),
            s.tokens@ == Map::<Seq<char>, Seq<char>>::empty(),
    {
        SecretsStore { passwords: SecretTable::new(), tokens: SecretTable::new() }
    }

    /// The password stored for `jid`, if any.
    pub fn get_password_opt(&self, jid: &BareJid) -> (r: Option<Password>)
        ensures
            r is Some <==> self.passwords@.contains_key(jid@),
            r is Some ==> r->Some_0@ == self.passwords@[jid@],
    {
        match self.passwords.get(jid) {
            Some(p) => Some(Password(p)),
            None => None,
        }
    }

    /// The password stored for `jid`; not having one is an error.
    pub fn get_password(&self, jid: &BareJid) -> (r: Result<Password, String>)
        ensures
            self.passwords@.contains_key(jid@) ==> r is Ok && r->Ok_0@ == self.passwords@[jid@],
            !self.passwords@.contains_key(jid@) ==> r is Err && r->Err_0@ == "No password stored for `"@
                + jid@ + "`"@,
    {
        match self.passwords.get(jid) {
            Some(p) => Ok(Password(p)),
            None => {
                let mut message = "No password stored for `".to_owned();
                push_str(&mut message, jid.as_str());
                push_str(&mut message, "`");
                Err(message)
            },
        }
    }

    /// First step of a password update: the token cached for `jid` is
    /// discarded, and returned so that it can be revoked.
    pub fn take_token(&mut self, jid: &BareJid) -> (previous: Option<AuthToken>)
        ensures
            final(self).tokens@ == old(self).tokens@.remove(jid@),
            final(self).passwords@ == old(self).passwords@,
            previous is Some <==> old(self).tokens@.contains_key(jid@),
            previous is Some ==> previous->Some_0.0@ == old(self).tokens@[jid@],
    {
        match self.tokens.remove(jid) {
            Some(t) => Some(AuthToken(t)),
            None => None,
        }
    }

    /// Second step of a password update: `revocation` is how revoking the
    /// previous token went (`Ok` when there was none). Only once it is
    /// revoked is the new password stored; otherwise nothing changes and
    /// the revocation's error is returned.
    pub fn set_password<E>(&mut self, jid: &BareJid, password: Password, revocation: Result<(), E>) -> (r:
        Result<(), E>)
        ensures
            r == revocation,
            revocation is Ok ==> final(self).passwords@ == old(self).passwords@.insert(
                jid@,
                password@,
            ),
            revocation is Err ==> final(self).passwords@ == old(self).passwords@,
            final(self).tokens@ == old(self).tokens@,
    {
        if revocation.is_ok() {
            let _ = self.passwords.insert(jid, password.0);
        }
        revocation
    }

    /// The token cached for `jid`, if any.
    pub fn get_token(&self, jid: &BareJid) -> (r: Option<AuthToken>)
        ensures
            r is Some <==> self.tokens@.contains_key(jid@),
            r is Some ==> r->Some_0.0@ == self.tokens@[jid@],
    {
        match self.tokens.get(jid) {
            Some(t) => Some(AuthToken(t)),
            None => None,
        }
    }

    /// Caches `token` for `jid`; returns the token it replaces.
    pub fn save_token(&mut self, jid: &BareJid, token: AuthToken) -> (previous: Option<AuthToken>)
        ensures
            final(self).tokens@ == old(self).tokens@.insert(jid@, token.0@),
            final(self).passwords@ == old(self).passwords@,
            previous is Some <==> old(self).tokens@.contains_key(jid@),
            previous is Some ==> previous->Some_0.0@ == old(self).tokens@[jid@],
    {
        match self.tokens.insert(jid, token.0) {
            Some(t) => Some(AuthToken(t)),
            None => None,
        }
    }
}

/// A password update discards the account's cached token: the token saved
/// next for it replaces none, and the account then reads back the new
/// password and that token.
pub proof fn law_password_update_discards_token(
    passwords: Map<Seq<char>, Seq<char>>,
    tokens: Map<Seq<char>, Seq<char>>,
    jid: Seq<char>,
    password: Seq<char>,
    token: Seq<char>,
)
    ensures
        ({
            let tokens_after_update = tokens.remove(jid);
            let passwords_after_update = passwords.insert(jid, password);
            &&& !tokens_after_update.contains_key(jid)
            &&& passwords_after_update[jid] == password
            &&& tokens_after_update.insert(jid, token)[jid] == token
        }),
{
}

/// Where a service account's token comes from.
#[derive(Debug)]
pub enum TokenSource {
    /// The cached token.
    Cached(AuthToken),
    /// None is cached: log in with these credentials, then cache the token.
    LogIn { username: JidNode, password: Password },
}

impl SecretsStore {
    /// How to get a token for `jid`: the cached one, or else the
    /// credentials to log in with (its node and stored password). Not
    /// having a password stored is an error.
    pub fn token_source(&self, jid: &BareJid) -> (r: Result<TokenSource, String>)
        ensures
            self.tokens@.contains_key(jid@) ==> (r matches Ok(TokenSource::Cached(t)) && t.0@
                == self.tokens@[jid@]),
            !self.tokens@.contains_key(jid@) && self.passwords@.contains_key(jid@) ==> (r matches Ok(
                TokenSource::LogIn { username, password },
            ) && username@ == node_part(jid@) && password@ == self.passwords@[jid@]),
            !self.tokens@.contains_key(jid@) && !self.passwords@.contains_key(jid@) ==> r is Err
                && r->Err_0@ == "No password stored for `"@ + jid@ + "`"@,
    {
        match self.get_token(jid) {
            Some(token) => Ok(TokenSource::Cached(token)),
            None => {
                let password = self.get_password(jid)?;
                Ok(TokenSource::LogIn { username: jid.node(), password })
            },
        }
    }
}

impl SecretsStore {
    /// An admin reads the password of the service account `username` on
    /// the server's domain; the account's password is stored.
    pub fn service_account_password(
        &self,
        caller: &CallerInfo,
        username: &JidNode,
        domain: &JidDomain,
    ) -> (r: Result<Password, Error>)
        requires
            self.passwords@.contains_key(jid_of(username@, domain@)),
        ensures
            !is_admin_role(caller.primary_role@) ==> r is Err && forbidden_with(
                r->Err_0,
                "Only admins can do that."@,
            ),
            is_admin_role(caller.primary_role@) ==> r is Ok && r->Ok_0@ == self.passwords@[jid_of(
                username@,
                domain@,
            )],
    {
        caller.ensure_admin_role()?;
        let jid = BareJid::new(username, domain);
        match self.get_password_opt(&jid) {
            Some(password) => Ok(password),
            None => vstd::pervasive::unreached(),
        }
    }
}

} // verus!
