use vstd::prelude::*;

use crate::text::{contains_char, index_of_char, push_char, push_str, substring};

verus! {

/// Position of the first `c` in `s`, or -1.
pub open spec fn index_of(s: Seq<char>, c: char) -> int
    decreases s.len(),
{
    if s.len() == 0 {
        -1
    } else if s[0] == c {
        0
    } else {
        let p = index_of(s.drop_first(), c);
        if p < 0 {
            -1
        } else {
            p + 1
        }
    }
}

pub proof fn lemma_index_of(s: Seq<char>, c: char)
    ensures
        -1 <= index_of(s, c) < s.len(),
        index_of(s, c) == -1 <==> !s.contains(c),
        index_of(s, c) >= 0 ==> s[index_of(s, c)] == c,
        forall|j: int| 0 <= j < index_of(s, c) ==> s[j] != c,
    decreases s.len(),
{
    if s.len() > 0 {
        lemma_index_of(s.drop_first(), c);
        if s[0] != c {
            if index_of(s.drop_first(), c) == -1 {
                assert forall|j: int| 0 <= j < s.len() implies s[j] != c by {
                    if j > 0 {
                        assert(s[j] == s.drop_first()[j - 1]);
                    }
                }
            } else {
                assert(s.drop_first().contains(c));
                let k = choose|k: int| 0 <= k < s.drop_first().len() && s.drop_first()[k] == c;
                assert(s[k + 1] == c);
            }
            assert forall|j: int| 1 <= j < index_of(s, c) implies s[j] != c by {
                assert(s[j] == s.drop_first()[j - 1]);
            }
        } else {
            assert(s[0] == c);
        }
    }
}

/// What precedes the first `@` of a bare JID.
pub open spec fn node_part(s: Seq<char>) -> Seq<char> {
    s.take(index_of(s, '@'))
}

/// What follows the first `@` of a bare JID.
pub open spec fn domain_part(s: Seq<char>) -> Seq<char> {
    s.skip(index_of(s, '@') + 1)
}

/// `node@domain`.
pub open spec fn jid_of(node: Seq<char>, domain: Seq<char>) -> Seq<char> {
    node + seq!['@'] + domain
}

/// The local part of a JID (before the `@`): neither `@` nor `/`.
#[derive(Debug, PartialEq, Eq, Hash)]
pub struct JidNode(String);

/// The domain part of a JID: no `/`.
#[derive(Debug, PartialEq, Eq, Hash)]
pub struct JidDomain(String);

/// A JID without resource part: `node@domain`. It holds an `@` and no `/`.
#[derive(Debug, PartialEq, Eq, Hash)]
pub struct BareJid(String);

impl View for JidNode {
    type V = Seq<char>;

    closed spec fn view(&self) -> Seq<char> {
        self.0@
    }
}

impl View for JidDomain {
    type V = Seq<char>;

    closed spec fn view(&self) -> Seq<char> {
        self.0@
    }
}

impl View for BareJid {
    type V = Seq<char>;

    closed spec fn view(&self) -> Seq<char> {
        self.0@
    }
}

impl JidNode {
    #[verifier::type_invariant]
    spec fn wf(self) -> bool {
        !self.0@.contains('@') && !self.0@.contains('/')
    }

    /// Parses a JID node: `@` and `/` are not permitted.
    pub fn from_str(string: &str) -> (r: Result<JidNode, &'static str>)
        ensures
            string@.contains('@') ==> r == Err::<JidNode, &'static str>("'@' not permitted."),
            !string@.contains('@') && string@.contains('/') ==> r == Err::<JidNode, &'static str>(
                "'/' not permitted.",
            ),
            !string@.contains('@') && !string@.contains('/') ==> r is Ok && r->Ok_0@ == string@,
    {
        if contains_char(string, '@') {
            Err("'@' not permitted.")
        } else if contains_char(string, '/') {
            Err("'/' not permitted.")
        } else {
            Ok(JidNode(string.to_owned()))
        }
    }

    /// The node as a string slice.
    pub fn as_str(&self) -> (s: &str)
        ensures
            s@ == self@,
            !s@.contains('@'),
            !s@.contains('/'),
    {
        proof {
            use_type_invariant(self);
        }
        self.0.as_str()
    }

    /// The node as an owned string.
    pub fn to_string(&self) -> (s: String)
        ensures
            s@ == self@,
    {
        self.0.clone()
    }
}

impl JidDomain {
    #[verifier::type_invariant]
    spec fn wf(self) -> bool {
        !self.0@.contains('/')
    }

    /// Parses a JID domain: `@` and `/` are not permitted.
    pub fn from_str(string: &str) -> (r: Result<JidDomain, &'static str>)
        ensures
            string@.contains('@') ==> r == Err::<JidDomain, &'static str>("'@' not permitted."),
            !string@.contains('@') && string@.contains('/') ==> r == Err::<JidDomain, &'static str>(
                "'/' not permitted.",
            ),
            !string@.contains('@') && !string@.contains('/') ==> r is Ok && r->Ok_0@ == string@,
    {
        if contains_char(string, '@') {
            Err("'@' not permitted.")
        } else if contains_char(string, '/') {
            Err("'/' not permitted.")
        } else {
            Ok(JidDomain(string.to_owned()))
        }
    }

    /// The domain as a string slice.
    pub fn as_str(&self) -> (s: &str)
        ensures
            s@ == self@,
            !s@.contains('/'),
    {
        proof {
            use_type_invariant(self);
        }
        self.0.as_str()
    }

    /// The domain as an owned string.
    pub fn to_string(&self) -> (s: String)
        ensures
            s@ == self@,
    {
        self.0.clone()
    }
}

impl BareJid {
    #[verifier::type_invariant]
    spec fn wf(self) -> bool {
        self.0@.contains('@') && !self.0@.contains('/')
    }

    /// `node@domain`.
    pub fn new(node: &JidNode, domain: &JidDomain) -> (r: BareJid)
        ensures
            r@ == jid_of(node@, domain@),
            !node@.contains('@'),
    {
        proof {
            use_type_invariant(node);
            use_type_invariant(domain);
        }
        let mut s = node.0.clone();
        push_char(&mut s, '@');
        push_str(&mut s, domain.0.as_str());
        proof {
            let j = jid_of(node@, domain@);
            assert(s@ =~= j);
            assert(j[node@.len() as int] == '@');
            assert(j.contains('@'));
            assert forall|i: int| 0 <= i < j.len() implies j[i] != '/' by {
                if i < node@.len() {
                    assert(j[i] == node@[i]);
                } else if i > node@.len() {
                    assert(j[i] == domain@[i - node@.len() - 1]);
                }
            }
        }
        BareJid(s)
    }

    /// Parses a bare JID: it must hold an `@` and no `/`.
    pub fn from_str(string: &str) -> (r: Result<BareJid, &'static str>)
        ensures
            !string@.contains('@') ==> r == Err::<BareJid, &'static str>("Missing '@'."),
            string@.contains('@') && string@.contains('/') ==> r == Err::<BareJid, &'static str>(
                "Resource part not permitted.",
            ),
            string@.contains('@') && !string@.contains('/') ==> r is Ok && r->Ok_0@ == string@,
    {
        if !contains_char(string, '@') {
            Err("Missing '@'.")
        } else if contains_char(string, '/') {
            Err("Resource part not permitted.")
        } else {
            Ok(BareJid(string.to_owned()))
        }
    }

    /// The part before the first `@`.
    pub fn node(&self) -> (r: JidNode)
        ensures
            r@ == node_part(self@),
    {
        proof {
            use_type_invariant(self);
            lemma_index_of(self@, '@');
        }
        let i = match index_of_char(self.0.as_str(), '@') {
            Some(i) => i,
            None => 0,
        };
        proof {
            lemma_index_of_is(self@, '@', i as int);
        }
        let s = substring(self.0.as_str(), 0, i);
        proof {
            assert forall|k: int| 0 <= k < s@.len() implies s@[k] != '@' && s@[k] != '/' by {
                assert(s@[k] == self@[k]);
            }
        }
        JidNode(s)
    }

    /// The part after the first `@`.
    pub fn domain(&self) -> (r: JidDomain)
        ensures
            r@ == domain_part(self@),
    {
        proof {
            use_type_invariant(self);
            lemma_index_of(self@, '@');
        }
        let i = match index_of_char(self.0.as_str(), '@') {
            Some(i) => i,
            None => 0,
        };
        proof {
            lemma_index_of_is(self@, '@', i as int);
        }
        let n = self.0.as_str().unicode_len();
        let s = substring(self.0.as_str(), i + 1, n);
        proof {
            assert forall|k: int| 0 <= k < s@.len() implies s@[k] != '/' by {
                assert(s@[k] == self@[k + i + 1]);
            }
        }
        JidDomain(s)
    }

    /// The JID as a string slice.
    pub fn as_str(&self) -> (s: &str)
        ensures
            s@ == self@,
            s@.contains('@'),
            !s@.contains('/'),
    {
        proof {
            use_type_invariant(self);
        }
        self.0.as_str()
    }

    /// The JID as an owned string.
    pub fn to_string(&self) -> (s: String)
        ensures
            s@ == self@,
    {
        self.0.clone()
    }
}

impl Clone for JidNode {
    fn clone(&self) -> (r: Self)
        ensures
            r@ == self@,
    {
        proof {
            use_type_invariant(self);
        }
        JidNode(self.0.clone())
    }
}

impl Clone for JidDomain {
    fn clone(&self) -> (r: Self)
        ensures
            r@ == self@,
    {
        proof {
            use_type_invariant(self);
        }
        JidDomain(self.0.clone())
    }
}

impl Clone for BareJid {
    fn clone(&self) -> (r: Self)
        ensures
            r@ == self@,
    {
        proof {
            use_type_invariant(self);
        }
        BareJid(self.0.clone())
    }
}

pub proof fn lemma_index_of_is(s: Seq<char>, c: char, i: int)
    requires
        0 <= i < s.len(),
        s[i] == c,
        forall|j: int| 0 <= j < i ==> s[j] != c,
    ensures
        index_of(s, c) == i,
{
    lemma_index_of(s, c);
    if index_of(s, c) < i {
        assert(s[index_of(s, c)] == c);
    }
}

/// Joining a node and a domain into a bare JID, then splitting it, gives
/// back the node and the domain.
pub proof fn law_jid_parts(node: Seq<char>, domain: Seq<char>)
    requires
        !node.contains('@'),
    ensures
        node_part(jid_of(node, domain)) == node,
        domain_part(jid_of(node, domain)) == domain,
{
    let j = jid_of(node, domain);
    assert forall|k: int| 0 <= k < node.len() implies j[k] != '@' by {
        assert(j[k] == node[k]);
    }
    lemma_index_of_is(j, '@', node.len() as int);
    assert(j.take(node.len() as int) =~= node);
    assert(j.skip(node.len() as int + 1) =~= domain);
}

} // verus!
