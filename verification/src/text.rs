use vstd::prelude::*;

verus! {

/// `String::push`: appends `c` to the end of `s`.
#[verifier::external_body]
pub(crate) fn push_char(s: &mut String, c: char)
    ensures
        final(s)@ == old(s)@.push(c),
{
    s.push(c)
}

/// The ASCII digit for `d < 10`.
pub open spec fn digit_char(d: nat) -> char {
    if d == 0 { '0' }
    else if d == 1 { '1' }
    else if d == 2 { '2' }
    else if d == 3 { '3' }
    else if d == 4 { '4' }
    else if d == 5 { '5' }
    else if d == 6 { '6' }
    else if d == 7 { '7' }
    else if d == 8 { '8' }
    else { '9' }
}

/// Decimal notation of `n`, without leading zeros.
pub open spec fn decimal(n: nat) -> Seq<char>
    decreases n,
{
    if n < 10 {
        seq![digit_char(n)]
    } else {
        decimal(n / 10).push(digit_char(n % 10))
    }
}

fn digit(d: u64) -> (c: char)
    requires
        d < 10,
    ensures
        c == digit_char(d as nat),
{
    if d == 0 { '0' }
    else if d == 1 { '1' }
    else if d == 2 { '2' }
    else if d == 3 { '3' }
    else if d == 4 { '4' }
    else if d == 5 { '5' }
    else if d == 6 { '6' }
    else if d == 7 { '7' }
    else if d == 8 { '8' }
    else { '9' }
}

/// Appends the decimal notation of `n` to `s`.
pub fn push_decimal(s: &mut String, n: u64)
    ensures
        final(s)@ == old(s)@ + decimal(n as nat),
    decreases n,
{
    if n >= 10 {
        push_decimal(s, n / 10);
    }
    push_char(s, digit(n % 10));
    assert(final(s)@ =~= old(s)@ + decimal(n as nat));
}

/// Appends `t` to `s`.
pub fn push_str(s: &mut String, t: &str)
    ensures
        final(s)@ == old(s)@ + t@,
{
    let n = t.unicode_len();
    let mut i: usize = 0;
    let ghost s0 = s@;
    while i < n
        invariant
            n == t@.len(),
            i <= n,
            s@ == s0 + t@.take(i as int),
        decreases n - i,
    {
        push_char(s, t.get_char(i));
        assert(t@.take(i + 1) =~= t@.take(i as int).push(t@[i as int]));
        i = i + 1;
    }
    assert(t@.take(n as int) =~= t@);
}

/// Copies `t` into a new `String`.
pub fn to_string(t: &str) -> (s: String)
    ensures
        s@ == t@,
{
    t.to_owned()
}

/// Whether `s` starts with `prefix`.
pub fn starts_with(s: &str, prefix: &str) -> (b: bool)
    ensures
        b == prefix@.is_prefix_of(s@),
{
    let n = prefix.unicode_len();
    let m = s.unicode_len();
    if n > m {
        return false;
    }
    let mut i: usize = 0;
    while i < n
        invariant
            n == prefix@.len(),
            m == s@.len(),
            n <= m,
            i <= n,
            forall|j: int| 0 <= j < i ==> prefix@[j] == s@[j],
        decreases n - i,
    {
        if prefix.get_char(i) != s.get_char(i) {
            return false;
        }
        i = i + 1;
    }
    true
}

/// Whether `s` ends with `suffix`.
pub fn ends_with(s: &str, suffix: &str) -> (b: bool)
    ensures
        b == suffix@.is_suffix_of(s@),
{
    let n = suffix.unicode_len();
    let m = s.unicode_len();
    if n > m {
        return false;
    }
    let d = m - n;
    let mut i: usize = 0;
    while i < n
        invariant
            n == suffix@.len(),
            m == s@.len(),
            n <= m,
            d == m - n,
            i <= n,
            forall|j: int| 0 <= j < i ==> suffix@[j] == s@[j + d],
        decreases n - i,
    {
        if suffix.get_char(i) != s.get_char(i + d) {
            return false;
        }
        i = i + 1;
    }
    true
}

/// Whether `c` occurs in `s`.
pub fn contains_char(s: &str, c: char) -> (b: bool)
    ensures
        b == s@.contains(c),
{
    index_of_char(s, c).is_some()
}

/// Position of the first occurrence of `c` in `s`.
pub fn index_of_char(s: &str, c: char) -> (r: Option<usize>)
    ensures
        match r {
            Some(i) => i < s@.len() && s@[i as int] == c && forall|j: int| 0 <= j < i ==> s@[j] != c,
            None => !s@.contains(c),
        },
{
    let m = s.unicode_len();
    let mut i: usize = 0;
    while i < m
        invariant
            m == s@.len(),
            i <= m,
            forall|j: int| 0 <= j < i ==> s@[j] != c,
        decreases m - i,
    {
        if s.get_char(i) == c {
            return Some(i);
        }
        i = i + 1;
    }
    None
}

/// `t` with every occurrence of `pat` replaced by `r`, scanning from the
/// start and resuming after each replaced occurrence.
pub open spec fn replace_all(t: Seq<char>, pat: Seq<char>, r: Seq<char>) -> Seq<char>
    decreases t.len(),
{
    if t.len() == 0 {
        Seq::empty()
    } else if pat.len() > 0 && pat.is_prefix_of(t) {
        r + replace_all(t.skip(pat.len() as int), pat, r)
    } else {
        seq![t[0]] + replace_all(t.drop_first(), pat, r)
    }
}

/// Whether `pat` occurs in `t` at position `i`.
fn occurs_at(t: &str, i: usize, pat: &str) -> (b: bool)
    requires
        i <= t@.len(),
    ensures
        b == pat@.is_prefix_of(t@.skip(i as int)),
{
    let n = pat.unicode_len();
    let m = t.unicode_len();
    if n > m - i {
        return false;
    }
    let mut j: usize = 0;
    while j < n
        invariant
            n == pat@.len(),
            m == t@.len(),
            i + n <= m,
            j <= n,
            forall|k: int| 0 <= k < j ==> pat@[k] == t@[i + k],
        decreases n - j,
    {
        if pat.get_char(j) != t.get_char(i + j) {
            assert(pat@[j as int] != t@.skip(i as int)[j as int]);
            return false;
        }
        j = j + 1;
    }
    assert(pat@ =~= t@.skip(i as int).subrange(0, n as int));
    true
}

/// `str::replace`: `t` with every occurrence of the non-empty `pat`
/// replaced by `r`.
pub(crate) fn replace_all_str(t: &str, pat: &str, r: &str) -> (s: String)
    requires
        pat@.len() > 0,
    ensures
        s@ == replace_all(t@, pat@, r@),
{
    let m = t.unicode_len();
    let n = pat.unicode_len();
    let mut s = String::new();
    let mut i: usize = 0;
    proof {
        assert(t@.skip(0) =~= t@);
        assert(s@ + replace_all(t@, pat@, r@) =~= replace_all(t@, pat@, r@));
    }
    while i < m
        invariant
            m == t@.len(),
            n == pat@.len(),
            n > 0,
            i <= m,
            s@ + replace_all(t@.skip(i as int), pat@, r@) == replace_all(t@, pat@, r@),
        decreases m - i,
    {
        let ghost before = s@;
        let ghost rest = t@.skip(i as int);
        if occurs_at(t, i, pat) {
            push_str(&mut s, r);
            proof {
                assert(rest.skip(n as int) =~= t@.skip(i + n));
                assert(before + (r@ + replace_all(t@.skip(i + n), pat@, r@)) =~= (before + r@)
                    + replace_all(t@.skip(i + n), pat@, r@));
            }
            i = i + n;
        } else {
            push_char(&mut s, t.get_char(i));
            proof {
                assert(rest.drop_first() =~= t@.skip(i + 1));
                assert(rest[0] == t@[i as int]);
                assert(before + (seq![t@[i as int]] + replace_all(t@.skip(i + 1), pat@, r@)) =~= before.push(
                    t@[i as int],
                ) + replace_all(t@.skip(i + 1), pat@, r@));
            }
            i = i + 1;
        }
    }
    proof {
        assert(t@.skip(m as int).len() == 0);
        assert(s@ + Seq::<char>::empty() =~= s@);
    }
    s
}

/// The characters of `s` in `[from, to)`.
pub fn substring(s: &str, from: usize, to: usize) -> (r: String)
    requires
        from <= to <= s@.len(),
    ensures
        r@ == s@.subrange(from as int, to as int),
{
    s.substring_char(from, to).to_owned()
}


/// The models of a list of strings.
pub open spec fn strings_view(s: Seq<String>) -> Seq<Seq<char>> {
    Seq::new(s.len(), |i: int| s[i]@)
}

/// `items` separated by `sep`.
pub open spec fn join(items: Seq<Seq<char>>, sep: Seq<char>) -> Seq<char>
    decreases items.len(),
{
    if items.len() == 0 {
        Seq::empty()
    } else if items.len() == 1 {
        items[0]
    } else {
        join(items.drop_last(), sep) + sep + items.last()
    }
}

/// The strings of `items` separated by `sep`.
pub fn join_strings(items: &Vec<String>, sep: &str) -> (s: String)
    ensures
        s@ == join(strings_view(items@), sep@),
{
    let mut s = String::new();
    let mut i: usize = 0;
    while i < items.len()
        invariant
            i <= items.len(),
            s@ == join(strings_view(items@).take(i as int), sep@),
        decreases items.len() - i,
    {
        let ghost prefix = strings_view(items@).take(i + 1);
        assert(prefix.drop_last() =~= strings_view(items@).take(i as int));
        if i > 0 {
            push_str(&mut s, sep);
        }
        push_str(&mut s, items[i].as_str());
        proof {
            if i == 0 {
                assert(s@ =~= prefix[0]);
            }
        }
        i = i + 1;
    }
    assert(strings_view(items@).take(items.len() as int) =~= strings_view(items@));
    s
}

/// Byte-wise lexicographic order.
pub open spec fn bytes_le(a: Seq<u8>, b: Seq<u8>) -> bool
    decreases a.len(),
{
    if a.len() == 0 {
        true
    } else if b.len() == 0 {
        false
    } else if a[0] < b[0] {
        true
    } else if a[0] > b[0] {
        false
    } else {
        bytes_le(a.drop_first(), b.drop_first())
    }
}

/// The order of `String`s: byte-wise lexicographic on their UTF-8 encoding.
pub open spec fn str_le(a: Seq<char>, b: Seq<char>) -> bool {
    bytes_le(vstd::utf8::encode_utf8(a), vstd::utf8::encode_utf8(b))
}

/// `<[String]>::sort`: sorts the strings in ascending order of `String`'s
/// `Ord` (byte-wise lexicographic), keeping equal ones in order.
#[verifier::external_body]
pub(crate) fn sort_strings(v: &mut Vec<String>)
    ensures
        strings_view(final(v)@) == strings_view(old(v)@).sort_by(|a: Seq<char>, b: Seq<char>| str_le(a, b)),
{
    v.sort()
}

/// Name for what `{:?}` prints for a list of strings.
pub uninterp spec fn debug_string_list(items: Seq<Seq<char>>) -> Seq<char>;

/// `format!("{:?}", items)`: the debug notation of a list of strings, such
/// as `["a", "b"]`. What it is, is left to the name [`debug_string_list`].
#[verifier::external_body]
pub(crate) fn format_debug_list(items: &Vec<String>) -> (s: String)
    ensures
        s@ == debug_string_list(strings_view(items@)),
{
    format!("{:?}", items)
}

} // verus!
