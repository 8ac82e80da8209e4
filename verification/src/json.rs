use vstd::prelude::*;

verus! {

/// A JSON number, as `serde_json` distinguishes them. A float is held by
/// its IEEE-754 bit pattern.
#[derive(Clone, Copy, Debug, PartialEq, Eq)]
pub enum JsonNumber {
    PosInt(u64),
    NegInt(i64),
    FloatBits(u64),
}

/// A JSON document.
#[derive(Debug, PartialEq)]
pub enum JsonValue {
    Null,
    Bool(bool),
    Number(JsonNumber),
    String(String),
    Array(Vec<JsonValue>),
    Object(Vec<(String, JsonValue)>),
}

/// Mathematical model of a JSON document.
pub enum JsonView {
    Null,
    Bool(bool),
    Number(JsonNumber),
    Str(Seq<char>),
    Array(Seq<JsonView>),
    Object(Seq<(Seq<char>, JsonView)>),
}

pub open spec fn json_view(v: JsonValue) -> JsonView
    decreases v,
{
    match v {
        JsonValue::Null => JsonView::Null,
        JsonValue::Bool(b) => JsonView::Bool(b),
        JsonValue::Number(n) => JsonView::Number(n),
        JsonValue::String(s) => JsonView::Str(s@),
        JsonValue::Array(a) => {
            proof {
                assert(decreases_to!(a => a@));
            }
            JsonView::Array(
                Seq::new(
                    a@.len(),
                    |i: int|
                        if 0 <= i < a@.len() {
                            proof {
                                assert(decreases_to!(a@ => a@[i]));
                            }
                            json_view(a@[i])
                        } else {
                            JsonView::Null
                        },
                ),
            )
        },
        JsonValue::Object(m) => {
            proof {
                assert(decreases_to!(m => m@));
            }
            JsonView::Object(
                Seq::new(
                    m@.len(),
                    |i: int|
                        if 0 <= i < m@.len() {
                            proof {
                                assert(decreases_to!(m@ => m@[i]));
                                assert(decreases_to!(m@[i] => m@[i].1));
                            }
                            (m@[i].0@, json_view(m@[i].1))
                        } else {
                            (Seq::empty(), JsonView::Null)
                        },
                ),
            )
        },
    }
}


impl View for JsonValue {
    type V = JsonView;

    open spec fn view(&self) -> JsonView {
        json_view(*self)
    }
}

/// The model of the entries of a JSON object.
pub open spec fn entries_view(m: Seq<(String, JsonValue)>) -> Seq<(Seq<char>, JsonView)> {
    Seq::new(m.len(), |i: int| (m[i].0@, json_view(m[i].1)))
}

/// The model of the items of a JSON array.
pub open spec fn items_view(a: Seq<JsonValue>) -> Seq<JsonView> {
    Seq::new(a.len(), |i: int| json_view(a[i]))
}

pub proof fn lemma_object_view(m: Vec<(String, JsonValue)>)
    ensures
        JsonValue::Object(m)@ == JsonView::Object(entries_view(m@)),
{
    if let JsonView::Object(e) = JsonValue::Object(m)@ {
        assert(e =~= entries_view(m@));
    }
}

pub proof fn lemma_array_view(a: Vec<JsonValue>)
    ensures
        JsonValue::Array(a)@ == JsonView::Array(items_view(a@)),
{
    if let JsonView::Array(e) = JsonValue::Array(a)@ {
        assert(e =~= items_view(a@));
    }
}

/// The model of a path of object keys.
pub open spec fn path_view(path: Seq<String>) -> Seq<Seq<char>> {
    Seq::new(path.len(), |i: int| path[i]@)
}

/// Position of the first entry with key `key`, or -1.
pub open spec fn key_pos(entries: Seq<(Seq<char>, JsonView)>, key: Seq<char>) -> int
    decreases entries.len(),
{
    if entries.len() == 0 {
        -1
    } else if entries[0].0 == key {
        0
    } else {
        let p = key_pos(entries.drop_first(), key);
        if p < 0 {
            -1
        } else {
            p + 1
        }
    }
}

pub proof fn lemma_key_pos(entries: Seq<(Seq<char>, JsonView)>, key: Seq<char>)
    ensures
        -1 <= key_pos(entries, key) < entries.len(),
        key_pos(entries, key) == -1 <==> (forall|j: int| 0 <= j < entries.len() ==> entries[j].0 != key),
        key_pos(entries, key) >= 0 ==> entries[key_pos(entries, key)].0 == key,
        forall|j: int| 0 <= j < key_pos(entries, key) ==> entries[j].0 != key,
    decreases entries.len(),
{
    if entries.len() > 0 {
        lemma_key_pos(entries.drop_first(), key);
        if entries[0].0 != key {
            assert forall|j: int| 1 <= j < entries.len() implies entries[j].0 == entries.drop_first()[j - 1].0 by {}
            if key_pos(entries.drop_first(), key) == -1 {
                assert forall|j: int| 0 <= j < entries.len() implies entries[j].0 != key by {
                    if j > 0 {
                        assert(entries[j] == entries.drop_first()[j - 1]);
                    }
                }
            }
        }
    }
}

/// `v[key]`: the value under `key` when `v` is an object that holds it,
/// `null` otherwise.
pub open spec fn get_key(v: JsonView, key: Seq<char>) -> JsonView {
    match v {
        JsonView::Object(e) => {
            let p = key_pos(e, key);
            if p >= 0 {
                e[p].1
            } else {
                JsonView::Null
            }
        },
        _ => JsonView::Null,
    }
}

proof fn lemma_key_pos_same_keys(
    e1: Seq<(Seq<char>, JsonView)>,
    e2: Seq<(Seq<char>, JsonView)>,
    k: Seq<char>,
)
    requires
        e1.len() == e2.len(),
        forall|j: int| 0 <= j < e1.len() ==> (#[trigger] e1[j]).0 == e2[j].0,
    ensures
        key_pos(e1, k) == key_pos(e2, k),
    decreases e1.len(),
{
    if e1.len() > 0 {
        assert(e1[0].0 == e2[0].0);
        assert forall|j: int| 0 <= j < e1.drop_first().len() implies (#[trigger] e1.drop_first()[j]).0
            == e2.drop_first()[j].0 by {
            assert(e1[j + 1].0 == e2[j + 1].0);
        }
        lemma_key_pos_same_keys(e1.drop_first(), e2.drop_first(), k);
    }
}

proof fn lemma_key_pos_push(e: Seq<(Seq<char>, JsonView)>, x: (Seq<char>, JsonView), k: Seq<char>)
    requires
        x.0 != k,
    ensures
        key_pos(e.push(x), k) == key_pos(e, k),
    decreases e.len(),
{
    if e.len() > 0 {
        assert(e.push(x)[0] == e[0]);
        assert(e.push(x).drop_first() =~= e.drop_first().push(x));
        lemma_key_pos_push(e.drop_first(), x, k);
    } else {
        assert(e.push(x)[0] == x);
        assert(e.push(x).drop_first() =~= Seq::<(Seq<char>, JsonView)>::empty());
        assert(key_pos(Seq::<(Seq<char>, JsonView)>::empty(), k) == -1);
    }
}

/// Setting a key leaves every other key as it was.
pub proof fn lemma_put_key_other(v: JsonView, key: Seq<char>, child: JsonView, k: Seq<char>)
    requires
        k != key,
    ensures
        get_key(put_key(v, key, child), k) == get_key(v, k),
{
    let e = match v {
        JsonView::Object(e) => e,
        _ => Seq::empty(),
    };
    let p = key_pos(e, key);
    lemma_key_pos(e, key);
    lemma_key_pos(e, k);
    if p >= 0 {
        let e2 = e.update(p, (key, child));
        lemma_key_pos_same_keys(e2, e, k);
        let q = key_pos(e, k);
        if q >= 0 {
            assert(q != p);
            assert(e2[q] == e[q]);
        }
    } else {
        lemma_key_pos_push(e, (key, child), k);
        let q = key_pos(e, k);
        if q >= 0 {
            assert(e.push((key, child))[q] == e[q]);
        }
    }
}

/// An update below one key leaves every other key as it was.
pub proof fn lemma_update_path_other(v: JsonView, path: Seq<Seq<char>>, edit: EditView, k: Seq<char>)
    requires
        path.len() > 0,
        path[0] != k,
    ensures
        update_path(v, path, edit) matches Some(w) ==> get_key(w, k) == get_key(v, k),
{
    if let Some(c) = update_path(get_key(v, path[0]), path.drop_first(), edit) {
        lemma_put_key_other(v, path[0], c, k);
    }
}

/// `v[path[0]][path[1]]...` read access.
pub open spec fn get_path(v: JsonView, path: Seq<Seq<char>>) -> JsonView
    decreases path.len(),
{
    if path.len() == 0 {
        v
    } else {
        get_path(get_key(v, path[0]), path.drop_first())
    }
}

/// Setting a key, then reading it, gives what was set.
pub proof fn lemma_put_key_same(v: JsonView, key: Seq<char>, child: JsonView)
    ensures
        get_key(put_key(v, key, child), key) == child,
{
    let e = match v {
        JsonView::Object(e) => e,
        _ => Seq::empty(),
    };
    let p = key_pos(e, key);
    lemma_key_pos(e, key);
    if p >= 0 {
        let e2 = e.update(p, (key, child));
        lemma_key_pos_same_keys(e2, e, key);
    } else {
        let e2 = e.push((key, child));
        lemma_key_pos(e2, key);
        assert(e2[e.len() as int].0 == key);
        assert forall|j: int| 0 <= j < e.len() implies e2[j].0 != key by {
            assert(e2[j] == e[j]);
        }
    }
}

/// Removing a key leaves every other key as it was.
pub proof fn lemma_remove_key_other(v: JsonView, key: Seq<char>, k: Seq<char>)
    requires
        k != key,
    ensures
        get_key(apply_edit_view(v, EditView::RemoveKey(key)), k) == get_key(v, k),
{
    if let JsonView::Object(e) = v {
        let p = key_pos(e, key);
        lemma_key_pos(e, key);
        if p >= 0 {
            let e2 = e.remove(p);
            e.remove_ensures(p);
            lemma_key_pos(e, k);
            lemma_key_pos(e2, k);
            let q = key_pos(e, k);
            let q2 = key_pos(e2, k);
            if q >= 0 {
                assert(q != p);
                let q1 = if q < p { q } else { q - 1 };
                assert(e2[q1] == e[q]);
                if q2 == -1 {
                    assert(e2[q1].0 != k);
                } else if q2 < q1 {
                    let qq = if q2 < p { q2 } else { q2 + 1 };
                    assert(e2[q2] == e[qq]);
                    assert(qq < q);
                } else if q2 > q1 {
                    assert(e2[q1].0 != k);
                }
            } else {
                if q2 >= 0 {
                    let qq = if q2 < p { q2 } else { q2 + 1 };
                    assert(e2[q2] == e[qq]);
                }
            }
        }
    }
}

/// Where an update happens and where a read happens do not meet: the
/// paths part somewhere, or the update removes a key other than the one
/// the read goes on with.
pub open spec fn disjoint_paths(p: Seq<Seq<char>>, q: Seq<Seq<char>>, edit: EditView) -> bool
    decreases p.len(),
{
    if p.len() == 0 {
        q.len() > 0 && match edit {
            EditView::RemoveKey(k) => q[0] != k,
            _ => false,
        }
    } else if q.len() == 0 {
        false
    } else if p[0] != q[0] {
        true
    } else {
        disjoint_paths(p.drop_first(), q.drop_first(), edit)
    }
}

/// An update leaves a read along a disjoint path as it was.
pub proof fn lemma_update_path_disjoint(v: JsonView, p: Seq<Seq<char>>, edit: EditView, q: Seq<Seq<char>>)
    requires
        disjoint_paths(p, q, edit),
    ensures
        update_path(v, p, edit) matches Some(w) ==> get_path(w, q) == get_path(v, q),
    decreases p.len(),
{
    if p.len() == 0 {
        if let EditView::RemoveKey(k) = edit {
            lemma_remove_key_other(v, k, q[0]);
        }
    } else if let Some(c) = update_path(get_key(v, p[0]), p.drop_first(), edit) {
        let w = put_key(v, p[0], c);
        if p[0] != q[0] {
            lemma_put_key_other(v, p[0], c, q[0]);
        } else {
            lemma_put_key_same(v, p[0], c);
            lemma_update_path_disjoint(get_key(v, p[0]), p.drop_first(), edit, q.drop_first());
        }
    }
}

/// After assigning at a path, the path reads what was assigned.
pub proof fn lemma_update_path_assign(v: JsonView, p: Seq<Seq<char>>, x: JsonView)
    ensures
        update_path(v, p, EditView::Assign(x)) matches Some(w) ==> get_path(w, p) == x,
    decreases p.len(),
{
    if p.len() > 0 {
        if let Some(c) = update_path(get_key(v, p[0]), p.drop_first(), EditView::Assign(x)) {
            lemma_put_key_same(v, p[0], c);
            lemma_update_path_assign(get_key(v, p[0]), p.drop_first(), x);
        }
    }
}

/// `v` holds key `k` at most once, as every object of a JSON document does
/// (anything but an object holds no key).
pub open spec fn key_at_most_once(v: JsonView, k: Seq<char>) -> bool {
    match v {
        JsonView::Object(e) => forall|i: int, j: int|
            #![trigger e[i], e[j]]
            0 <= i < j < e.len() && e[i].0 == k ==> e[j].0 != k,
        _ => true,
    }
}

/// Removing a key held at most once leaves none: it then reads `null`.
pub proof fn lemma_remove_key_once(v: JsonView, k: Seq<char>)
    requires
        key_at_most_once(v, k),
    ensures
        key_at_most_once(apply_edit_view(v, EditView::RemoveKey(k)), k),
        get_key(apply_edit_view(v, EditView::RemoveKey(k)), k) == JsonView::Null,
{
    if let JsonView::Object(e) = v {
        let p = key_pos(e, k);
        lemma_key_pos(e, k);
        if p >= 0 {
            let e2 = e.remove(p);
            e.remove_ensures(p);
            assert forall|j: int| 0 <= j < e2.len() implies e2[j].0 != k by {
                if j < p {
                    assert(e2[j] == e[j]);
                } else {
                    assert(e2[j] == e[j + 1]);
                    assert(e[p].0 == k);
                }
            }
            lemma_key_pos(e2, k);
        }
    }
}

/// Removing another key keeps a key held at most once so.
pub proof fn lemma_remove_other_key_once(v: JsonView, key: Seq<char>, k: Seq<char>)
    requires
        key_at_most_once(v, k),
    ensures
        key_at_most_once(apply_edit_view(v, EditView::RemoveKey(key)), k),
{
    if let JsonView::Object(e) = v {
        let p = key_pos(e, key);
        if p >= 0 {
            lemma_key_pos(e, key);
            let e2 = e.remove(p);
            e.remove_ensures(p);
            assert forall|i: int, j: int|
                #![trigger e2[i], e2[j]]
                0 <= i < j < e2.len() && e2[i].0 == k implies e2[j].0 != k by {
                let i1 = if i < p { i } else { i + 1 };
                let j1 = if j < p { j } else { j + 1 };
                assert(e2[i] == e[i1]);
                assert(e2[j] == e[j1]);
                assert(e[i1].0 == k);
                assert(e[j1].0 != k);
            }
        }
    }
}

/// Reading one key further down a path.
pub proof fn lemma_get_path_push(v: JsonView, p: Seq<Seq<char>>, k: Seq<char>)
    ensures
        get_path(v, p.push(k)) == get_key(get_path(v, p), k),
    decreases p.len(),
{
    if p.len() > 0 {
        assert(p.push(k)[0] == p[0]);
        assert(p.push(k).drop_first() =~= p.drop_first().push(k));
        lemma_get_path_push(get_key(v, p[0]), p.drop_first(), k);
    } else {
        assert(p.push(k)[0] == k);
        assert(p.push(k).drop_first() =~= Seq::<Seq<char>>::empty());
        assert(get_path(get_key(v, k), Seq::<Seq<char>>::empty()) == get_key(v, k));
    }
}

/// An update reads back, at its path, as its edit applied to what was there.
pub proof fn lemma_update_path_edit(v: JsonView, p: Seq<Seq<char>>, edit: EditView)
    ensures
        update_path(v, p, edit) matches Some(w) ==> get_path(w, p) == apply_edit_view(get_path(v, p), edit),
    decreases p.len(),
{
    if p.len() > 0 {
        if let Some(c) = update_path(get_key(v, p[0]), p.drop_first(), edit) {
            lemma_put_key_same(v, p[0], c);
            lemma_update_path_edit(get_key(v, p[0]), p.drop_first(), edit);
        }
    }
}

/// The string held by `v`, if it is a string.
pub open spec fn as_str(v: JsonView) -> Option<Seq<char>> {
    match v {
        JsonView::Str(s) => Some(s),
        _ => None,
    }
}

/// Sets `key` to `child` in `v` seen as an object (`null` is an empty
/// object), keeping the position of an existing entry.
pub open spec fn put_key(v: JsonView, key: Seq<char>, child: JsonView) -> JsonView {
    let e = match v {
        JsonView::Object(e) => e,
        _ => Seq::empty(),
    };
    let p = key_pos(e, key);
    if p >= 0 {
        JsonView::Object(e.update(p, (key, child)))
    } else {
        JsonView::Object(e.push((key, child)))
    }
}

/// What an edit does to the value at the end of its path.
pub enum EditView {
    RemoveKey(Seq<char>),
    Assign(JsonView),
    Truncate(nat),
}

pub open spec fn apply_edit_view(v: JsonView, edit: EditView) -> JsonView {
    match edit {
        EditView::RemoveKey(k) => match v {
            JsonView::Object(e) => {
                let p = key_pos(e, k);
                if p >= 0 {
                    JsonView::Object(e.remove(p))
                } else {
                    v
                }
            },
            _ => v,
        },
        EditView::Assign(x) => x,
        EditView::Truncate(n) => match v {
            JsonView::Array(a) => if n <= a.len() {
                JsonView::Array(a.take(n as int))
            } else {
                v
            },
            _ => v,
        },
    }
}

/// Mutable access `v[path[0]][path[1]]...` followed by `edit`: missing keys
/// are inserted as `null`, `null` becomes an empty object, and any other
/// non-object on the way makes the access fail (`None`).
pub open spec fn update_path(v: JsonView, path: Seq<Seq<char>>, edit: EditView) -> Option<JsonView>
    decreases path.len(),
{
    if path.len() == 0 {
        Some(apply_edit_view(v, edit))
    } else if !(v is Null || v is Object) {
        None
    } else {
        match update_path(get_key(v, path[0]), path.drop_first(), edit) {
            Some(c) => Some(put_key(v, path[0], c)),
            None => None,
        }
    }
}

/// An edit applied at the end of a path of keys.
pub enum JsonEdit {
    RemoveKey(String),
    Assign(JsonValue),
    Truncate(usize),
}

impl View for JsonEdit {
    type V = EditView;

    open spec fn view(&self) -> EditView {
        match self {
            JsonEdit::RemoveKey(k) => EditView::RemoveKey(k@),
            JsonEdit::Assign(x) => EditView::Assign(x@),
            JsonEdit::Truncate(n) => EditView::Truncate(*n as nat),
        }
    }
}

pub open spec fn opt_json_view(v: Option<JsonValue>) -> Option<JsonView> {
    match v {
        Some(x) => Some(x@),
        None => None,
    }
}

/// Position of the first entry of `entries` whose key is `key`.
pub fn find_key(entries: &Vec<(String, JsonValue)>, key: &String) -> (r: Option<usize>)
    ensures
        match r {
            Some(i) => i < entries.len() && i as int == key_pos(entries_view(entries@), key@),
            None => key_pos(entries_view(entries@), key@) == -1,
        },
{
    let ghost ev = entries_view(entries@);
    proof {
        lemma_key_pos(ev, key@);
    }
    let mut i: usize = 0;
    while i < entries.len()
        invariant
            0 <= i <= entries.len(),
            ev == entries_view(entries@),
            -1 <= key_pos(ev, key@) < ev.len(),
            key_pos(ev, key@) == -1 <==> (forall|j: int| 0 <= j < ev.len() ==> ev[j].0 != key@),
            key_pos(ev, key@) >= 0 ==> ev[key_pos(ev, key@)].0 == key@,
            forall|j: int| 0 <= j < key_pos(ev, key@) ==> ev[j].0 != key@,
            forall|j: int| 0 <= j < i ==> ev[j].0 != key@,
        decreases entries.len() - i,
    {
        if entries[i].0 == *key {
            assert(ev[i as int].0 == key@);
            return Some(i);
        }
        i = i + 1;
    }
    None
}

/// Applies `edit` to `v` itself.
pub fn apply_edit(v: JsonValue, edit: JsonEdit) -> (r: JsonValue)
    ensures
        r@ == apply_edit_view(v@, edit@),
{
    match edit {
        JsonEdit::RemoveKey(k) => match v {
            JsonValue::Object(mut entries) => {
                let ghost old_entries = entries@;
                proof {
                    lemma_object_view(entries);
                }
                match find_key(&entries, &k) {
                    Some(i) => {
                        entries.remove(i);
                        assert(entries_view(entries@) =~= entries_view(old_entries).remove(i as int));
                        proof {
                            lemma_object_view(entries);
                        }
                        JsonValue::Object(entries)
                    },
                    None => JsonValue::Object(entries),
                }
            },
            _ => v,
        },
        JsonEdit::Assign(x) => x,
        JsonEdit::Truncate(n) => match v {
            JsonValue::Array(mut a) => {
                let ghost old_a = a@;
                proof {
                    lemma_array_view(a);
                }
                a.truncate(n);
                proof {
                    lemma_array_view(a);
                    if n <= old_a.len() {
                        assert(items_view(a@) =~= items_view(old_a).take(n as int));
                    }
                }
                JsonValue::Array(a)
            },
            _ => v,
        },
    }
}

/// Mutable access along `path[depth..]` followed by `edit` (see
/// [`update_path`]); `None` where the access would fail.
pub fn updated_at(v: JsonValue, path: &Vec<String>, depth: usize, edit: JsonEdit) -> (r: Option<JsonValue>)
    requires
        depth <= path.len(),
    ensures
        opt_json_view(r) == update_path(v@, path_view(path@).skip(depth as int), edit@),
    decreases path.len() - depth,
{
    let ghost pv = path_view(path@).skip(depth as int);
    if depth == path.len() {
        assert(pv.len() == 0);
        return Some(apply_edit(v, edit));
    }
    assert(pv.drop_first() =~= path_view(path@).skip(depth + 1));
    assert(pv[0] == path@[depth as int]@);
    let ghost vv = v@;
    let mut entries = match v {
        JsonValue::Null => Vec::new(),
        JsonValue::Object(m) => m,
        _ => {
            return None;
        },
    };
    let ghost ev = entries_view(entries@);
    proof {
        lemma_object_view(entries);
        if !(vv is Object) {
            assert(ev =~= Seq::empty());
        }
    }
    let key = &path[depth];
    proof {
        lemma_key_pos(ev, key@);
    }
    match find_key(&entries, key) {
        Some(i) => {
            let (k, child) = entries.remove(i);
            assert(child@ == get_key(vv, pv[0]));
            match updated_at(child, path, depth + 1, edit) {
                Some(c) => {
                    let ghost cv = c@;
                    entries.insert(i, (k, c));
                    assert(entries_view(entries@) =~= ev.update(i as int, (pv[0], cv)));
                    proof {
                        lemma_object_view(entries);
                    }
                    Some(JsonValue::Object(entries))
                },
                None => None,
            }
        },
        None => {
            assert(get_key(vv, pv[0]) == JsonView::Null);
            match updated_at(JsonValue::Null, path, depth + 1, edit) {
                Some(c) => {
                    let ghost cv = c@;
                    entries.push((key.clone(), c));
                    assert(entries_view(entries@) =~= ev.push((pv[0], cv)));
                    proof {
                        lemma_object_view(entries);
                    }
                    Some(JsonValue::Object(entries))
                },
                None => None,
            }
        },
    }
}


pub open spec fn opt_string_view(s: Option<String>) -> Option<Seq<char>> {
    match s {
        Some(x) => Some(x@),
        None => None,
    }
}

pub proof fn lemma_get_path_non_object(v: JsonView, path: Seq<Seq<char>>)
    requires
        !(v is Object),
    ensures
        path.len() > 0 ==> get_path(v, path) == get_path(JsonView::Null, path.drop_first()),
        get_path(JsonView::Null, path) == JsonView::Null,
    decreases path.len(),
{
    if path.len() > 0 {
        lemma_get_path_non_object(JsonView::Null, path.drop_first());
    }
}

/// The string at `path[depth..]` in `v` (read access, see [`get_path`]).
pub fn str_at(v: &JsonValue, path: &Vec<String>, depth: usize) -> (r: Option<String>)
    requires
        depth <= path.len(),
    ensures
        opt_string_view(r) == as_str(get_path(v@, path_view(path@).skip(depth as int))),
    decreases path.len() - depth,
{
    let ghost pv = path_view(path@).skip(depth as int);
    if depth == path.len() {
        assert(pv.len() == 0);
        return match v {
            JsonValue::String(s) => Some(s.clone()),
            _ => None,
        };
    }
    assert(pv.drop_first() =~= path_view(path@).skip(depth + 1));
    assert(pv[0] == path@[depth as int]@);
    proof {
        lemma_get_path_non_object(JsonView::Null, pv.drop_first());
    }
    match v {
        JsonValue::Object(m) => {
            proof {
                lemma_object_view(*m);
            }
            match find_key(m, &path[depth]) {
                Some(i) => str_at(&m[i].1, path, depth + 1),
                None => None,
            }
        },
        _ => {
            proof {
                lemma_get_path_non_object(v@, pv);
            }
            None
        },
    }
}

/// Turns a list of keys into a path.
pub fn path_of(keys: Vec<&str>) -> (p: Vec<String>)
    ensures
        path_view(p@) == Seq::new(keys@.len(), |i: int| keys@[i]@),
{
    let mut p: Vec<String> = Vec::new();
    let mut i: usize = 0;
    while i < keys.len()
        invariant
            i <= keys.len(),
            p@.len() == i,
            forall|j: int| 0 <= j < i ==> p@[j]@ == keys@[j]@,
        decreases keys.len() - i,
    {
        p.push(keys[i].to_owned());
        i = i + 1;
    }
    assert(path_view(p@) =~= Seq::new(keys@.len(), |i: int| keys@[i]@));
    p
}


/// The path made of the keys `keys`.
pub open spec fn keys_path(keys: Seq<&str>) -> Seq<Seq<char>> {
    Seq::new(keys.len(), |i: int| keys[i]@)
}

/// `v` after mutable access along `keys` and `edit` (see [`update_path`]).
pub fn edit_at(v: JsonValue, keys: Vec<&str>, edit: JsonEdit) -> (r: Option<JsonValue>)
    ensures
        opt_json_view(r) == update_path(v@, keys_path(keys@), edit@),
{
    let ghost k = keys@;
    let path = path_of(keys);
    assert(path_view(path@).skip(0) =~= keys_path(k));
    updated_at(v, &path, 0, edit)
}

/// The string at `keys` in `v`, if any (read access, see [`get_path`]).
pub fn str_at_keys(v: &JsonValue, keys: Vec<&str>) -> (r: Option<String>)
    ensures
        opt_string_view(r) == as_str(get_path(v@, keys_path(keys@))),
{
    let ghost k = keys@;
    let path = path_of(keys);
    assert(path_view(path@).skip(0) =~= keys_path(k));
    str_at(v, &path, 0)
}


impl JsonValue {
    /// A copy of the whole document.
    pub fn deep_clone(&self) -> (r: JsonValue)
        ensures
            r@ == self@,
        decreases self,
    {
        match self {
            JsonValue::Null => JsonValue::Null,
            JsonValue::Bool(b) => JsonValue::Bool(*b),
            JsonValue::Number(n) => JsonValue::Number(*n),
            JsonValue::String(s) => JsonValue::String(s.clone()),
            JsonValue::Array(a) => {
                let mut out: Vec<JsonValue> = Vec::new();
                let mut i: usize = 0;
                while i < a.len()
                    invariant
                        i <= a.len(),
                        out@.len() == i,
                        *self == JsonValue::Array(*a),
                        forall|j: int| 0 <= j < i ==> out@[j]@ == a@[j]@,
                    decreases a.len() - i,
                {
                    proof {
                        assert(decreases_to!(*self => self->Array_0));
                        assert(decreases_to!(*a => a@));
                        assert(decreases_to!(a@ => a@[i as int]));
                    }
                    out.push(a[i].deep_clone());
                    i = i + 1;
                }
                proof {
                    lemma_array_view(*a);
                    lemma_array_view(out);
                    assert(items_view(out@) =~= items_view(a@));
                }
                JsonValue::Array(out)
            },
            JsonValue::Object(m) => {
                let mut out: Vec<(String, JsonValue)> = Vec::new();
                let mut i: usize = 0;
                while i < m.len()
                    invariant
                        i <= m.len(),
                        out@.len() == i,
                        *self == JsonValue::Object(*m),
                        forall|j: int| 0 <= j < i ==> out@[j].0@ == m@[j].0@ && out@[j].1@ == m@[j].1@,
                    decreases m.len() - i,
                {
                    proof {

                        assert(decreases_to!(*self => self->Object_0));
                        assert(decreases_to!(*m => m@));
                        assert(decreases_to!(m@ => m@[i as int]));
                        assert(decreases_to!(m@[i as int] => m@[i as int].1));
                    }
                    let v = m[i].1.deep_clone();
                    out.push((m[i].0.clone(), v));
                    i = i + 1;
                }
                proof {
                    lemma_object_view(*m);
                    lemma_object_view(out);
                    assert(entries_view(out@) =~= entries_view(m@));
                }
                JsonValue::Object(out)
            },
        }
    }
}

} // verus!
