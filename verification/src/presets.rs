use vstd::prelude::*;

use crate::app_config::{InvalidConfiguration, PodAddress};
use crate::json::{entries_view, find_key, key_pos, lemma_object_view, JsonValue, JsonView};
use crate::text::{
    debug_string_list, format_debug_list, join, join_strings, push_str, sort_strings, str_le,
    strings_view,
};

verus! {

/// The `inherits` key of an analytics preset.
#[derive(Debug, Clone, PartialEq, Eq)]
pub enum Inherits {
    /// No `inherits` key.
    Absent,
    /// `inherits = "<name>"`.
    Name(String),
    /// `inherits` is not a string.
    NotAString,
}

/// An analytics preset, as far as inheritance is concerned. Its other keys
/// stay with the configuration loader.
#[derive(Debug, Clone, PartialEq, Eq)]
pub struct PresetEntry {
    pub name: String,
    pub inherits: Inherits,
}

/// The names of the presets.
pub open spec fn preset_names(presets: Seq<PresetEntry>) -> Seq<Seq<char>> {
    Seq::new(presets.len(), |i: int| presets[i].name@)
}

/// Position of the first preset named `name`, or -1.
pub open spec fn preset_pos(presets: Seq<PresetEntry>, name: Seq<char>) -> int
    decreases presets.len(),
{
    if presets.len() == 0 {
        -1
    } else if presets[0].name@ == name {
        0
    } else {
        let p = preset_pos(presets.drop_first(), name);
        if p < 0 {
            -1
        } else {
            p + 1
        }
    }
}

pub proof fn lemma_preset_pos(presets: Seq<PresetEntry>, name: Seq<char>)
    ensures
        -1 <= preset_pos(presets, name) < presets.len(),
        preset_pos(presets, name) == -1 ==> forall|j: int|
            0 <= j < presets.len() ==> presets[j].name@ != name,
        preset_pos(presets, name) >= 0 ==> presets[preset_pos(presets, name)].name@ == name,
        forall|j: int| 0 <= j < preset_pos(presets, name) ==> presets[j].name@ != name,
    decreases presets.len(),
{
    if presets.len() > 0 {
        lemma_preset_pos(presets.drop_first(), name);
        if presets[0].name@ != name {
            assert forall|j: int| 1 <= j < presets.len() implies presets[j] == presets.drop_first()[j - 1] by {}
        }
    }
}

/// The sorted names of the presets, as listed in error messages.
pub open spec fn available_presets(presets: Seq<PresetEntry>) -> Seq<Seq<char>> {
    preset_names(presets).sort_by(|a: Seq<char>, b: Seq<char>| str_le(a, b))
}

pub open spec fn not_a_string_message(name: Seq<char>) -> Seq<char> {
    "Invalid preset '"@ + name + "'. `inherits` should be a string."@
}

pub open spec fn unknown_preset_message(name: Seq<char>, available: Seq<Seq<char>>) -> Seq<char> {
    "Invalid preset '"@ + name + "'. Expected one of: "@ + debug_string_list(available)
}

pub open spec fn unknown_inherited_message(
    name: Seq<char>,
    stack: Seq<Seq<char>>,
    available: Seq<Seq<char>>,
) -> Seq<char> {
    "Invalid preset '"@ + name + "' inherited by '"@ + join(stack, " -> "@)
        + "'. Expected one of: "@ + debug_string_list(available) + " (removing cyclic references)"@
}

/// The chain of presets that `name` stands for, from `name` itself to the
/// root of its inheritance, or the message of the error. Each preset is
/// removed once used, so a cycle ends as a reference to a missing preset;
/// `stack` holds the presets that led to `name`.
pub open spec fn preset_chain(
    name: Seq<char>,
    presets: Seq<PresetEntry>,
    stack: Seq<Seq<char>>,
) -> Result<Seq<Seq<char>>, Seq<char>>
    decreases presets.len(),
{
    let i = preset_pos(presets, name);
    if 0 <= i < presets.len() {
        let rest = presets.remove(i);
        match presets[i].inherits {
            Inherits::Absent => Ok(seq![name]),
            Inherits::NotAString => Err(not_a_string_message(name)),
            Inherits::Name(parent) => match preset_chain(parent@, rest, stack.push(name)) {
                Ok(chain) => Ok(seq![name] + chain),
                Err(m) => Err(m),
            },
        }
    } else if stack.len() == 0 {
        Err(unknown_preset_message(name, available_presets(presets)))
    } else {
        Err(unknown_inherited_message(name, stack, available_presets(presets)))
    }
}

fn find_preset(presets: &Vec<PresetEntry>, name: &String) -> (r: Option<usize>)
    ensures
        match r {
            Some(i) => i < presets.len() && i as int == preset_pos(presets@, name@),
            None => preset_pos(presets@, name@) == -1,
        },
{
    proof {
        lemma_preset_pos(presets@, name@);
    }
    let mut i: usize = 0;
    while i < presets.len()
        invariant
            i <= presets.len(),
            -1 <= preset_pos(presets@, name@) < presets@.len(),
            preset_pos(presets@, name@) == -1 ==> forall|j: int|
                0 <= j < presets@.len() ==> presets@[j].name@ != name@,
            preset_pos(presets@, name@) >= 0 ==> presets@[preset_pos(presets@, name@)].name@ == name@,
            forall|j: int| 0 <= j < preset_pos(presets@, name@) ==> presets@[j].name@ != name@,
            forall|j: int| 0 <= j < i ==> presets@[j].name@ != name@,
        decreases presets.len() - i,
    {
        if presets[i].name == *name {
            return Some(i);
        }
        i = i + 1;
    }
    None
}

fn available_presets_exec(presets: &Vec<PresetEntry>) -> (s: String)
    ensures
        s@ == debug_string_list(available_presets(presets@)),
{
    let mut names: Vec<String> = Vec::new();
    let mut i: usize = 0;
    while i < presets.len()
        invariant
            i <= presets.len(),
            strings_view(names@) == preset_names(presets@).take(i as int),
        decreases presets.len() - i,
    {
        let ghost before = names@;
        let n = presets[i].name.clone();
        assert(n@ == preset_names(presets@)[i as int]);
        names.push(n);
        assert(strings_view(names@) =~= strings_view(before).push(n@));
        assert(preset_names(presets@).take(i + 1) =~= preset_names(presets@).take(i as int).push(n@));
        i = i + 1;
    }
    assert(preset_names(presets@).take(presets.len() as int) =~= preset_names(presets@));
    sort_strings(&mut names);
    format_debug_list(&names)
}

/// Resolves the chain of `name` (see [`preset_chain`]).
fn get_preset(name: &String, presets: Vec<PresetEntry>, stack: Vec<String>) -> (r: Result<Vec<String>, String>)
    ensures
        match r {
            Ok(chain) => preset_chain(name@, presets@, strings_view(stack@)) == Ok::<
                Seq<Seq<char>>,
                Seq<char>,
            >(strings_view(chain@)),
            Err(m) => preset_chain(name@, presets@, strings_view(stack@)) == Err::<
                Seq<Seq<char>>,
                Seq<char>,
            >(m@),
        },
    decreases presets@.len(),
{
    let ghost all = presets@;
    match find_preset(&presets, name) {
        Some(i) => {
            let mut rest = presets;
            let preset = rest.remove(i);
            match preset.inherits {
                Inherits::Absent => {
                    let mut chain: Vec<String> = Vec::new();
                    chain.push(name.clone());
                    assert(strings_view(chain@) =~= seq![name@]);
                    Ok(chain)
                },
                Inherits::NotAString => {
                    let mut m = "Invalid preset '".to_owned();
                    push_str(&mut m, name.as_str());
                    push_str(&mut m, "'. `inherits` should be a string.");
                    Err(m)
                },
                Inherits::Name(parent) => {
                    let mut stack = stack;
                    let ghost old_stack = strings_view(stack@);
                    stack.push(name.clone());
                    assert(strings_view(stack@) =~= old_stack.push(name@));
                    match get_preset(&parent, rest, stack) {
                        Ok(tail) => {
                            let mut chain: Vec<String> = Vec::new();
                            chain.push(name.clone());
                            let mut j: usize = 0;
                            while j < tail.len()
                                invariant
                                    j <= tail.len(),
                                    strings_view(chain@) == seq![name@] + strings_view(tail@).take(j as int),
                                decreases tail.len() - j,
                            {
                                let ghost before = chain@;
                                let t = tail[j].clone();
                                assert(t@ == strings_view(tail@)[j as int]);
                                chain.push(t);
                                assert(strings_view(chain@) =~= strings_view(before).push(t@));
                                assert(strings_view(tail@).take(j + 1) =~= strings_view(tail@).take(j as int).push(t@));
                                assert(strings_view(chain@) =~= seq![name@] + strings_view(tail@).take(j + 1));
                                j = j + 1;
                            }
                            assert(strings_view(tail@).take(tail.len() as int) =~= strings_view(tail@));
                            Ok(chain)
                        },
                        Err(m) => Err(m),
                    }
                },
            }
        },
        None => {
            let available = available_presets_exec(&presets);
            let mut m = "Invalid preset '".to_owned();
            push_str(&mut m, name.as_str());
            if stack.len() == 0 {
                push_str(&mut m, "'. Expected one of: ");
                push_str(&mut m, available.as_str());
                Err(m)
            } else {
                push_str(&mut m, "' inherited by '");
                let joined = join_strings(&stack, " -> ");
                push_str(&mut m, joined.as_str());
                push_str(&mut m, "'. Expected one of: ");
                push_str(&mut m, available.as_str());
                push_str(&mut m, " (removing cyclic references)");
                Err(m)
            }
        },
    }
}

/// The presets to join, most specific first, for the analytics preset
/// `preset_name`: the preset itself, then the presets it inherits from.
pub fn apply_analytics_preset(preset_name: &str, presets: Vec<PresetEntry>) -> (r: Result<
    Vec<String>,
    InvalidConfiguration,
>)
    ensures
        match r {
            Ok(chain) => preset_chain(preset_name@, presets@, Seq::empty()) == Ok::<
                Seq<Seq<char>>,
                Seq<char>,
            >(strings_view(chain@)),
            Err(e) => preset_chain(preset_name@, presets@, Seq::empty()) == Err::<
                Seq<Seq<char>>,
                Seq<char>,
            >(e.message@),
        },
{
    let stack: Vec<String> = Vec::new();
    assert(strings_view(stack@) =~= Seq::empty());
    match get_preset(&preset_name.to_owned(), presets, stack) {
        Ok(chain) => Ok(chain),
        Err(message) => Err(InvalidConfiguration { message }),
    }
}


/// Defaults that depend on other configuration values.
#[derive(Debug, Clone, PartialEq, Eq)]
pub struct DynamicDefaults {
    /// Default for `pod.address.domain`.
    pub pod_address_domain: Option<String>,
    /// Default for `dashboard.url`.
    pub dashboard_url: Option<String>,
}

/// When the Pod has no static IP address, its domain defaults to
/// `prose.{server_domain}` and the Dashboard URL to `https://admin.{pod_domain}`.
pub fn dynamic_defaults(server_domain: &str, pod_address: &PodAddress) -> (d: DynamicDefaults)
    ensures
        pod_address.ipv4 is None && pod_address.ipv6 is None ==> {
            let default_domain = "prose."@ + server_domain@;
            &&& d.pod_address_domain is Some
            &&& d.pod_address_domain->0@ == default_domain
            &&& d.dashboard_url is Some
            &&& d.dashboard_url->0@ == "https://admin."@ + match pod_address.domain {
                Some(name) => name@,
                None => default_domain,
            }
        },
        !(pod_address.ipv4 is None && pod_address.ipv6 is None) ==> d.pod_address_domain is None
            && d.dashboard_url is None,
{
    if pod_address.ipv4.is_none() && pod_address.ipv6.is_none() {
        let mut default_server_domain = "prose.".to_owned();
        push_str(&mut default_server_domain, server_domain);
        let mut url = "https://admin.".to_owned();
        match &pod_address.domain {
            Some(name) => push_str(&mut url, name.as_str()),
            None => push_str(&mut url, default_server_domain.as_str()),
        }
        DynamicDefaults { pod_address_domain: Some(default_server_domain), dashboard_url: Some(url) }
    } else {
        DynamicDefaults { pod_address_domain: None, dashboard_url: None }
    }
}

/// The analytics presets applied while loading the configuration, in
/// order: the selected one, if any, then `default`.
pub fn analytics_presets_to_apply(selected: Option<&str>) -> (r: Vec<String>)
    ensures
        strings_view(r@) == match selected {
            Some(p) => seq![p@, "default"@],
            None => seq!["default"@],
        },
{
    let mut r: Vec<String> = Vec::new();
    if let Some(p) = selected {
        r.push(p.to_owned());
    }
    r.push("default".to_owned());
    assert(strings_view(r@) =~= match selected {
        Some(p) => seq![p@, "default"@],
        None => seq!["default"@],
    });
    r
}

/// The value under `inherits` in a preset, if it has that key.
pub open spec fn inherits_value(preset: JsonView) -> Option<JsonView> {
    match preset {
        JsonView::Object(e) => {
            let p = key_pos(e, "inherits"@);
            if p >= 0 {
                Some(e[p].1)
            } else {
                None
            }
        },
        _ => None,
    }
}

/// `p` is what the preset `entry` (its name and its table) says of
/// inheritance.
pub open spec fn entry_of(p: PresetEntry, entry: (Seq<char>, JsonView)) -> bool {
    &&& p.name@ == entry.0
    &&& match inherits_value(entry.1) {
        None => p.inherits is Absent,
        Some(JsonView::Str(parent)) => p.inherits matches Inherits::Name(n) && n@ == parent,
        Some(_) => p.inherits is NotAString,
    }
}

/// Whether every preset is a table.
pub open spec fn all_tables(e: Seq<(Seq<char>, JsonView)>) -> bool {
    forall|i: int| 0 <= i < e.len() ==> (#[trigger] e[i]).1 is Object
}

/// The analytics presets of a configuration (the value of
/// `vendor_analytics.presets`), as far as inheritance is concerned. As
/// when the configuration is loaded, presets are read only if all of them
/// are tables; otherwise there are none.
pub fn preset_entries(presets: &JsonValue) -> (r: Vec<PresetEntry>)
    ensures
        match presets@ {
            JsonView::Object(e) => if all_tables(e) {
                &&& r@.len() == e.len()
                &&& forall|i: int| 0 <= i < e.len() ==> entry_of(#[trigger] r@[i], e[i])
            } else {
                r@.len() == 0
            },
            _ => r@.len() == 0,
        },
{
    let entries = match presets {
        JsonValue::Object(entries) => entries,
        _ => {
            return Vec::new();
        },
    };
    proof {
        lemma_object_view(*entries);
    }
    let ghost ev = entries_view(entries@);
    let inherits_key = "inherits".to_owned();
    let mut r: Vec<PresetEntry> = Vec::new();
    let mut i: usize = 0;
    while i < entries.len()
        invariant
            i <= entries@.len(),
            ev == entries_view(entries@),
            presets@ == JsonView::Object(ev),
            inherits_key@ == "inherits"@,
            r@.len() == i,
            forall|j: int| 0 <= j < i ==> ev[j].1 is Object,
            forall|j: int| 0 <= j < i ==> entry_of(#[trigger] r@[j], ev[j]),
        decreases entries@.len() - i,
    {
        let (name, value) = (&entries[i].0, &entries[i].1);
        assert(ev[i as int] == (name@, value@));
        let table = match value {
            JsonValue::Object(t) => t,
            _ => {
                proof {
                    assert(!(ev[i as int].1 is Object));
                    assert(!all_tables(ev));
                }
                return Vec::new();
            },
        };
        proof {
            lemma_object_view(*table);
        }
        let inherits = match find_key(table, &inherits_key) {
            None => Inherits::Absent,
            Some(k) => match &table[k].1 {
                JsonValue::String(parent) => Inherits::Name(parent.clone()),
                _ => Inherits::NotAString,
            },
        };
        r.push(PresetEntry { name: name.clone(), inherits });
        i = i + 1;
    }
    r
}

/// No two presets share a name (they are the keys of a table).
pub open spec fn unique_names(presets: Seq<PresetEntry>) -> bool {
    forall|i: int, j: int|
        0 <= i < j < presets.len() ==> #[trigger] presets[i].name@ != #[trigger] presets[j].name@
}

proof fn lemma_remove_keeps_unique(presets: Seq<PresetEntry>, i: int)
    requires
        unique_names(presets),
        0 <= i < presets.len(),
    ensures
        unique_names(presets.remove(i)),
        !preset_names(presets.remove(i)).contains(presets[i].name@),
        forall|x: Seq<char>|
            #[trigger] preset_names(presets.remove(i)).contains(x) ==> preset_names(presets).contains(x),
{
    let r = presets.remove(i);
    presets.remove_ensures(i);
    assert forall|a: int, b: int| 0 <= a < b < r.len() implies #[trigger] r[a].name@ != #[trigger] r[b].name@ by {
        let a1 = if a < i { a } else { a + 1 };
        let b1 = if b < i { b } else { b + 1 };
        assert(r[a] == presets[a1]);
        assert(r[b] == presets[b1]);
    }
    if preset_names(r).contains(presets[i].name@) {
        let k = choose|k: int| 0 <= k < preset_names(r).len() && preset_names(r)[k] == presets[i].name@;
        let k1 = if k < i { k } else { k + 1 };
        assert(r[k] == presets[k1]);
        if k1 < i {
            assert(presets[k1].name@ != presets[i].name@);
        } else {
            assert(presets[i].name@ != presets[k1].name@);
        }
    }
    assert forall|x: Seq<char>| #[trigger] preset_names(r).contains(x) implies preset_names(presets).contains(x) by {
        let k = choose|k: int| 0 <= k < preset_names(r).len() && preset_names(r)[k] == x;
        let k1 = if k < i { k } else { k + 1 };
        assert(r[k] == presets[k1]);
        assert(preset_names(presets)[k1] == x);
    }
}

/// Cycles are cut: when presets have distinct names, a resolved chain
/// names each preset at most once, and only presets that exist.
pub proof fn law_preset_chain_uses_each_preset_once(
    name: Seq<char>,
    presets: Seq<PresetEntry>,
    stack: Seq<Seq<char>>,
)
    requires
        unique_names(presets),
    ensures
        preset_chain(name, presets, stack) matches Ok(chain) ==> {
            &&& chain.no_duplicates()
            &&& forall|k: int| 0 <= k < chain.len() ==> preset_names(presets).contains(#[trigger] chain[k])
        },
    decreases presets.len(),
{
    lemma_preset_pos(presets, name);
    let i = preset_pos(presets, name);
    if 0 <= i < presets.len() {
        let rest = presets.remove(i);
        lemma_remove_keeps_unique(presets, i);
        assert(preset_names(presets)[i] == name);
        if let Inherits::Name(parent) = presets[i].inherits {
            law_preset_chain_uses_each_preset_once(parent@, rest, stack.push(name));
            if let Ok(tail) = preset_chain(parent@, rest, stack.push(name)) {
                let chain = seq![name] + tail;
                assert forall|k: int| 0 <= k < chain.len() implies preset_names(presets).contains(
                    #[trigger] chain[k],
                ) by {
                    if k > 0 {
                        assert(chain[k] == tail[k - 1]);
                        assert(preset_names(rest).contains(tail[k - 1]));
                    }
                }
                assert forall|a: int, b: int|
                    0 <= a < chain.len() && 0 <= b < chain.len() && a != b implies chain[a]
                    != chain[b] by {
                    if a == 0 {
                        assert(chain[b] == tail[b - 1]);
                        assert(preset_names(rest).contains(tail[b - 1]));
                    } else if b == 0 {
                        assert(chain[a] == tail[a - 1]);
                        assert(preset_names(rest).contains(tail[a - 1]));
                    } else {
                        assert(chain[a] == tail[a - 1]);
                        assert(chain[b] == tail[b - 1]);
                    }
                }
            }
        }
    }
}

} // verus!
