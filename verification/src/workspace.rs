//! The Workspace profile, which lives in the vCard of the `prose-workspace`
//! service account: how a patch rewrites that vCard, and how the profile
//! is read from it.
use vstd::prelude::*;

use crate::app_config::str_eq;
use crate::errors::{
    internal_server_error, spec_auto_log, too_late, Error, STATUS_GONE,
    STATUS_INTERNAL_SERVER_ERROR,
};

verus! {

/// The vCard property holding the Workspace accent color.
pub const ACCENT_COLOR_EXTENSION_KEY: &'static str = "x-accent-color";
/// The vCard property holding the Prose Pod Dashboard's URL.
pub const PROSE_POD_DASHBOARD_URL_EXTENSION_KEY: &'static str = "x-prose-pod-dashboard-url";
/// The vCard property holding the Prose Pod API's URL.
pub const PROSE_POD_API_URL_EXTENSION_KEY: &'static str = "x-prose-pod-api-url";
/// The vCard property telling whether automatic updates are enabled.
pub const PROSE_AUTO_UPDATE_ENABLED_EXTENSION_KEY: &'static str = "x-prose-auto-update-enabled";

/// A vCard property that the vCard type does not know: the name of its
/// element, and its text.
#[derive(Debug)]
pub struct VCardProperty {
    pub name: String,
    pub text: String,
}

/// The Workspace vCard, as far as the Workspace profile reads and writes
/// it: its formatted names (`FN`), and the properties the vCard type does
/// not know, in order.
#[derive(Debug)]
pub struct WorkspaceVCard {
    pub names: Vec<String>,
    pub unknown_properties: Vec<VCardProperty>,
}

/// A property as a pair of its name and text.
pub type PropertyView = (Seq<char>, Seq<char>);

pub open spec fn props_view(ps: Seq<VCardProperty>) -> Seq<PropertyView> {
    Seq::new(ps.len(), |j: int| (ps[j].name@, ps[j].text@))
}

pub open spec fn names_view(names: Seq<String>) -> Seq<Seq<char>> {
    Seq::new(names.len(), |j: int| names[j]@)
}

impl View for WorkspaceVCard {
    type V = (Seq<Seq<char>>, Seq<PropertyView>);

    open spec fn view(&self) -> (Seq<Seq<char>>, Seq<PropertyView>) {
        (names_view(self.names@), props_view(self.unknown_properties@))
    }
}

/// Whether some property is named `key`.
pub open spec fn has_property(ps: Seq<PropertyView>, key: Seq<char>) -> bool {
    exists|j: int| 0 <= j < ps.len() && #[trigger] ps[j].0 == key
}

/// Setting property `key` to `value`: every property of that name is
/// replaced in place (so that the order is kept and an unchanged vCard can
/// be recognised), and one is appended if there was none.
pub open spec fn set_property(ps: Seq<PropertyView>, key: Seq<char>, value: Seq<char>) -> Seq<
    PropertyView,
> {
    let replaced = Seq::new(
        ps.len(),
        |j: int|
            if ps[j].0 == key {
                (key, value)
            } else {
                ps[j]
            },
    );
    if has_property(ps, key) {
        replaced
    } else {
        replaced.push((key, value))
    }
}

/// Removing every property named `key`.
pub open spec fn remove_property(ps: Seq<PropertyView>, key: Seq<char>) -> Seq<PropertyView>
    decreases ps.len(),
{
    if ps.len() == 0 {
        ps
    } else {
        let rest = remove_property(ps.drop_last(), key);
        if ps.last().0 == key {
            rest
        } else {
            rest.push(ps.last())
        }
    }
}

/// A change to property `key`: `Some(Some(value))` sets it, `Some(None)`
/// removes it, `None` leaves it.
pub open spec fn replace_property(
    ps: Seq<PropertyView>,
    key: Seq<char>,
    new_value: Option<Option<Seq<char>>>,
) -> Seq<PropertyView> {
    match new_value {
        Some(Some(value)) => set_property(ps, key, value),
        Some(None) => remove_property(ps, key),
        None => ps,
    }
}

fn copy_property(p: &VCardProperty) -> (q: VCardProperty)
    ensures
        q.name@ == p.name@,
        q.text@ == p.text@,
{
    VCardProperty { name: p.name.clone(), text: p.text.clone() }
}

fn set_property_exec(ps: &Vec<VCardProperty>, key: &str, value: &str) -> (r: Vec<VCardProperty>)
    ensures
        props_view(r@) == set_property(props_view(ps@), key@, value@),
{
    let ghost pv = props_view(ps@);
    let mut out: Vec<VCardProperty> = Vec::new();
    let mut found = false;
    let mut i: usize = 0;
    while i < ps.len()
        invariant
            i <= ps@.len(),
            pv == props_view(ps@),
            out@.len() == i,
            forall|j: int|
                0 <= j < i ==> (#[trigger] props_view(out@)[j]) == (if pv[j].0 == key@ {
                    (key@, value@)
                } else {
                    pv[j]
                }),
            found <==> exists|j: int| 0 <= j < i && #[trigger] pv[j].0 == key@,
        decreases ps@.len() - i,
    {
        let ghost before = out@;
        proof {
            assert(pv[i as int] == (ps@[i as int].name@, ps@[i as int].text@));
        }
        if str_eq(ps[i].name.as_str(), key) {
            out.push(VCardProperty { name: key.to_owned(), text: value.to_owned() });
            found = true;
            proof {
                assert(pv[i as int].0 == key@);
            }
        } else {
            out.push(copy_property(&ps[i]));
            proof {
                assert(pv[i as int].0 != key@);
                if exists|j: int| 0 <= j < i + 1 && #[trigger] pv[j].0 == key@ {
                    let j = choose|j: int| 0 <= j < i + 1 && #[trigger] pv[j].0 == key@;
                    assert(j < i);
                }
            }
        }
        proof {
            assert forall|j: int| 0 <= j < i implies #[trigger] props_view(out@)[j] == props_view(
                before,
            )[j] by {
                assert(out@[j] == before[j]);
            }
        }
        i = i + 1;
    }
    let ghost before_push = out@;
    if !found {
        out.push(VCardProperty { name: key.to_owned(), text: value.to_owned() });
    }
    proof {
        let replaced = Seq::new(
            pv.len(),
            |j: int|
                if pv[j].0 == key@ {
                    (key@, value@)
                } else {
                    pv[j]
                },
        );
        assert(props_view(before_push) =~= replaced);
        if found {
            assert(props_view(out@) =~= replaced);
        } else {
            assert(!has_property(pv, key@));
            assert forall|j: int| 0 <= j < before_push.len() implies #[trigger] out@[j] == before_push[j] by {}
            assert(props_view(out@) =~= props_view(before_push).push((key@, value@)));
        }
    }
    out
}

fn remove_property_exec(ps: &Vec<VCardProperty>, key: &str) -> (r: Vec<VCardProperty>)
    ensures
        props_view(r@) == remove_property(props_view(ps@), key@),
{
    let ghost pv = props_view(ps@);
    let mut out: Vec<VCardProperty> = Vec::new();
    let mut i: usize = 0;
    while i < ps.len()
        invariant
            i <= ps@.len(),
            pv == props_view(ps@),
            props_view(out@) == remove_property(pv.take(i as int), key@),
        decreases ps@.len() - i,
    {
        let ghost before = out@;
        proof {
            assert(pv.take(i + 1).drop_last() =~= pv.take(i as int));
            assert(pv.take(i + 1).last() == pv[i as int]);
        }
        if !str_eq(ps[i].name.as_str(), key) {
            out.push(copy_property(&ps[i]));
            proof {
                assert(props_view(out@) =~= props_view(before).push(pv[i as int]));
            }
        }
        i = i + 1;
    }
    proof {
        assert(pv.take(ps@.len() as int) =~= pv);
    }
    out
}

/// Applies a change to property `key`.
pub fn replace_property_exec(
    ps: Vec<VCardProperty>,
    key: &str,
    new_value: Option<Option<String>>,
) -> (r: Vec<VCardProperty>)
    ensures
        props_view(r@) == replace_property(
            props_view(ps@),
            key@,
            match new_value {
                Some(Some(v)) => Some(Some(v@)),
                Some(None) => Some(None::<Seq<char>>),
                None => None::<Option<Seq<char>>>,
            },
        ),
{
    match new_value {
        Some(Some(value)) => set_property_exec(&ps, key, value.as_str()),
        Some(None) => remove_property_exec(&ps, key),
        None => ps,
    }
}

/// What the API can change in the Workspace vCard: for each field,
/// `None` leaves it, and for the optional ones `Some(None)` removes it.
/// The accent color and the URLs are held as the text they are written
/// as.
#[derive(Debug)]
pub struct PatchWorkspaceCommand {
    pub name: Option<String>,
    pub accent_color: Option<Option<String>>,
    pub prose_pod_dashboard_url: Option<Option<String>>,
    pub prose_pod_api_url: Option<Option<String>>,
    pub auto_update_enabled: Option<Option<bool>>,
}

/// What a user can change in the Workspace vCard (a subset of
/// [`PatchWorkspaceCommand`]).
#[derive(Debug)]
pub struct PatchWorkspaceRequest {
    pub name: Option<String>,
    pub accent_color: Option<Option<String>>,
    pub auto_update_enabled: Option<Option<bool>>,
}

pub open spec fn opt_opt_view(v: Option<Option<String>>) -> Option<Option<Seq<char>>> {
    match v {
        Some(Some(s)) => Some(Some(s@)),
        Some(None) => Some(None),
        None => None,
    }
}

/// How a boolean is written: `true` or `false`.
pub open spec fn bool_text(b: bool) -> Seq<char> {
    if b {
        "true"@
    } else {
        "false"@
    }
}

pub open spec fn opt_opt_bool_text(v: Option<Option<bool>>) -> Option<Option<Seq<char>>> {
    match v {
        Some(Some(b)) => Some(Some(bool_text(b))),
        Some(None) => Some(None),
        None => None,
    }
}

impl PatchWorkspaceCommand {
    /// A command that changes nothing.
    pub fn default() -> (c: PatchWorkspaceCommand)
        ensures
            c.name is None,
            c.accent_color is None,
            c.prose_pod_dashboard_url is None,
            c.prose_pod_api_url is None,
            c.auto_update_enabled is None,
    {
        PatchWorkspaceCommand {
            name: None,
            accent_color: None,
            prose_pod_dashboard_url: None,
            prose_pod_api_url: None,
            auto_update_enabled: None,
        }
    }

    /// A user's request changes no URL.
    pub fn from(req: PatchWorkspaceRequest) -> (c: PatchWorkspaceCommand)
        ensures
            c.name == req.name,
            c.accent_color == req.accent_color,
            c.prose_pod_dashboard_url is None,
            c.prose_pod_api_url is None,
            c.auto_update_enabled == req.auto_update_enabled,
    {
        PatchWorkspaceCommand {
            name: req.name,
            accent_color: req.accent_color,
            prose_pod_dashboard_url: None,
            prose_pod_api_url: None,
            auto_update_enabled: req.auto_update_enabled,
        }
    }
}

/// The names after a patch: a new name replaces all of them.
pub open spec fn patched_names(names: Seq<Seq<char>>, name: Option<String>) -> Seq<Seq<char>> {
    match name {
        Some(n) => seq![n@],
        None => names,
    }
}

/// The properties after a patch: the accent color, then the Dashboard
/// URL, the API URL and the automatic updates flag, each changed in turn.
pub open spec fn patched_properties(ps: Seq<PropertyView>, c: PatchWorkspaceCommand) -> Seq<
    PropertyView,
> {
    let p1 = replace_property(ps, ACCENT_COLOR_EXTENSION_KEY@, opt_opt_view(c.accent_color));
    let p2 = replace_property(
        p1,
        PROSE_POD_DASHBOARD_URL_EXTENSION_KEY@,
        opt_opt_view(c.prose_pod_dashboard_url),
    );
    let p3 = replace_property(p2, PROSE_POD_API_URL_EXTENSION_KEY@, opt_opt_view(c.prose_pod_api_url));
    replace_property(
        p3,
        PROSE_AUTO_UPDATE_ENABLED_EXTENSION_KEY@,
        opt_opt_bool_text(c.auto_update_enabled),
    )
}

fn copy_names(names: &Vec<String>) -> (r: Vec<String>)
    ensures
        names_view(r@) == names_view(names@),
{
    let mut out: Vec<String> = Vec::new();
    let mut i: usize = 0;
    while i < names.len()
        invariant
            i <= names@.len(),
            out@.len() == i,
            forall|j: int| 0 <= j < i ==> (#[trigger] out@[j])@ == names@[j]@,
        decreases names@.len() - i,
    {
        out.push(names[i].clone());
        i = i + 1;
    }
    assert(names_view(out@) =~= names_view(names@));
    out
}

fn copy_properties(ps: &Vec<VCardProperty>) -> (r: Vec<VCardProperty>)
    ensures
        props_view(r@) == props_view(ps@),
{
    let mut out: Vec<VCardProperty> = Vec::new();
    let mut i: usize = 0;
    while i < ps.len()
        invariant
            i <= ps@.len(),
            out@.len() == i,
            forall|j: int|
                0 <= j < i ==> (#[trigger] out@[j]).name@ == ps@[j].name@ && out@[j].text@
                    == ps@[j].text@,
        decreases ps@.len() - i,
    {
        out.push(copy_property(&ps[i]));
        i = i + 1;
    }
    assert(props_view(out@) =~= props_view(ps@));
    out
}

fn same_names(a: &Vec<String>, b: &Vec<String>) -> (r: bool)
    ensures
        r == (names_view(a@) == names_view(b@)),
{
    if a.len() != b.len() {
        proof {
            assert(names_view(a@).len() != names_view(b@).len());
        }
        return false;
    }
    let mut i: usize = 0;
    while i < a.len()
        invariant
            i <= a@.len(),
            a@.len() == b@.len(),
            forall|j: int| 0 <= j < i ==> (#[trigger] a@[j])@ == b@[j]@,
        decreases a@.len() - i,
    {
        if !str_eq(a[i].as_str(), b[i].as_str()) {
            proof {
                assert(names_view(a@)[i as int] != names_view(b@)[i as int]);
            }
            return false;
        }
        i = i + 1;
    }
    assert(names_view(a@) =~= names_view(b@));
    true
}

fn same_properties(a: &Vec<VCardProperty>, b: &Vec<VCardProperty>) -> (r: bool)
    ensures
        r == (props_view(a@) == props_view(b@)),
{
    if a.len() != b.len() {
        proof {
            assert(props_view(a@).len() != props_view(b@).len());
        }
        return false;
    }
    let mut i: usize = 0;
    while i < a.len()
        invariant
            i <= a@.len(),
            a@.len() == b@.len(),
            forall|j: int|
                0 <= j < i ==> (#[trigger] a@[j]).name@ == b@[j].name@ && a@[j].text@
                    == b@[j].text@,
        decreases a@.len() - i,
    {
        if !str_eq(a[i].name.as_str(), b[i].name.as_str()) || !str_eq(
            a[i].text.as_str(),
            b[i].text.as_str(),
        ) {
            proof {
                assert(props_view(a@)[i as int] != props_view(b@)[i as int]);
            }
            return false;
        }
        i = i + 1;
    }
    assert(props_view(a@) =~= props_view(b@));
    true
}

/// Applies a patch to the Workspace vCard. Returns the new vCard, and
/// whether it differs from the old one (only then is it sent to the
/// server).
pub fn patch_workspace_vcard(vcard: &WorkspaceVCard, command: PatchWorkspaceCommand) -> (r: (
    WorkspaceVCard,
    bool,
))
    ensures
        r.0@.0 == patched_names(vcard@.0, command.name),
        r.0@.1 == patched_properties(vcard@.1, command),
        r.1 == (r.0@ != vcard@),
{
    let ghost c = command;
    let names = match command.name {
        Some(name) => {
            let v = vec![name];
            proof {
                assert(names_view(v@) =~= seq![c.name->Some_0@]);
            }
            v
        },
        None => copy_names(&vcard.names),
    };
    let p0 = copy_properties(&vcard.unknown_properties);
    let p1 = replace_property_exec(p0, ACCENT_COLOR_EXTENSION_KEY, command.accent_color);
    let p2 = replace_property_exec(
        p1,
        PROSE_POD_DASHBOARD_URL_EXTENSION_KEY,
        command.prose_pod_dashboard_url,
    );
    let p3 = replace_property_exec(p2, PROSE_POD_API_URL_EXTENSION_KEY, command.prose_pod_api_url);
    let auto_update_text: Option<Option<String>> = match command.auto_update_enabled {
        Some(Some(b)) => {
            proof {
                reveal_strlit("true");
                reveal_strlit("false");
            }
            Some(Some(if b { "true".to_owned() } else { "false".to_owned() }))
        },
        Some(None) => Some(None),
        None => None,
    };
    let p4 = replace_property_exec(p3, PROSE_AUTO_UPDATE_ENABLED_EXTENSION_KEY, auto_update_text);
    let changed = !(same_names(&names, &vcard.names) && same_properties(
        &p4,
        &vcard.unknown_properties,
    ));
    let patched = WorkspaceVCard { names, unknown_properties: p4 };
    proof {
        if !changed {
            assert(patched@ == vcard@);
        }
    }
    (patched, changed)
}

/// The text of the first property named `key`.
pub open spec fn first_property_text(ps: Seq<PropertyView>, key: Seq<char>) -> Option<Seq<char>>
    decreases ps.len(),
{
    if ps.len() == 0 {
        None
    } else if ps[0].0 == key {
        Some(ps[0].1)
    } else {
        first_property_text(ps.drop_first(), key)
    }
}

fn first_property_text_exec(ps: &Vec<VCardProperty>, key: &str) -> (r: Option<String>)
    ensures
        match r {
            Some(t) => first_property_text(props_view(ps@), key@) == Some(t@),
            None => first_property_text(props_view(ps@), key@) is None,
        },
{
    let ghost pv = props_view(ps@);
    let mut i: usize = 0;
    assert(pv.skip(0) =~= pv);
    while i < ps.len()
        invariant
            i <= ps@.len(),
            pv == props_view(ps@),
            first_property_text(pv, key@) == first_property_text(pv.skip(i as int), key@),
        decreases ps@.len() - i,
    {
        proof {
            assert(pv.skip(i as int).drop_first() =~= pv.skip(i + 1));
            assert(pv.skip(i as int)[0] == pv[i as int]);
        }
        if str_eq(ps[i].name.as_str(), key) {
            return Some(ps[i].text.clone());
        }
        i = i + 1;
    }
    proof {
        assert(pv.skip(i as int).len() == 0);
    }
    None
}

/// How a boolean is read back: `true` and `false` only.
pub open spec fn parse_bool(t: Seq<char>) -> Option<bool> {
    if t == "true"@ {
        Some(true)
    } else if t == "false"@ {
        Some(false)
    } else {
        None
    }
}

/// The Workspace profile, as read from its vCard. The accent color is the
/// text its property holds; the URLs are held as the text of the URI that
/// their property parses into.
#[derive(Debug)]
pub struct WorkspaceProfile {
    pub name: String,
    pub accent_color: Option<String>,
    pub prose_pod_dashboard_url: Option<String>,
    pub prose_pod_api_url: Option<String>,
    pub auto_update_enabled: Option<bool>,
}

/// `e` is the error for a Workspace vCard that is missing or lacks a name,
/// whose details are logged under `error_id`.
pub open spec fn is_workspace_not_initialized_error(e: Error, error_id: Seq<char>) -> bool {
    &&& e.kind@ == "INTERNAL_ERROR"@
    &&& e.code@ == "WORKSPACE_NOT_INITIALIZED"@
    &&& e.status == STATUS_INTERNAL_SERVER_ERROR
    &&& e.message@ == "Internal server error"@
    &&& e.description@ == spec_auto_log("Workspace account not initialized."@, error_id)
}

/// The error for a Workspace vCard that is missing or lacks a name; its
/// details are logged under `error_id`.
pub fn workspace_not_initialized_error(error_id: &str) -> (e: Error)
    ensures
        is_workspace_not_initialized_error(e, error_id@),
{
    proof {
        reveal_strlit("WORKSPACE_NOT_INITIALIZED");
    }
    internal_server_error(error_id, "WORKSPACE_NOT_INITIALIZED", "Workspace account not initialized.")
}

/// Name for what `http::Uri` parses `text` into, written back as text by its
/// `Display` impl; `None` where `text` is no URI.
pub uninterp spec fn uri_text(text: Seq<char>) -> Option<Seq<char>>;

/// `<http::Uri as FromStr>::from_str`, with the URI it gives written back as
/// text (`<http::Uri as Display>::fmt`). Which texts parse and how they are
/// written back is left to the name [`uri_text`].
#[verifier::external_body]
fn parse_uri(text: &str) -> (r: Option<String>)
    ensures
        opt_string_view(r) == uri_text(text@),
{
    match text.parse::<http::Uri>() {
        Ok(uri) => Some(uri.to_string()),
        Err(_) => None,
    }
}

/// The URI that `text`, if any, parses into.
pub open spec fn opt_uri_text(text: Option<Seq<char>>) -> Option<Seq<char>> {
    match text {
        Some(t) => uri_text(t),
        None => None,
    }
}

impl WorkspaceProfile {
    /// Reads the profile from the Workspace vCard: its name is the first
    /// formatted name, which it must have. Every other field is read from
    /// the first `x-accent-color` property, whatever field it is for: the
    /// URLs are what that text parses into as a URI (none where it is no
    /// URI), and the auto-update flag is `true` or `false` as written there.
    pub fn try_from(vcard: &WorkspaceVCard, error_id: &str) -> (r: Result<WorkspaceProfile, Error>)
        ensures
            vcard@.0.len() == 0 ==> r is Err && is_workspace_not_initialized_error(
                r->Err_0,
                error_id@,
            ),
            vcard@.0.len() > 0 ==> r is Ok && ({
                let p = r->Ok_0;
                let t = first_property_text(vcard@.1, ACCENT_COLOR_EXTENSION_KEY@);
                &&& p.name@ == vcard@.0[0]
                &&& opt_string_view(p.accent_color) == t
                &&& opt_string_view(p.prose_pod_dashboard_url) == opt_uri_text(t)
                &&& opt_string_view(p.prose_pod_api_url) == opt_uri_text(t)
                &&& p.auto_update_enabled == (match t {
                    Some(text) => parse_bool(text),
                    None => None::<bool>,
                })
            }),
    {
        if vcard.names.len() == 0 {
            return Err(workspace_not_initialized_error(error_id));
        }
        let name = vcard.names[0].clone();
        let text = first_property_text_exec(&vcard.unknown_properties, ACCENT_COLOR_EXTENSION_KEY);
        let auto_update_enabled = match &text {
            Some(t) => {
                proof {
                    reveal_strlit("true");
                    reveal_strlit("false");
                }
                if str_eq(t.as_str(), "true") {
                    Some(true)
                } else if str_eq(t.as_str(), "false") {
                    Some(false)
                } else {
                    None
                }
            },
            None => None,
        };
        let accent_color = match &text {
            Some(t) => Some(t.clone()),
            None => None,
        };
        let prose_pod_dashboard_url = match &text {
            Some(t) => parse_uri(t.as_str()),
            None => None,
        };
        let prose_pod_api_url = match &text {
            Some(t) => parse_uri(t.as_str()),
            None => None,
        };
        Ok(
            WorkspaceProfile {
                name,
                accent_color,
                prose_pod_dashboard_url,
                prose_pod_api_url,
                auto_update_enabled,
            },
        )
    }
}

pub open spec fn opt_string_view(s: Option<String>) -> Option<Seq<char>> {
    match s {
        Some(t) => Some(t@),
        None => None,
    }
}

/// `e` is the error for a Workspace that was already initialized.
pub open spec fn is_already_initialized_error(e: Error) -> bool {
    &&& e.kind@ == "LIFECYCLE_ERROR"@
    &&& e.code@ == "WORKSPACE_ALREADY_INITIALIZED"@
    &&& e.status == STATUS_GONE
    &&& e.message@ == "Workspace already initialized"@
    &&& e.description@ == "You now need to log in as an admin to do that."@
}

/// Initializing the Workspace (possible without authentication) works only
/// until the first admin account is created (`admin_count`, the number of
/// accounts with the admin role): after that it is answered 410 Gone. It sets
/// the name, the accent color if given, and the Dashboard's and the API's URLs.
pub fn init_workspace_command(
    admin_count: usize,
    name: String,
    accent_color: Option<String>,
    dashboard_url: String,
    api_url: String,
) -> (r: Result<PatchWorkspaceCommand, Error>)
    ensures
        admin_count > 0 ==> r is Err && is_already_initialized_error(r->Err_0),
        admin_count == 0 ==> r is Ok && ({
            let c = r->Ok_0;
            &&& c.name == Some(name)
            &&& c.accent_color == (match accent_color {
                Some(a) => Some(Some(a)),
                None => None::<Option<String>>,
            })
            &&& c.prose_pod_dashboard_url == Some(Some(dashboard_url))
            &&& c.prose_pod_api_url == Some(Some(api_url))
            &&& c.auto_update_enabled is None
        }),
{
    if admin_count > 0 {
        proof {
            reveal_strlit("WORKSPACE_ALREADY_INITIALIZED");
            reveal_strlit("Workspace already initialized");
            reveal_strlit("You now need to log in as an admin to do that.");
        }
        return Err(
            too_late(
                "WORKSPACE_ALREADY_INITIALIZED",
                "Workspace already initialized",
                "You now need to log in as an admin to do that.",
            ),
        );
    }
    Ok(
        PatchWorkspaceCommand {
            name: Some(name),
            accent_color: match accent_color {
                Some(a) => Some(Some(a)),
                None => None,
            },
            prose_pod_dashboard_url: Some(Some(dashboard_url)),
            prose_pod_api_url: Some(Some(api_url)),
            auto_update_enabled: None,
        },
    )
}

// MARK: - Patching twice

/// `ps` is as the change of property `key` leaves it: set to the value,
/// or absent.
pub open spec fn settled(ps: Seq<PropertyView>, key: Seq<char>, new_value: Option<Option<Seq<char>>>) -> bool {
    match new_value {
        Some(Some(value)) => has_property(ps, key) && forall|j: int|
            0 <= j < ps.len() && #[trigger] ps[j].0 == key ==> ps[j].1 == value,
        Some(None) => !has_property(ps, key),
        None => true,
    }
}

proof fn lemma_remove_absent(ps: Seq<PropertyView>, key: Seq<char>)
    ensures
        !has_property(remove_property(ps, key), key),
    decreases ps.len(),
{
    if ps.len() > 0 {
        let rest = remove_property(ps.drop_last(), key);
        lemma_remove_absent(ps.drop_last(), key);
        let r = remove_property(ps, key);
        if has_property(r, key) {
            let j = choose|j: int| 0 <= j < r.len() && #[trigger] r[j].0 == key;
            if ps.last().0 != key && j < rest.len() {
                assert(r[j] == rest[j]);
            }
        }
    }
}

proof fn lemma_remove_noop(ps: Seq<PropertyView>, key: Seq<char>)
    requires
        !has_property(ps, key),
    ensures
        remove_property(ps, key) == ps,
    decreases ps.len(),
{
    if ps.len() > 0 {
        let init = ps.drop_last();
        assert(!has_property(init, key)) by {
            if has_property(init, key) {
                let j = choose|j: int| 0 <= j < init.len() && #[trigger] init[j].0 == key;
                assert(ps[j] == init[j]);
            }
        }
        lemma_remove_noop(init, key);
        assert(ps[ps.len() - 1].0 != key);
        assert(ps =~= init.push(ps.last()));
    }
}

proof fn lemma_remove_from(ps: Seq<PropertyView>, key: Seq<char>)
    ensures
        forall|j: int|
            0 <= j < remove_property(ps, key).len() ==> exists|m: int|
                0 <= m < ps.len() && #[trigger] remove_property(ps, key)[j] == ps[m],
    decreases ps.len(),
{
    if ps.len() > 0 {
        let init = ps.drop_last();
        let rest = remove_property(init, key);
        lemma_remove_from(init, key);
        let r = remove_property(ps, key);
        assert forall|j: int| 0 <= j < r.len() implies exists|m: int|
            0 <= m < ps.len() && #[trigger] r[j] == ps[m] by {
            if j < rest.len() {
                assert(r[j] == rest[j]);
                let m = choose|m: int| 0 <= m < init.len() && #[trigger] rest[j] == init[m];
                assert(ps[m] == init[m]);
            } else {
                assert(r[j] == ps[ps.len() - 1]);
            }
        }
    }
}

proof fn lemma_remove_keeps(ps: Seq<PropertyView>, key: Seq<char>)
    ensures
        forall|m: int|
            0 <= m < ps.len() && ps[m].0 != key ==> exists|j: int|
                0 <= j < remove_property(ps, key).len() && remove_property(ps, key)[j]
                    == #[trigger] ps[m],
    decreases ps.len(),
{
    if ps.len() > 0 {
        let init = ps.drop_last();
        let rest = remove_property(init, key);
        lemma_remove_keeps(init, key);
        let r = remove_property(ps, key);
        assert forall|m: int| 0 <= m < ps.len() && ps[m].0 != key implies exists|j: int|
            0 <= j < r.len() && r[j] == #[trigger] ps[m] by {
            if m < init.len() {
                assert(init[m] == ps[m]);
                let j = choose|j: int| 0 <= j < rest.len() && rest[j] == #[trigger] init[m];
                assert(r[j] == rest[j]);
            } else {
                assert(r[rest.len() as int] == ps[m]);
            }
        }
    }
}

/// A change of a property leaves it settled.
proof fn lemma_replace_settles(ps: Seq<PropertyView>, key: Seq<char>, nv: Option<Option<Seq<char>>>)
    ensures
        settled(replace_property(ps, key, nv), key, nv),
{
    match nv {
        Some(Some(value)) => {
            let r = set_property(ps, key, value);
            if has_property(ps, key) {
                let j = choose|j: int| 0 <= j < ps.len() && #[trigger] ps[j].0 == key;
                assert(r[j].0 == key);
            } else {
                assert(r[ps.len() as int].0 == key);
            }
        },
        Some(None) => {
            lemma_remove_absent(ps, key);
        },
        None => {},
    }
}

/// A settled property is left as it is by the same change.
proof fn lemma_settled_fixpoint(ps: Seq<PropertyView>, key: Seq<char>, nv: Option<Option<Seq<char>>>)
    requires
        settled(ps, key, nv),
    ensures
        replace_property(ps, key, nv) == ps,
{
    match nv {
        Some(Some(value)) => {
            let r = set_property(ps, key, value);
            assert forall|j: int| 0 <= j < ps.len() implies r[j] == ps[j] by {
                if ps[j].0 == key {
                    assert(ps[j].1 == value);
                }
            }
            assert(r =~= ps);
        },
        Some(None) => {
            lemma_remove_noop(ps, key);
        },
        None => {},
    }
}

/// Changing another property keeps a property settled.
proof fn lemma_replace_keeps_settled(
    ps: Seq<PropertyView>,
    key: Seq<char>,
    nv: Option<Option<Seq<char>>>,
    other: Seq<char>,
    other_nv: Option<Option<Seq<char>>>,
)
    requires
        settled(ps, key, nv),
        other != key,
    ensures
        settled(replace_property(ps, other, other_nv), key, nv),
{
    let r = replace_property(ps, other, other_nv);
    match other_nv {
        Some(Some(v2)) => {
            assert forall|j: int| 0 <= j < ps.len() implies #[trigger] r[j].0 == ps[j].0 && (ps[j].0
                == key ==> r[j] == ps[j]) by {}
            match nv {
                Some(Some(value)) => {
                    let j = choose|j: int| 0 <= j < ps.len() && #[trigger] ps[j].0 == key;
                    assert(r[j].0 == key);
                    assert forall|k: int| 0 <= k < r.len() && #[trigger] r[k].0 == key implies r[k].1
                        == value by {
                        if k < ps.len() {
                            assert(r[k].0 == ps[k].0);
                        }
                    }
                },
                Some(None) => {
                    if has_property(r, key) {
                        let k = choose|k: int| 0 <= k < r.len() && #[trigger] r[k].0 == key;
                        if k < ps.len() {
                            assert(r[k].0 == ps[k].0);
                        }
                    }
                },
                None => {},
            }
        },
        Some(None) => {
            lemma_remove_from(ps, other);
            lemma_remove_keeps(ps, other);
            match nv {
                Some(Some(value)) => {
                    let j = choose|j: int| 0 <= j < ps.len() && #[trigger] ps[j].0 == key;
                    let k = choose|k: int| 0 <= k < r.len() && r[k] == #[trigger] ps[j];
                    assert(r[k].0 == key);
                    assert forall|k2: int| 0 <= k2 < r.len() && #[trigger] r[k2].0 == key implies r[k2].1
                        == value by {
                        let m = choose|m: int| 0 <= m < ps.len() && #[trigger] r[k2] == ps[m];
                        assert(ps[m].0 == key);
                    }
                },
                Some(None) => {
                    if has_property(r, key) {
                        let k = choose|k: int| 0 <= k < r.len() && #[trigger] r[k].0 == key;
                        let m = choose|m: int| 0 <= m < ps.len() && #[trigger] r[k] == ps[m];
                        assert(ps[m].0 == key);
                    }
                },
                None => {},
            }
        },
        None => {},
    }
}

/// Patching the Workspace vCard twice with the same command changes it
/// only the first time: properties are replaced in place, so the second
/// patch finds the vCard as it leaves it (and sends nothing).
pub proof fn law_patch_is_idempotent(
    names: Seq<Seq<char>>,
    ps: Seq<PropertyView>,
    command: PatchWorkspaceCommand,
)
    ensures
        patched_names(patched_names(names, command.name), command.name) == patched_names(
            names,
            command.name,
        ),
        patched_properties(patched_properties(ps, command), command) == patched_properties(
            ps,
            command,
        ),
{
    reveal_strlit("x-accent-color");
    reveal_strlit("x-prose-pod-dashboard-url");
    reveal_strlit("x-prose-pod-api-url");
    reveal_strlit("x-prose-auto-update-enabled");
    let k1 = ACCENT_COLOR_EXTENSION_KEY@;
    let k2 = PROSE_POD_DASHBOARD_URL_EXTENSION_KEY@;
    let k3 = PROSE_POD_API_URL_EXTENSION_KEY@;
    let k4 = PROSE_AUTO_UPDATE_ENABLED_EXTENSION_KEY@;
    assert(k1 != k2 && k1 != k3 && k1 != k4 && k2 != k3 && k2 != k4 && k3 != k4) by {
        assert(k1.len() != k2.len());
        assert(k1.len() != k3.len());
        assert(k1.len() != k4.len());
        assert(k2.len() != k3.len());
        assert(k2.len() != k4.len());
        assert(k3.len() != k4.len());
    }
    let v1 = opt_opt_view(command.accent_color);
    let v2 = opt_opt_view(command.prose_pod_dashboard_url);
    let v3 = opt_opt_view(command.prose_pod_api_url);
    let v4 = opt_opt_bool_text(command.auto_update_enabled);
    let p1 = replace_property(ps, k1, v1);
    let p2 = replace_property(p1, k2, v2);
    let p3 = replace_property(p2, k3, v3);
    let p4 = replace_property(p3, k4, v4);
    lemma_replace_settles(ps, k1, v1);
    lemma_replace_keeps_settled(p1, k1, v1, k2, v2);
    lemma_replace_keeps_settled(p2, k1, v1, k3, v3);
    lemma_replace_keeps_settled(p3, k1, v1, k4, v4);
    lemma_replace_settles(p1, k2, v2);
    lemma_replace_keeps_settled(p2, k2, v2, k3, v3);
    lemma_replace_keeps_settled(p3, k2, v2, k4, v4);
    lemma_replace_settles(p2, k3, v3);
    lemma_replace_keeps_settled(p3, k3, v3, k4, v4);
    lemma_replace_settles(p3, k4, v4);
    lemma_settled_fixpoint(p4, k1, v1);
    lemma_settled_fixpoint(p4, k2, v2);
    lemma_settled_fixpoint(p4, k3, v3);
    lemma_settled_fixpoint(p4, k4, v4);
}

} // verus!
