use prose_pod_server::workspace::{
    init_workspace_command, patch_workspace_vcard, replace_property_exec, PatchWorkspaceCommand,
    PatchWorkspaceRequest, VCardProperty, WorkspaceProfile, WorkspaceVCard,
    ACCENT_COLOR_EXTENSION_KEY,
};

fn prop(name: &str, text: &str) -> VCardProperty {
    VCardProperty { name: name.to_owned(), text: text.to_owned() }
}

fn props(v: &[VCardProperty]) -> Vec<(String, String)> {
    v.iter().map(|p| (p.name.clone(), p.text.clone())).collect()
}

fn pairs(v: &[(&str, &str)]) -> Vec<(String, String)> {
    v.iter().map(|(a, b)| (a.to_string(), b.to_string())).collect()
}

fn no_change() -> PatchWorkspaceCommand {
    PatchWorkspaceCommand {
        name: None,
        accent_color: None,
        prose_pod_dashboard_url: None,
        prose_pod_api_url: None,
        auto_update_enabled: None,
    }
}

fn vcard() -> WorkspaceVCard {
    WorkspaceVCard {
        names: vec!["Acme".to_owned()],
        unknown_properties: vec![
            prop("x-accent-color", "#ff0000"),
            prop("x-other", "kept"),
            prop("x-prose-pod-api-url", "https://api.example.org"),
        ],
    }
}

#[test]
fn setting_a_property_keeps_the_order() {
    let out = replace_property_exec(vcard().unknown_properties, "x-accent-color", Some(Some("#00ff00".to_owned())));
    assert_eq!(
        props(&out),
        pairs(&[("x-accent-color", "#00ff00"), ("x-other", "kept"), ("x-prose-pod-api-url", "https://api.example.org")])
    );
    let out = replace_property_exec(out, "x-new", Some(Some("v".to_owned())));
    assert_eq!(out.last().map(|p| (p.name.as_str(), p.text.as_str())), Some(("x-new", "v")));
}

#[test]
fn removing_a_property_removes_every_occurrence() {
    let mut ps = vcard().unknown_properties;
    ps.push(prop("x-accent-color", "#0000ff"));
    let out = replace_property_exec(ps, "x-accent-color", Some(None));
    assert_eq!(props(&out), pairs(&[("x-other", "kept"), ("x-prose-pod-api-url", "https://api.example.org")]));
    let out2 = replace_property_exec(out, "x-other", None);
    assert_eq!(out2.len(), 2);
}

#[test]
fn patch_reports_whether_the_vcard_changed() {
    let original = vcard();
    let (same, changed) = patch_workspace_vcard(&original, no_change());
    assert!(!changed);
    assert_eq!(props(&same.unknown_properties), props(&original.unknown_properties));

    let mut c = no_change();
    c.accent_color = Some(Some("#ff0000".to_owned()));
    let (_, changed) = patch_workspace_vcard(&original, c);
    assert!(!changed, "setting the same value changes nothing");

    let mut c = no_change();
    c.name = Some("Acme Corp".to_owned());
    c.auto_update_enabled = Some(Some(true));
    let (patched, changed) = patch_workspace_vcard(&original, c);
    assert!(changed);
    assert_eq!(patched.names, vec!["Acme Corp".to_owned()]);
    assert_eq!(
        patched.unknown_properties.last().map(|p| (p.name.as_str(), p.text.as_str())),
        Some(("x-prose-auto-update-enabled", "true"))
    );
}

#[test]
fn user_requests_change_no_url() {
    let req = PatchWorkspaceRequest {
        name: Some("Acme".to_owned()),
        accent_color: Some(None),
        auto_update_enabled: None,
    };
    let c = PatchWorkspaceCommand::from(req);
    assert_eq!(c.name.as_deref(), Some("Acme"));
    assert_eq!(c.accent_color, Some(None));
    assert_eq!(c.prose_pod_dashboard_url, None);
    assert_eq!(c.prose_pod_api_url, None);
}

#[test]
fn profile_is_read_from_the_accent_color_property() {
    let profile = WorkspaceProfile::try_from(&vcard(), "e1").unwrap();
    assert_eq!(profile.name, "Acme");
    assert_eq!(profile.accent_color.as_deref(), Some("#ff0000"));
    // Every optional field reads the accent color's property, where a color
    // is no URI.
    assert_eq!(profile.prose_pod_api_url, None);
    assert_eq!(profile.prose_pod_dashboard_url, None);
    assert_eq!(profile.auto_update_enabled, None);

    let flag = WorkspaceVCard {
        names: vec!["W".to_owned()],
        unknown_properties: vec![prop(ACCENT_COLOR_EXTENSION_KEY, "true")],
    };
    assert_eq!(WorkspaceProfile::try_from(&flag, "e2").unwrap().auto_update_enabled, Some(true));
}

#[test]
fn profile_urls_are_parsed_as_uris() {
    let v = WorkspaceVCard {
        names: vec!["W".to_owned()],
        unknown_properties: vec![prop(ACCENT_COLOR_EXTENSION_KEY, "https://example.org")],
    };
    let profile = WorkspaceProfile::try_from(&v, "e4").unwrap();
    // The URI is written back with the root path.
    assert_eq!(profile.prose_pod_dashboard_url.as_deref(), Some("https://example.org/"));
    assert_eq!(profile.prose_pod_api_url.as_deref(), Some("https://example.org/"));
    assert_eq!(profile.accent_color.as_deref(), Some("https://example.org"));
    assert_eq!(profile.auto_update_enabled, None);
}

#[test]
fn profile_needs_a_name() {
    let unnamed = WorkspaceVCard { names: vec![], unknown_properties: vec![] };
    let err = WorkspaceProfile::try_from(&unnamed, "e3").unwrap_err();
    assert_eq!(err.code, "WORKSPACE_NOT_INITIALIZED");
    assert_eq!(err.status, 500);
    assert_eq!(err.description, "Workspace account not initialized. (logged as error_id=e3)");
}

#[test]
fn workspace_initialization_only_before_first_admin() {
    let err = init_workspace_command(1, "Acme".to_owned(), None, "d".to_owned(), "a".to_owned())
        .unwrap_err();
    assert_eq!(err.code, "WORKSPACE_ALREADY_INITIALIZED");
    assert_eq!(err.status, 410);
    let c = init_workspace_command(
        0,
        "Acme".to_owned(),
        Some("#123456".to_owned()),
        "https://admin.example.org".to_owned(),
        "https://api.example.org".to_owned(),
    )
    .unwrap();
    assert_eq!(c.name.as_deref(), Some("Acme"));
    assert_eq!(c.accent_color, Some(Some("#123456".to_owned())));
    assert_eq!(c.prose_pod_dashboard_url, Some(Some("https://admin.example.org".to_owned())));
    assert_eq!(c.prose_pod_api_url, Some(Some("https://api.example.org".to_owned())));
    assert_eq!(c.auto_update_enabled, None);
}

#[test]
fn default_command_changes_nothing() {
    let (_, changed) = patch_workspace_vcard(&vcard(), PatchWorkspaceCommand::default());
    assert!(!changed);
}
