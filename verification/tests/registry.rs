use jiji_do::capabilities::Capabilities;
use jiji_do::registry::{enabled, enabled_for_menu, find, registry, Category, Verb, VerbArgs, VerbId};

fn names(v: &[Verb]) -> Vec<&'static str> {
    v.iter().map(|v| v.name).collect()
}

#[test]
fn enabled_filters_by_capability() {
    let caps = Capabilities::niri_socket().union(Capabilities::fuzzel());
    assert_eq!(
        names(&enabled(caps)),
        vec![
            "switch-workspace",
            "focus-workspace-previous",
            "unset-workspace-name",
            "rename-workspace",
            "list-workspaces",
            "pick-window",
            "focus-monitor",
            "move-window-to-monitor",
            "move-column-to-monitor",
            "move-workspace-to-monitor",
            "toggle-debug-tint",
            "reload-config",
            "power-on-monitors",
            "pick-color",
            "quit",
            "power-off-monitors",
            "stop-cast",
        ]
    );
}

#[test]
fn full_capabilities_enable_all() {
    let caps = Capabilities::all();
    assert_eq!(enabled(caps).len(), registry().len());
}

#[test]
fn empty_capabilities_enable_none() {
    assert!(enabled(Capabilities::empty()).is_empty());
}

#[test]
fn find_resolves_known_verb() {
    assert!(find("switch-activity").is_some());
    assert!(find("nope").is_none());
}

#[test]
fn sort_by_key_preserves_intra_category_registration_order() {
    let mk = |name: &'static str, label: &'static str| Verb {
        name,
        label,
        category: Category::Workspace,
        menu_visible: true,
        requires: Capabilities::empty(),
        id: VerbId::SwitchWorkspace,
    };
    let (d, c, b, a) = (mk("d", "D"), mk("c", "C"), mk("b", "B"), mk("a", "A"));
    let mut verbs: Vec<&Verb> = vec![&d, &c, &b, &a];
    verbs.sort_by_key(|v| v.category);
    let names: Vec<&str> = verbs.iter().map(|v| v.name).collect();
    assert_eq!(
        names,
        vec!["d", "c", "b", "a"],
        "stable sort must preserve registration order within a category"
    );
}

#[test]
fn category_enum_declaration_order() {
    assert!(Category::Workspace < Category::Window);
    assert!(Category::Window < Category::Monitor);
    assert!(Category::Monitor < Category::Mode);
    assert!(Category::Mode < Category::Activity);
    assert!(Category::Activity < Category::System);
}

#[test]
fn category_declaration_order_governs_enabled_sort() {
    let all = enabled(Capabilities::all());
    let names = names(&all);
    let pos = |n: &str| names.iter().position(|&m| m == n).unwrap();
    assert!(pos("switch-workspace") < pos("focus-workspace-previous"));
    assert!(pos("pick-window") < pos("focus-monitor"));
    assert!(pos("focus-monitor") < pos("toggle-debug-tint"));
    assert!(pos("toggle-debug-tint") < pos("switch-activity"));
    assert!(pos("switch-activity") < pos("reload-config"));
    assert_eq!(
        names,
        vec![
            "switch-workspace",
            "switch-workspace-all",
            "focus-workspace-previous",
            "unset-workspace-name",
            "rename-workspace",
            "list-workspaces",
            "add-workspace-up",
            "add-workspace-down",
            "move-window-to-new-workspace-up",
            "move-window-to-new-workspace-down",
            "pick-window",
            "bookmark",
            "bookmark-remove",
            "bookmark-move",
            "bookmark-assign-key",
            "bookmark-unassign-key",
            "focus-monitor",
            "move-window-to-monitor",
            "move-column-to-monitor",
            "move-workspace-to-monitor",
            "toggle-debug-tint",
            "switch-activity",
            "switch-activity-previous",
            "move-window-to-activity",
            "move-window-here",
            "move-workspace-to-activity",
            "assign-workspace",
            "save-activity",
            "list-activities",
            "create-activity",
            "remove-activity",
            "rename-activity",
            "reload-config",
            "power-on-monitors",
            "pick-color",
            "quit",
            "power-off-monitors",
            "stop-cast",
        ]
    );
}

#[test]
fn enabled_with_full_activities_capabilities_includes_all_passthrough_verbs() {
    let all = enabled(Capabilities::all());
    let names = names(&all);
    for n in [
        "switch-activity",
        "switch-activity-previous",
        "move-window-to-activity",
        "move-window-here",
        "move-workspace-to-activity",
        "assign-workspace",
        "save-activity",
        "list-activities",
        "create-activity",
        "remove-activity",
        "rename-activity",
    ] {
        assert!(names.contains(&n), "{n} missing from full-caps enabled set");
    }
}

#[test]
fn enabled_for_menu_hides_menu_hidden_verbs() {
    let caps = Capabilities::all();
    let menu = enabled_for_menu(caps);
    let all = enabled(caps);
    let menu_names = names(&menu);
    let all_names = names(&all);
    assert!(!menu_names.contains(&"list-activities"));
    assert!(menu_names.contains(&"save-activity"));
    assert!(all_names.contains(&"list-activities"));
}

#[test]
fn verb_is_enabled_checks_requirement() {
    let v = find("switch-workspace-all").unwrap();
    assert!(!v.is_enabled(Capabilities::niri_socket().union(Capabilities::fuzzel())));
    assert!(v.is_enabled(
        Capabilities::niri_socket().union(Capabilities::fuzzel()).union(Capabilities::fork())
    ));
    assert_eq!(v.label, "Switch workspace (all activities)");
}

#[test]
fn verb_args_none_is_default() {
    assert_eq!(VerbArgs::none(), VerbArgs::default());
    assert!(VerbArgs::none().first.is_none());
}

#[test]
fn every_registered_verb_is_found_under_its_own_name() {
    let all = registry();
    for v in &all {
        let found = find(v.name).expect("registered name resolves");
        assert_eq!(found.id, v.id);
        assert_eq!(found.name, v.name);
    }
    let mut seen: Vec<&str> = all.iter().map(|v| v.name).collect();
    seen.sort();
    seen.dedup();
    assert_eq!(seen.len(), all.len());
    assert!(find("switch-workspace-al").is_none());
}

#[test]
fn hand_built_verb_is_enabled_by_its_own_requirement() {
    let build = |requires: Capabilities| Verb {
        name: "d",
        label: "D",
        category: Category::Workspace,
        menu_visible: true,
        requires,
        id: VerbId::SwitchWorkspace,
    };
    let caps = Capabilities::niri_socket().union(Capabilities::fuzzel());
    assert!(!build(Capabilities::niri_socket().union(Capabilities::fork())).is_enabled(caps));
    assert!(build(Capabilities::niri_socket().union(Capabilities::fuzzel())).is_enabled(caps));
    let empty = build(Capabilities::empty());
    assert!(empty.is_enabled(Capabilities::empty()));
    assert!(empty.is_enabled(caps));
    assert!(empty.is_enabled(Capabilities::all()));
}

#[test]
fn more_capabilities_keep_the_enabled_order() {
    let small = enabled(Capabilities::niri_socket().union(Capabilities::fuzzel()));
    let large = enabled(Capabilities::all());
    let mut k = 0;
    for v in &small {
        while k < large.len() && large[k].id != v.id {
            k += 1;
        }
        assert!(k < large.len(), "{} missing or out of order", v.name);
        k += 1;
    }
    assert!(enabled(Capabilities::empty()).is_empty());
    assert!(enabled(Capabilities::fuzzel().union(Capabilities::fork())).is_empty());
}
