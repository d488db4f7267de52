use jiji_do::snapshot::{ActivityBrief, Snapshot, WindowBrief, WorkspaceBrief};

fn windows() -> Vec<WindowBrief> {
    vec![
        WindowBrief { id: 10, is_focused: false, title: None },
        WindowBrief { id: 11, is_focused: true, title: None },
    ]
}

fn workspaces() -> Vec<WorkspaceBrief> {
    vec![
        WorkspaceBrief { id: 20, output: Some("DP-1".into()), is_focused: false, idx: None, name: None },
        WorkspaceBrief { id: 21, output: Some("DP-2".into()), is_focused: true, idx: None, name: None },
    ]
}

fn activities() -> Vec<ActivityBrief> {
    vec![
        ActivityBrief { name: "default".into(), is_active: false },
        ActivityBrief { name: "acme".into(), is_active: true },
    ]
}

#[test]
fn from_json_extracts_focused_fields() {
    let s = Snapshot::from_briefs(&windows(), &workspaces(), Some(&activities()));
    assert_eq!(s.focused_window, Some(11));
    assert_eq!(s.focused_workspace, Some(21));
    assert_eq!(s.focused_output.as_deref(), Some("DP-2"));
    assert_eq!(s.focused_activity.as_deref(), Some("acme"));
}

#[test]
fn from_json_display_context_absent_in_minimal_fixture_is_none() {
    let s = Snapshot::from_briefs(&windows(), &workspaces(), Some(&activities()));
    assert_eq!(s.focused_window_title, None);
    assert_eq!(s.focused_workspace_idx, None);
    assert_eq!(s.focused_workspace_name, None);
}

#[test]
fn from_json_extracts_display_context_fields() {
    let windows = vec![
        WindowBrief { id: 10, is_focused: false, title: Some("other".into()) },
        WindowBrief { id: 11, is_focused: true, title: Some("Firefox - Main".into()) },
    ];
    let workspaces = vec![
        WorkspaceBrief { id: 20, output: Some("DP-1".into()), is_focused: false, idx: Some(1), name: None },
        WorkspaceBrief {
            id: 21,
            output: Some("DP-2".into()),
            is_focused: true,
            idx: Some(2),
            name: Some("web".into()),
        },
    ];
    let s = Snapshot::from_briefs(&windows, &workspaces, None);
    assert_eq!(s.focused_window_title.as_deref(), Some("Firefox - Main"));
    assert_eq!(s.focused_workspace_idx, Some(2));
    assert_eq!(s.focused_workspace_name.as_deref(), Some("web"));
}

#[test]
fn from_json_upstream_has_no_activity() {
    let s = Snapshot::from_briefs(&windows(), &workspaces(), None);
    assert_eq!(s.focused_activity, None);
    assert_eq!(s.focused_window, Some(11));
}

#[test]
fn from_json_nothing_focused_is_all_none() {
    let w = vec![WindowBrief { id: 1, is_focused: false, title: None }];
    let ws = vec![WorkspaceBrief { id: 1, output: Some("DP-1".into()), is_focused: false, idx: None, name: None }];
    let s = Snapshot::from_briefs(&w, &ws, None);
    assert_eq!(s.focused_window, None);
    assert_eq!(s.focused_workspace, None);
    assert_eq!(s.focused_output, None);
}

#[test]
fn first_focused_and_first_active_win() {
    let w = vec![
        WindowBrief { id: 1, is_focused: true, title: Some("a".into()) },
        WindowBrief { id: 2, is_focused: true, title: Some("b".into()) },
    ];
    let acts = vec![
        ActivityBrief { name: "x".into(), is_active: true },
        ActivityBrief { name: "y".into(), is_active: true },
    ];
    let s = Snapshot::from_briefs(&w, &vec![], Some(&acts));
    assert_eq!(s.focused_window, Some(1));
    assert_eq!(s.focused_window_title.as_deref(), Some("a"));
    assert_eq!(s.focused_activity.as_deref(), Some("x"));
}
