use jiji_do::error::VerbError;
use jiji_do::niri::{
    activity_names_mru, all_workspace_rows, bookmark_choices, cast_choices, complete_rows,
    complete_rows_in_activity, move_to_new_workspace_argv, output_choices, parse_workspace_names,
    workspace_choices, workspace_names_in_activity, ActivityRow, BookmarkChoice, BookmarkRow,
    BookmarkWorkspace, CastRow, OutputRow, WindowRow, WorkspaceChoice, WorkspaceRow,
};

fn ws(id: u64, idx: u8, name: Option<&str>, output: Option<&str>) -> WorkspaceRow {
    WorkspaceRow {
        id,
        idx,
        name: name.map(String::from),
        output: output.map(String::from),
        is_focused: false,
        is_in_active_activity: None,
        active_window_id: None,
        activities: vec![],
    }
}

fn ws_full(
    id: u64,
    idx: u8,
    name: Option<&str>,
    output: Option<&str>,
    is_focused: bool,
    active: Option<bool>,
    window: Option<u64>,
    activities: Vec<u64>,
) -> WorkspaceRow {
    WorkspaceRow {
        id,
        idx,
        name: name.map(String::from),
        output: output.map(String::from),
        is_focused,
        is_in_active_activity: active,
        active_window_id: window,
        activities,
    }
}

fn act(id: u64, name: &str, is_active: bool, seq: Option<u64>) -> ActivityRow {
    ActivityRow { id, name: name.into(), is_active, last_active_seq: seq }
}

fn labels_of(c: &[WorkspaceChoice]) -> Vec<&str> {
    c.iter().map(|c| c.label.as_str()).collect()
}

#[test]
fn parse_uses_name_then_falls_back() {
    let rows = vec![ws(21, 1, Some("web"), Some("DP-2")), ws(22, 2, None, Some("DP-3"))];
    let c = workspace_choices(&rows);
    assert_eq!(
        c[0],
        WorkspaceChoice { id: 21, idx: 1, name: Some("web".into()), label: "web".into() }
    );
    assert_eq!(c[1], WorkspaceChoice { id: 22, idx: 2, name: None, label: "DP-3 #22".into() });
}

#[test]
fn parse_both_null_uses_question_mark_fallback() {
    let c = workspace_choices(&vec![ws(5, 1, None, None)]);
    assert_eq!(c.len(), 1);
    assert_eq!(c[0], WorkspaceChoice { id: 5, idx: 1, name: None, label: "? #5".into() });
}

#[test]
fn workspace_choices_filter_to_active_activity_on_jiji() {
    let rows = vec![
        ws_full(1, 1, Some("web"), Some("DP-1"), true, Some(true), None, vec![]),
        ws_full(2, 2, None, Some("DP-1"), false, Some(true), None, vec![]),
        ws_full(3, 1, Some("mail"), Some("DP-1"), false, Some(false), None, vec![]),
    ];
    let c = workspace_choices(&rows);
    assert_eq!(c.len(), 2, "dormant-activity workspace must be filtered out");
    assert_eq!(labels_of(&c), vec!["web", "DP-1 #2"]);
}

#[test]
fn workspace_choices_include_everything_on_vanilla_niri() {
    let rows = vec![
        ws_full(1, 1, Some("web"), Some("DP-1"), true, None, None, vec![]),
        ws_full(2, 2, None, Some("DP-1"), false, None, None, vec![]),
    ];
    assert_eq!(workspace_choices(&rows).len(), 2, "absent field must not filter anything");
}

#[test]
fn parse_empty_array_returns_empty_vec() {
    assert!(workspace_choices(&vec![]).is_empty());
}

#[test]
fn focus_args_prefer_name_then_idx() {
    let named = WorkspaceChoice { id: 7, idx: 3, name: Some("web".into()), label: "web".into() };
    let unnamed = WorkspaceChoice { id: 8, idx: 4, name: None, label: "DP-1 #8".into() };
    assert_eq!(named.focus_reference().as_arg(), "web");
    assert_eq!(unnamed.focus_reference().as_arg(), "4");
}

#[test]
fn parse_activity_names_mru_sorts_by_last_active_seq_desc() {
    let acts = vec![
        act(0, "default", false, Some(2)),
        act(0, "work", true, Some(7)),
        act(0, "play", false, Some(5)),
    ];
    assert_eq!(activity_names_mru(&acts), vec!["work", "play", "default"]);
}

#[test]
fn parse_activity_names_mru_without_seq_puts_active_first() {
    let acts = vec![
        act(0, "default", false, None),
        act(0, "work", false, None),
        act(0, "play", true, None),
        act(0, "games", false, None),
    ];
    assert_eq!(activity_names_mru(&acts), vec!["play", "default", "work", "games"]);
}

#[test]
fn parse_activity_names_mru_empty_array_returns_empty_vec() {
    assert!(activity_names_mru(&vec![]).is_empty());
}

fn out(connector: &str, make: &str, model: &str) -> OutputRow {
    OutputRow { connector: connector.into(), make: make.into(), model: model.into() }
}

#[test]
fn parse_output_choices_multi_output_fixture() {
    let choices = output_choices(&vec![out("eDP-1", "Apple", "Built-in"), out("DP-1", "Dell", "U2720Q")]);
    assert_eq!(choices.len(), 2);
    assert_eq!(choices[0].connector, "DP-1");
    assert_eq!(choices[0].label, "DP-1 (Dell U2720Q)");
    assert_eq!(choices[1].connector, "eDP-1");
    assert_eq!(choices[1].label, "eDP-1 (Apple Built-in)");
}

#[test]
fn parse_output_choices_empty_object_returns_empty_vec() {
    assert!(output_choices(&vec![]).is_empty());
}

#[test]
fn parse_output_choices_sorted_by_connector() {
    let choices = output_choices(&vec![
        out("HDMI-A-1", "LG", "27UK850"),
        out("DP-2", "Samsung", "S27A800U"),
        out("DP-1", "Dell", "U2720Q"),
    ]);
    let connectors: Vec<&str> = choices.iter().map(|c| c.connector.as_str()).collect();
    let mut sorted = connectors.clone();
    sorted.sort();
    assert_eq!(connectors, sorted, "output choices must be sorted by connector name");
    assert_eq!(connectors, vec!["DP-1", "DP-2", "HDMI-A-1"]);
}

#[test]
fn move_to_new_workspace_argv_no_focus() {
    assert_eq!(
        move_to_new_workspace_argv("move-window-to-new-workspace-up", None),
        vec!["msg", "action", "move-window-to-new-workspace-up"],
    );
}

#[test]
fn move_to_new_workspace_argv_focus_false() {
    assert_eq!(
        move_to_new_workspace_argv("move-window-to-new-workspace-up", Some(false)),
        vec!["msg", "action", "move-window-to-new-workspace-up", "--focus", "false"],
    );
}

#[test]
fn move_to_new_workspace_argv_focus_true() {
    assert_eq!(
        move_to_new_workspace_argv("move-window-to-new-workspace-down", Some(true)),
        vec!["msg", "action", "move-window-to-new-workspace-down", "--focus", "true"],
    );
}

#[test]
fn parse_cast_choices_deduplicates_by_session_id() {
    let rows = vec![
        CastRow { session_id: 7, pid: Some(1234) },
        CastRow { session_id: 7, pid: Some(1234) },
        CastRow { session_id: 3, pid: Some(5678) },
    ];
    let choices = cast_choices(&rows);
    assert_eq!(choices.len(), 2);
    assert_eq!(choices[0].session_id, 3);
    assert_eq!(choices[1].session_id, 7);
    assert!(choices[1].label.contains("1234"));
    assert_eq!(choices[1].label, "session 7 (pid 1234)");
}

#[test]
fn parse_cast_choices_first_row_of_a_session_wins() {
    let rows = vec![
        CastRow { session_id: 9, pid: None },
        CastRow { session_id: 9, pid: Some(-4) },
    ];
    let choices = cast_choices(&rows);
    assert_eq!(choices.len(), 1);
    assert_eq!(choices[0].label, "session 9");
}

#[test]
fn parse_cast_choices_empty_array_returns_empty_vec() {
    assert!(cast_choices(&vec![]).is_empty());
}

#[test]
fn parse_cast_choices_pid_null_omits_pid_suffix() {
    let choices = cast_choices(&vec![CastRow { session_id: 5, pid: None }]);
    assert_eq!(choices.len(), 1);
    assert_eq!(choices[0].label, "session 5");
    assert!(!choices[0].label.contains("pid"));
}

#[test]
fn parse_workspace_names_lists_current_activity_named_only() {
    let rows = vec![
        ws_full(21, 1, Some("web"), Some("DP-1"), false, Some(true), None, vec![]),
        ws_full(22, 2, None, Some("DP-1"), false, Some(true), None, vec![]),
        ws_full(23, 1, Some("mail"), Some("DP-1"), false, Some(false), None, vec![]),
    ];
    assert_eq!(parse_workspace_names(&rows), vec!["web"]);
}

#[test]
fn parse_workspace_names_vanilla_niri_lists_everything_named() {
    let rows = vec![ws(1, 1, Some("web"), Some("DP-1")), ws(2, 2, None, Some("DP-1"))];
    assert_eq!(parse_workspace_names(&rows), vec!["web"]);
}

#[test]
fn parse_workspace_names_in_activity_filters_by_membership() {
    let rows = vec![
        ws_full(21, 1, Some("web"), Some("DP-1"), false, None, None, vec![1]),
        ws_full(22, 2, None, Some("DP-1"), false, None, None, vec![2]),
        ws_full(23, 1, Some("mail"), Some("DP-1"), false, None, None, vec![2]),
    ];
    let acts = vec![act(1, "acme", true, Some(9)), act(2, "home", false, Some(4))];
    assert_eq!(workspace_names_in_activity(&rows, &acts, "home").unwrap(), vec!["mail"]);
}

#[test]
fn parse_workspace_names_in_activity_unknown_activity_errs() {
    let acts = vec![act(1, "acme", true, Some(9))];
    let err = workspace_names_in_activity(&vec![], &acts, "nope").unwrap_err();
    assert!(err.message().contains("unknown activity"), "{}", err.message());
    assert!(matches!(err, VerbError::UnknownActivity(n) if n == "nope"));
}

#[test]
fn all_rows_group_mru_current_last_with_membership_expansion() {
    let rows = vec![
        ws_full(1, 1, Some("editor"), Some("DP-1"), false, Some(true), None, vec![10]),
        ws_full(2, 2, Some("browser"), Some("DP-1"), true, Some(true), None, vec![10]),
        ws_full(3, 1, Some("media"), Some("DP-1"), false, Some(false), None, vec![20]),
        ws_full(4, 3, Some("scratch"), Some("DP-1"), false, Some(true), None, vec![10, 20, 30]),
    ];
    let acts = vec![
        act(10, "work", true, Some(9)),
        act(20, "home", false, Some(7)),
        act(30, "mail", false, Some(3)),
    ];
    let out = all_workspace_rows(&rows, &acts);
    let labels: Vec<&str> = out.iter().map(|r| r.label.as_str()).collect();
    assert_eq!(
        labels,
        vec![
            "home: media",
            "home: scratch",
            "mail: scratch",
            "work: editor",
            "work: browser (current)",
            "work: scratch",
        ]
    );
    assert_eq!(out[0].activity_name, "home");
    assert_eq!(out[0].ws_id, 3);
    assert_eq!(out[2].activity_name, "mail");
    assert_eq!(out[2].ws_id, 4);
}

#[test]
fn all_rows_is_focused_absent_does_not_mark_current() {
    let rows = vec![ws_full(1, 1, Some("editor"), Some("DP-1"), false, None, None, vec![10])];
    let acts = vec![act(10, "work", true, Some(1))];
    let out = all_workspace_rows(&rows, &acts);
    assert_eq!(out.len(), 1);
    assert_eq!(out[0].label, "work: editor");
}

#[test]
fn all_rows_unknown_activity_id_is_skipped_not_fatal() {
    let rows = vec![ws_full(1, 1, Some("a"), Some("DP-1"), true, Some(true), None, vec![10, 99])];
    let acts = vec![act(10, "work", true, Some(1))];
    let out = all_workspace_rows(&rows, &acts);
    assert_eq!(out.len(), 1);
    assert_eq!(out[0].label, "work: a (current)");
}

fn complete_fixture() -> (Vec<WorkspaceRow>, Vec<WindowRow>, Vec<ActivityRow>) {
    let rows = vec![
        ws_full(21, 1, Some("web"), Some("DP-1"), true, Some(true), Some(100), vec![1]),
        ws_full(22, 2, None, Some("DP-1"), false, Some(true), Some(101), vec![1]),
        ws_full(30, 1, None, Some("HDMI-1"), false, Some(true), None, vec![1]),
        ws_full(23, 1, Some("mail"), Some("DP-1"), false, Some(false), None, vec![2]),
        ws_full(40, 2, None, Some("DP-1"), false, Some(false), None, vec![2]),
    ];
    let windows = vec![
        WindowRow { id: 100, title: Some("Firefox — docs".into()) },
        WindowRow { id: 101, title: None },
    ];
    let acts = vec![act(1, "acme", true, None), act(2, "home", false, None)];
    (rows, windows, acts)
}

#[test]
fn parse_complete_rows_tokens_and_descriptions() {
    let (rows, windows, _) = complete_fixture();
    assert_eq!(
        complete_rows(&rows, &windows),
        vec![
            "web\tidx 1 · id:21 · DP-1 · Firefox — docs",
            "2\tidx 2 · id:22 · DP-1 · untitled",
            "id:30\tidx 1 · id:30 · HDMI-1 · empty",
        ]
    );
}

#[test]
fn parse_complete_rows_drops_dormant_activity_rows() {
    let (rows, windows, _) = complete_fixture();
    let out = complete_rows(&rows, &windows);
    assert!(!out.iter().any(|r| r.contains("mail") || r.contains("id:40")), "{out:?}");
}

#[test]
fn parse_complete_rows_null_output_renders_question_mark() {
    let rows = vec![ws_full(7, 1, None, None, false, None, None, vec![])];
    assert_eq!(complete_rows(&rows, &vec![]), vec!["id:7\tidx 1 · id:7 · ? · empty"]);
}

#[test]
fn parse_complete_rows_vanilla_niri_lists_everything() {
    let rows = vec![
        ws_full(1, 1, Some("web"), Some("DP-1"), true, None, None, vec![]),
        ws_full(2, 2, None, Some("DP-1"), false, None, None, vec![]),
    ];
    assert_eq!(
        complete_rows(&rows, &vec![]),
        vec!["web\tidx 1 · id:1 · DP-1 · empty", "2\tidx 2 · id:2 · DP-1 · empty"]
    );
}

#[test]
fn parse_complete_rows_later_window_row_wins_title_lookup() {
    let rows = vec![ws_full(1, 1, Some("web"), Some("DP-1"), true, None, Some(5), vec![])];
    let windows = vec![
        WindowRow { id: 5, title: Some("old".into()) },
        WindowRow { id: 5, title: Some("new".into()) },
    ];
    assert_eq!(complete_rows(&rows, &windows), vec!["web\tidx 1 · id:1 · DP-1 · new"]);
}

#[test]
fn parse_complete_rows_in_activity_unnamed_use_id_reference() {
    let (rows, windows, acts) = complete_fixture();
    assert_eq!(
        complete_rows_in_activity(&rows, &acts, &windows, "home").unwrap(),
        vec!["mail\tidx 1 · id:23 · DP-1 · empty", "id:40\tidx 2 · id:40 · DP-1 · empty"]
    );
}

#[test]
fn parse_complete_rows_in_activity_unknown_activity_errors() {
    let (rows, windows, acts) = complete_fixture();
    let err = complete_rows_in_activity(&rows, &acts, &windows, "nope").unwrap_err();
    assert!(err.message().contains("unknown activity"), "{}", err.message());
}

fn bm(
    id: u64,
    position: u32,
    window_id: u64,
    title: Option<&str>,
    app_id: Option<&str>,
    workspace: Option<(u64, Option<&str>, Option<&str>)>,
    activity: Option<&str>,
    key: Option<&str>,
) -> BookmarkRow {
    BookmarkRow {
        id,
        position,
        window_id,
        title: title.map(String::from),
        app_id: app_id.map(String::from),
        workspace: workspace.map(|(id, name, output)| BookmarkWorkspace {
            id,
            name: name.map(String::from),
            output: output.map(String::from),
        }),
        activity_name: activity.map(String::from),
        key: key.map(String::from),
    }
}

#[test]
fn parse_bookmark_choices_prefers_title_over_app_id_and_id() {
    let c = bookmark_choices(&vec![bm(1, 0, 11, Some("Terminal"), Some("foot"), Some((21, Some("web"), Some("DP-1"))), Some("acme"), None)]);
    assert_eq!(
        c,
        vec![BookmarkChoice { id: 1, label: "1: Terminal — web · acme".to_string(), key: None }]
    );
}

#[test]
fn parse_bookmark_choices_falls_back_to_app_id_when_title_absent() {
    let c = bookmark_choices(&vec![bm(2, 0, 12, None, Some("firefox"), Some((22, None, Some("DP-1"))), Some("acme"), None)]);
    assert_eq!(c[0].label, "1: firefox — DP-1 #22 · acme");
}

#[test]
fn parse_bookmark_choices_falls_back_to_window_id_when_title_and_app_id_absent() {
    let c = bookmark_choices(&vec![bm(3, 0, 13, None, None, None, None, None)]);
    assert_eq!(c[0].label, "1: window #13 — (moving) · (removed)");
}

#[test]
fn parse_bookmark_choices_named_workspace_uses_name() {
    let c = bookmark_choices(&vec![bm(1, 0, 11, Some("T"), None, Some((21, Some("web"), Some("DP-1"))), Some("acme"), None)]);
    assert_eq!(c[0].label, "1: T — web · acme");
}

#[test]
fn parse_bookmark_choices_unnamed_workspace_uses_output_and_id_fallback() {
    let c = bookmark_choices(&vec![bm(1, 0, 11, Some("T"), None, Some((21, None, Some("DP-1"))), Some("acme"), None)]);
    assert_eq!(c[0].label, "1: T — DP-1 #21 · acme");
}

#[test]
fn parse_bookmark_choices_none_workspace_uses_moving_placeholder() {
    let c = bookmark_choices(&vec![bm(1, 0, 11, Some("T"), None, None, Some("acme"), None)]);
    assert_eq!(c[0].label, "1: T — (moving) · acme");
}

#[test]
fn parse_bookmark_choices_none_activity_uses_removed_placeholder() {
    let c = bookmark_choices(&vec![bm(1, 0, 11, Some("T"), None, Some((21, Some("web"), Some("DP-1"))), None, None)]);
    assert_eq!(c[0].label, "1: T — web · (removed)");
}

#[test]
fn parse_bookmark_choices_key_suffix_appended_when_assigned() {
    let c = bookmark_choices(&vec![bm(1, 0, 11, Some("T"), None, Some((21, Some("web"), Some("DP-1"))), Some("acme"), Some("Mod+M"))]);
    assert_eq!(c[0].label, "1: T — web · acme [Mod+M]");
    assert_eq!(c[0].key.as_deref(), Some("Mod+M"));
}

#[test]
fn parse_bookmark_choices_sorts_by_position_ascending() {
    let c = bookmark_choices(&vec![
        bm(9, 2, 19, Some("C"), None, None, None, None),
        bm(7, 0, 17, Some("A"), None, None, None, None),
        bm(8, 1, 18, Some("B"), None, None, None, None),
    ]);
    let ids: Vec<u64> = c.iter().map(|b| b.id).collect();
    assert_eq!(ids, vec![7, 8, 9]);
}

#[test]
fn parse_bookmark_choices_duplicate_content_yields_distinct_labels() {
    let c = bookmark_choices(&vec![
        bm(1, 0, 11, Some("Terminal"), None, Some((21, Some("web"), Some("DP-1"))), Some("acme"), None),
        bm(2, 1, 11, Some("Terminal"), None, Some((21, Some("web"), Some("DP-1"))), Some("acme"), None),
    ]);
    assert_ne!(c[0].label, c[1].label);
    assert_eq!(c[0].label, "1: Terminal — web · acme");
    assert_eq!(c[1].label, "2: Terminal — web · acme");
}

#[test]
fn parse_bookmark_choices_empty_array_returns_empty_vec() {
    assert!(bookmark_choices(&vec![]).is_empty());
}

#[test]
fn parse_bookmark_choices_title_newline_sanitized_to_single_line() {
    let c = bookmark_choices(&vec![bm(1, 0, 11, Some("evil\ntitle"), None, Some((21, Some("web"), Some("DP-1"))), Some("acme"), None)]);
    assert_eq!(c[0].label.lines().count(), 1, "label: {:?}", c[0].label);
    assert_eq!(c[0].label, "1: evil title — web · acme");
}

#[test]
fn parse_bookmark_choices_activity_name_control_chars_sanitized() {
    let c = bookmark_choices(&vec![bm(1, 0, 11, Some("T"), None, Some((21, Some("web"), Some("DP-1"))), Some("ya\tge\ro"), None)]);
    assert_eq!(c[0].label, "1: T — web · ya ge o");
}

#[test]
fn parse_bookmark_choices_trailing_whitespace_trimmed_from_label() {
    let c = bookmark_choices(&vec![bm(1, 0, 11, None, None, None, Some("trailing   "), None)]);
    assert_eq!(c[0].label, "1: window #11 — (moving) · trailing");
}

#[test]
fn bookmark_position_prefix_is_one_based_and_decimal() {
    let c = bookmark_choices(&vec![bm(4, 41, 1, Some("T"), None, None, None, None)]);
    assert_eq!(c[0].label, "42: T — (moving) · (removed)");
}
