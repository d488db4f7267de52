use jiji_do::capabilities::Capabilities;
use jiji_do::niri::{
    assign_bookmark_key, capture_bookmark_key, focus_monitor, focus_workspace, focus_workspace_in_activity,
    focus_workspace_typed, jump_to_bookmark, move_bookmark, move_column_to_monitor,
    move_window_to_monitor, move_window_to_new_workspace_down, move_window_to_new_workspace_up,
    move_workspace_to_monitor, pick_color, pick_window, query, quit_skip_confirmation,
    reload_config, remove_bookmark, run_action, set_workspace_name, stop_cast,
    unassign_bookmark_key, ActivityName, Query, UserWorkspaceRef, WorkspaceChoice,
};
use jiji_do::snapshot::Snapshot;

fn argv(c: &jiji_do::invocation::Invocation) -> Vec<&str> {
    c.args.iter().map(|s| s.as_str()).collect()
}

#[test]
fn actions_are_niri_msg_action_calls() {
    let c = run_action("focus-workspace-previous");
    assert_eq!(c.program, "niri");
    assert_eq!(argv(&c), vec!["msg", "action", "focus-workspace-previous"]);
    assert_eq!(argv(&reload_config()), vec!["msg", "action", "load-config-file"]);
    assert_eq!(argv(&quit_skip_confirmation()), vec!["msg", "action", "quit", "--skip-confirmation"]);
    assert_eq!(argv(&set_workspace_name("web")), vec!["msg", "action", "set-workspace-name", "web"]);
}

#[test]
fn monitor_actions_pass_the_connector() {
    assert_eq!(argv(&focus_monitor("DP-1")), vec!["msg", "action", "focus-monitor", "DP-1"]);
    assert_eq!(argv(&move_window_to_monitor("DP-1")), vec!["msg", "action", "move-window-to-monitor", "DP-1"]);
    assert_eq!(argv(&move_column_to_monitor("DP-1")), vec!["msg", "action", "move-column-to-monitor", "DP-1"]);
    assert_eq!(
        argv(&move_workspace_to_monitor("HDMI-A-1")),
        vec!["msg", "action", "move-workspace-to-monitor", "HDMI-A-1"]
    );
}

#[test]
fn ids_are_separate_decimal_arguments() {
    assert_eq!(argv(&stop_cast(42)), vec!["msg", "action", "stop-cast", "--session-id", "42"]);
    assert_eq!(argv(&jump_to_bookmark(7)), vec!["msg", "action", "jump-to-bookmark", "--id", "7"]);
    assert_eq!(argv(&remove_bookmark(0)), vec!["msg", "action", "remove-bookmark", "--id", "0"]);
    assert_eq!(
        argv(&move_bookmark(12, 3)),
        vec!["msg", "action", "move-bookmark", "--id", "12", "--pos", "3"]
    );
    assert_eq!(
        argv(&assign_bookmark_key(5, "Mod+M")),
        vec!["msg", "action", "assign-bookmark-key", "--id", "5", "--key", "Mod+M"]
    );
    assert_eq!(argv(&unassign_bookmark_key(5)), vec!["msg", "action", "unassign-bookmark-key", "--id", "5"]);
    assert_eq!(argv(&capture_bookmark_key(18446744073709551615)), vec![
        "msg",
        "action",
        "capture-bookmark-key",
        "--id",
        "18446744073709551615"
    ]);
}

#[test]
fn focus_workspace_lanes() {
    let choice = WorkspaceChoice { id: 21, idx: 3, name: None, label: "DP-1 #21".into() };
    assert_eq!(argv(&focus_workspace(&choice.focus_reference())), vec!["msg", "action", "focus-workspace", "3"]);
    let typed = UserWorkspaceRef::from_cli("id:21".into());
    assert_eq!(typed.as_str(), "id:21");
    assert_eq!(argv(&focus_workspace_typed(&typed)), vec!["msg", "action", "focus-workspace", "id:21"]);
    let act = ActivityName::new("home".into());
    assert_eq!(act.as_str(), "home");
    assert_eq!(
        argv(&focus_workspace_in_activity(&act, "id:4")),
        vec!["msg", "action", "focus-workspace", "--activity", "home", "id:4"]
    );
}

#[test]
fn new_workspace_moves_carry_focus_only_when_given() {
    assert_eq!(
        argv(&move_window_to_new_workspace_up(None)),
        vec!["msg", "action", "move-window-to-new-workspace-up"]
    );
    assert_eq!(
        argv(&move_window_to_new_workspace_down(Some(false))),
        vec!["msg", "action", "move-window-to-new-workspace-down", "--focus", "false"]
    );
}

#[test]
fn requests_and_queries() {
    assert_eq!(argv(&pick_window()), vec!["msg", "pick-window"]);
    assert_eq!(argv(&pick_color()), vec!["msg", "pick-color"]);
    assert_eq!(argv(&query(Query::Bookmarks)), vec!["msg", "--json", "bookmarks"]);
    assert_eq!(argv(&query(Query::Workspaces)), vec!["msg", "--json", "workspaces"]);
}

#[test]
fn snapshot_reads_activities_only_on_the_fork() {
    let upstream = Snapshot::capture(Capabilities::niri_socket());
    assert_eq!(upstream, vec![Query::Windows, Query::Workspaces]);
    let fork = Snapshot::capture(Capabilities::niri_socket().union(Capabilities::fork()));
    assert_eq!(fork, vec![Query::Windows, Query::Workspaces, Query::Activities]);
}
