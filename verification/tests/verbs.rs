use jiji_do::error::VerbError;
use jiji_do::invocation::Invocation;
use jiji_do::niri::{ActivityRow, BookmarkRow, CastRow, OutputRow, WorkspaceRow};
use jiji_do::protocol::{Effect, Event, Inventory, Step};
use jiji_do::registry::{VerbArgs, VerbId};
use jiji_do::snapshot::Snapshot;
use jiji_do::verbs::rename_workspace::prompt_for;
use jiji_do::verbs::run;

fn snap(idx: Option<u64>, name: Option<&str>, id: Option<u64>) -> Snapshot {
    Snapshot {
        focused_window: None,
        focused_window_title: None,
        focused_workspace: id,
        focused_workspace_idx: idx,
        focused_workspace_name: name.map(str::to_string),
        focused_output: None,
        focused_activity: None,
    }
}

fn launch_snapshot() -> Snapshot {
    Snapshot {
        focused_window: Some(11),
        focused_window_title: Some("Firefox - Main window".into()),
        focused_workspace: Some(21),
        focused_workspace_idx: Some(1),
        focused_workspace_name: Some("web".into()),
        focused_output: Some("DP-1".into()),
        focused_activity: Some("acme".into()),
    }
}

fn args(first: Option<&str>) -> VerbArgs {
    VerbArgs { first: first.map(String::from), second: None, complete: false, focus: None }
}

fn inventory() -> Inventory {
    Inventory {
        workspaces: vec![],
        windows: vec![],
        activities: vec![],
        outputs: vec![],
        casts: vec![],
        bookmarks: vec![],
    }
}

fn argv(c: &Invocation) -> Vec<&str> {
    c.args.iter().map(|s| s.as_str()).collect()
}

fn runs(step: &Step) -> (String, Vec<String>) {
    match step {
        Step::Perform(Effect::Run(c)) => (c.program.clone(), c.args.clone()),
        other => panic!("expected a run, got {other:?}"),
    }
}

fn ran() -> Event {
    Event::Ran(String::new())
}

fn is_done(step: &Step) -> bool {
    matches!(step, Step::Finish(Ok(())))
}

#[test]
fn prompt_with_full_context() {
    assert_eq!(prompt_for(&snap(Some(3), Some("web"), Some(21))), "Rename workspace 3 \"web\" (id 21) to: ");
}

#[test]
fn prompt_unnamed_workspace_omits_name() {
    assert_eq!(prompt_for(&snap(Some(2), None, Some(7))), "Rename workspace 2 (id 7) to: ");
}

#[test]
fn prompt_no_context_is_bare() {
    assert_eq!(prompt_for(&snap(None, None, None)), "Rename workspace to: ");
}

#[test]
fn focus_workspace_previous_dispatches_action() {
    let s = launch_snapshot();
    let step = run(VerbId::FocusWorkspacePrevious, &s, &VerbArgs::none(), &vec![]);
    assert_eq!(runs(&step), ("niri".to_string(), vec!["msg".into(), "action".into(), "focus-workspace-previous".into()]));
    assert!(is_done(&run(VerbId::FocusWorkspacePrevious, &s, &VerbArgs::none(), &vec![ran()])));
}

#[test]
fn niri_action_failure_propagates() {
    let s = launch_snapshot();
    let step = run(VerbId::ToggleDebugTint, &s, &VerbArgs::none(), &vec![Event::Failed("niri exited 1: no".into())]);
    match step {
        Step::Finish(Err(VerbError::Failed(m))) => assert_eq!(m, "niri exited 1: no"),
        other => panic!("{other:?}"),
    }
}

#[test]
fn passthroughs_forward_the_focused_window_and_name() {
    let s = launch_snapshot();
    let (p, a) = runs(&run(VerbId::MoveWindowToActivity, &s, &args(Some(" work ")), &vec![]));
    assert_eq!(p, "jiji-activities");
    assert_eq!(a, vec!["move-window", "work", "--window=11"]);
    let (_, a) = runs(&run(VerbId::MoveWindowToActivity, &s, &args(Some("   ")), &vec![]));
    assert_eq!(a, vec!["move-window", "--window=11"]);
    let (_, a) = runs(&run(VerbId::MoveWindowHere, &s, &VerbArgs::none(), &vec![]));
    assert_eq!(a, vec!["move-window-here", "--window=11"]);
    let (_, a) = runs(&run(VerbId::MoveWorkspaceToActivity, &s, &args(Some("home")), &vec![]));
    assert_eq!(a, vec!["move-workspace", "home", "--workspace=21"]);
    let (_, a) = runs(&run(VerbId::AssignWorkspace, &s, &VerbArgs::none(), &vec![]));
    assert_eq!(a, vec!["assign-workspace", "--workspace=21"]);
    let (_, a) = runs(&run(VerbId::SwitchActivity, &s, &args(Some("work")), &vec![]));
    assert_eq!(a, vec!["switch", "work"]);
    let (_, a) = runs(&run(VerbId::SwitchActivity, &s, &args(Some("")), &vec![]));
    assert_eq!(a, vec!["switch"]);
    let (_, a) = runs(&run(VerbId::SwitchActivityPrevious, &s, &VerbArgs::none(), &vec![]));
    assert_eq!(a, vec!["switch-previous"]);
}

#[test]
fn passthroughs_bail_without_focus_at_launch() {
    let s = snap(None, None, None);
    assert!(matches!(
        run(VerbId::MoveWindowToActivity, &s, &args(Some("work")), &vec![]),
        Step::Finish(Err(VerbError::NoFocusedWindow))
    ));
    assert!(matches!(
        run(VerbId::MoveWorkspaceToActivity, &s, &VerbArgs::none(), &vec![]),
        Step::Finish(Err(VerbError::NoFocusedWorkspace))
    ));
    assert!(matches!(
        run(VerbId::SaveActivity, &s, &VerbArgs::none(), &vec![]),
        Step::Finish(Err(VerbError::NoFocusedActivity))
    ));
}

#[test]
fn save_activity_name_or_focused_activity() {
    let s = launch_snapshot();
    let (_, a) = runs(&run(VerbId::SaveActivity, &s, &args(Some("snap")), &vec![]));
    assert_eq!(a, vec!["save", "snap"]);
    let (_, a) = runs(&run(VerbId::SaveActivity, &s, &args(Some(" ")), &vec![]));
    assert_eq!(a, vec!["save", "acme"]);
    let (_, a) = runs(&run(VerbId::SaveActivity, &snap(None, None, None), &args(Some("x")), &vec![]));
    assert_eq!(a, vec!["save", "x"]);
}

#[test]
fn create_activity_direct_prompt_cancel() {
    let s = launch_snapshot();
    let (_, a) = runs(&run(VerbId::CreateActivity, &s, &args(Some("foo")), &vec![]));
    assert_eq!(a, vec!["create", "foo"]);
    match run(VerbId::CreateActivity, &s, &args(Some("  ")), &vec![]) {
        Step::Perform(Effect::Prompt(p)) => assert_eq!(p, "Activity name: "),
        other => panic!("{other:?}"),
    }
    let (_, a) = runs(&run(VerbId::CreateActivity, &s, &VerbArgs::none(), &vec![Event::Typed(Some("typed".into()))]));
    assert_eq!(a, vec!["create", "typed"]);
    assert!(is_done(&run(VerbId::CreateActivity, &s, &VerbArgs::none(), &vec![Event::Typed(None)])));
}

fn activities_inventory(names: &[(&str, bool, u64)]) -> Inventory {
    let mut inv = inventory();
    inv.activities = names
        .iter()
        .enumerate()
        .map(|(i, (n, a, seq))| ActivityRow { id: i as u64 + 1, name: n.to_string(), is_active: *a, last_active_seq: Some(*seq) })
        .collect();
    inv
}

#[test]
fn remove_activity_picker_paths() {
    let s = launch_snapshot();
    let (_, a) = runs(&run(VerbId::RemoveActivity, &s, &args(Some("old")), &vec![]));
    assert_eq!(a, vec!["remove", "old"]);
    match run(VerbId::RemoveActivity, &s, &VerbArgs::none(), &vec![]) {
        Step::Perform(Effect::Fetch(q)) => assert_eq!(q, vec![jiji_do::niri::Query::Activities]),
        other => panic!("{other:?}"),
    }
    let inv = || activities_inventory(&[("default", false, 2), ("work", true, 7)]);
    match run(VerbId::RemoveActivity, &s, &VerbArgs::none(), &vec![Event::Fetched(inv())]) {
        Step::Perform(Effect::Pick { prompt, items }) => {
            assert_eq!(prompt, "Remove activity: ");
            assert_eq!(items, vec!["work", "default"]);
        },
        other => panic!("{other:?}"),
    }
    let (_, a) = runs(&run(
        VerbId::RemoveActivity,
        &s,
        &VerbArgs::none(),
        &vec![Event::Fetched(inv()), Event::Picked(Some("default".into()))],
    ));
    assert_eq!(a, vec!["remove", "default"]);
    assert!(is_done(&run(VerbId::RemoveActivity, &s, &VerbArgs::none(), &vec![Event::Fetched(inv()), Event::Picked(None)])));
}

#[test]
fn remove_activity_empty_inventory_bails_before_fuzzel() {
    let s = launch_snapshot();
    assert!(matches!(
        run(VerbId::RemoveActivity, &s, &VerbArgs::none(), &vec![Event::Fetched(inventory())]),
        Step::Finish(Err(VerbError::NoActivitiesToRemove))
    ));
    assert!(matches!(
        run(VerbId::RenameActivity, &s, &VerbArgs::none(), &vec![Event::Fetched(inventory())]),
        Step::Finish(Err(VerbError::NoActivitiesToRename))
    ));
}

#[test]
fn rename_activity_happy_path_dispatches_rename_with_correct_argv() {
    let s = launch_snapshot();
    let inv = || activities_inventory(&[("default", false, 2), ("work", true, 7)]);
    match run(VerbId::RenameActivity, &s, &VerbArgs::none(), &vec![Event::Fetched(inv()), Event::Picked(Some("work".into()))]) {
        Step::Perform(Effect::Prompt(p)) => assert_eq!(p, "Rename activity \"work\" to: "),
        other => panic!("{other:?}"),
    }
    let (p, a) = runs(&run(
        VerbId::RenameActivity,
        &s,
        &VerbArgs::none(),
        &vec![Event::Fetched(inv()), Event::Picked(Some("work".into())), Event::Typed(Some("job".into()))],
    ));
    assert_eq!(p, "jiji-activities");
    assert_eq!(a, vec!["rename", "job", "--activity", "work"]);
    assert!(is_done(&run(
        VerbId::RenameActivity,
        &s,
        &VerbArgs::none(),
        &vec![Event::Fetched(inv()), Event::Picked(Some("work".into())), Event::Typed(None)],
    )));
}

#[test]
fn quit_and_power_off_need_a_yes() {
    let s = launch_snapshot();
    match run(VerbId::Quit, &s, &VerbArgs::none(), &vec![]) {
        Step::Perform(Effect::Confirm(p)) => assert_eq!(p, "Quit jiji?"),
        other => panic!("{other:?}"),
    }
    let (_, a) = runs(&run(VerbId::Quit, &s, &VerbArgs::none(), &vec![Event::Confirmed(true)]));
    assert_eq!(a, vec!["msg", "action", "quit", "--skip-confirmation"]);
    assert!(is_done(&run(VerbId::Quit, &s, &VerbArgs::none(), &vec![Event::Confirmed(false)])));
    let (_, a) = runs(&run(VerbId::PowerOffMonitors, &s, &VerbArgs::none(), &vec![Event::Confirmed(true)]));
    assert_eq!(a, vec!["msg", "action", "power-off-monitors"]);
}

#[test]
fn rename_workspace_prompt_dispatches_set_workspace_name() {
    let s = launch_snapshot();
    match run(VerbId::RenameWorkspace, &s, &VerbArgs::none(), &vec![]) {
        Step::Perform(Effect::Prompt(p)) => assert_eq!(p, "Rename workspace 1 \"web\" (id 21) to: "),
        other => panic!("{other:?}"),
    }
    let (_, a) = runs(&run(VerbId::RenameWorkspace, &s, &VerbArgs::none(), &vec![Event::Typed(Some("mail".into()))]));
    assert_eq!(a, vec!["msg", "action", "set-workspace-name", "mail"]);
}

fn outputs_inventory() -> Inventory {
    let mut inv = inventory();
    inv.outputs = vec![
        OutputRow { connector: "HDMI-A-1".into(), make: "LG".into(), model: "27UK850".into() },
        OutputRow { connector: "DP-1".into(), make: "Dell".into(), model: "U2720Q".into() },
    ];
    inv
}

#[test]
fn monitor_verbs_pick_and_dispatch() {
    let s = launch_snapshot();
    match run(VerbId::MoveWindowToMonitor, &s, &VerbArgs::none(), &vec![Event::Fetched(outputs_inventory())]) {
        Step::Perform(Effect::Pick { prompt, items }) => {
            assert_eq!(prompt, "Move \"Firefox - Main window\" to monitor: ");
            assert_eq!(items, vec!["DP-1 (Dell U2720Q)", "HDMI-A-1 (LG 27UK850)"]);
        },
        other => panic!("{other:?}"),
    }
    for (id, action) in [
        (VerbId::FocusMonitor, "focus-monitor"),
        (VerbId::MoveWindowToMonitor, "move-window-to-monitor"),
        (VerbId::MoveColumnToMonitor, "move-column-to-monitor"),
        (VerbId::MoveWorkspaceToMonitor, "move-workspace-to-monitor"),
    ] {
        let (_, a) = runs(&run(
            id,
            &s,
            &VerbArgs::none(),
            &vec![Event::Fetched(outputs_inventory()), Event::Picked(Some("DP-1 (Dell U2720Q)".into()))],
        ));
        assert_eq!(a, vec!["msg", "action", action, "DP-1"]);
    }
}

#[test]
fn monitor_prompts_name_their_subject() {
    let s = launch_snapshot();
    match run(VerbId::MoveWorkspaceToMonitor, &s, &VerbArgs::none(), &vec![Event::Fetched(outputs_inventory())]) {
        Step::Perform(Effect::Pick { prompt, .. }) => assert_eq!(prompt, "Move workspace 1 \"web\" to monitor: "),
        other => panic!("{other:?}"),
    }
    let mut long = launch_snapshot();
    long.focused_window_title = Some("x".repeat(45));
    match run(VerbId::MoveWindowToMonitor, &long, &VerbArgs::none(), &vec![Event::Fetched(outputs_inventory())]) {
        Step::Perform(Effect::Pick { prompt, .. }) => {
            assert_eq!(prompt, format!("Move \"{}…\" to monitor: ", "x".repeat(40)))
        },
        other => panic!("{other:?}"),
    }
    let mut none = launch_snapshot();
    none.focused_window_title = None;
    match run(VerbId::MoveWindowToMonitor, &none, &VerbArgs::none(), &vec![Event::Fetched(outputs_inventory())]) {
        Step::Perform(Effect::Pick { prompt, .. }) => assert_eq!(prompt, "Move window to monitor: "),
        other => panic!("{other:?}"),
    }
}

#[test]
fn monitor_verb_empty_outputs_bails_before_fuzzel() {
    let s = launch_snapshot();
    assert!(matches!(
        run(VerbId::FocusMonitor, &s, &VerbArgs::none(), &vec![Event::Fetched(inventory())]),
        Step::Finish(Err(VerbError::NoOutputs))
    ));
}

#[test]
fn focus_monitor_unknown_label_exits_nonzero() {
    let s = launch_snapshot();
    match run(VerbId::FocusMonitor, &s, &VerbArgs::none(), &vec![Event::Fetched(outputs_inventory()), Event::Picked(Some("bogus".into()))]) {
        Step::Finish(Err(e)) => assert_eq!(e.message(), "picker returned unknown label: bogus"),
        other => panic!("{other:?}"),
    }
}

#[test]
fn focus_monitor_cancel_and_failure() {
    let s = launch_snapshot();
    assert!(is_done(&run(VerbId::FocusMonitor, &s, &VerbArgs::none(), &vec![Event::Fetched(outputs_inventory()), Event::Picked(None)])));
    assert!(matches!(
        run(VerbId::FocusMonitor, &s, &VerbArgs::none(), &vec![Event::Fetched(outputs_inventory()), Event::Failed("fuzzel failed (exit 2): x".into())]),
        Step::Finish(Err(VerbError::Failed(_)))
    ));
}

#[test]
fn stop_cast_picks_and_dispatches_action() {
    let s = launch_snapshot();
    let mut inv = inventory();
    inv.casts = vec![CastRow { session_id: 9, pid: Some(100) }, CastRow { session_id: 4, pid: None }];
    let (_, a) = runs(&run(VerbId::StopCast, &s, &VerbArgs::none(), &vec![Event::Fetched(inv), Event::Picked(Some("session 9 (pid 100)".into()))]));
    assert_eq!(a, vec!["msg", "action", "stop-cast", "--session-id", "9"]);
    assert!(matches!(
        run(VerbId::StopCast, &s, &VerbArgs::none(), &vec![Event::Fetched(inventory())]),
        Step::Finish(Err(VerbError::NoCasts))
    ));
}

fn bookmark(id: u64, position: u32, title: &str, key: Option<&str>) -> BookmarkRow {
    BookmarkRow {
        id,
        position,
        window_id: id + 10,
        title: Some(title.into()),
        app_id: None,
        workspace: None,
        activity_name: Some("acme".into()),
        key: key.map(String::from),
    }
}

fn bookmarks_inventory() -> Inventory {
    let mut inv = inventory();
    inv.bookmarks = vec![bookmark(7, 1, "B", Some("Mod+B")), bookmark(5, 0, "A", None), bookmark(9, 2, "C", None)];
    inv
}

#[test]
fn bookmark_verbs_pick_by_label() {
    let s = launch_snapshot();
    let label_b = "2: B — (moving) · acme [Mod+B]";
    let (_, a) = runs(&run(VerbId::Bookmark, &s, &VerbArgs::none(), &vec![Event::Fetched(bookmarks_inventory()), Event::Picked(Some(label_b.into()))]));
    assert_eq!(a, vec!["msg", "action", "jump-to-bookmark", "--id", "7"]);
    let (_, a) = runs(&run(VerbId::BookmarkAssignKey, &s, &VerbArgs::none(), &vec![Event::Fetched(bookmarks_inventory()), Event::Picked(Some("1: A — (moving) · acme".into()))]));
    assert_eq!(a, vec!["msg", "action", "capture-bookmark-key", "--id", "5"]);
    match run(VerbId::BookmarkUnassignKey, &s, &VerbArgs::none(), &vec![Event::Fetched(bookmarks_inventory())]) {
        Step::Perform(Effect::Pick { items, .. }) => assert_eq!(items, vec![label_b]),
        other => panic!("{other:?}"),
    }
    let (_, a) = runs(&run(VerbId::BookmarkUnassignKey, &s, &VerbArgs::none(), &vec![Event::Fetched(bookmarks_inventory()), Event::Picked(Some(label_b.into()))]));
    assert_eq!(a, vec!["msg", "action", "unassign-bookmark-key", "--id", "7"]);
}

#[test]
fn bookmark_verbs_bail_on_empty_inventories() {
    let s = launch_snapshot();
    assert!(matches!(run(VerbId::Bookmark, &s, &VerbArgs::none(), &vec![Event::Fetched(inventory())]), Step::Finish(Err(VerbError::NoBookmarks))));
    let mut unkeyed = inventory();
    unkeyed.bookmarks = vec![bookmark(5, 0, "A", None)];
    assert!(matches!(
        run(VerbId::BookmarkUnassignKey, &s, &VerbArgs::none(), &vec![Event::Fetched(unkeyed)]),
        Step::Finish(Err(VerbError::NoKeyedBookmarks))
    ));
}

#[test]
fn bookmark_remove_confirms_with_the_label() {
    let s = launch_snapshot();
    let label = "3: C — (moving) · acme";
    match run(VerbId::BookmarkRemove, &s, &VerbArgs::none(), &vec![Event::Fetched(bookmarks_inventory()), Event::Picked(Some(label.into()))]) {
        Step::Perform(Effect::Confirm(p)) => assert_eq!(p, format!("Remove bookmark \"{label}\"?")),
        other => panic!("{other:?}"),
    }
    let (_, a) = runs(&run(
        VerbId::BookmarkRemove,
        &s,
        &VerbArgs::none(),
        &vec![Event::Fetched(bookmarks_inventory()), Event::Picked(Some(label.into())), Event::Confirmed(true)],
    ));
    assert_eq!(a, vec!["msg", "action", "remove-bookmark", "--id", "9"]);
    assert!(is_done(&run(
        VerbId::BookmarkRemove,
        &s,
        &VerbArgs::none(),
        &vec![Event::Fetched(bookmarks_inventory()), Event::Picked(Some(label.into())), Event::Confirmed(false)],
    )));
}

#[test]
fn bookmark_move_targets_the_picked_row_position() {
    let s = launch_snapshot();
    let a_label = "1: A — (moving) · acme";
    let c_label = "3: C — (moving) · acme";
    match run(VerbId::BookmarkMove, &s, &VerbArgs::none(), &vec![Event::Fetched(bookmarks_inventory()), Event::Picked(Some(a_label.into()))]) {
        Step::Perform(Effect::Pick { prompt, items }) => {
            assert_eq!(prompt, format!("Move \"{a_label}\" to position: "));
            assert_eq!(items.len(), 3);
        },
        other => panic!("{other:?}"),
    }
    let (_, a) = runs(&run(
        VerbId::BookmarkMove,
        &s,
        &VerbArgs::none(),
        &vec![Event::Fetched(bookmarks_inventory()), Event::Picked(Some(a_label.into())), Event::Picked(Some(c_label.into()))],
    ));
    assert_eq!(a, vec!["msg", "action", "move-bookmark", "--id", "5", "--pos", "2"]);
}

fn ws(id: u64, idx: u8, name: Option<&str>, active: Option<bool>, focused: bool, acts: Vec<u64>) -> WorkspaceRow {
    WorkspaceRow {
        id,
        idx,
        name: name.map(String::from),
        output: Some("DP-1".into()),
        is_focused: focused,
        is_in_active_activity: active,
        active_window_id: None,
        activities: acts,
    }
}

#[test]
fn switch_workspace_typed_or_picked() {
    let s = launch_snapshot();
    let (_, a) = runs(&run(VerbId::SwitchWorkspace, &s, &args(Some(" id:21 ")), &vec![]));
    assert_eq!(a, vec!["msg", "action", "focus-workspace", "id:21"]);
    let mut inv = inventory();
    inv.workspaces = vec![ws(21, 1, Some("web"), Some(true), true, vec![]), ws(22, 2, None, Some(true), false, vec![]), ws(23, 1, Some("mail"), Some(false), false, vec![])];
    match run(VerbId::SwitchWorkspace, &s, &VerbArgs::none(), &vec![Event::Fetched(inventory())]) {
        Step::Perform(Effect::Pick { prompt, items }) => {
            assert_eq!(prompt, "Switch to workspace: ");
            assert!(items.is_empty());
        },
        other => panic!("{other:?}"),
    }
    let (_, a) = runs(&run(VerbId::SwitchWorkspace, &s, &VerbArgs::none(), &vec![Event::Fetched(inv), Event::Picked(Some("DP-1 #22".into()))]));
    assert_eq!(a, vec!["msg", "action", "focus-workspace", "2"]);
}

fn all_inventory() -> Inventory {
    let mut inv = inventory();
    inv.workspaces = vec![ws(1, 1, Some("editor"), Some(true), true, vec![10]), ws(3, 1, Some("media"), Some(false), false, vec![20])];
    inv.activities = vec![
        ActivityRow { id: 10, name: "work".into(), is_active: true, last_active_seq: Some(9) },
        ActivityRow { id: 20, name: "home".into(), is_active: false, last_active_seq: Some(7) },
    ];
    inv
}

#[test]
fn switch_workspace_all_paths() {
    let s = launch_snapshot();
    let both = VerbArgs { first: Some("home".into()), second: Some(" mail ".into()), complete: false, focus: None };
    let (_, a) = runs(&run(VerbId::SwitchWorkspaceAll, &s, &both, &vec![]));
    assert_eq!(a, vec!["msg", "action", "focus-workspace", "--activity", "home", "mail"]);
    match run(VerbId::SwitchWorkspaceAll, &s, &VerbArgs::none(), &vec![Event::Fetched(all_inventory())]) {
        Step::Perform(Effect::Pick { prompt, items }) => {
            assert_eq!(prompt, "Switch to workspace (all activities): ");
            assert_eq!(items, vec!["home: media", "work: editor (current)"]);
        },
        other => panic!("{other:?}"),
    }
    match run(VerbId::SwitchWorkspaceAll, &s, &args(Some("home")), &vec![Event::Fetched(all_inventory())]) {
        Step::Perform(Effect::Pick { prompt, items }) => {
            assert_eq!(prompt, "Switch to workspace (home): ");
            assert_eq!(items, vec!["home: media"]);
        },
        other => panic!("{other:?}"),
    }
    let (_, a) = runs(&run(VerbId::SwitchWorkspaceAll, &s, &VerbArgs::none(), &vec![Event::Fetched(all_inventory()), Event::Picked(Some("home: media".into()))]));
    assert_eq!(a, vec!["msg", "action", "focus-workspace", "--activity", "home", "id:3"]);
    match run(VerbId::SwitchWorkspaceAll, &s, &args(Some("nope")), &vec![Event::Fetched(all_inventory())]) {
        Step::Finish(Err(e)) => assert_eq!(e.message(), "no workspaces found in activity 'nope'"),
        other => panic!("{other:?}"),
    }
    assert!(matches!(
        run(VerbId::SwitchWorkspaceAll, &s, &VerbArgs::none(), &vec![Event::Fetched(inventory())]),
        Step::Finish(Err(VerbError::NoWorkspaces))
    ));
}

#[test]
fn list_workspaces_prints_one_name_per_line() {
    let s = launch_snapshot();
    let mut inv = inventory();
    inv.workspaces = vec![ws(1, 1, Some("web"), None, true, vec![]), ws(2, 2, Some("mail"), None, false, vec![]), ws(3, 3, None, None, false, vec![])];
    match run(VerbId::ListWorkspaces, &s, &VerbArgs::none(), &vec![Event::Fetched(inv)]) {
        Step::Perform(Effect::Print(t)) => assert_eq!(t, "web\nmail\n"),
        other => panic!("{other:?}"),
    }
    let complete = VerbArgs { first: Some("work".into()), second: None, complete: true, focus: None };
    match run(VerbId::ListWorkspaces, &s, &complete, &vec![]) {
        Step::Perform(Effect::Fetch(q)) => assert_eq!(
            q,
            vec![jiji_do::niri::Query::Workspaces, jiji_do::niri::Query::Activities, jiji_do::niri::Query::Windows]
        ),
        other => panic!("{other:?}"),
    }
    match run(VerbId::ListWorkspaces, &s, &complete, &vec![Event::Fetched(all_inventory())]) {
        Step::Perform(Effect::Print(t)) => assert_eq!(t, "editor\tidx 1 · id:1 · DP-1 · empty\n"),
        other => panic!("{other:?}"),
    }
    assert!(matches!(
        run(VerbId::ListWorkspaces, &s, &args(Some("nope")), &vec![Event::Fetched(all_inventory())]),
        Step::Finish(Err(VerbError::UnknownActivity(_)))
    ));
}

#[test]
fn list_activities_forwards_stdout() {
    let s = launch_snapshot();
    let (p, a) = runs(&run(VerbId::ListActivities, &s, &VerbArgs::none(), &vec![]));
    assert_eq!((p.as_str(), a), ("jiji-activities", vec!["list".to_string()]));
    match run(VerbId::ListActivities, &s, &VerbArgs::none(), &vec![Event::Ran("acme\nhome\n".into())]) {
        Step::Perform(Effect::Print(t)) => assert_eq!(t, "acme\nhome\n"),
        other => panic!("{other:?}"),
    }
}

#[test]
fn pick_window_prints_then_copies_and_notifies() {
    let s = launch_snapshot();
    let out = || Event::Ran("Firefox - Main window\n".into());
    match run(VerbId::PickWindow, &s, &VerbArgs::none(), &vec![out()]) {
        Step::Perform(Effect::Print(t)) => assert_eq!(t, "Firefox - Main window\n"),
        other => panic!("{other:?}"),
    }
    match run(VerbId::PickWindow, &s, &VerbArgs::none(), &vec![out(), Event::Printed]) {
        Step::Perform(Effect::Deliver { invocation, stdin }) => {
            assert_eq!(invocation.program, "wl-copy");
            assert_eq!(stdin.as_deref(), Some("Firefox - Main window"));
        },
        other => panic!("{other:?}"),
    }
    match run(VerbId::PickWindow, &s, &VerbArgs::none(), &vec![out(), Event::Printed, Event::Delivered(false)]) {
        Step::Perform(Effect::Deliver { invocation, stdin }) => {
            assert_eq!(invocation.program, "notify-send");
            assert_eq!(argv(&invocation), vec!["Picked window", "Firefox - Main window"]);
            assert!(stdin.is_none());
        },
        other => panic!("{other:?}"),
    }
    assert!(is_done(&run(VerbId::PickWindow, &s, &VerbArgs::none(), &vec![out(), Event::Printed, Event::Delivered(false), Event::Delivered(false)])));
}

#[test]
fn pick_color_prints_only_when_the_clipboard_fails() {
    let s = launch_snapshot();
    let out = || Event::Ran("#aabbcc\n".into());
    assert!(is_done(&run(VerbId::PickColor, &s, &VerbArgs::none(), &vec![out(), Event::Delivered(true), Event::Delivered(false)])));
    match run(VerbId::PickColor, &s, &VerbArgs::none(), &vec![out(), Event::Delivered(false), Event::Delivered(true)]) {
        Step::Perform(Effect::Print(t)) => assert_eq!(t, "#aabbcc\n"),
        other => panic!("{other:?}"),
    }
    match run(VerbId::PickColor, &s, &VerbArgs::none(), &vec![Event::Failed("niri exited 1: picker cancelled".into())]) {
        Step::Finish(Err(e)) => assert_eq!(e.exit_code(), 1),
        other => panic!("{other:?}"),
    }
}

#[test]
fn wrong_answers_are_refused() {
    let s = launch_snapshot();
    assert!(matches!(
        run(VerbId::Quit, &s, &VerbArgs::none(), &vec![Event::Printed]),
        Step::Finish(Err(VerbError::UnexpectedEvent))
    ));
}

#[test]
fn new_workspace_verbs_pass_focus() {
    let s = launch_snapshot();
    let with_focus = VerbArgs { first: None, second: None, complete: false, focus: Some(true) };
    let (_, a) = runs(&run(VerbId::MoveWindowToNewWorkspaceUp, &s, &with_focus, &vec![]));
    assert_eq!(a, vec!["msg", "action", "move-window-to-new-workspace-up", "--focus", "true"]);
    let (_, a) = runs(&run(VerbId::AddWorkspaceDown, &s, &VerbArgs::none(), &vec![]));
    assert_eq!(a, vec!["msg", "action", "add-workspace-down"]);
}
