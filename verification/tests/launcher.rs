use jiji_do::capabilities::Capabilities;
use jiji_do::error::DoError;
use jiji_do::launcher::{debug_report, launch, Failure, Launch};
use jiji_do::niri::Query;
use jiji_do::protocol::{Effect, Event};
use jiji_do::registry::{VerbArgs, VerbId};
use jiji_do::snapshot::Snapshot;

fn snapshot() -> Snapshot {
    Snapshot {
        focused_window: None,
        focused_window_title: None,
        focused_workspace: None,
        focused_workspace_idx: None,
        focused_workspace_name: None,
        focused_output: None,
        focused_activity: None,
    }
}

fn upstream() -> Capabilities {
    Capabilities::niri_socket().union(Capabilities::fuzzel())
}

#[test]
fn missing_socket_is_a_capability_miss() {
    let l = launch(Capabilities::fuzzel(), false, &Some("switch-activity".into()), &VerbArgs::none(), &vec![]);
    match l {
        Launch::Finish(Err(f)) => {
            assert_eq!(f.exit_code(), 69);
            match f {
                Failure::Unavailable(e) => {
                    assert_eq!(e.to_string(), "niri socket unavailable: $NIRI_SOCKET unset or unreachable")
                },
                other => panic!("{other:?}"),
            }
        },
        other => panic!("{other:?}"),
    }
}

#[test]
fn snapshot_is_captured_first() {
    match launch(upstream(), false, &None, &VerbArgs::none(), &vec![]) {
        Launch::Perform(Effect::Capture(q)) => assert_eq!(q, vec![Query::Windows, Query::Workspaces]),
        other => panic!("{other:?}"),
    }
}

#[test]
fn gated_verb_direct_invocation_exits_69_upstream() {
    let l = launch(upstream(), false, &Some("switch-activity".into()), &VerbArgs::none(), &vec![Event::Captured(snapshot())]);
    match l {
        Launch::Finish(Err(Failure::Unavailable(DoError::MissingCapability(m)))) => assert_eq!(
            m,
            "switch-activity requires Capabilities(NIRI_SOCKET | FUZZEL | FORK | NIRI_ACTIVITIES); run with --debug to see what's missing"
        ),
        other => panic!("{other:?}"),
    }
}

#[test]
fn enabled_verb_is_dispatched_with_its_arguments() {
    let args = VerbArgs { first: Some("web".into()), second: None, complete: false, focus: None };
    match launch(upstream(), false, &Some("switch-workspace".into()), &args, &vec![Event::Captured(snapshot())]) {
        Launch::Dispatch(id, a) => {
            assert_eq!(id, VerbId::SwitchWorkspace);
            assert_eq!(a, args);
        },
        other => panic!("{other:?}"),
    }
}

#[test]
fn unknown_verb_fails_with_exit_one() {
    match launch(upstream(), false, &Some("frob".into()), &VerbArgs::none(), &vec![Event::Captured(snapshot())]) {
        Launch::Finish(Err(f)) => assert_eq!(f.exit_code(), 1),
        other => panic!("{other:?}"),
    }
}

#[test]
fn menu_needs_fuzzel() {
    match launch(Capabilities::niri_socket(), false, &None, &VerbArgs::none(), &vec![Event::Captured(snapshot())]) {
        Launch::Finish(Err(Failure::Unavailable(e))) => {
            assert_eq!(e.to_string(), "fuzzel not on $PATH (required to render the menu)")
        },
        other => panic!("{other:?}"),
    }
}

#[test]
fn menu_does_not_render_list_activities() {
    match launch(Capabilities::all(), false, &None, &VerbArgs::none(), &vec![Event::Captured(snapshot())]) {
        Launch::Perform(Effect::Pick { prompt, items }) => {
            assert_eq!(prompt, "jiji-do ");
            assert!(items.contains(&"Switch workspace".to_string()));
            assert!(!items.contains(&"List activities".to_string()));
        },
        other => panic!("{other:?}"),
    }
}

#[test]
fn menu_pick_dispatches_without_arguments_and_cancel_is_clean() {
    let answers = vec![Event::Captured(snapshot()), Event::Picked(Some("Quit jiji".into()))];
    match launch(upstream(), false, &None, &VerbArgs::none(), &answers) {
        Launch::Dispatch(id, a) => {
            assert_eq!(id, VerbId::Quit);
            assert_eq!(a, VerbArgs::none());
        },
        other => panic!("{other:?}"),
    }
    let answers = vec![Event::Captured(snapshot()), Event::Picked(None)];
    assert!(matches!(launch(upstream(), false, &None, &VerbArgs::none(), &answers), Launch::Finish(Ok(()))));
}

#[test]
fn debug_reports_filtering_upstream() {
    let report = debug_report(upstream());
    assert!(report.starts_with("capabilities: Capabilities(NIRI_SOCKET | FUZZEL)\n"));
    assert!(report.contains("  switch-activity: filtered (missing: Capabilities(FORK | NIRI_ACTIVITIES))\n"));
    for kept in [
        "switch-workspace",
        "focus-workspace-previous",
        "unset-workspace-name",
        "pick-window",
        "focus-monitor",
        "move-window-to-monitor",
        "move-column-to-monitor",
        "move-workspace-to-monitor",
        "toggle-debug-tint",
        "reload-config",
        "power-on-monitors",
        "pick-color",
        "quit",
        "power-off-monitors",
        "stop-cast",
        "rename-workspace",
    ] {
        assert!(report.contains(&format!("  {kept}: kept\n")), "{kept}: {report}");
    }
    for filtered in [
        "switch-activity-previous",
        "move-window-to-activity",
        "move-window-here",
        "move-workspace-to-activity",
        "assign-workspace",
        "save-activity",
        "list-activities",
        "create-activity",
        "remove-activity",
        "rename-activity",
    ] {
        assert!(report.contains(&format!("  {filtered}: filtered")), "{filtered}: {report}");
    }
    assert_eq!(report.lines().count(), 39);
}

#[test]
fn debug_prints_the_report_without_the_socket() {
    match launch(Capabilities::empty(), true, &None, &VerbArgs::none(), &vec![]) {
        Launch::Perform(Effect::Print(t)) => assert!(t.starts_with("capabilities: Capabilities(0x0)\n")),
        other => panic!("{other:?}"),
    }
    assert!(matches!(launch(Capabilities::empty(), true, &None, &VerbArgs::none(), &vec![Event::Printed]), Launch::Finish(Ok(()))));
}
