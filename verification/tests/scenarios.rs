//! End-to-end runs of the launcher and the dispatched verb against a
//! scripted world: the closure answers each effect the way the real driver
//! would, and every run of a program is recorded.

use jiji_do::capabilities::Capabilities;
use jiji_do::launcher::{debug_report, launch, Failure, Launch};
use jiji_do::menu::{interpret_confirm, interpret_pick, interpret_prompt, FuzzelExit};
use jiji_do::niri::{CastRow, OutputRow};
use jiji_do::protocol::{Effect, Event, Inventory, Step};
use jiji_do::registry::VerbArgs;
use jiji_do::snapshot::{ActivityBrief, Snapshot, WindowBrief, WorkspaceBrief};

struct Outcome {
    result: Result<(), Failure>,
    runs: Vec<Vec<String>>,
    printed: String,
    delivered: Vec<Vec<String>>,
}

fn fork() -> Capabilities {
    Capabilities::all()
}

fn upstream() -> Capabilities {
    Capabilities::niri_socket().union(Capabilities::fuzzel())
}

fn captured() -> Event {
    let windows = vec![WindowBrief { id: 11, is_focused: true, title: None }];
    let workspaces = vec![WorkspaceBrief { id: 21, output: Some("DP-1".into()), is_focused: true, idx: None, name: Some("web".into()) }];
    let acts = vec![ActivityBrief { name: "acme".into(), is_active: true }];
    Event::Captured(Snapshot::from_briefs(&windows, &workspaces, Some(&acts)))
}

fn empty_inventory() -> Inventory {
    Inventory { workspaces: vec![], windows: vec![], activities: vec![], outputs: vec![], casts: vec![], bookmarks: vec![] }
}

/// Runs `jiji-do [<verb>]` to completion; `world` answers every effect but
/// the snapshot capture.
fn drive(caps: Capabilities, verb: Option<&str>, args: VerbArgs, world: &mut dyn FnMut(&Effect) -> Event) -> Outcome {
    let mut out = Outcome { result: Ok(()), runs: vec![], printed: String::new(), delivered: vec![] };
    let mut answer = |e: &Effect, out: &mut Outcome| -> Event {
        match e {
            Effect::Capture(_) => return captured(),
            Effect::Run(c) => {
                let mut line = vec![c.program.clone()];
                line.extend(c.args.iter().cloned());
                out.runs.push(line);
            },
            Effect::Print(t) => out.printed.push_str(t),
            Effect::Deliver { invocation, .. } => {
                let mut line = vec![invocation.program.clone()];
                line.extend(invocation.args.iter().cloned());
                out.delivered.push(line);
            },
            _ => {},
        }
        world(e)
    };
    let verb = verb.map(String::from);
    let mut answers = vec![];
    let (id, dispatched) = loop {
        match launch(caps, false, &verb, &args, &answers) {
            Launch::Perform(e) => {
                let ev = answer(&e, &mut out);
                answers.push(ev);
            },
            Launch::Dispatch(id, a) => break (id, a),
            Launch::Finish(r) => {
                out.result = r;
                return out;
            },
        }
    };
    let snapshot = match answers.remove(0) {
        Event::Captured(s) => s,
        other => panic!("dispatched without a snapshot: {other:?}"),
    };
    let mut verb_answers = vec![];
    loop {
        match jiji_do::verbs::run(id, &snapshot, &dispatched, &verb_answers) {
            Step::Perform(e) => {
                let ev = answer(&e, &mut out);
                verb_answers.push(ev);
            },
            Step::Finish(r) => {
                out.result = r.map_err(Failure::Verb);
                return out;
            },
        }
    }
}

fn exit_code(o: &Outcome) -> i32 {
    match &o.result {
        Ok(()) => 0,
        Err(f) => f.exit_code(),
    }
}

fn fuzzel_pick(exit: FuzzelExit, stdout: &str) -> Event {
    match interpret_pick(exit, stdout, "fuzzel stderr") {
        Ok(p) => Event::Picked(p),
        Err(e) => Event::Failed(e.message()),
    }
}

fn fuzzel_confirm(exit: FuzzelExit, stdout: &str) -> Event {
    match interpret_confirm(exit, stdout, "fuzzel stderr") {
        Ok(b) => Event::Confirmed(b),
        Err(e) => Event::Failed(e.message()),
    }
}

fn fuzzel_prompt(exit: FuzzelExit, stdout: &str) -> Event {
    match interpret_prompt(exit, stdout, "fuzzel stderr") {
        Ok(t) => Event::Typed(t),
        Err(e) => Event::Failed(e.message()),
    }
}

fn outputs() -> Event {
    let mut inv = empty_inventory();
    inv.outputs = vec![OutputRow { connector: "DP-1".into(), make: "Dell".into(), model: "U2720Q".into() }];
    Event::Fetched(inv)
}

fn arg(first: &str) -> VerbArgs {
    VerbArgs { first: Some(first.into()), second: None, complete: false, focus: None }
}

#[test]
fn missing_socket_exits_69() {
    let o = drive(Capabilities::empty(), Some("switch-activity"), VerbArgs::none(), &mut |_| Event::Printed);
    assert_eq!(exit_code(&o), 69);
    assert!(o.runs.is_empty());
}

#[test]
fn switch_workspace_fuzzel_failure_exits_nonzero() {
    let o = drive(upstream(), Some("switch-workspace"), VerbArgs::none(), &mut |e| match e {
        Effect::Fetch(_) => Event::Fetched(empty_inventory()),
        _ => fuzzel_pick(FuzzelExit::Code(2), ""),
    });
    assert_eq!(exit_code(&o), 1);
    assert!(o.runs.is_empty());
}

#[test]
fn switch_workspace_fuzzel_cancel_exits_zero_no_action() {
    let o = drive(upstream(), Some("switch-workspace"), VerbArgs::none(), &mut |e| match e {
        Effect::Fetch(_) => Event::Fetched(empty_inventory()),
        _ => fuzzel_pick(FuzzelExit::Code(1), ""),
    });
    assert_eq!(exit_code(&o), 0);
    assert!(o.runs.is_empty());
}

#[test]
fn niri_action_failure_propagates_nonzero() {
    let o = drive(upstream(), Some("focus-workspace-previous"), VerbArgs::none(), &mut |_| {
        Event::Failed("niri exited 1: boom".into())
    });
    assert_eq!(exit_code(&o), 1);
    assert_eq!(o.runs, vec![vec!["niri", "msg", "action", "focus-workspace-previous"]]);
}

#[test]
fn list_activities_capability_miss_exits_69() {
    let o = drive(upstream(), Some("list-activities"), VerbArgs::none(), &mut |_| Event::Printed);
    assert_eq!(exit_code(&o), 69);
    assert!(o.runs.is_empty());
}

#[test]
fn list_activities_subprocess_failure_propagates_nonzero() {
    let o = drive(fork(), Some("list-activities"), VerbArgs::none(), &mut |_| {
        Event::Failed("jiji-activities exited 1: no".into())
    });
    assert_eq!(exit_code(&o), 1);
    assert!(o.printed.is_empty());
}

#[test]
fn debug_reports_list_activities_kept_on_fork() {
    assert!(debug_report(fork()).contains("list-activities: kept"));
}

#[test]
fn debug_reports_rename_activity_kept_on_fork() {
    assert!(debug_report(fork()).contains("rename-activity: kept"));
}

#[test]
fn create_activity_fuzzel_failure_propagates_nonzero() {
    let o = drive(fork(), Some("create-activity"), VerbArgs::none(), &mut |_| fuzzel_prompt(FuzzelExit::Code(2), ""));
    assert_eq!(exit_code(&o), 1);
    assert!(o.runs.is_empty());
}

#[test]
fn pick_window_notifier_missing_falls_back_to_stdout() {
    let o = drive(upstream(), Some("pick-window"), VerbArgs::none(), &mut |e| match e {
        Effect::Run(_) => Event::Ran("Firefox - Main window\n".into()),
        Effect::Deliver { .. } => Event::Delivered(false),
        _ => Event::Printed,
    });
    assert_eq!(exit_code(&o), 0);
    assert!(o.printed.contains("Firefox - Main window"));
    assert_eq!(o.delivered[1], vec!["notify-send", "Picked window", "Firefox - Main window"]);
}

#[test]
fn pick_window_picker_failure_exits_nonzero() {
    let o = drive(upstream(), Some("pick-window"), VerbArgs::none(), &mut |_| {
        Event::Failed("niri exited 1: picker cancelled".into())
    });
    assert_eq!(exit_code(&o), 1);
    assert!(o.printed.is_empty() && o.delivered.is_empty());
}

fn color_world(copied: bool, notified: bool) -> impl FnMut(&Effect) -> Event {
    move |e| match e {
        Effect::Run(_) => Event::Ran("#aabbcc\n".into()),
        Effect::Deliver { invocation, .. } if invocation.program == "wl-copy" => Event::Delivered(copied),
        Effect::Deliver { .. } => Event::Delivered(notified),
        _ => Event::Printed,
    }
}

#[test]
fn pick_color_both_soft_deps_missing_falls_back_to_stdout() {
    let o = drive(upstream(), Some("pick-color"), VerbArgs::none(), &mut color_world(false, false));
    assert_eq!(exit_code(&o), 0);
    assert!(o.printed.contains("#aabbcc"));
}

#[test]
fn pick_color_picker_failure_exits_nonzero() {
    let o = drive(upstream(), Some("pick-color"), VerbArgs::none(), &mut |_| Event::Failed("niri exited 1: x".into()));
    assert_ne!(exit_code(&o), 0);
    assert_ne!(exit_code(&o), 69);
}

#[test]
fn pick_color_wl_copy_succeeds_notify_fails_no_stdout() {
    let o = drive(upstream(), Some("pick-color"), VerbArgs::none(), &mut color_world(true, false));
    assert_eq!(exit_code(&o), 0);
    assert!(!o.printed.contains("#aabbcc"));
    assert_eq!(o.delivered, vec![vec!["wl-copy".to_string()], vec!["notify-send".into(), "Picked color".into(), "#aabbcc".into()]]);
}

#[test]
fn pick_color_notify_succeeds_wl_copy_fails_falls_back_to_stdout() {
    let o = drive(upstream(), Some("pick-color"), VerbArgs::none(), &mut color_world(false, true));
    assert_eq!(exit_code(&o), 0);
    assert!(o.printed.contains("#aabbcc"));
}

#[test]
fn quit_confirm_no_or_cancel_no_dispatch_exit_zero() {
    for (exit, out) in [(FuzzelExit::Success, "No\n"), (FuzzelExit::Code(1), "")] {
        let o = drive(upstream(), Some("quit"), VerbArgs::none(), &mut |_| fuzzel_confirm(exit, out));
        assert_eq!(exit_code(&o), 0);
        assert!(o.runs.is_empty());
    }
}

#[test]
fn power_off_monitors_confirm_no_no_dispatch_exit_zero() {
    let o = drive(upstream(), Some("power-off-monitors"), VerbArgs::none(), &mut |_| fuzzel_confirm(FuzzelExit::Success, "No"));
    assert_eq!(exit_code(&o), 0);
    assert!(o.runs.is_empty());
}

#[test]
fn rename_workspace_empty_prompt_no_dispatch_exit_zero() {
    let o = drive(upstream(), Some("rename-workspace"), VerbArgs::none(), &mut |_| fuzzel_prompt(FuzzelExit::Success, "\n"));
    assert_eq!(exit_code(&o), 0);
    assert!(o.runs.is_empty());
}

#[test]
fn quit_confirm_lowercase_yes_no_dispatch_exit_zero() {
    let o = drive(upstream(), Some("quit"), VerbArgs::none(), &mut |_| fuzzel_confirm(FuzzelExit::Success, "yes"));
    assert_eq!(exit_code(&o), 0);
    assert!(o.runs.is_empty());
}

#[test]
fn quit_confirm_fuzzel_failure_propagates_nonzero() {
    let o = drive(upstream(), Some("quit"), VerbArgs::none(), &mut |_| fuzzel_confirm(FuzzelExit::Code(2), ""));
    assert_eq!(exit_code(&o), 1);
    assert!(o.runs.is_empty());
}

#[test]
fn rename_workspace_fuzzel_failure_propagates_nonzero() {
    let o = drive(upstream(), Some("rename-workspace"), VerbArgs::none(), &mut |_| fuzzel_prompt(FuzzelExit::Signal, ""));
    assert_eq!(exit_code(&o), 1);
    assert!(o.runs.is_empty());
}

#[test]
fn focus_monitor_fuzzel_cancel_exits_zero_no_action() {
    let o = drive(upstream(), Some("focus-monitor"), VerbArgs::none(), &mut |e| match e {
        Effect::Fetch(_) => outputs(),
        _ => fuzzel_pick(FuzzelExit::Code(1), ""),
    });
    assert_eq!(exit_code(&o), 0);
    assert!(o.runs.is_empty());
}

#[test]
fn focus_monitor_fuzzel_failure_exits_nonzero() {
    let o = drive(upstream(), Some("focus-monitor"), VerbArgs::none(), &mut |e| match e {
        Effect::Fetch(_) => outputs(),
        _ => fuzzel_pick(FuzzelExit::Code(3), ""),
    });
    assert_eq!(exit_code(&o), 1);
    assert!(o.runs.is_empty());
}

#[test]
fn focus_monitor_picks_through_the_launcher() {
    let o = drive(upstream(), Some("focus-monitor"), VerbArgs::none(), &mut |e| match e {
        Effect::Fetch(_) => outputs(),
        Effect::Pick { .. } => fuzzel_pick(FuzzelExit::Success, "DP-1 (Dell U2720Q)\n"),
        _ => Event::Ran(String::new()),
    });
    assert_eq!(exit_code(&o), 0);
    assert_eq!(o.runs, vec![vec!["niri", "msg", "action", "focus-monitor", "DP-1"]]);
}

fn casts() -> Event {
    let mut inv = empty_inventory();
    inv.casts = vec![CastRow { session_id: 3, pid: Some(77) }];
    Event::Fetched(inv)
}

#[test]
fn stop_cast_empty_casts_bails_before_fuzzel() {
    let mut picked = false;
    let o = drive(upstream(), Some("stop-cast"), VerbArgs::none(), &mut |e| match e {
        Effect::Fetch(_) => Event::Fetched(empty_inventory()),
        _ => {
            picked = true;
            Event::Picked(None)
        },
    });
    assert_eq!(exit_code(&o), 1);
    assert!(!picked);
    match &o.result {
        Err(Failure::Verb(e)) => assert_eq!(e.message(), "no active casts"),
        other => panic!("{other:?}"),
    }
}

#[test]
fn stop_cast_fuzzel_cancel_exits_zero_no_action() {
    let o = drive(upstream(), Some("stop-cast"), VerbArgs::none(), &mut |e| match e {
        Effect::Fetch(_) => casts(),
        _ => fuzzel_pick(FuzzelExit::Code(1), ""),
    });
    assert_eq!(exit_code(&o), 0);
    assert!(o.runs.is_empty());
}

#[test]
fn stop_cast_fuzzel_failure_propagates_nonzero() {
    let o = drive(upstream(), Some("stop-cast"), VerbArgs::none(), &mut |e| match e {
        Effect::Fetch(_) => casts(),
        _ => fuzzel_pick(FuzzelExit::Code(2), ""),
    });
    assert_eq!(exit_code(&o), 1);
    assert!(o.runs.is_empty());
}

fn activities() -> Event {
    let mut inv = empty_inventory();
    inv.activities = vec![
        jiji_do::niri::ActivityRow { id: 1, name: "default".into(), is_active: false, last_active_seq: Some(1) },
        jiji_do::niri::ActivityRow { id: 2, name: "acme".into(), is_active: true, last_active_seq: Some(5) },
    ];
    Event::Fetched(inv)
}

#[test]
fn rename_activity_picker_failure_propagates_nonzero() {
    let o = drive(fork(), Some("rename-activity"), VerbArgs::none(), &mut |e| match e {
        Effect::Fetch(_) => activities(),
        _ => fuzzel_pick(FuzzelExit::Code(2), ""),
    });
    assert_eq!(exit_code(&o), 1);
    assert!(o.runs.is_empty());
}

#[test]
fn rename_activity_delegate_failure_propagates_nonzero() {
    let o = drive(fork(), Some("rename-activity"), VerbArgs::none(), &mut |e| match e {
        Effect::Fetch(_) => activities(),
        Effect::Pick { .. } => fuzzel_pick(FuzzelExit::Success, "acme\n"),
        Effect::Prompt(_) => fuzzel_prompt(FuzzelExit::Success, "job\n"),
        _ => Event::Failed("jiji-activities exited 1: taken".into()),
    });
    assert_eq!(exit_code(&o), 1);
    assert_eq!(o.runs, vec![vec!["jiji-activities", "rename", "job", "--activity", "acme"]]);
}

#[test]
fn menu_path_dispatches_the_picked_verb_without_arguments() {
    let o = drive(fork(), None, VerbArgs::none(), &mut |e| match e {
        Effect::Pick { prompt, .. } if prompt == "jiji-do " => fuzzel_pick(FuzzelExit::Success, "Save activity\n"),
        _ => Event::Ran(String::new()),
    });
    assert_eq!(exit_code(&o), 0);
    assert_eq!(o.runs, vec![vec!["jiji-activities", "save", "acme"]]);
}

#[test]
fn direct_path_passes_trimmed_arguments() {
    let o = drive(fork(), Some("move-window-to-activity"), arg("  work "), &mut |_| Event::Ran(String::new()));
    assert_eq!(exit_code(&o), 0);
    assert_eq!(o.runs, vec![vec!["jiji-activities", "move-window", "work", "--window=11"]]);
}

#[test]
fn no_verb_asks_for_a_second_snapshot() {
    let snapshot = match captured() {
        Event::Captured(s) => s,
        _ => unreachable!(),
    };
    for v in jiji_do::registry::registry() {
        for given in [VerbArgs::none(), arg("web")] {
            let mut answers = vec![];
            let mut finished = false;
            for _ in 0..32 {
                match jiji_do::verbs::run(v.id, &snapshot, &given, &answers) {
                    Step::Perform(e) => {
                        let ev = match e {
                            Effect::Capture(_) => panic!("{} asked for a second snapshot", v.name),
                            Effect::Fetch(_) => outputs(),
                            Effect::Run(_) => Event::Ran(String::new()),
                            Effect::Pick { items, .. } => Event::Picked(items.first().cloned()),
                            Effect::Prompt(_) => Event::Typed(Some("name".into())),
                            Effect::Confirm(_) => Event::Confirmed(true),
                            Effect::Deliver { .. } => Event::Delivered(true),
                            Effect::Print(_) => Event::Printed,
                        };
                        answers.push(ev);
                    },
                    Step::Finish(_) => {
                        finished = true;
                        break;
                    },
                }
            }
            assert!(finished, "{} did not finish", v.name);
        }
    }
}
