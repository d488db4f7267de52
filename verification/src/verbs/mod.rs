//! The launcher verbs. Each verb is a decision procedure: from the launch
//! snapshot, its arguments and the answers received so far, it names the
//! next outside effect or finishes (see [`crate::protocol`]).

pub mod focus_workspace_previous;
pub mod toggle_debug_tint;
pub mod reload_config;
pub mod power_on_monitors;
pub mod unset_workspace_name;
pub mod add_workspace_up;
pub mod add_workspace_down;
pub mod move_window_to_new_workspace_up;
pub mod move_window_to_new_workspace_down;
pub mod switch_activity_previous;
pub mod switch_activity;
pub mod move_window_to_activity;
pub mod move_window_here;
pub mod move_workspace_to_activity;
pub mod assign_workspace;
pub mod save_activity;
pub mod create_activity;
pub mod focus_monitor;
pub mod move_column_to_monitor;
pub mod move_window_to_monitor;
pub mod move_workspace_to_monitor;
pub mod rename_workspace;
pub mod quit;
pub mod power_off_monitors;
pub mod list_activities;
pub mod pick_window;
pub mod pick_color;
pub mod bookmark;
pub mod bookmark_assign_key;
pub mod stop_cast;
pub mod bookmark_unassign_key;
pub mod bookmark_remove;
pub mod bookmark_move;
pub mod switch_workspace;
pub mod remove_activity;
pub mod rename_activity;
pub mod switch_workspace_all;
pub mod list_workspaces;

use vstd::prelude::*;
use crate::error::{VerbError, VerbErrorView};
use crate::invocation::{Invocation, InvocationView, activities_call, jiji_activities, owned, push_arg, texts};
use crate::menu::{first_match, label_list, labels_of, resolve_by_label};
use crate::niri::{Query, action_call, action_with, output_choices, output_label, sorted_outputs};
use crate::protocol::{
    EffectView, Event, Inventory, Step, StepView, after_fetch, after_pick, after_run, ask_fetch, ask_pick, ask_run,
    done, fail, finish, opt_text,
};
use crate::registry::{VerbArgs, VerbId};
use crate::snapshot::Snapshot;
use crate::text::{decimal, push_decimal, trim, trim_str};

verus! {

/// A positional argument as the verbs use it: trimmed, and absent when
/// empty or blank (a blank argument routes to the picker or prompt rather
/// than dispatching an empty name).
pub open spec fn supplied(o: Option<String>) -> Option<Seq<char>> {
    match o {
        Some(s) => if trim(s@).len() > 0 {
            Some(trim(s@))
        } else {
            None
        },
        None => None,
    }
}

/// A positional argument, trimmed; `None` when absent or blank.
pub fn normalized(o: &Option<String>) -> (r: Option<String>)
    ensures
        opt_text(r) == supplied(*o),
{
    match o {
        Some(s) => {
            let t = trim_str(s.as_str());
            if t.unicode_len() > 0 {
                Some(t)
            } else {
                None
            }
        },
        None => None,
    }
}

/// The argument, when there is one, as an argument list.
pub open spec fn opt_arg(o: Option<Seq<char>>) -> Seq<Seq<char>> {
    match o {
        Some(x) => seq![x],
        None => seq![],
    }
}

/// A verb that runs one invocation and is done.
pub open spec fn once(a: Seq<Event>, c: InvocationView) -> StepView {
    after_run(a, 0, c, done())
}

/// Runs `c` once.
pub fn run_once(a: &Vec<Event>, c: Invocation) -> (s: Step)
    ensures
        s@ == once(a@, c@),
{
    match crate::protocol::ask_run(a, 0, c) {
        Some(s) => s,
        None => Step::Finish(Ok(())),
    }
}

/// `<flag>=<id>`, the form `jiji-activities` takes ids in.
pub open spec fn id_flag(flag: Seq<char>, id: u64) -> Seq<char> {
    flag + "="@ + decimal(id as nat)
}

/// `<flag>=<id>`.
pub fn flag_with_id(flag: &str, id: u64) -> (s: String)
    ensures
        s@ == id_flag(flag@, id),
{
    let mut s = owned(flag);
    s.append("=");
    push_decimal(&mut s, id);
    assert(s@ =~= id_flag(flag@, id));
    s
}

/// `jiji-activities <sub> [<name>] [<flag>]`, the shape of every
/// passthrough.
pub fn activities_with(sub: &str, name: Option<String>, flag: Option<String>) -> (c: Invocation)
    ensures
        c@ == activities_call(seq![sub@] + opt_arg(opt_text(name)) + opt_arg(opt_text(flag))),
{
    let mut v: Vec<String> = Vec::new();
    push_arg(&mut v, owned(sub));
    let ghost v1 = texts(v@);
    match name {
        Some(n) => push_arg(&mut v, n),
        None => {},
    }
    let ghost v2 = texts(v@);
    assert(v2 =~= seq![sub@] + opt_arg(opt_text(name)));
    match flag {
        Some(f) => push_arg(&mut v, f),
        None => {},
    }
    assert(texts(v@) =~= seq![sub@] + opt_arg(opt_text(name)) + opt_arg(opt_text(flag)));
    jiji_activities(v)
}

/// Up to three queries, in order.
pub fn queries(first: Query, second: Option<Query>, third: Option<Query>) -> (q: Vec<Query>)
    ensures
        q@ == seq![first] + (match second {
            Some(x) => seq![x],
            None => seq![],
        }) + (match third {
            Some(x) => seq![x],
            None => seq![],
        }),
{
    let mut q: Vec<Query> = Vec::new();
    q.push(first);
    match second {
        Some(x) => q.push(x),
        None => {},
    }
    match third {
        Some(x) => q.push(x),
        None => {},
    }
    assert(q@ =~= seq![first] + (match second {
        Some(x) => seq![x],
        None => seq![],
    }) + (match third {
        Some(x) => seq![x],
        None => seq![],
    }));
    q
}

/// The monitor pickers: read the outputs, stop when there are none, offer
/// them sorted by connector, and run `<verb> <connector>` for the picked
/// one.
pub open spec fn monitor_flow(a: Seq<Event>, prompt: Seq<char>, verb: Seq<char>) -> StepView {
    after_fetch(
        a,
        0,
        seq![Query::Outputs],
        |inv: Inventory|
            {
                let outs = sorted_outputs(inv.outputs@);
                let labels = Seq::new(outs.len(), |i: int| output_label(outs[i]));
                if outs.len() == 0 {
                    fail(VerbErrorView::NoOutputs)
                } else {
                    after_pick(
                        a,
                        1,
                        prompt,
                        labels,
                        |l: Seq<char>|
                            match first_match(labels, l) {
                                None => fail(VerbErrorView::UnknownLabel(l)),
                                Some(i) => after_run(
                                    a,
                                    2,
                                    action_call(seq![verb, outs[i].connector@]),
                                    done(),
                                ),
                            },
                    )
                }
            },
    )
}

/// A monitor picker's next step.
pub fn monitor_step(a: &Vec<Event>, prompt: String, verb: &str) -> (s: Step)
    ensures
        s@ == monitor_flow(a@, prompt@, verb@),
{
    let inv = match ask_fetch(a, 0, queries(Query::Outputs, None, None)) {
        Ok(inv) => inv,
        Err(s) => return s,
    };
    let choices = output_choices(&inv.outputs);
    let ghost outs = sorted_outputs(inv.outputs@);
    let ghost labels = Seq::new(outs.len(), |i: int| output_label(outs[i]));
    if choices.len() == 0 {
        return finish(Err(VerbError::NoOutputs));
    }
    let items = label_list(&choices);
    assert forall|i: int| 0 <= i < choices@.len() implies labels_of(choices@)[i] == labels[i] by {
        assert(choices@[i].shows(outs[i]));
    }
    assert(labels_of(choices@) =~= labels);
    let l = match ask_pick(a, 1, prompt, items) {
        Ok(l) => l,
        Err(s) => return s,
    };
    let c = match resolve_by_label(&choices, l.as_str()) {
        Ok(c) => c,
        Err(e) => return finish(Err(e)),
    };
    proof {
        crate::menu::lemma_first_match(labels, l@);
    }
    let ghost k = first_match(labels, l@)->0;
    assert(c.shows(outs[k]));
    let run = action_with(verb, c.connector.as_str());
    assert(run@ == action_call(seq![verb@, outs[k].connector@]));
    assert(monitor_flow(a@, prompt@, verb@) == after_run(a@, 2, run@, done()));
    match ask_run(a, 2, run) {
        Some(s) => s,
        None => finish(Ok(())),
    }
}

/// ` <idx>` and ` "<name>"` for whichever of the focused workspace's index
/// and name the snapshot holds.
pub open spec fn workspace_context(idx: Option<u64>, name: Option<String>) -> Seq<char> {
    (match idx {
        Some(i) => " "@ + decimal(i as nat),
        None => seq![],
    }) + (match name {
        Some(n) => " \""@ + n@ + "\""@,
        None => seq![],
    })
}

/// Appends the workspace context.
pub fn push_workspace_context(s: &mut String, idx: Option<u64>, name: &Option<String>)
    ensures
        final(s)@ == old(s)@ + workspace_context(idx, *name),
{
    match idx {
        Some(i) => {
            s.append(" ");
            push_decimal(s, i);
        },
        None => {},
    }
    let ghost mid = s@;
    match name {
        Some(n) => {
            s.append(" \"");
            s.append(n.as_str());
            s.append("\"");
        },
        None => {},
    }
    assert(s@ =~= old(s)@ + workspace_context(idx, *name));
}

/// `wl-copy`, fed the text to copy on stdin.
pub open spec fn clipboard_call() -> InvocationView {
    InvocationView { program: "wl-copy"@, args: seq![] }
}

/// `notify-send <title> <body>`.
pub open spec fn notification_call(title: Seq<char>, body: Seq<char>) -> InvocationView {
    InvocationView { program: "notify-send"@, args: seq![title, body] }
}

/// The clipboard writer.
pub fn clipboard() -> (c: Invocation)
    ensures
        c@ == clipboard_call(),
{
    let args: Vec<String> = Vec::new();
    assert(texts(args@) =~= seq![]);
    Invocation { program: owned("wl-copy"), args }
}

/// A desktop notification.
pub fn notification(title: &str, body: &str) -> (c: Invocation)
    ensures
        c@ == notification_call(title@, body@),
{
    let mut args: Vec<String> = Vec::new();
    push_arg(&mut args, owned(title));
    push_arg(&mut args, owned(body));
    assert(texts(args@) =~= seq![title@, body@]);
    Invocation { program: owned("notify-send"), args }
}

/// What verb `id` does, given the answers so far.
pub open spec fn behaviour(id: VerbId, snapshot: Snapshot, args: VerbArgs, a: Seq<Event>) -> StepView {
    match id {
        VerbId::SwitchWorkspace => switch_workspace::behaviour(snapshot, args, a),
        VerbId::SwitchWorkspaceAll => switch_workspace_all::behaviour(snapshot, args, a),
        VerbId::FocusWorkspacePrevious => focus_workspace_previous::behaviour(snapshot, args, a),
        VerbId::ToggleDebugTint => toggle_debug_tint::behaviour(snapshot, args, a),
        VerbId::SwitchActivity => switch_activity::behaviour(snapshot, args, a),
        VerbId::SwitchActivityPrevious => switch_activity_previous::behaviour(snapshot, args, a),
        VerbId::MoveWindowToActivity => move_window_to_activity::behaviour(snapshot, args, a),
        VerbId::MoveWindowHere => move_window_here::behaviour(snapshot, args, a),
        VerbId::MoveWorkspaceToActivity => move_workspace_to_activity::behaviour(snapshot, args, a),
        VerbId::AssignWorkspace => assign_workspace::behaviour(snapshot, args, a),
        VerbId::SaveActivity => save_activity::behaviour(snapshot, args, a),
        VerbId::ListActivities => list_activities::behaviour(snapshot, args, a),
        VerbId::CreateActivity => create_activity::behaviour(snapshot, args, a),
        VerbId::RemoveActivity => remove_activity::behaviour(snapshot, args, a),
        VerbId::RenameActivity => rename_activity::behaviour(snapshot, args, a),
        VerbId::ReloadConfig => reload_config::behaviour(snapshot, args, a),
        VerbId::PowerOnMonitors => power_on_monitors::behaviour(snapshot, args, a),
        VerbId::UnsetWorkspaceName => unset_workspace_name::behaviour(snapshot, args, a),
        VerbId::RenameWorkspace => rename_workspace::behaviour(snapshot, args, a),
        VerbId::ListWorkspaces => list_workspaces::behaviour(snapshot, args, a),
        VerbId::PickWindow => pick_window::behaviour(snapshot, args, a),
        VerbId::Bookmark => bookmark::behaviour(snapshot, args, a),
        VerbId::BookmarkRemove => bookmark_remove::behaviour(snapshot, args, a),
        VerbId::BookmarkMove => bookmark_move::behaviour(snapshot, args, a),
        VerbId::BookmarkAssignKey => bookmark_assign_key::behaviour(snapshot, args, a),
        VerbId::BookmarkUnassignKey => bookmark_unassign_key::behaviour(snapshot, args, a),
        VerbId::FocusMonitor => focus_monitor::behaviour(snapshot, args, a),
        VerbId::MoveWindowToMonitor => move_window_to_monitor::behaviour(snapshot, args, a),
        VerbId::MoveColumnToMonitor => move_column_to_monitor::behaviour(snapshot, args, a),
        VerbId::MoveWorkspaceToMonitor => move_workspace_to_monitor::behaviour(snapshot, args, a),
        VerbId::PickColor => pick_color::behaviour(snapshot, args, a),
        VerbId::Quit => quit::behaviour(snapshot, args, a),
        VerbId::PowerOffMonitors => power_off_monitors::behaviour(snapshot, args, a),
        VerbId::StopCast => stop_cast::behaviour(snapshot, args, a),
        VerbId::AddWorkspaceUp => add_workspace_up::behaviour(snapshot, args, a),
        VerbId::AddWorkspaceDown => add_workspace_down::behaviour(snapshot, args, a),
        VerbId::MoveWindowToNewWorkspaceUp => move_window_to_new_workspace_up::behaviour(snapshot, args, a),
        VerbId::MoveWindowToNewWorkspaceDown => move_window_to_new_workspace_down::behaviour(snapshot, args, a),
    }
}

/// The next step of verb `id`.
pub fn run(id: VerbId, snapshot: &Snapshot, args: &VerbArgs, answers: &Vec<Event>) -> (s: Step)
    ensures
        s@ == behaviour(id, *snapshot, *args, answers@),
{
    match id {
        VerbId::SwitchWorkspace => switch_workspace::run(snapshot, args, answers),
        VerbId::SwitchWorkspaceAll => switch_workspace_all::run(snapshot, args, answers),
        VerbId::FocusWorkspacePrevious => focus_workspace_previous::run(snapshot, args, answers),
        VerbId::ToggleDebugTint => toggle_debug_tint::run(snapshot, args, answers),
        VerbId::SwitchActivity => switch_activity::run(snapshot, args, answers),
        VerbId::SwitchActivityPrevious => switch_activity_previous::run(snapshot, args, answers),
        VerbId::MoveWindowToActivity => move_window_to_activity::run(snapshot, args, answers),
        VerbId::MoveWindowHere => move_window_here::run(snapshot, args, answers),
        VerbId::MoveWorkspaceToActivity => move_workspace_to_activity::run(snapshot, args, answers),
        VerbId::AssignWorkspace => assign_workspace::run(snapshot, args, answers),
        VerbId::SaveActivity => save_activity::run(snapshot, args, answers),
        VerbId::ListActivities => list_activities::run(snapshot, args, answers),
        VerbId::CreateActivity => create_activity::run(snapshot, args, answers),
        VerbId::RemoveActivity => remove_activity::run(snapshot, args, answers),
        VerbId::RenameActivity => rename_activity::run(snapshot, args, answers),
        VerbId::ReloadConfig => reload_config::run(snapshot, args, answers),
        VerbId::PowerOnMonitors => power_on_monitors::run(snapshot, args, answers),
        VerbId::UnsetWorkspaceName => unset_workspace_name::run(snapshot, args, answers),
        VerbId::RenameWorkspace => rename_workspace::run(snapshot, args, answers),
        VerbId::ListWorkspaces => list_workspaces::run(snapshot, args, answers),
        VerbId::PickWindow => pick_window::run(snapshot, args, answers),
        VerbId::Bookmark => bookmark::run(snapshot, args, answers),
        VerbId::BookmarkRemove => bookmark_remove::run(snapshot, args, answers),
        VerbId::BookmarkMove => bookmark_move::run(snapshot, args, answers),
        VerbId::BookmarkAssignKey => bookmark_assign_key::run(snapshot, args, answers),
        VerbId::BookmarkUnassignKey => bookmark_unassign_key::run(snapshot, args, answers),
        VerbId::FocusMonitor => focus_monitor::run(snapshot, args, answers),
        VerbId::MoveWindowToMonitor => move_window_to_monitor::run(snapshot, args, answers),
        VerbId::MoveColumnToMonitor => move_column_to_monitor::run(snapshot, args, answers),
        VerbId::MoveWorkspaceToMonitor => move_workspace_to_monitor::run(snapshot, args, answers),
        VerbId::PickColor => pick_color::run(snapshot, args, answers),
        VerbId::Quit => quit::run(snapshot, args, answers),
        VerbId::PowerOffMonitors => power_off_monitors::run(snapshot, args, answers),
        VerbId::StopCast => stop_cast::run(snapshot, args, answers),
        VerbId::AddWorkspaceUp => add_workspace_up::run(snapshot, args, answers),
        VerbId::AddWorkspaceDown => add_workspace_down::run(snapshot, args, answers),
        VerbId::MoveWindowToNewWorkspaceUp => move_window_to_new_workspace_up::run(snapshot, args, answers),
        VerbId::MoveWindowToNewWorkspaceDown => move_window_to_new_workspace_down::run(snapshot, args, answers),
    }
}

/// Cancelling any picker ends the verb successfully, with nothing further
/// asked or run.
pub proof fn law_cancelled_pick_completes(id: VerbId, snapshot: Snapshot, args: VerbArgs, p: Seq<Event>)
    requires
        behaviour(id, snapshot, args, p) matches StepView::Perform(EffectView::Pick(_, _)),
    ensures
        behaviour(id, snapshot, args, p.push(Event::Picked(None))) == done(),
{
    match id {
        VerbId::SwitchWorkspace => {},
        VerbId::SwitchWorkspaceAll => {},
        VerbId::FocusWorkspacePrevious => {},
        VerbId::ToggleDebugTint => {},
        VerbId::SwitchActivity => {},
        VerbId::SwitchActivityPrevious => {},
        VerbId::MoveWindowToActivity => {},
        VerbId::MoveWindowHere => {},
        VerbId::MoveWorkspaceToActivity => {},
        VerbId::AssignWorkspace => {},
        VerbId::SaveActivity => {},
        VerbId::ListActivities => {},
        VerbId::CreateActivity => {},
        VerbId::RemoveActivity => {},
        VerbId::RenameActivity => {},
        VerbId::ReloadConfig => {},
        VerbId::PowerOnMonitors => {},
        VerbId::UnsetWorkspaceName => {},
        VerbId::RenameWorkspace => {},
        VerbId::ListWorkspaces => {},
        VerbId::PickWindow => {},
        VerbId::Bookmark => {},
        VerbId::BookmarkRemove => {},
        VerbId::BookmarkMove => {},
        VerbId::BookmarkAssignKey => {},
        VerbId::BookmarkUnassignKey => {},
        VerbId::FocusMonitor => {},
        VerbId::MoveWindowToMonitor => {},
        VerbId::MoveColumnToMonitor => {},
        VerbId::MoveWorkspaceToMonitor => {},
        VerbId::PickColor => {},
        VerbId::Quit => {},
        VerbId::PowerOffMonitors => {},
        VerbId::StopCast => {},
        VerbId::AddWorkspaceUp => {},
        VerbId::AddWorkspaceDown => {},
        VerbId::MoveWindowToNewWorkspaceUp => {},
        VerbId::MoveWindowToNewWorkspaceDown => {},
    }
}

/// Cancelling a free-text prompt, or leaving it blank, ends the verb
/// successfully with nothing further asked or run.
pub proof fn law_cancelled_prompt_completes(id: VerbId, snapshot: Snapshot, args: VerbArgs, p: Seq<Event>)
    requires
        behaviour(id, snapshot, args, p) matches StepView::Perform(EffectView::Prompt(_)),
    ensures
        behaviour(id, snapshot, args, p.push(Event::Typed(None))) == done(),
{
    match id {
        VerbId::SwitchWorkspace => {},
        VerbId::SwitchWorkspaceAll => {},
        VerbId::FocusWorkspacePrevious => {},
        VerbId::ToggleDebugTint => {},
        VerbId::SwitchActivity => {},
        VerbId::SwitchActivityPrevious => {},
        VerbId::MoveWindowToActivity => {},
        VerbId::MoveWindowHere => {},
        VerbId::MoveWorkspaceToActivity => {},
        VerbId::AssignWorkspace => {},
        VerbId::SaveActivity => {},
        VerbId::ListActivities => {},
        VerbId::CreateActivity => {},
        VerbId::RemoveActivity => {},
        VerbId::RenameActivity => {},
        VerbId::ReloadConfig => {},
        VerbId::PowerOnMonitors => {},
        VerbId::UnsetWorkspaceName => {},
        VerbId::RenameWorkspace => {},
        VerbId::ListWorkspaces => {},
        VerbId::PickWindow => {},
        VerbId::Bookmark => {},
        VerbId::BookmarkRemove => {},
        VerbId::BookmarkMove => {},
        VerbId::BookmarkAssignKey => {},
        VerbId::BookmarkUnassignKey => {},
        VerbId::FocusMonitor => {},
        VerbId::MoveWindowToMonitor => {},
        VerbId::MoveColumnToMonitor => {},
        VerbId::MoveWorkspaceToMonitor => {},
        VerbId::PickColor => {},
        VerbId::Quit => {},
        VerbId::PowerOffMonitors => {},
        VerbId::StopCast => {},
        VerbId::AddWorkspaceUp => {},
        VerbId::AddWorkspaceDown => {},
        VerbId::MoveWindowToNewWorkspaceUp => {},
        VerbId::MoveWindowToNewWorkspaceDown => {},
    }
}

/// Declining a confirmation ends the verb successfully with nothing further
/// asked or run.
pub proof fn law_declined_confirmation_completes(id: VerbId, snapshot: Snapshot, args: VerbArgs, p: Seq<Event>)
    requires
        behaviour(id, snapshot, args, p) matches StepView::Perform(EffectView::Confirm(_)),
    ensures
        behaviour(id, snapshot, args, p.push(Event::Confirmed(false))) == done(),
{
    match id {
        VerbId::SwitchWorkspace => {},
        VerbId::SwitchWorkspaceAll => {},
        VerbId::FocusWorkspacePrevious => {},
        VerbId::ToggleDebugTint => {},
        VerbId::SwitchActivity => {},
        VerbId::SwitchActivityPrevious => {},
        VerbId::MoveWindowToActivity => {},
        VerbId::MoveWindowHere => {},
        VerbId::MoveWorkspaceToActivity => {},
        VerbId::AssignWorkspace => {},
        VerbId::SaveActivity => {},
        VerbId::ListActivities => {},
        VerbId::CreateActivity => {},
        VerbId::RemoveActivity => {},
        VerbId::RenameActivity => {},
        VerbId::ReloadConfig => {},
        VerbId::PowerOnMonitors => {},
        VerbId::UnsetWorkspaceName => {},
        VerbId::RenameWorkspace => {},
        VerbId::ListWorkspaces => {},
        VerbId::PickWindow => {},
        VerbId::Bookmark => {},
        VerbId::BookmarkRemove => {},
        VerbId::BookmarkMove => {},
        VerbId::BookmarkAssignKey => {},
        VerbId::BookmarkUnassignKey => {},
        VerbId::FocusMonitor => {},
        VerbId::MoveWindowToMonitor => {},
        VerbId::MoveColumnToMonitor => {},
        VerbId::MoveWorkspaceToMonitor => {},
        VerbId::PickColor => {},
        VerbId::Quit => {},
        VerbId::PowerOffMonitors => {},
        VerbId::StopCast => {},
        VerbId::AddWorkspaceUp => {},
        VerbId::AddWorkspaceDown => {},
        VerbId::MoveWindowToNewWorkspaceUp => {},
        VerbId::MoveWindowToNewWorkspaceDown => {},
    }
}

/// When outside work fails, the verb ends with that failure.
pub proof fn law_failure_ends_verb(id: VerbId, snapshot: Snapshot, args: VerbArgs, p: Seq<Event>, m: String)
    requires
        behaviour(id, snapshot, args, p) is Perform,
    ensures
        behaviour(id, snapshot, args, p.push(Event::Failed(m))) == fail(VerbErrorView::Failed(m@)),
{
    match id {
        VerbId::SwitchWorkspace => {},
        VerbId::SwitchWorkspaceAll => {},
        VerbId::FocusWorkspacePrevious => {},
        VerbId::ToggleDebugTint => {},
        VerbId::SwitchActivity => {},
        VerbId::SwitchActivityPrevious => {},
        VerbId::MoveWindowToActivity => {},
        VerbId::MoveWindowHere => {},
        VerbId::MoveWorkspaceToActivity => {},
        VerbId::AssignWorkspace => {},
        VerbId::SaveActivity => {},
        VerbId::ListActivities => {},
        VerbId::CreateActivity => {},
        VerbId::RemoveActivity => {},
        VerbId::RenameActivity => {},
        VerbId::ReloadConfig => {},
        VerbId::PowerOnMonitors => {},
        VerbId::UnsetWorkspaceName => {},
        VerbId::RenameWorkspace => {},
        VerbId::ListWorkspaces => {},
        VerbId::PickWindow => {},
        VerbId::Bookmark => {},
        VerbId::BookmarkRemove => {},
        VerbId::BookmarkMove => {},
        VerbId::BookmarkAssignKey => {},
        VerbId::BookmarkUnassignKey => {},
        VerbId::FocusMonitor => {},
        VerbId::MoveWindowToMonitor => {},
        VerbId::MoveColumnToMonitor => {},
        VerbId::MoveWorkspaceToMonitor => {},
        VerbId::PickColor => {},
        VerbId::Quit => {},
        VerbId::PowerOffMonitors => {},
        VerbId::StopCast => {},
        VerbId::AddWorkspaceUp => {},
        VerbId::AddWorkspaceDown => {},
        VerbId::MoveWindowToNewWorkspaceUp => {},
        VerbId::MoveWindowToNewWorkspaceDown => {},
    }
}

/// Once a verb has finished, further answers change nothing.
pub proof fn law_finished_stays_finished(id: VerbId, snapshot: Snapshot, args: VerbArgs, p: Seq<Event>, e: Event)
    requires
        behaviour(id, snapshot, args, p) is Finish,
    ensures
        behaviour(id, snapshot, args, p.push(e)) == behaviour(id, snapshot, args, p),
{
    match id {
        VerbId::SwitchWorkspace => {},
        VerbId::SwitchWorkspaceAll => {},
        VerbId::FocusWorkspacePrevious => {},
        VerbId::ToggleDebugTint => {},
        VerbId::SwitchActivity => {},
        VerbId::SwitchActivityPrevious => {},
        VerbId::MoveWindowToActivity => {},
        VerbId::MoveWindowHere => {},
        VerbId::MoveWorkspaceToActivity => {},
        VerbId::AssignWorkspace => {},
        VerbId::SaveActivity => {},
        VerbId::ListActivities => {},
        VerbId::CreateActivity => {},
        VerbId::RemoveActivity => {},
        VerbId::RenameActivity => {},
        VerbId::ReloadConfig => {},
        VerbId::PowerOnMonitors => {},
        VerbId::UnsetWorkspaceName => {},
        VerbId::RenameWorkspace => {},
        VerbId::ListWorkspaces => {},
        VerbId::PickWindow => {},
        VerbId::Bookmark => {},
        VerbId::BookmarkRemove => {},
        VerbId::BookmarkMove => {},
        VerbId::BookmarkAssignKey => {},
        VerbId::BookmarkUnassignKey => {},
        VerbId::FocusMonitor => {},
        VerbId::MoveWindowToMonitor => {},
        VerbId::MoveColumnToMonitor => {},
        VerbId::MoveWorkspaceToMonitor => {},
        VerbId::PickColor => {},
        VerbId::Quit => {},
        VerbId::PowerOffMonitors => {},
        VerbId::StopCast => {},
        VerbId::AddWorkspaceUp => {},
        VerbId::AddWorkspaceDown => {},
        VerbId::MoveWindowToNewWorkspaceUp => {},
        VerbId::MoveWindowToNewWorkspaceDown => {},
    }
}

/// A best-effort delivery (clipboard, notification) never fails the verb,
/// whether or not it succeeded.
pub proof fn law_soft_dependency_never_fails(id: VerbId, snapshot: Snapshot, args: VerbArgs, p: Seq<Event>, ok: bool)
    requires
        behaviour(id, snapshot, args, p) matches StepView::Perform(EffectView::Deliver(_, _)),
    ensures
        !(behaviour(id, snapshot, args, p.push(Event::Delivered(ok))) matches StepView::Finish(Err(_))),
{
    match id {
        VerbId::SwitchWorkspace => {},
        VerbId::SwitchWorkspaceAll => {},
        VerbId::FocusWorkspacePrevious => {},
        VerbId::ToggleDebugTint => {},
        VerbId::SwitchActivity => {},
        VerbId::SwitchActivityPrevious => {},
        VerbId::MoveWindowToActivity => {},
        VerbId::MoveWindowHere => {},
        VerbId::MoveWorkspaceToActivity => {},
        VerbId::AssignWorkspace => {},
        VerbId::SaveActivity => {},
        VerbId::ListActivities => {},
        VerbId::CreateActivity => {},
        VerbId::RemoveActivity => {},
        VerbId::RenameActivity => {},
        VerbId::ReloadConfig => {},
        VerbId::PowerOnMonitors => {},
        VerbId::UnsetWorkspaceName => {},
        VerbId::RenameWorkspace => {},
        VerbId::ListWorkspaces => {},
        VerbId::PickWindow => {},
        VerbId::Bookmark => {},
        VerbId::BookmarkRemove => {},
        VerbId::BookmarkMove => {},
        VerbId::BookmarkAssignKey => {},
        VerbId::BookmarkUnassignKey => {},
        VerbId::FocusMonitor => {},
        VerbId::MoveWindowToMonitor => {},
        VerbId::MoveColumnToMonitor => {},
        VerbId::MoveWorkspaceToMonitor => {},
        VerbId::PickColor => {},
        VerbId::Quit => {},
        VerbId::PowerOffMonitors => {},
        VerbId::StopCast => {},
        VerbId::AddWorkspaceUp => {},
        VerbId::AddWorkspaceDown => {},
        VerbId::MoveWindowToNewWorkspaceUp => {},
        VerbId::MoveWindowToNewWorkspaceDown => {},
    }
}

/// A verb works from the snapshot it was given: whatever it has been told so
/// far, it never asks for the snapshot to be captured again, so a picker that
/// took the focus cannot change the ids it acts on.
pub proof fn law_snapshot_read_once(id: VerbId, snapshot: Snapshot, args: VerbArgs, p: Seq<Event>)
    ensures
        !(behaviour(id, snapshot, args, p) matches StepView::Perform(EffectView::Capture(_))),
{
    match id {
        VerbId::SwitchWorkspace => {},
        VerbId::SwitchWorkspaceAll => {},
        VerbId::FocusWorkspacePrevious => {},
        VerbId::ToggleDebugTint => {},
        VerbId::SwitchActivity => {},
        VerbId::SwitchActivityPrevious => {},
        VerbId::MoveWindowToActivity => {},
        VerbId::MoveWindowHere => {},
        VerbId::MoveWorkspaceToActivity => {},
        VerbId::AssignWorkspace => {},
        VerbId::SaveActivity => {},
        VerbId::ListActivities => {},
        VerbId::CreateActivity => {},
        VerbId::RemoveActivity => {},
        VerbId::RenameActivity => {},
        VerbId::ReloadConfig => {},
        VerbId::PowerOnMonitors => {},
        VerbId::UnsetWorkspaceName => {},
        VerbId::RenameWorkspace => {},
        VerbId::ListWorkspaces => {},
        VerbId::PickWindow => {},
        VerbId::Bookmark => {},
        VerbId::BookmarkRemove => {},
        VerbId::BookmarkMove => {},
        VerbId::BookmarkAssignKey => {},
        VerbId::BookmarkUnassignKey => {},
        VerbId::FocusMonitor => {},
        VerbId::MoveWindowToMonitor => {},
        VerbId::MoveColumnToMonitor => {},
        VerbId::MoveWorkspaceToMonitor => {},
        VerbId::PickColor => {},
        VerbId::Quit => {},
        VerbId::PowerOffMonitors => {},
        VerbId::StopCast => {},
        VerbId::AddWorkspaceUp => {},
        VerbId::AddWorkspaceDown => {},
        VerbId::MoveWindowToNewWorkspaceUp => {},
        VerbId::MoveWindowToNewWorkspaceDown => {},
    }
}

/// A monitor picker acts on the monitor that was picked: after the outputs
/// are read and a label offered for one of them is picked, it runs
/// `<verb> <connector>` with the connector of an output shown under that
/// label, and so the picked output's own connector whenever outputs sharing
/// its label share its connector.
pub proof fn law_monitor_pick_acts_on_picked_output(
    inv: Inventory,
    prompt: Seq<char>,
    verb: Seq<char>,
    l: String,
    j: int,
)
    requires
        0 <= j < inv.outputs@.len(),
        output_label(inv.outputs@[j]) == l@,
    ensures
        exists|k: int|
            #![trigger inv.outputs@[k]]
            0 <= k < inv.outputs@.len() && output_label(inv.outputs@[k]) == l@
                && monitor_flow(seq![Event::Fetched(inv), Event::Picked(Some(l))], prompt, verb)
                == StepView::Perform(EffectView::Run(action_call(seq![verb, inv.outputs@[k].connector@]))),
        (forall|k: int|
            0 <= k < inv.outputs@.len() && output_label(#[trigger] inv.outputs@[k]) == l@
                ==> inv.outputs@[k].connector@ == inv.outputs@[j].connector@)
            ==> monitor_flow(seq![Event::Fetched(inv), Event::Picked(Some(l))], prompt, verb)
            == StepView::Perform(EffectView::Run(action_call(seq![verb, inv.outputs@[j].connector@]))),
{
    let rows = inv.outputs@;
    let keys = crate::niri::connector_keys(rows);
    assert(inv.outputs.len() == rows.len());
    crate::order::lemma_sorted_order_sorts(keys);
    let p = crate::order::sorted_order(keys);
    let outs = sorted_outputs(rows);
    assert(outs == crate::order::permute(rows, p));
    let labels = Seq::new(outs.len(), |i: int| output_label(outs[i]));
    assert(p.contains(j as usize));
    let i = choose|i: int| 0 <= i < p.len() && p[i] == j as usize;
    assert(outs[i] == rows[j]);
    assert(labels[i] == l@);
    crate::menu::lemma_first_match(labels, l@);
    let k = first_match(labels, l@)->0;
    assert(outs[k] == rows[p[k] as int]);
    let w = p[k] as int;
    assert(output_label(inv.outputs@[w]) == l@);
}

/// The verbs that run one niri action at once, with nothing to pick: each
/// runs the action that bears the verb's own registry name.
pub open spec fn is_direct_action(id: VerbId) -> bool {
    ||| id is AddWorkspaceUp
    ||| id is AddWorkspaceDown
    ||| id is FocusWorkspacePrevious
    ||| id is PowerOnMonitors
    ||| id is ToggleDebugTint
    ||| id is UnsetWorkspaceName
}

/// A direct-action verb first runs `niri msg action <its registry name>`,
/// and completes once that ran.
pub proof fn law_direct_action_is_named_after_its_verb(
    id: VerbId,
    snapshot: Snapshot,
    args: VerbArgs,
    out: String,
)
    requires
        is_direct_action(id),
    ensures
        behaviour(id, snapshot, args, seq![]) == StepView::Perform(
            EffectView::Run(action_call(seq![id.spec_name()@])),
        ),
        behaviour(id, snapshot, args, seq![Event::Ran(out)]) == done(),
{
}

/// `move-window-to-new-workspace-up` / `-down` run the compositor action of
/// the verb's own registry name, followed by `--focus <b>` only when the
/// flag was given, and complete once that ran.
pub proof fn law_new_workspace_move_is_named_after_its_verb(
    id: VerbId,
    snapshot: Snapshot,
    args: VerbArgs,
    out: String,
)
    requires
        id is MoveWindowToNewWorkspaceUp || id is MoveWindowToNewWorkspaceDown,
    ensures
        behaviour(id, snapshot, args, seq![]) == StepView::Perform(
            EffectView::Run(
                action_call(
                    match args.focus {
                        None => seq![id.spec_name()@],
                        Some(b) => seq![id.spec_name()@, "--focus"@, if b { "true"@ } else { "false"@ }],
                    },
                ),
            ),
        ),
        behaviour(id, snapshot, args, seq![Event::Ran(out)]) == done(),
{
    assert(crate::niri::focus_tail(args.focus) =~= match args.focus {
        None => seq![],
        Some(b) => seq!["--focus"@, if b { "true"@ } else { "false"@ }],
    });
    assert(seq![id.spec_name()@] + crate::niri::focus_tail(args.focus) =~= match args.focus {
        None => seq![id.spec_name()@],
        Some(b) => seq![id.spec_name()@, "--focus"@, if b { "true"@ } else { "false"@ }],
    });
}

/// The monitor verbs are monitor pickers whose action bears the verb's own
/// registry name: with [`law_monitor_pick_acts_on_picked_output`], each
/// runs `<its name> <connector of the picked output>`.
pub proof fn law_monitor_verb_is_named_after_its_action(
    id: VerbId,
    snapshot: Snapshot,
    args: VerbArgs,
    a: Seq<Event>,
)
    requires
        id is FocusMonitor || id is MoveWindowToMonitor || id is MoveColumnToMonitor
            || id is MoveWorkspaceToMonitor,
    ensures
        exists|p: Seq<char>| behaviour(id, snapshot, args, a) == #[trigger] monitor_flow(a, p, id.spec_name()@),
{
    match id {
        VerbId::FocusMonitor => {
            assert(behaviour(id, snapshot, args, a) == monitor_flow(a, "Focus monitor: "@, id.spec_name()@));
        },
        VerbId::MoveColumnToMonitor => {
            assert(behaviour(id, snapshot, args, a) == monitor_flow(
                a,
                "Move column to monitor: "@,
                id.spec_name()@,
            ));
        },
        VerbId::MoveWindowToMonitor => {
            let p = crate::verbs::move_window_to_monitor::window_prompt(snapshot.focused_window_title);
            assert(behaviour(id, snapshot, args, a) == monitor_flow(a, p, id.spec_name()@));
        },
        _ => {
            let p = "Move workspace"@ + workspace_context(snapshot.focused_workspace_idx, snapshot.focused_workspace_name)
                + " to monitor: "@;
            assert(behaviour(id, snapshot, args, a) == monitor_flow(a, p, id.spec_name()@));
        },
    }
}

/// The step that runs `jiji-activities` with `args`.
pub open spec fn runs_activities(args: Seq<Seq<char>>) -> StepView {
    StepView::Perform(EffectView::Run(InvocationView { program: "jiji-activities"@, args }))
}

/// The window passthroughs act on the window focused at launch, passed as
/// `--window=<id>` (`move-window` with the target activity first when one
/// was named); without a focused window they stop with that error and run
/// nothing.
pub proof fn law_window_passthroughs_forward_the_snapshot_window(
    id: VerbId,
    snapshot: Snapshot,
    args: VerbArgs,
)
    requires
        id is MoveWindowHere || id is MoveWindowToActivity,
    ensures
        snapshot.focused_window is None ==> behaviour(id, snapshot, args, seq![]) == StepView::Finish(
            Err(VerbErrorView::NoFocusedWindow),
        ),
        snapshot.focused_window matches Some(w) ==> behaviour(id, snapshot, args, seq![]) == runs_activities(
            if id is MoveWindowHere {
                seq!["move-window-here"@, "--window="@ + decimal(w as nat)]
            } else {
                match supplied(args.first) {
                    Some(n) => seq!["move-window"@, n, "--window="@ + decimal(w as nat)],
                    None => seq!["move-window"@, "--window="@ + decimal(w as nat)],
                }
            },
        ),
{
    reveal_strlit("--window");
    reveal_strlit("=");
    reveal_strlit("--window=");
    if let Some(w) = snapshot.focused_window {
        assert(id_flag("--window"@, w) =~= "--window="@ + decimal(w as nat));
        if id is MoveWindowToActivity {
            assert(seq!["move-window"@] + opt_arg(supplied(args.first)) + seq![id_flag("--window"@, w)]
                =~= match supplied(args.first) {
                Some(n) => seq!["move-window"@, n, "--window="@ + decimal(w as nat)],
                None => seq!["move-window"@, "--window="@ + decimal(w as nat)],
            });
        }
    }
}

/// The workspace passthroughs act on the workspace focused at launch,
/// passed as `--workspace=<id>` (`move-workspace` with the target activity
/// first when one was named); without a focused workspace they stop with
/// that error and run nothing.
pub proof fn law_workspace_passthroughs_forward_the_snapshot_workspace(
    id: VerbId,
    snapshot: Snapshot,
    args: VerbArgs,
)
    requires
        id is AssignWorkspace || id is MoveWorkspaceToActivity,
    ensures
        snapshot.focused_workspace is None ==> behaviour(id, snapshot, args, seq![]) == StepView::Finish(
            Err(VerbErrorView::NoFocusedWorkspace),
        ),
        snapshot.focused_workspace matches Some(w) ==> behaviour(id, snapshot, args, seq![]) == runs_activities(
            if id is AssignWorkspace {
                seq!["assign-workspace"@, "--workspace="@ + decimal(w as nat)]
            } else {
                match supplied(args.first) {
                    Some(n) => seq!["move-workspace"@, n, "--workspace="@ + decimal(w as nat)],
                    None => seq!["move-workspace"@, "--workspace="@ + decimal(w as nat)],
                }
            },
        ),
{
    reveal_strlit("--workspace");
    reveal_strlit("=");
    reveal_strlit("--workspace=");
    if let Some(w) = snapshot.focused_workspace {
        assert(id_flag("--workspace"@, w) =~= "--workspace="@ + decimal(w as nat));
        if id is MoveWorkspaceToActivity {
            assert(seq!["move-workspace"@] + opt_arg(supplied(args.first)) + seq![id_flag("--workspace"@, w)]
                =~= match supplied(args.first) {
                Some(n) => seq!["move-workspace"@, n, "--workspace="@ + decimal(w as nat)],
                None => seq!["move-workspace"@, "--workspace="@ + decimal(w as nat)],
            });
        }
    }
}

/// `save-activity` saves the named activity, else the one active at
/// launch, else stops with that error.
pub proof fn law_save_activity_saves_named_or_current(snapshot: Snapshot, args: VerbArgs)
    ensures
        ({
            let r = behaviour(VerbId::SaveActivity, snapshot, args, seq![]);
            &&& supplied(args.first) matches Some(n) ==> r == runs_activities(seq!["save"@, n])
            &&& supplied(args.first) is None ==> (snapshot.focused_activity matches Some(act)
                ==> r == runs_activities(seq!["save"@, act@]))
            &&& supplied(args.first) is None && snapshot.focused_activity is None ==> r == StepView::Finish(
                Err(VerbErrorView::NoFocusedActivity),
            )
        }),
{
}

/// `create-activity` creates the named activity; without a name it prompts
/// and creates the typed one.
pub proof fn law_create_activity_creates_named_or_typed(snapshot: Snapshot, args: VerbArgs, typed: String)
    ensures
        supplied(args.first) matches Some(n) ==> behaviour(VerbId::CreateActivity, snapshot, args, seq![])
            == runs_activities(seq!["create"@, n]),
        supplied(args.first) is None ==> behaviour(
            VerbId::CreateActivity,
            snapshot,
            args,
            seq![Event::Typed(Some(typed))],
        ) == runs_activities(seq!["create"@, typed@]),
{
}

/// `switch-activity` hands the named activity (if any) to `jiji-activities
/// switch`, which otherwise picks; `switch-activity-previous` runs
/// `switch-previous`.
pub proof fn law_switch_activity_passthroughs(snapshot: Snapshot, args: VerbArgs)
    ensures
        behaviour(VerbId::SwitchActivity, snapshot, args, seq![]) == runs_activities(
            match supplied(args.first) {
                Some(n) => seq!["switch"@, n],
                None => seq!["switch"@],
            },
        ),
        behaviour(VerbId::SwitchActivityPrevious, snapshot, args, seq![]) == runs_activities(
            seq!["switch-previous"@],
        ),
{
    assert(seq!["switch"@] + opt_arg(supplied(args.first)) =~= match supplied(args.first) {
        Some(n) => seq!["switch"@, n],
        None => seq!["switch"@],
    });
}

/// The step that runs `niri msg action <args>`.
pub open spec fn runs_action(args: Seq<Seq<char>>) -> StepView {
    StepView::Perform(EffectView::Run(InvocationView { program: "niri"@, args: seq!["msg"@, "action"@] + args }))
}

/// `remove-activity` removes the named activity, or else the activity whose
/// name was picked.
pub proof fn law_remove_activity_removes_named_or_picked(
    snapshot: Snapshot,
    args: VerbArgs,
    inv: Inventory,
    l: String,
)
    ensures
        supplied(args.first) matches Some(n) ==> behaviour(VerbId::RemoveActivity, snapshot, args, seq![])
            == runs_activities(seq!["remove"@, n]),
        supplied(args.first) is None && crate::niri::mru_names(inv.activities@).len() > 0 ==> behaviour(
            VerbId::RemoveActivity,
            snapshot,
            args,
            seq![Event::Fetched(inv), Event::Picked(Some(l))],
        ) == runs_activities(seq!["remove"@, l@]),
{
}

/// `rename-activity` renames the picked activity to the typed name.
pub proof fn law_rename_activity_renames_picked_to_typed(
    snapshot: Snapshot,
    args: VerbArgs,
    inv: Inventory,
    picked: String,
    typed: String,
)
    requires
        crate::niri::mru_names(inv.activities@).len() > 0,
    ensures
        behaviour(
            VerbId::RenameActivity,
            snapshot,
            args,
            seq![Event::Fetched(inv), Event::Picked(Some(picked)), Event::Typed(Some(typed))],
        ) == runs_activities(seq!["rename"@, typed@, "--activity"@, picked@]),
{
}

/// `list-activities` prints exactly what `jiji-activities list` printed.
pub proof fn law_list_activities_prints_the_listing(snapshot: Snapshot, args: VerbArgs, out: String)
    ensures
        behaviour(VerbId::ListActivities, snapshot, args, seq![]) == runs_activities(seq!["list"@]),
        behaviour(VerbId::ListActivities, snapshot, args, seq![Event::Ran(out)]) == StepView::Perform(
            EffectView::Print(out@),
        ),
{
}

/// `quit` and `power-off-monitors` ask first and act only on a yes: `quit`
/// skips the compositor's own dialog, `power-off-monitors` runs the action
/// of its name.
pub proof fn law_confirmed_verbs_act_only_on_yes(snapshot: Snapshot, args: VerbArgs)
    ensures
        behaviour(VerbId::Quit, snapshot, args, seq![]) == StepView::Perform(
            EffectView::Confirm("Quit jiji?"@),
        ),
        behaviour(VerbId::Quit, snapshot, args, seq![Event::Confirmed(true)]) == runs_action(
            seq![VerbId::Quit.spec_name()@, "--skip-confirmation"@],
        ),
        behaviour(VerbId::Quit, snapshot, args, seq![Event::Confirmed(false)]) == done(),
        behaviour(VerbId::PowerOffMonitors, snapshot, args, seq![Event::Confirmed(true)]) == runs_action(
            seq![VerbId::PowerOffMonitors.spec_name()@],
        ),
        behaviour(VerbId::PowerOffMonitors, snapshot, args, seq![Event::Confirmed(false)]) == done(),
{
}

/// `reload-config` runs `load-config-file` at once.
pub proof fn law_reload_config_loads_the_config_file(snapshot: Snapshot, args: VerbArgs)
    ensures
        behaviour(VerbId::ReloadConfig, snapshot, args, seq![]) == runs_action(seq!["load-config-file"@]),
{
}

/// `pick-window` runs `niri msg pick-window`, prints its whole output, then
/// offers the trimmed output to the clipboard and to a notification.
pub proof fn law_pick_window_prints_then_shares(snapshot: Snapshot, args: VerbArgs, info: String, ok: bool)
    ensures
        behaviour(VerbId::PickWindow, snapshot, args, seq![]) == StepView::Perform(
            EffectView::Run(InvocationView { program: "niri"@, args: seq!["msg"@, "pick-window"@] }),
        ),
        behaviour(VerbId::PickWindow, snapshot, args, seq![Event::Ran(info)]) == StepView::Perform(
            EffectView::Print(info@),
        ),
        behaviour(VerbId::PickWindow, snapshot, args, seq![Event::Ran(info), Event::Printed])
            == StepView::Perform(
            EffectView::Deliver(InvocationView { program: "wl-copy"@, args: seq![] }, Some(trim(info@))),
        ),
        behaviour(
            VerbId::PickWindow,
            snapshot,
            args,
            seq![Event::Ran(info), Event::Printed, Event::Delivered(ok)],
        ) == StepView::Perform(
            EffectView::Deliver(
                InvocationView { program: "notify-send"@, args: seq!["Picked window"@, trim(info@)] },
                None,
            ),
        ),
{
}

/// Picking a label from a list stably sorted out of `rows` finds a row of
/// `rows` that bears it: the first offered item under that label is some
/// row `k` of the input with that label.
pub(crate) proof fn lemma_pick_from_sorted<A, K: crate::order::SortKey>(
    rows: Seq<A>,
    keys: Seq<K>,
    lab: spec_fn(A) -> Seq<char>,
    l: Seq<char>,
    j: int,
) -> (k: int)
    requires
        keys.len() == rows.len() <= usize::MAX,
        0 <= j < rows.len(),
        lab(rows[j]) == l,
    ensures
        0 <= k < rows.len(),
        lab(rows[k]) == l,
        ({
            let s = crate::order::sorted_by(rows, keys);
            let labels = Seq::new(s.len(), |i: int| lab(s[i]));
            first_match(labels, l) matches Some(i) && 0 <= i < s.len() && s[i] == rows[k]
        }),
{
    crate::order::lemma_sorted_order_sorts(keys);
    let p = crate::order::sorted_order(keys);
    let s = crate::order::sorted_by(rows, keys);
    let labels = Seq::new(s.len(), |i: int| lab(s[i]));
    assert(p.contains(j as usize));
    let i = choose|i: int| 0 <= i < p.len() && p[i] == j as usize;
    assert(s[i] == rows[j]);
    assert(labels[i] == l);
    crate::menu::lemma_first_match(labels, l);
    let m = first_match(labels, l)->0;
    assert(s[m] == rows[p[m] as int]);
    p[m] as int
}

/// The bookmark pickers act on the bookmark whose label was picked: jumping
/// to it, capturing a key for it, or (after a yes) removing it, always by
/// the id of a bookmark shown under that label, and so by the picked
/// bookmark's own id whenever positions are distinct, as the compositor
/// keeps them.
pub proof fn law_bookmark_pick_acts_on_picked_bookmark(
    snapshot: Snapshot,
    args: VerbArgs,
    inv: Inventory,
    l: String,
    j: int,
)
    requires
        0 <= j < inv.bookmarks@.len(),
        crate::niri::bookmark_label(inv.bookmarks@[j]) == l@,
    ensures
        exists|k: int|
            #![trigger inv.bookmarks@[k]]
            0 <= k < inv.bookmarks@.len() && crate::niri::bookmark_label(inv.bookmarks@[k]) == l@
                && behaviour(VerbId::Bookmark, snapshot, args, seq![Event::Fetched(inv), Event::Picked(Some(l))])
                == runs_action(seq!["jump-to-bookmark"@, "--id"@, decimal(inv.bookmarks@[k].id as nat)])
                && behaviour(
                VerbId::BookmarkAssignKey,
                snapshot,
                args,
                seq![Event::Fetched(inv), Event::Picked(Some(l))],
            ) == runs_action(seq!["capture-bookmark-key"@, "--id"@, decimal(inv.bookmarks@[k].id as nat)])
                && behaviour(
                VerbId::BookmarkRemove,
                snapshot,
                args,
                seq![Event::Fetched(inv), Event::Picked(Some(l)), Event::Confirmed(true)],
            ) == runs_action(seq!["remove-bookmark"@, "--id"@, decimal(inv.bookmarks@[k].id as nat)]),
        (forall|a: int, b: int|
            0 <= a < b < inv.bookmarks@.len() ==> (#[trigger] inv.bookmarks@[a]).position
                != (#[trigger] inv.bookmarks@[b]).position) ==> behaviour(
            VerbId::Bookmark,
            snapshot,
            args,
            seq![Event::Fetched(inv), Event::Picked(Some(l))],
        ) == runs_action(seq!["jump-to-bookmark"@, "--id"@, decimal(inv.bookmarks@[j].id as nat)]),
{
    let rows = inv.bookmarks@;
    assert(inv.bookmarks.len() == rows.len());
    let lab = |r: crate::niri::BookmarkRow| crate::niri::bookmark_label(r);
    let k = lemma_pick_from_sorted(rows, crate::niri::position_keys(rows), lab, l@, j);
    let bm = crate::niri::sorted_bookmarks(rows);
    assert(Seq::new(bm.len(), |i: int| lab(bm[i])) =~= Seq::new(
        bm.len(),
        |i: int| crate::niri::bookmark_label(bm[i]),
    ));
    assert(0 <= k < rows.len() && crate::niri::bookmark_label(rows[k]) == l@);
    if forall|a: int, b: int|
        0 <= a < b < rows.len() ==> (#[trigger] rows[a]).position != (#[trigger] rows[b]).position {
        if k != j {
            if k < j {
                assert(rows[k].position != rows[j].position);
            } else {
                assert(rows[j].position != rows[k].position);
            }
            crate::niri::law_bookmark_labels_distinct(rows[k], rows[j]);
        }
    }
}

/// The stop-cast picker stops the session whose label was picked: the one
/// of an offered session (the first row of each session) shown under it.
pub proof fn law_stop_cast_stops_picked_session(
    snapshot: Snapshot,
    args: VerbArgs,
    inv: Inventory,
    l: String,
    j: int,
)
    requires
        0 <= j < crate::niri::first_per_session(inv.casts@).len(),
        crate::niri::cast_label(crate::niri::first_per_session(inv.casts@)[j]) == l@,
    ensures
        exists|k: int|
            #![trigger crate::niri::first_per_session(inv.casts@)[k]]
            0 <= k < crate::niri::first_per_session(inv.casts@).len()
                && crate::niri::cast_label(crate::niri::first_per_session(inv.casts@)[k]) == l@
                && behaviour(VerbId::StopCast, snapshot, args, seq![Event::Fetched(inv), Event::Picked(Some(l))])
                == runs_action(
                seq![
                    "stop-cast"@,
                    "--session-id"@,
                    decimal(crate::niri::first_per_session(inv.casts@)[k].session_id as nat),
                ],
            ),
{
    let d = crate::niri::first_per_session(inv.casts@);
    crate::niri::lemma_first_per_session_len(inv.casts@);
    assert(inv.casts.len() == inv.casts@.len());
    let lab = |r: crate::niri::CastRow| crate::niri::cast_label(r);
    let k = lemma_pick_from_sorted(d, crate::niri::session_keys(d), lab, l@, j);
    let cs = crate::niri::sorted_sessions(inv.casts@);
    assert(Seq::new(cs.len(), |i: int| lab(cs[i])) =~= Seq::new(cs.len(), |i: int| crate::niri::cast_label(cs[i])));
    assert(0 <= k < d.len() && crate::niri::cast_label(d[k]) == l@);
}

/// `rename-workspace` prompts first, then names the focused workspace with
/// the typed text.
pub proof fn law_rename_workspace_sets_typed_name(snapshot: Snapshot, args: VerbArgs, typed: String)
    ensures
        behaviour(VerbId::RenameWorkspace, snapshot, args, seq![]) matches StepView::Perform(EffectView::Prompt(_)),
        behaviour(VerbId::RenameWorkspace, snapshot, args, seq![Event::Typed(Some(typed))]) == runs_action(
            seq!["set-workspace-name"@, typed@],
        ),
{
}

/// `pick-color` runs `niri msg pick-color`, offers the trimmed colour to the
/// clipboard and to a notification, and prints the colour only when the
/// clipboard copy failed, whatever became of the notification.
pub proof fn law_pick_color_prints_only_when_not_copied(
    snapshot: Snapshot,
    args: VerbArgs,
    color: String,
    copied: bool,
    shown: bool,
)
    ensures
        behaviour(VerbId::PickColor, snapshot, args, seq![]) == StepView::Perform(
            EffectView::Run(InvocationView { program: "niri"@, args: seq!["msg"@, "pick-color"@] }),
        ),
        behaviour(VerbId::PickColor, snapshot, args, seq![Event::Ran(color)]) == StepView::Perform(
            EffectView::Deliver(InvocationView { program: "wl-copy"@, args: seq![] }, Some(trim(color@))),
        ),
        behaviour(VerbId::PickColor, snapshot, args, seq![Event::Ran(color), Event::Delivered(copied)])
            == StepView::Perform(
            EffectView::Deliver(
                InvocationView { program: "notify-send"@, args: seq!["Picked color"@, trim(color@)] },
                None,
            ),
        ),
        behaviour(
            VerbId::PickColor,
            snapshot,
            args,
            seq![Event::Ran(color), Event::Delivered(copied), Event::Delivered(shown)],
        ) == (if copied {
            done()
        } else {
            StepView::Perform(EffectView::Print(color@))
        }),
{
}

/// `bookmark-unassign-key` offers only bookmarks with a key and clears the
/// key of the one whose label was picked: the id of a keyed bookmark
/// bearing that label.
pub proof fn law_unassign_key_acts_on_picked_keyed_bookmark(
    snapshot: Snapshot,
    args: VerbArgs,
    inv: Inventory,
    l: String,
    j: int,
)
    requires
        0 <= j < inv.bookmarks@.len(),
        inv.bookmarks@[j].key is Some,
        crate::niri::bookmark_label(inv.bookmarks@[j]) == l@,
    ensures
        exists|k: int|
            #![trigger inv.bookmarks@[k]]
            0 <= k < inv.bookmarks@.len() && inv.bookmarks@[k].key is Some
                && crate::niri::bookmark_label(inv.bookmarks@[k]) == l@
                && behaviour(
                VerbId::BookmarkUnassignKey,
                snapshot,
                args,
                seq![Event::Fetched(inv), Event::Picked(Some(l))],
            ) == runs_action(seq!["unassign-bookmark-key"@, "--id"@, decimal(inv.bookmarks@[k].id as nat)]),
{
    broadcast use vstd::seq_lib::group_seq_properties;
    let rows = inv.bookmarks@;
    assert(inv.bookmarks.len() == rows.len());
    let keys = crate::niri::position_keys(rows);
    crate::order::lemma_sorted_order_sorts(keys);
    let p = crate::order::sorted_order(keys);
    let s = crate::niri::sorted_bookmarks(rows);
    let pred = |r: crate::niri::BookmarkRow| r.key is Some;
    let bm = s.filter(pred);
    assert(bm == crate::verbs::bookmark_unassign_key::keyed(s));
    let labels = Seq::new(bm.len(), |i: int| crate::niri::bookmark_label(bm[i]));
    assert(p.contains(j as usize));
    let i = choose|i: int| 0 <= i < p.len() && p[i] == j as usize;
    assert(s[i] == rows[j]);
    s.lemma_filter_contains(pred, i);
    let i2 = choose|i2: int| 0 <= i2 < bm.len() && bm[i2] == s[i];
    assert(labels[i2] == l@);
    crate::menu::lemma_first_match(labels, l@);
    let m = first_match(labels, l@)->0;
    let x = bm[m];
    assert(bm.contains(x));
    s.lemma_filter_contains_rev(pred, x);
    #[allow(deprecated)]
    s.filter_lemma(pred);
    assert(pred(bm[m]));
    let q = choose|q: int| 0 <= q < s.len() && s[q] == x;
    assert(s[q] == rows[p[q] as int]);
    let k = p[q] as int;
    assert(rows[k] == x);
}

} // verus!
