//! The launch-time snapshot of focused state. It is captured once, before
//! any picker opens: a picker steals focus, so a later read would see the
//! picker rather than the user's context.

use vstd::prelude::*;
use crate::capabilities::{Capabilities, Flag};
use crate::niri::Query;

verus! {

/// One row of `niri msg --json windows`, as the snapshot reads it.
#[derive(Debug)]
pub struct WindowBrief {
    pub id: u64,
    pub is_focused: bool,
    pub title: Option<String>,
}

/// One row of `niri msg --json workspaces`, as the snapshot reads it.
#[derive(Debug)]
pub struct WorkspaceBrief {
    pub id: u64,
    pub output: Option<String>,
    pub is_focused: bool,
    pub idx: Option<u64>,
    pub name: Option<String>,
}

/// One row of `niri msg --json activities` (fork only), as the snapshot
/// reads it.
#[derive(Debug)]
pub struct ActivityBrief {
    pub name: String,
    pub is_active: bool,
}

/// Focused context captured at launch. Every field is `None` when nothing
/// matches (no focus, or — for `focused_activity` — upstream niri). The
/// title, index and name companions are display context for prompts, not
/// dispatch targets.
#[derive(Debug, PartialEq, Eq)]
pub struct Snapshot {
    pub focused_window: Option<u64>,
    pub focused_window_title: Option<String>,
    pub focused_workspace: Option<u64>,
    pub focused_workspace_idx: Option<u64>,
    pub focused_workspace_name: Option<String>,
    pub focused_output: Option<String>,
    pub focused_activity: Option<String>,
}

/// The first focused window.
pub open spec fn first_focused_window(ws: Seq<WindowBrief>) -> Option<WindowBrief>
    decreases ws.len(),
{
    if ws.len() == 0 {
        None
    } else if ws[0].is_focused {
        Some(ws[0])
    } else {
        first_focused_window(ws.drop_first())
    }
}

/// The first focused workspace.
pub open spec fn first_focused_workspace(ws: Seq<WorkspaceBrief>) -> Option<WorkspaceBrief>
    decreases ws.len(),
{
    if ws.len() == 0 {
        None
    } else if ws[0].is_focused {
        Some(ws[0])
    } else {
        first_focused_workspace(ws.drop_first())
    }
}

/// The first active activity.
pub open spec fn first_active(acts: Seq<ActivityBrief>) -> Option<ActivityBrief>
    decreases acts.len(),
{
    if acts.len() == 0 {
        None
    } else if acts[0].is_active {
        Some(acts[0])
    } else {
        first_active(acts.drop_first())
    }
}

impl Snapshot {
    /// The snapshot holds the focused state the payloads report:
    /// the first focused window and workspace, and the first active activity
    /// (none without an activities payload).
    pub open spec fn describes(
        self,
        windows: Seq<WindowBrief>,
        workspaces: Seq<WorkspaceBrief>,
        activities: Option<Seq<ActivityBrief>>,
    ) -> bool {
        &&& match first_focused_window(windows) {
            Some(w) => self.focused_window == Some(w.id) && self.focused_window_title == w.title,
            None => self.focused_window is None && self.focused_window_title is None,
        }
        &&& match first_focused_workspace(workspaces) {
            Some(w) => {
                &&& self.focused_workspace == Some(w.id)
                &&& self.focused_workspace_idx == w.idx
                &&& self.focused_workspace_name == w.name
                &&& self.focused_output == w.output
            },
            None => {
                &&& self.focused_workspace is None
                &&& self.focused_workspace_idx is None
                &&& self.focused_workspace_name is None
                &&& self.focused_output is None
            },
        }
        &&& match activities {
            Some(acts) => match first_active(acts) {
                Some(a) => self.focused_activity == Some(a.name),
                None => self.focused_activity is None,
            },
            None => self.focused_activity is None,
        }
    }

    /// The snapshot of the given payloads; `activities` is absent on
    /// upstream niri.
    pub fn from_briefs(
        windows: &Vec<WindowBrief>,
        workspaces: &Vec<WorkspaceBrief>,
        activities: Option<&Vec<ActivityBrief>>,
    ) -> (s: Snapshot)
        ensures
            s.describes(
                windows@,
                workspaces@,
                match activities {
                    Some(a) => Some(a@),
                    None => None,
                },
            ),
    {
        let (focused_window, focused_window_title) = match find_focused_window(windows) {
            Some(k) => (Some(windows[k].id), crate::niri::clone_opt(&windows[k].title)),
            None => (None, None),
        };
        let (focused_workspace, focused_workspace_idx, focused_workspace_name, focused_output) =
            match find_focused_workspace(workspaces) {
            Some(k) => (
                Some(workspaces[k].id),
                workspaces[k].idx,
                crate::niri::clone_opt(&workspaces[k].name),
                crate::niri::clone_opt(&workspaces[k].output),
            ),
            None => (None, None, None, None),
        };
        let focused_activity = match activities {
            Some(acts) => match find_active(acts) {
                Some(k) => Some(acts[k].name.clone()),
                None => None,
            },
            None => None,
        };
        Snapshot {
            focused_window,
            focused_window_title,
            focused_workspace,
            focused_workspace_idx,
            focused_workspace_name,
            focused_output,
            focused_activity,
        }
    }

    /// The payloads the snapshot is built from: windows and workspaces, and
    /// activities only where the fork is present.
    pub open spec fn capture_queries(caps: Capabilities) -> Seq<Query> {
        if caps.has(Flag::Fork) {
            seq![Query::Windows, Query::Workspaces, Query::Activities]
        } else {
            seq![Query::Windows, Query::Workspaces]
        }
    }

    /// The payloads to read for the launch snapshot.
    pub fn capture(caps: Capabilities) -> (q: Vec<Query>)
        ensures
            q@ == Snapshot::capture_queries(caps),
    {
        let mut q: Vec<Query> = Vec::new();
        q.push(Query::Windows);
        q.push(Query::Workspaces);
        if caps.has_flag(Flag::Fork) {
            q.push(Query::Activities);
        }
        assert(q@ =~= Snapshot::capture_queries(caps));
        q
    }
}

fn find_focused_window(ws: &Vec<WindowBrief>) -> (r: Option<usize>)
    ensures
        match first_focused_window(ws@) {
            Some(w) => r matches Some(k) && k < ws@.len() && ws@[k as int] == w,
            None => r is None,
        },
{
    let mut i: usize = 0;
    assert(ws@.subrange(0, ws@.len() as int) =~= ws@);
    while i < ws.len()
        invariant
            i <= ws@.len(),
            first_focused_window(ws@) == first_focused_window(ws@.subrange(i as int, ws@.len() as int)),
        decreases ws@.len() - i,
    {
        let ghost rest = ws@.subrange(i as int, ws@.len() as int);
        assert(rest[0] == ws@[i as int]);
        if ws[i].is_focused {
            return Some(i);
        }
        assert(rest.drop_first() =~= ws@.subrange(i + 1, ws@.len() as int));
        i = i + 1;
    }
    None
}

fn find_focused_workspace(ws: &Vec<WorkspaceBrief>) -> (r: Option<usize>)
    ensures
        match first_focused_workspace(ws@) {
            Some(w) => r matches Some(k) && k < ws@.len() && ws@[k as int] == w,
            None => r is None,
        },
{
    let mut i: usize = 0;
    assert(ws@.subrange(0, ws@.len() as int) =~= ws@);
    while i < ws.len()
        invariant
            i <= ws@.len(),
            first_focused_workspace(ws@) == first_focused_workspace(
                ws@.subrange(i as int, ws@.len() as int),
            ),
        decreases ws@.len() - i,
    {
        let ghost rest = ws@.subrange(i as int, ws@.len() as int);
        assert(rest[0] == ws@[i as int]);
        if ws[i].is_focused {
            return Some(i);
        }
        assert(rest.drop_first() =~= ws@.subrange(i + 1, ws@.len() as int));
        i = i + 1;
    }
    None
}

fn find_active(acts: &Vec<ActivityBrief>) -> (r: Option<usize>)
    ensures
        match first_active(acts@) {
            Some(a) => r matches Some(k) && k < acts@.len() && acts@[k as int] == a,
            None => r is None,
        },
{
    let mut i: usize = 0;
    assert(acts@.subrange(0, acts@.len() as int) =~= acts@);
    while i < acts.len()
        invariant
            i <= acts@.len(),
            first_active(acts@) == first_active(acts@.subrange(i as int, acts@.len() as int)),
        decreases acts@.len() - i,
    {
        let ghost rest = acts@.subrange(i as int, acts@.len() as int);
        assert(rest[0] == acts@[i as int]);
        if acts[i].is_active {
            return Some(i);
        }
        assert(rest.drop_first() =~= acts@.subrange(i + 1, acts@.len() as int));
        i = i + 1;
    }
    None
}

} // verus!
