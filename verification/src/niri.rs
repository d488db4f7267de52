//! The `niri msg` surface: minimal projections of the compositor's JSON
//! payloads, the picker inventories built from them, and the action
//! invocations native verbs dispatch.

use vstd::prelude::*;
use crate::error::VerbError;
use crate::invocation::{Invocation, InvocationView, niri, niri_call, owned, push_arg, texts};
use crate::order::{
    SortKey, lemma_sorted_order_is, permute, sorted_by, sorted_order, lemma_filter_step,
    lemma_take_all, stable_order, stable_sort_of,
};
use crate::text::{
    decimal, is_digit, is_ws, lemma_decimal_digits, lemma_decimal_injective, lemma_trim_end_keeps,
    push_decimal, push_signed_decimal, sanitize, sanitize_str, signed_decimal, str_eq, trim_end,
    trim_end_str,
};

verus! {

/// One row of `niri msg --json workspaces`: the fields the pickers and the
/// completion candidates read.
#[derive(Debug)]
pub struct WorkspaceRow {
    pub id: u64,
    /// Per-monitor index (1-based on the compositor). Payloads that predate
    /// the field carry 0, which the compositor rejects loudly as a reference.
    pub idx: u8,
    pub name: Option<String>,
    pub output: Option<String>,
    pub is_focused: bool,
    /// `None` on vanilla niri (no activity concept); `Some(false)` for a
    /// workspace of a dormant activity.
    pub is_in_active_activity: Option<bool>,
    /// The frontmost window, if the workspace holds any.
    pub active_window_id: Option<u64>,
    /// Ids of the activities the workspace belongs to.
    pub activities: Vec<u64>,
}

/// One row of `niri msg --json windows`, for title lookups.
#[derive(Debug)]
pub struct WindowRow {
    pub id: u64,
    pub title: Option<String>,
}

/// One row of `niri msg --json activities` (fork only).
#[derive(Debug)]
pub struct ActivityRow {
    /// Stable activity id; 0 on payloads that predate the field.
    pub id: u64,
    pub name: String,
    pub is_active: bool,
    /// Monotonic activation counter; the active activity holds the maximum.
    pub last_active_seq: Option<u64>,
}

/// A name, or `?` when there is none.
pub open spec fn or_question(o: Option<String>) -> Seq<char> {
    match o {
        Some(s) => s@,
        None => "?"@,
    }
}

/// A workspace's picker label: its name when set, else `<output> #<id>`.
pub open spec fn workspace_label(name: Option<String>, output: Option<String>, id: u64) -> Seq<char> {
    match name {
        Some(n) => n@,
        None => or_question(output) + " #"@ + decimal(id as nat),
    }
}

/// The workspace belongs to the current activity (or the compositor has no
/// activities at all).
pub open spec fn in_current_activity(r: WorkspaceRow) -> bool {
    r.is_in_active_activity != Some(false)
}

/// The rows of the current activity, in inventory order.
pub open spec fn current_rows(rows: Seq<WorkspaceRow>) -> Seq<WorkspaceRow> {
    rows.filter(|r: WorkspaceRow| in_current_activity(r))
}

/// A copy of an optional string.
pub fn clone_opt(o: &Option<String>) -> (r: Option<String>)
    ensures
        r == *o,
{
    match o {
        Some(s) => Some(s.clone()),
        None => None,
    }
}

/// Appends `<output or ?> #<id>`.
fn push_placeholder_label(s: &mut String, output: &Option<String>, id: u64)
    ensures
        final(s)@ == old(s)@ + or_question(*output) + " #"@ + decimal(id as nat),
{
    match output {
        Some(o) => s.append(o.as_str()),
        None => s.append("?"),
    }
    s.append(" #");
    push_decimal(s, id);
    assert(s@ =~= old(s)@ + or_question(*output) + " #"@ + decimal(id as nat));
}

/// The picker label of a workspace: its name, else `<output> #<id>`.
pub fn label_for_workspace(name: &Option<String>, output: &Option<String>, id: u64) -> (r: String)
    ensures
        r@ == workspace_label(*name, *output, id),
{
    match name {
        Some(n) => n.clone(),
        None => {
            let mut s = String::new();
            push_placeholder_label(&mut s, output, id);
            assert(s@ =~= workspace_label(*name, *output, id));
            s
        },
    }
}

/// A wrapped activity name, kept type-distinct from the workspace reference
/// next to it in [`focus_workspace_in_activity`] so the two cannot be
/// transposed.
pub struct ActivityName(String);

impl View for ActivityName {
    type V = Seq<char>;

    closed spec fn view(&self) -> Seq<char> {
        self.0@
    }
}

impl ActivityName {
    /// Wrap an activity name obtained at the CLI or verb boundary.
    pub fn new(name: String) -> (a: ActivityName)
        ensures
            a@ == name@,
    {
        ActivityName(name)
    }

    /// The activity name.
    pub fn as_str(&self) -> (s: &str)
        ensures
            s@ == self@,
    {
        self.0.as_str()
    }
}

/// A workspace reference typed by the user on the command line, forwarded
/// verbatim (a name, a per-monitor index, or `id:N`). Contrast with
/// [`FocusReference`], which only [`WorkspaceChoice::focus_reference`] makes.
pub struct UserWorkspaceRef(String);

impl View for UserWorkspaceRef {
    type V = Seq<char>;

    closed spec fn view(&self) -> Seq<char> {
        self.0@
    }
}

impl UserWorkspaceRef {
    /// Wrap a reference read from CLI argv.
    pub fn from_cli(s: String) -> (r: UserWorkspaceRef)
        ensures
            r@ == s@,
    {
        UserWorkspaceRef(s)
    }

    /// The reference text.
    pub fn as_str(&self) -> (s: &str)
        ensures
            s@ == self@,
    {
        self.0.as_str()
    }
}

/// A dispatchable `focus-workspace` positional: a workspace name, or a
/// per-monitor index in decimal — never the stable workspace id, which the
/// compositor would read as an index.
pub struct FocusReference(String);

impl View for FocusReference {
    type V = Seq<char>;

    closed spec fn view(&self) -> Seq<char> {
        self.0@
    }
}

impl FocusReference {
    /// The string to pass as the `focus-workspace` positional.
    pub fn as_arg(&self) -> (s: &str)
        ensures
            s@ == self@,
    {
        self.0.as_str()
    }
}

/// A workspace as offered in the switch picker.
#[derive(Debug, PartialEq, Eq)]
pub struct WorkspaceChoice {
    pub id: u64,
    pub idx: u8,
    pub name: Option<String>,
    pub label: String,
}

/// The `focus-workspace` reference for a workspace: its name when set
/// (globally addressable), else its per-monitor index.
pub open spec fn focus_reference_text(name: Option<String>, idx: u8) -> Seq<char> {
    match name {
        Some(n) => n@,
        None => decimal(idx as nat),
    }
}

impl WorkspaceChoice {
    /// The choice shows `row`.
    pub open spec fn shows(self, row: WorkspaceRow) -> bool {
        &&& self.id == row.id
        &&& self.idx == row.idx
        &&& self.name == row.name
        &&& self.label@ == workspace_label(row.name, row.output, row.id)
    }

    /// The `niri msg action focus-workspace` positional: the name when set,
    /// else the per-monitor index as a string.
    pub fn focus_reference(&self) -> (r: FocusReference)
        ensures
            r@ == focus_reference_text(self.name, self.idx),
    {
        let s = match &self.name {
            Some(name) => name.clone(),
            None => crate::text::decimal_string(self.idx as u64),
        };
        FocusReference(s)
    }
}

/// Picker choices for the current-activity workspace picker: rows of dormant
/// activities dropped (vanilla niri lists everything), labelled by name or
/// `<output> #<id>`, in inventory order.
pub fn workspace_choices(rows: &Vec<WorkspaceRow>) -> (r: Vec<WorkspaceChoice>)
    ensures
        r@.len() == current_rows(rows@).len(),
        forall|i: int| 0 <= i < r@.len() ==> #[trigger] r@[i].shows(current_rows(rows@)[i]),
{
    let mut r: Vec<WorkspaceChoice> = Vec::new();
    let mut i: usize = 0;
    while i < rows.len()
        invariant
            i <= rows@.len(),
            r@.len() == current_rows(rows@.take(i as int)).len(),
            forall|k: int| 0 <= k < r@.len() ==> #[trigger] r@[k].shows(current_rows(rows@.take(i as int))[k]),
        decreases rows@.len() - i,
    {
        let row = &rows[i];
        proof {
            lemma_filter_step(rows@, |r: WorkspaceRow| in_current_activity(r), i as int);
        }
        if row.is_in_active_activity != Some(false) {
            let label = label_for_workspace(&row.name, &row.output, row.id);
            r.push(WorkspaceChoice { id: row.id, idx: row.idx, name: clone_opt(&row.name), label });
        }
        i = i + 1;
    }
    proof {
        lemma_take_all(rows@);
    }
    r
}

/// The names of the named rows, in order.
pub open spec fn named_names(rows: Seq<WorkspaceRow>) -> Seq<Seq<char>>
    decreases rows.len(),
{
    if rows.len() == 0 {
        seq![]
    } else {
        let rest = named_names(rows.drop_last());
        match rows.last().name {
            Some(n) => rest.push(n@),
            None => rest,
        }
    }
}

/// Names of the current-activity workspaces (named ones only — unnamed
/// workspaces have no typeable reference), in inventory order: the
/// completion candidates with the scope of the `switch-workspace` picker.
pub fn parse_workspace_names(rows: &Vec<WorkspaceRow>) -> (r: Vec<String>)
    ensures
        texts(r@) == named_names(current_rows(rows@)),
{
    let choices = workspace_choices(rows);
    let ghost cur = current_rows(rows@);
    let mut r: Vec<String> = Vec::new();
    let mut i: usize = 0;
    while i < choices.len()
        invariant
            choices@.len() == cur.len(),
            forall|k: int| 0 <= k < choices@.len() ==> #[trigger] choices@[k].shows(cur[k]),
            i <= choices@.len(),
            texts(r@) == named_names(cur.take(i as int)),
        decreases choices@.len() - i,
    {
        assert(cur.take(i + 1).drop_last() =~= cur.take(i as int));
        assert(choices@[i as int].shows(cur[i as int]));
        match &choices[i].name {
            Some(n) => {
                push_arg(&mut r, n.clone());
            },
            None => {},
        }
        i = i + 1;
    }
    assert(cur.take(choices@.len() as int) =~= cur);
    r
}

/// Whether `x` is in `v`.
pub fn has_id(v: &Vec<u64>, x: u64) -> (r: bool)
    ensures
        r == v@.contains(x),
{
    let mut i: usize = 0;
    while i < v.len()
        invariant
            i <= v@.len(),
            forall|k: int| 0 <= k < i ==> v@[k] != x,
        decreases v@.len() - i,
    {
        if v[i] == x {
            return true;
        }
        i = i + 1;
    }
    false
}

/// Position of the first activity named `name`.
pub open spec fn first_named(acts: Seq<ActivityRow>, name: Seq<char>) -> Option<int>
    decreases acts.len(),
{
    if acts.len() == 0 {
        None
    } else if acts[0].name@ == name {
        Some(0)
    } else {
        match first_named(acts.drop_first(), name) {
            Some(k) => Some(k + 1),
            None => None,
        }
    }
}

proof fn lemma_first_named_bounds(acts: Seq<ActivityRow>, name: Seq<char>)
    ensures
        first_named(acts, name) matches Some(k) ==> 0 <= k < acts.len() && acts[k].name@ == name,
        first_named(acts, name) is None ==> forall|k: int| 0 <= k < acts.len() ==> #[trigger] acts[k].name@ != name,
    decreases acts.len(),
{
    if acts.len() > 0 {
        lemma_first_named_bounds(acts.drop_first(), name);
        if first_named(acts, name) is None {
            assert(acts[0].name@ != name);
            assert(first_named(acts.drop_first(), name) is None);
            let t = acts.drop_first();
            assert forall|k: int| 0 <= k < acts.len() implies #[trigger] acts[k].name@ != name by {
                if k > 0 {
                    assert(t[k - 1] == acts[k]);
                    assert(t[k - 1].name@ != name);
                }
            }
        }
    }
}

/// The position of the first activity named `name`.
pub fn find_activity(acts: &Vec<ActivityRow>, name: &str) -> (r: Option<usize>)
    ensures
        r matches Some(k) ==> first_named(acts@, name@) == Some(k as int),
        r is None ==> first_named(acts@, name@) is None,
{
    let mut i: usize = 0;
    assert(acts@.subrange(0, acts@.len() as int) =~= acts@);
    while i < acts.len()
        invariant
            i <= acts@.len(),
            first_named(acts@, name@) == (match first_named(acts@.subrange(i as int, acts@.len() as int), name@) {
                Some(k) => Some(k + i),
                None => None,
            }),
        decreases acts@.len() - i,
    {
        let ghost rest = acts@.subrange(i as int, acts@.len() as int);
        assert(rest[0] == acts@[i as int]);
        if str_eq(acts[i].name.as_str(), name) {
            return Some(i);
        }
        assert(rest.drop_first() =~= acts@.subrange(i + 1, acts@.len() as int));
        i = i + 1;
    }
    None
}

/// The rows that belong to activity `id`.
pub open spec fn member_rows(rows: Seq<WorkspaceRow>, id: u64) -> Seq<WorkspaceRow> {
    rows.filter(|r: WorkspaceRow| r.activities@.contains(id))
}

/// The rows of `rows` belonging to activity `id`, in order.
fn rows_of_activity(rows: &Vec<WorkspaceRow>, id: u64) -> (r: Vec<usize>)
    ensures
        r@.len() == member_rows(rows@, id).len(),
        forall|k: int| 0 <= k < r@.len() ==> #[trigger] r@[k] < rows@.len() && rows@[r@[k] as int] == member_rows(rows@, id)[k],
{
    let mut r: Vec<usize> = Vec::new();
    let mut i: usize = 0;
    while i < rows.len()
        invariant
            i <= rows@.len(),
            r@.len() == member_rows(rows@.take(i as int), id).len(),
            forall|k: int| 0 <= k < r@.len() ==> #[trigger] r@[k] < rows@.len() && rows@[r@[k] as int]
                == member_rows(rows@.take(i as int), id)[k],
        decreases rows@.len() - i,
    {
        proof {
            lemma_filter_step(rows@, |r: WorkspaceRow| r.activities@.contains(id), i as int);
        }
        if has_id(&rows[i].activities, id) {
            r.push(i);
        }
        i = i + 1;
    }
    proof {
        lemma_take_all(rows@);
    }
    r
}

/// Names of `activity`'s workspaces (named only), in inventory order;
/// an error when no activity has that name.
pub fn workspace_names_in_activity(
    workspaces: &Vec<WorkspaceRow>,
    activities: &Vec<ActivityRow>,
    activity: &str,
) -> (r: Result<Vec<String>, VerbError>)
    ensures
        match first_named(activities@, activity@) {
            None => r matches Err(VerbError::UnknownActivity(n)) && n@ == activity@,
            Some(k) => r matches Ok(v) && texts(v@) == named_names(
                member_rows(workspaces@, activities@[k].id),
            ),
        },
{
    let k = match find_activity(activities, activity) {
        Some(k) => k,
        None => return Err(VerbError::UnknownActivity(owned(activity))),
    };
    proof {
        lemma_first_named_bounds(activities@, activity@);
    }
    let id = activities[k].id;
    let members = rows_of_activity(workspaces, id);
    let ghost m = member_rows(workspaces@, id);
    let mut r: Vec<String> = Vec::new();
    let mut i: usize = 0;
    while i < members.len()
        invariant
            members@.len() == m.len(),
            forall|j: int| 0 <= j < members@.len() ==> #[trigger] members@[j] < workspaces@.len()
                && workspaces@[members@[j] as int] == m[j],
            i <= members@.len(),
            texts(r@) == named_names(m.take(i as int)),
        decreases members@.len() - i,
    {
        assert(m.take(i + 1).drop_last() =~= m.take(i as int));
        assert(workspaces@[members@[i as int] as int] == m[i as int]);
        match &workspaces[members[i]].name {
            Some(n) => {
                push_arg(&mut r, n.clone());
            },
            None => {},
        }
        i = i + 1;
    }
    assert(m.take(members@.len() as int) =~= m);
    Ok(r)
}

/// The title the windows payload gives window `w`: the last row with that
/// id wins (as collecting the rows into a map does); `None` when no row has
/// the id.
pub open spec fn title_lookup(windows: Seq<WindowRow>, w: u64) -> Option<Option<String>>
    decreases windows.len(),
{
    if windows.len() == 0 {
        None
    } else if windows.last().id == w {
        Some(windows.last().title)
    } else {
        title_lookup(windows.drop_last(), w)
    }
}

/// The completion token: the name when set, else `id:N` when `force_id`,
/// else the per-monitor index.
pub open spec fn complete_token(row: WorkspaceRow, force_id: bool) -> Seq<char> {
    match row.name {
        Some(n) => n@,
        None => if force_id {
            "id:"@ + decimal(row.id as nat)
        } else {
            decimal(row.idx as nat)
        },
    }
}

/// The title shown in a completion description: `empty` for a workspace
/// without windows, `untitled` when the frontmost window is unknown or has
/// no title.
pub open spec fn description_title(row: WorkspaceRow, windows: Seq<WindowRow>) -> Seq<char> {
    match row.active_window_id {
        None => "empty"@,
        Some(w) => match title_lookup(windows, w) {
            Some(Some(t)) => t@,
            _ => "untitled"@,
        },
    }
}

/// One `token\tdescription` completion line.
pub open spec fn complete_line_text(row: WorkspaceRow, windows: Seq<WindowRow>, force_id: bool) -> Seq<char> {
    complete_token(row, force_id) + "\tidx "@ + decimal(row.idx as nat) + " · id:"@ + decimal(
        row.id as nat,
    ) + " · "@ + or_question(row.output) + " · "@ + description_title(row, windows)
}

/// The title of window `w`, looked up as [`title_lookup`] says.
fn lookup_title(windows: &Vec<WindowRow>, w: u64) -> (r: Option<usize>)
    ensures
        match title_lookup(windows@, w) {
            None => r is None,
            Some(t) => r matches Some(k) && k < windows@.len() && windows@[k as int].title == t,
        },
{
    let mut i: usize = windows.len();
    assert(windows@.take(i as int) =~= windows@);
    while i > 0
        invariant
            i <= windows@.len(),
            title_lookup(windows@, w) == title_lookup(windows@.take(i as int), w),
        decreases i,
    {
        assert(windows@.take(i as int).last() == windows@[i - 1]);
        assert(windows@.take(i as int).drop_last() =~= windows@.take(i - 1));
        if windows[i - 1].id == w {
            return Some(i - 1);
        }
        i = i - 1;
    }
    None
}

/// Formats one `token\tdescription` completion line. Unnamed rows complete
/// by per-monitor index unless `force_id`, in which case by `id:N` (bare
/// indices would dispatch against the focused monitor). The description is
/// `idx N · id:N · <output> · <title>`.
pub fn complete_line(row: &WorkspaceRow, windows: &Vec<WindowRow>, force_id: bool) -> (r: String)
    ensures
        r@ == complete_line_text(*row, windows@, force_id),
{
    let mut s = String::new();
    match &row.name {
        Some(n) => s.append(n.as_str()),
        None => {
            if force_id {
                s.append("id:");
                push_decimal(&mut s, row.id);
            } else {
                push_decimal(&mut s, row.idx as u64);
            }
        },
    }
    assert(s@ =~= complete_token(*row, force_id));
    s.append("\tidx ");
    push_decimal(&mut s, row.idx as u64);
    s.append(" · id:");
    push_decimal(&mut s, row.id);
    s.append(" · ");
    match &row.output {
        Some(o) => s.append(o.as_str()),
        None => s.append("?"),
    }
    s.append(" · ");
    let ghost before_title = s@;
    match row.active_window_id {
        None => s.append("empty"),
        Some(w) => {
            match lookup_title(windows, w) {
                Some(k) => match &windows[k].title {
                    Some(t) => s.append(t.as_str()),
                    None => s.append("untitled"),
                },
                None => s.append("untitled"),
            }
        },
    }
    assert(s@ =~= before_title + description_title(*row, windows@));
    assert(s@ =~= complete_line_text(*row, windows@, force_id));
    s
}

/// The output of the first focused row, if any.
pub open spec fn focused_output(rows: Seq<WorkspaceRow>) -> Option<String>
    decreases rows.len(),
{
    if rows.len() == 0 {
        None
    } else if rows[0].is_focused {
        rows[0].output
    } else {
        focused_output(rows.drop_first())
    }
}

/// The row sits on the focused output (both outputs known and equal).
pub open spec fn on_output(row: WorkspaceRow, focused: Option<String>) -> bool {
    row.output is Some && focused is Some && row.output->0@ == focused->0@
}

/// The output of the first focused row.
fn find_focused_output(rows: &Vec<WorkspaceRow>) -> (r: Option<String>)
    ensures
        r == focused_output(rows@),
{
    let mut i: usize = 0;
    assert(rows@.subrange(0, rows@.len() as int) =~= rows@);
    while i < rows.len()
        invariant
            i <= rows@.len(),
            focused_output(rows@) == focused_output(rows@.subrange(i as int, rows@.len() as int)),
        decreases rows@.len() - i,
    {
        let ghost rest = rows@.subrange(i as int, rows@.len() as int);
        assert(rest[0] == rows@[i as int]);
        if rows[i].is_focused {
            return clone_opt(&rows[i].output);
        }
        assert(rest.drop_first() =~= rows@.subrange(i + 1, rows@.len() as int));
        i = i + 1;
    }
    None
}

/// Whether the row sits on the focused output.
fn is_on_output(row: &WorkspaceRow, focused: &Option<String>) -> (r: bool)
    ensures
        r == on_output(*row, *focused),
{
    match (&row.output, focused) {
        (Some(a), Some(b)) => str_eq(a.as_str(), b.as_str()),
        _ => false,
    }
}

/// Completion rows (`token\tdescription`) for the current activity's
/// workspaces (all workspaces on vanilla niri), in inventory order. Unnamed
/// workspaces complete by index on the focused output and by `id:N`
/// elsewhere.
pub fn complete_rows(workspaces: &Vec<WorkspaceRow>, windows: &Vec<WindowRow>) -> (r: Vec<String>)
    ensures
        r@.len() == current_rows(workspaces@).len(),
        forall|i: int| 0 <= i < r@.len() ==> #[trigger] r@[i]@ == complete_line_text(
            current_rows(workspaces@)[i],
            windows@,
            !on_output(current_rows(workspaces@)[i], focused_output(workspaces@)),
        ),
{
    let focused = find_focused_output(workspaces);
    let ghost f = focused_output(workspaces@);
    let mut r: Vec<String> = Vec::new();
    let mut i: usize = 0;
    while i < workspaces.len()
        invariant
            focused == f,
            f == focused_output(workspaces@),
            i <= workspaces@.len(),
            r@.len() == current_rows(workspaces@.take(i as int)).len(),
            forall|k: int| 0 <= k < r@.len() ==> #[trigger] r@[k]@ == complete_line_text(
                current_rows(workspaces@.take(i as int))[k],
                windows@,
                !on_output(current_rows(workspaces@.take(i as int))[k], f),
            ),
        decreases workspaces@.len() - i,
    {
        let row = &workspaces[i];
        proof {
            lemma_filter_step(workspaces@, |r: WorkspaceRow| in_current_activity(r), i as int);
        }
        if row.is_in_active_activity != Some(false) {
            let on = is_on_output(row, &focused);
            r.push(complete_line(row, windows, !on));
        }
        i = i + 1;
    }
    proof {
        lemma_take_all(workspaces@);
    }
    r
}

/// Completion rows for `activity`'s workspaces. Unnamed rows always complete
/// by `id:N` (the compositor rejects bare indices with an activity
/// qualifier). An error when no activity has that name.
pub fn complete_rows_in_activity(
    workspaces: &Vec<WorkspaceRow>,
    activities: &Vec<ActivityRow>,
    windows: &Vec<WindowRow>,
    activity: &str,
) -> (r: Result<Vec<String>, VerbError>)
    ensures
        match first_named(activities@, activity@) {
            None => r matches Err(VerbError::UnknownActivity(n)) && n@ == activity@,
            Some(k) => r matches Ok(v) && v@.len() == member_rows(workspaces@, activities@[k].id).len()
                && forall|i: int| 0 <= i < v@.len() ==> #[trigger] v@[i]@ == complete_line_text(
                member_rows(workspaces@, activities@[k].id)[i],
                windows@,
                true,
            ),
        },
{
    let k = match find_activity(activities, activity) {
        Some(k) => k,
        None => return Err(VerbError::UnknownActivity(owned(activity))),
    };
    proof {
        lemma_first_named_bounds(activities@, activity@);
    }
    let id = activities[k].id;
    let members = rows_of_activity(workspaces, id);
    let ghost m = member_rows(workspaces@, id);
    let mut r: Vec<String> = Vec::new();
    let mut i: usize = 0;
    while i < members.len()
        invariant
            members@.len() == m.len(),
            forall|j: int| 0 <= j < members@.len() ==> #[trigger] members@[j] < workspaces@.len()
                && workspaces@[members@[j] as int] == m[j],
            i <= members@.len(),
            r@.len() == i,
            forall|j: int| 0 <= j < i ==> #[trigger] r@[j]@ == complete_line_text(m[j], windows@, true),
        decreases members@.len() - i,
    {
        assert(workspaces@[members@[i as int] as int] == m[i as int]);
        r.push(complete_line(&workspaces[members[i]], windows, true));
        i = i + 1;
    }
    Ok(r)
}

/// The recency key of an activity: `last_active_seq` when the compositor
/// sends it, else 1 for the active activity and 0 for the others.
pub open spec fn mru_key(r: ActivityRow) -> u64 {
    match r.last_active_seq {
        Some(s) => s,
        None => if r.is_active {
            1u64
        } else {
            0u64
        },
    }
}

/// Sort keys that order activities most recent first.
pub open spec fn mru_sort_keys(acts: Seq<ActivityRow>) -> Seq<u64> {
    Seq::new(acts.len(), |i: int| (u64::MAX - mru_key(acts[i])) as u64)
}

/// `p` orders `acts` most recently used first, stably (ties keep inventory
/// order).
pub open spec fn mru_order(acts: Seq<ActivityRow>, p: Seq<usize>) -> bool {
    stable_sort_of(mru_sort_keys(acts), p)
}

/// The recency key of an activity.
fn recency(r: &ActivityRow) -> (k: u64)
    ensures
        k == mru_key(*r),
{
    match r.last_active_seq {
        Some(s) => s,
        None => if r.is_active {
            1
        } else {
            0
        },
    }
}

/// The most-recently-used order of `acts`.
fn mru_permutation(acts: &Vec<ActivityRow>) -> (p: Vec<usize>)
    ensures
        mru_order(acts@, p@),
{
    let mut keys: Vec<u64> = Vec::new();
    let mut i: usize = 0;
    while i < acts.len()
        invariant
            i <= acts@.len(),
            keys@.len() == i,
            forall|k: int| 0 <= k < i ==> #[trigger] keys@[k] == (u64::MAX - mru_key(acts@[k])) as u64,
        decreases acts@.len() - i,
    {
        keys.push(u64::MAX - recency(&acts[i]));
        i = i + 1;
    }
    assert(keys@ =~= mru_sort_keys(acts@));
    stable_order(&keys)
}

/// The activities, most recently used first (ties keep inventory order).
pub open spec fn mru_rows(acts: Seq<ActivityRow>) -> Seq<ActivityRow> {
    sorted_by(acts, mru_sort_keys(acts))
}

/// The activity names, most recently used first.
pub open spec fn mru_names(acts: Seq<ActivityRow>) -> Seq<Seq<char>> {
    Seq::new(mru_rows(acts).len(), |i: int| mru_rows(acts)[i].name@)
}

/// Activity names for the picker, most recently used first, so the
/// preselected first row is the likeliest target. The key is
/// `last_active_seq` (descending); older compositors without it put the
/// active activity first and keep the rest in inventory order.
pub fn activity_names_mru(acts: &Vec<ActivityRow>) -> (r: Vec<String>)
    ensures
        texts(r@) == mru_names(acts@),
{
    let p = mru_permutation(acts);
    let mut r: Vec<String> = Vec::new();
    let mut i: usize = 0;
    while i < p.len()
        invariant
            mru_order(acts@, p@),
            i <= p@.len(),
            r@.len() == i,
            forall|k: int| 0 <= k < i ==> #[trigger] r@[k]@ == acts@[p@[k] as int].name@,
        decreases p@.len() - i,
    {
        assert(p@[i as int] < acts@.len());
        r.push(acts[p[i]].name.clone());
        i = i + 1;
    }
    proof {
        lemma_sorted_order_is(mru_sort_keys(acts@), p@);
    }
    assert(texts(r@) =~= mru_names(acts@));
    r
}

/// One `(activity, workspace)` membership row of the all-activities picker.
#[derive(Debug, PartialEq, Eq)]
pub struct AllWorkspaceRow {
    pub activity_name: String,
    pub ws_id: u64,
    /// `"<activity>: <workspace>"`, with `" (current)"` on the focused
    /// workspace of the active activity. Shown in the picker and used to
    /// resolve the pick.
    pub label: String,
}

/// The label of the membership of `w` in `act`.
pub open spec fn membership_label(act: ActivityRow, w: WorkspaceRow) -> Seq<char> {
    act.name@ + ": "@ + workspace_label(w.name, w.output, w.id) + (if act.is_active && w.is_focused {
        " (current)"@
    } else {
        seq![]
    })
}

impl AllWorkspaceRow {
    /// The row stands for the membership of `w` in `act`.
    pub open spec fn shows(self, act: ActivityRow, w: WorkspaceRow) -> bool {
        &&& self.activity_name@ == act.name@
        &&& self.ws_id == w.id
        &&& self.label@ == membership_label(act, w)
    }
}

/// The memberships in picker order: for each activity in `order`, its
/// workspaces in inventory order.
pub open spec fn memberships(
    acts: Seq<ActivityRow>,
    ws: Seq<WorkspaceRow>,
    order: Seq<usize>,
) -> Seq<(ActivityRow, WorkspaceRow)>
    decreases order.len(),
{
    if order.len() == 0 {
        seq![]
    } else {
        let a = acts[order.last() as int];
        let m = member_rows(ws, a.id);
        memberships(acts, ws, order.drop_last()) + Seq::new(m.len(), |j: int| (a, m[j]))
    }
}

/// The activity order of the all-activities picker, as positions in
/// `acts`: most recently used first, then the active activity's group moved
/// last (its workspaces are mostly reached through the plain picker).
pub open spec fn group_indices(acts: Seq<ActivityRow>) -> Seq<usize> {
    let p1 = sorted_order(mru_sort_keys(acts));
    permute(
        p1,
        sorted_order(
            Seq::new(p1.len(), |k: int| if acts[p1[k] as int].is_active { 1u64 } else { 0u64 }),
        ),
    )
}

fn membership_row(act: &ActivityRow, w: &WorkspaceRow) -> (r: AllWorkspaceRow)
    ensures
        r.shows(*act, *w),
{
    let mut label = act.name.clone();
    label.append(": ");
    let wl = label_for_workspace(&w.name, &w.output, w.id);
    label.append(wl.as_str());
    if act.is_active && w.is_focused {
        label.append(" (current)");
    }
    assert(label@ =~= membership_label(*act, *w));
    AllWorkspaceRow { activity_name: act.name.clone(), ws_id: w.id, label }
}

/// The all-activities picker rows: one per (activity, workspace)
/// membership — a workspace shared by several activities repeats under each,
/// and the row's activity decides where the switch lands. Groups are
/// most-recently-used first with the active activity's group last; the
/// focused workspace's row in the active group is marked `" (current)"`.
/// Memberships naming an activity id missing from the activities payload
/// produce no row.
pub fn all_workspace_rows(
    workspaces: &Vec<WorkspaceRow>,
    activities: &Vec<ActivityRow>,
) -> (r: Vec<AllWorkspaceRow>)
    ensures
        r@.len() == memberships(activities@, workspaces@, group_indices(activities@)).len(),
        forall|i: int| 0 <= i < r@.len() ==> #[trigger] r@[i].shows(
            memberships(activities@, workspaces@, group_indices(activities@))[i].0,
            memberships(activities@, workspaces@, group_indices(activities@))[i].1,
        ),
{
    let p1 = mru_permutation(activities);
    let mut keys2: Vec<u64> = Vec::new();
    let mut i: usize = 0;
    while i < p1.len()
        invariant
            mru_order(activities@, p1@),
            i <= p1@.len(),
            keys2@.len() == i,
            forall|k: int| 0 <= k < i ==> #[trigger] keys2@[k] == (if activities@[p1@[k] as int].is_active { 1u64 } else { 0u64 }),
        decreases p1@.len() - i,
    {
        assert(p1@[i as int] < activities@.len());
        keys2.push(if activities[p1[i]].is_active { 1 } else { 0 });
        i = i + 1;
    }
    let ghost k2 = Seq::new(p1@.len(), |k: int| if activities@[p1@[k] as int].is_active { 1u64 } else { 0u64 });
    assert(keys2@ =~= k2);
    let p2 = stable_order(&keys2);
    let mut q: Vec<usize> = Vec::new();
    let mut j: usize = 0;
    while j < p2.len()
        invariant
            stable_sort_of(keys2@, p2@),
            p1@.len() == activities@.len(),
            keys2@.len() == p1@.len(),
            forall|k: int| 0 <= k < p1@.len() ==> #[trigger] p1@[k] < activities@.len(),
            j <= p2@.len(),
            q@.len() == j,
            forall|k: int| 0 <= k < j ==> #[trigger] q@[k] == p1@[p2@[k] as int],
        decreases p2@.len() - j,
    {
        assert(p2@[j as int] < p1@.len());
        q.push(p1[p2[j]]);
        j = j + 1;
    }
    proof {
        lemma_sorted_order_is(mru_sort_keys(activities@), p1@);
        lemma_sorted_order_is(k2, p2@);
        assert(q@ =~= group_indices(activities@));
    }
    assert forall|k: int| 0 <= k < q@.len() implies #[trigger] q@[k] < activities@.len() by {
        assert(p2@[k] < p1@.len());
    }
    let mut r: Vec<AllWorkspaceRow> = Vec::new();
    let mut g: usize = 0;
    while g < q.len()
        invariant
            forall|k: int| 0 <= k < q@.len() ==> #[trigger] q@[k] < activities@.len(),
            g <= q@.len(),
            r@.len() == memberships(activities@, workspaces@, q@.take(g as int)).len(),
            forall|i: int| 0 <= i < r@.len() ==> #[trigger] r@[i].shows(
                memberships(activities@, workspaces@, q@.take(g as int))[i].0,
                memberships(activities@, workspaces@, q@.take(g as int))[i].1,
            ),
        decreases q@.len() - g,
    {
        let act = &activities[q[g]];
        let members = rows_of_activity(workspaces, act.id);
        let ghost m = member_rows(workspaces@, act.id);
        let ghost before = memberships(activities@, workspaces@, q@.take(g as int));
        let ghost after = memberships(activities@, workspaces@, q@.take(g + 1));
        proof {
            assert(q@.take(g + 1).drop_last() =~= q@.take(g as int));
            assert(q@.take(g + 1).last() == q@[g as int]);
            assert(after == before + Seq::new(m.len(), |j: int| (*act, m[j])));
        }
        let mut t: usize = 0;
        while t < members.len()
            invariant
                members@.len() == m.len(),
                forall|x: int| 0 <= x < members@.len() ==> #[trigger] members@[x] < workspaces@.len()
                    && workspaces@[members@[x] as int] == m[x],
                after == before + Seq::new(m.len(), |j: int| (*act, m[j])),
                t <= members@.len(),
                r@.len() == before.len() + t,
                forall|i: int| 0 <= i < r@.len() ==> #[trigger] r@[i].shows(after[i].0, after[i].1),
            decreases members@.len() - t,
        {
            assert(workspaces@[members@[t as int] as int] == m[t as int]);
            assert(after[before.len() + t] == (*act, m[t as int]));
            r.push(membership_row(act, &workspaces[members[t]]));
            t = t + 1;
        }
        g = g + 1;
    }
    assert(q@.take(q@.len() as int) =~= q@);
    r
}

/// One output of `niri msg --json outputs`. The payload is an object keyed
/// by connector name; each entry becomes one row.
#[derive(Debug)]
pub struct OutputRow {
    pub connector: String,
    pub make: String,
    pub model: String,
}

/// An output as offered in the monitor picker.
#[derive(Debug, PartialEq, Eq)]
pub struct OutputChoice {
    /// Connector name (e.g. `DP-1`), the value passed to actions.
    pub connector: String,
    /// `<connector> (<make> <model>)`.
    pub label: String,
}

/// The picker label of an output.
pub open spec fn output_label(r: OutputRow) -> Seq<char> {
    r.connector@ + " ("@ + r.make@ + " "@ + r.model@ + ")"@
}

impl OutputChoice {
    /// The choice shows output `r`.
    pub open spec fn shows(self, r: OutputRow) -> bool {
        &&& self.connector@ == r.connector@
        &&& self.label@ == output_label(r)
    }
}

/// The connector names of the rows, in order.
pub open spec fn connector_keys(rows: Seq<OutputRow>) -> Seq<String> {
    Seq::new(rows.len(), |i: int| rows[i].connector)
}

/// The outputs sorted by connector name.
pub open spec fn sorted_outputs(rows: Seq<OutputRow>) -> Seq<OutputRow> {
    sorted_by(rows, connector_keys(rows))
}

/// Picker choices for the monitor pickers, sorted by connector name.
pub fn output_choices(rows: &Vec<OutputRow>) -> (r: Vec<OutputChoice>)
    ensures
        r@.len() == sorted_outputs(rows@).len(),
        forall|i: int| 0 <= i < r@.len() ==> #[trigger] r@[i].shows(sorted_outputs(rows@)[i]),
{
    let mut keys: Vec<String> = Vec::new();
    let mut i: usize = 0;
    while i < rows.len()
        invariant
            i <= rows@.len(),
            keys@.len() == i,
            forall|k: int| 0 <= k < i ==> #[trigger] keys@[k] == rows@[k].connector,
        decreases rows@.len() - i,
    {
        keys.push(rows[i].connector.clone());
        i = i + 1;
    }
    assert(keys@ =~= connector_keys(rows@));
    let p = stable_order(&keys);
    let mut r: Vec<OutputChoice> = Vec::new();
    let mut j: usize = 0;
    while j < p.len()
        invariant
            stable_sort_of(connector_keys(rows@), p@),
            j <= p@.len(),
            r@.len() == j,
            forall|k: int| 0 <= k < j ==> #[trigger] r@[k].shows(rows@[p@[k] as int]),
        decreases p@.len() - j,
    {
        assert(p@[j as int] < rows@.len());
        let row = &rows[p[j]];
        let mut label = row.connector.clone();
        label.append(" (");
        label.append(row.make.as_str());
        label.append(" ");
        label.append(row.model.as_str());
        label.append(")");
        assert(label@ =~= output_label(*row));
        r.push(OutputChoice { connector: row.connector.clone(), label });
        j = j + 1;
    }
    proof {
        lemma_sorted_order_is(connector_keys(rows@), p@);
    }
    r
}

/// One row of `niri msg --json casts`. Several rows may share a session (one
/// session, several streams).
#[derive(Debug, Clone, Copy)]
pub struct CastRow {
    pub session_id: u64,
    pub pid: Option<i32>,
}

/// A screencast session as offered in the stop-cast picker.
#[derive(Debug, PartialEq, Eq)]
pub struct CastChoice {
    pub session_id: u64,
    pub label: String,
}

/// `session <id>`, followed by ` (pid <pid>)` when the pid is known.
pub open spec fn cast_label(r: CastRow) -> Seq<char> {
    match r.pid {
        Some(pid) => "session "@ + decimal(r.session_id as nat) + " (pid "@ + signed_decimal(pid as int)
            + ")"@,
        None => "session "@ + decimal(r.session_id as nat),
    }
}

impl CastChoice {
    /// The choice shows cast row `r`.
    pub open spec fn shows(self, r: CastRow) -> bool {
        &&& self.session_id == r.session_id
        &&& self.label@ == cast_label(r)
    }
}

/// Whether some row of `s` belongs to session `id`.
pub open spec fn has_session(s: Seq<CastRow>, id: u64) -> bool {
    exists|j: int| 0 <= j < s.len() && #[trigger] s[j].session_id == id
}

/// The first row of each session, in inventory order.
pub open spec fn first_per_session(rows: Seq<CastRow>) -> Seq<CastRow>
    decreases rows.len(),
{
    if rows.len() == 0 {
        seq![]
    } else {
        let d = first_per_session(rows.drop_last());
        if has_session(d, rows.last().session_id) {
            d
        } else {
            d.push(rows.last())
        }
    }
}

/// The session ids of the rows, in order.
pub open spec fn session_keys(rows: Seq<CastRow>) -> Seq<u64> {
    Seq::new(rows.len(), |i: int| rows[i].session_id)
}

/// Keeping the first row of each session never adds rows.
pub(crate) proof fn lemma_first_per_session_len(rows: Seq<CastRow>)
    ensures
        first_per_session(rows).len() <= rows.len(),
    decreases rows.len(),
{
    if rows.len() > 0 {
        lemma_first_per_session_len(rows.drop_last());
    }
}

proof fn lemma_first_per_session_distinct(rows: Seq<CastRow>)
    ensures
        forall|i: int, j: int|
            0 <= i < first_per_session(rows).len() && 0 <= j < first_per_session(rows).len() && i
                != j ==> #[trigger] first_per_session(rows)[i].session_id
                != #[trigger] first_per_session(rows)[j].session_id,
    decreases rows.len(),
{
    if rows.len() > 0 {
        lemma_first_per_session_distinct(rows.drop_last());
    }
}

/// Whether some row of `s` belongs to session `id`.
fn holds_session(s: &Vec<CastRow>, id: u64) -> (r: bool)
    ensures
        r == has_session(s@, id),
{
    let mut i: usize = 0;
    while i < s.len()
        invariant
            i <= s@.len(),
            forall|k: int| 0 <= k < i ==> s@[k].session_id != id,
        decreases s@.len() - i,
    {
        if s[i].session_id == id {
            return true;
        }
        i = i + 1;
    }
    false
}

fn cast_choice(row: &CastRow) -> (c: CastChoice)
    ensures
        c.shows(*row),
{
    let mut label = String::new();
    label.append("session ");
    push_decimal(&mut label, row.session_id);
    match row.pid {
        Some(pid) => {
            label.append(" (pid ");
            push_signed_decimal(&mut label, pid);
            label.append(")");
        },
        None => {},
    }
    assert(label@ =~= cast_label(*row));
    CastChoice { session_id: row.session_id, label }
}

/// The first row of each session, sorted by session id.
pub open spec fn sorted_sessions(rows: Seq<CastRow>) -> Seq<CastRow> {
    sorted_by(first_per_session(rows), session_keys(first_per_session(rows)))
}

/// Picker choices for the stop-cast picker: one per session (its first
/// row), sorted by session id, so no session is offered twice.
pub fn cast_choices(rows: &Vec<CastRow>) -> (r: Vec<CastChoice>)
    ensures
        r@.len() == sorted_sessions(rows@).len(),
        forall|i: int| 0 <= i < r@.len() ==> #[trigger] r@[i].shows(sorted_sessions(rows@)[i]),
        forall|i: int, j: int| 0 <= i < j < r@.len() ==> #[trigger] r@[i].session_id < #[trigger] r@[j].session_id,
{
    let mut kept: Vec<CastRow> = Vec::new();
    let mut i: usize = 0;
    while i < rows.len()
        invariant
            i <= rows@.len(),
            kept@ == first_per_session(rows@.take(i as int)),
        decreases rows@.len() - i,
    {
        assert(rows@.take(i + 1).drop_last() =~= rows@.take(i as int));
        assert(rows@.take(i + 1).last() == rows@[i as int]);
        if !holds_session(&kept, rows[i].session_id) {
            kept.push(rows[i]);
        }
        i = i + 1;
    }
    proof {
        lemma_take_all(rows@);
        lemma_first_per_session_distinct(rows@);
    }
    let ghost d = first_per_session(rows@);
    let mut keys: Vec<u64> = Vec::new();
    let mut k: usize = 0;
    while k < kept.len()
        invariant
            kept@ == d,
            k <= kept@.len(),
            keys@.len() == k,
            forall|m: int| 0 <= m < k ==> #[trigger] keys@[m] == d[m].session_id,
        decreases kept@.len() - k,
    {
        keys.push(kept[k].session_id);
        k = k + 1;
    }
    assert(keys@ =~= session_keys(d));
    let p = stable_order(&keys);
    let mut r: Vec<CastChoice> = Vec::new();
    let mut j: usize = 0;
    while j < p.len()
        invariant
            kept@ == d,
            stable_sort_of(session_keys(d), p@),
            j <= p@.len(),
            r@.len() == j,
            forall|m: int| 0 <= m < j ==> #[trigger] r@[m].shows(d[p@[m] as int]),
        decreases p@.len() - j,
    {
        assert(p@[j as int] < d.len());
        r.push(cast_choice(&kept[p[j]]));
        j = j + 1;
    }
    proof {
        assert forall|a: int, b: int| 0 <= a < b < r@.len() implies #[trigger] r@[a].session_id
            < #[trigger] r@[b].session_id by {
            let ka = session_keys(d)[p@[a] as int];
            let kb = session_keys(d)[p@[b] as int];
            assert(ka.key_le(kb));
            assert(r@[a].shows(d[p@[a] as int]));
            assert(r@[b].shows(d[p@[b] as int]));
            assert(p@[a] != p@[b]);
            assert(d[p@[a] as int].session_id != d[p@[b] as int].session_id);
        }
        lemma_sorted_order_is(session_keys(d), p@);
    }
    r
}

/// Workspace placement of a bookmark; absent while the bookmarked window's
/// workspace is being moved interactively.
#[derive(Debug)]
pub struct BookmarkWorkspace {
    pub id: u64,
    pub name: Option<String>,
    pub output: Option<String>,
}

/// One row of `niri msg --json bookmarks` (fork only).
#[derive(Debug)]
pub struct BookmarkRow {
    pub id: u64,
    pub position: u32,
    pub window_id: u64,
    pub title: Option<String>,
    pub app_id: Option<String>,
    pub workspace: Option<BookmarkWorkspace>,
    pub activity_name: Option<String>,
    pub key: Option<String>,
}

/// A bookmark as offered in the bookmark pickers; the key is kept so the
/// unassign picker can offer only key-bearing bookmarks.
#[derive(Debug, PartialEq, Eq)]
pub struct BookmarkChoice {
    pub id: u64,
    pub label: String,
    pub key: Option<String>,
}

/// The window part of a bookmark label: the title, else the app id (both
/// sanitised), else `window #<id>`.
pub open spec fn bookmark_window_text(r: BookmarkRow) -> Seq<char> {
    match r.title {
        Some(t) => sanitize(t@),
        None => match r.app_id {
            Some(a) => sanitize(a@),
            None => "window #"@ + decimal(r.window_id as nat),
        },
    }
}

/// The workspace part: the name, else `<output or ?> #<id>`, else
/// `(moving)` when the placement is unknown.
pub open spec fn bookmark_workspace_text(w: Option<BookmarkWorkspace>) -> Seq<char> {
    match w {
        Some(ws) => match ws.name {
            Some(n) => sanitize(n@),
            None => (match ws.output {
                Some(o) => sanitize(o@),
                None => "?"@,
            }) + " #"@ + decimal(ws.id as nat),
        },
        None => "(moving)"@,
    }
}

/// The activity part: the activity name, else `(removed)`.
pub open spec fn bookmark_activity_text(a: Option<String>) -> Seq<char> {
    match a {
        Some(n) => sanitize(n@),
        None => "(removed)"@,
    }
}

/// ` [<key>]` when a key is assigned.
pub open spec fn key_suffix(k: Option<String>) -> Seq<char> {
    match k {
        Some(key) => " ["@ + key@ + "]"@,
        None => seq![],
    }
}

/// The text a bookmark label starts from, before trailing white space is
/// trimmed.
pub open spec fn bookmark_label_text(r: BookmarkRow) -> Seq<char> {
    decimal(r.position as nat + 1) + ": "@ + bookmark_window_text(r) + " — "@
        + bookmark_workspace_text(r.workspace) + " · "@ + bookmark_activity_text(r.activity_name)
        + key_suffix(r.key)
}

/// The label of a bookmark:
/// `<position+1>: <window> — <workspace> · <activity>[ [<key>]]`, right-trimmed.
pub open spec fn bookmark_label(r: BookmarkRow) -> Seq<char> {
    trim_end(bookmark_label_text(r))
}

impl BookmarkChoice {
    /// The choice shows bookmark row `r`.
    pub open spec fn shows(self, r: BookmarkRow) -> bool {
        &&& self.id == r.id
        &&& self.label@ == bookmark_label(r)
        &&& self.key == r.key
    }
}

/// The positions of the rows, in order.
pub open spec fn position_keys(rows: Seq<BookmarkRow>) -> Seq<u64> {
    Seq::new(rows.len(), |i: int| rows[i].position as u64)
}

fn push_sanitized(s: &mut String, t: &str)
    ensures
        final(s)@ == old(s)@ + sanitize(t@),
{
    let c = sanitize_str(t);
    s.append(c.as_str());
}

fn bookmark_choice(r: &BookmarkRow) -> (c: BookmarkChoice)
    ensures
        c.shows(*r),
{
    let mut s = String::new();
    push_decimal(&mut s, r.position as u64 + 1);
    s.append(": ");
    let ghost w0 = s@;
    match &r.title {
        Some(t) => push_sanitized(&mut s, t.as_str()),
        None => match &r.app_id {
            Some(a) => push_sanitized(&mut s, a.as_str()),
            None => {
                s.append("window #");
                push_decimal(&mut s, r.window_id);
            },
        },
    }
    assert(s@ =~= w0 + bookmark_window_text(*r));
    s.append(" — ");
    let ghost w1 = s@;
    match &r.workspace {
        Some(ws) => match &ws.name {
            Some(n) => push_sanitized(&mut s, n.as_str()),
            None => {
                match &ws.output {
                    Some(o) => push_sanitized(&mut s, o.as_str()),
                    None => s.append("?"),
                }
                s.append(" #");
                push_decimal(&mut s, ws.id);
            },
        },
        None => s.append("(moving)"),
    }
    assert(s@ =~= w1 + bookmark_workspace_text(r.workspace));
    s.append(" · ");
    let ghost w2 = s@;
    match &r.activity_name {
        Some(a) => push_sanitized(&mut s, a.as_str()),
        None => s.append("(removed)"),
    }
    assert(s@ =~= w2 + bookmark_activity_text(r.activity_name));
    let ghost w3 = s@;
    match &r.key {
        Some(k) => {
            s.append(" [");
            s.append(k.as_str());
            s.append("]");
        },
        None => {},
    }
    assert(s@ =~= w3 + key_suffix(r.key));
    assert(s@ =~= bookmark_label_text(*r));
    let label = trim_end_str(s.as_str());
    BookmarkChoice { id: r.id, label, key: clone_opt(&r.key) }
}

/// The bookmarks sorted by position (ties keep inventory order).
pub open spec fn sorted_bookmarks(rows: Seq<BookmarkRow>) -> Seq<BookmarkRow> {
    sorted_by(rows, position_keys(rows))
}

/// Picker choices for the bookmark pickers, sorted by position (stably).
/// Every outside component of a label is sanitised and the label is
/// right-trimmed, so its position prefix keeps it unique (see
/// [`law_bookmark_labels_distinct`]).
pub fn bookmark_choices(rows: &Vec<BookmarkRow>) -> (r: Vec<BookmarkChoice>)
    ensures
        r@.len() == sorted_bookmarks(rows@).len(),
        forall|i: int| 0 <= i < r@.len() ==> #[trigger] r@[i].shows(sorted_bookmarks(rows@)[i]),
{
    let mut keys: Vec<u64> = Vec::new();
    let mut i: usize = 0;
    while i < rows.len()
        invariant
            i <= rows@.len(),
            keys@.len() == i,
            forall|k: int| 0 <= k < i ==> #[trigger] keys@[k] == rows@[k].position as u64,
        decreases rows@.len() - i,
    {
        keys.push(rows[i].position as u64);
        i = i + 1;
    }
    assert(keys@ =~= position_keys(rows@));
    let p = stable_order(&keys);
    let mut r: Vec<BookmarkChoice> = Vec::new();
    let mut j: usize = 0;
    while j < p.len()
        invariant
            stable_sort_of(position_keys(rows@), p@),
            j <= p@.len(),
            r@.len() == j,
            forall|k: int| 0 <= k < j ==> #[trigger] r@[k].shows(rows@[p@[k] as int]),
        decreases p@.len() - j,
    {
        assert(p@[j as int] < rows@.len());
        r.push(bookmark_choice(&rows[p[j]]));
        j = j + 1;
    }
    proof {
        lemma_sorted_order_is(position_keys(rows@), p@);
    }
    r
}

proof fn lemma_label_prefix(r: BookmarkRow)
    ensures
        decimal(r.position as nat + 1).len() < bookmark_label(r).len(),
        forall|j: int|
            0 <= j < decimal(r.position as nat + 1).len() ==> #[trigger] bookmark_label(r)[j]
                == decimal(r.position as nat + 1)[j],
        bookmark_label(r)[decimal(r.position as nat + 1).len() as int] == ':',
{
    let d = decimal(r.position as nat + 1);
    let x = bookmark_label_text(r);
    reveal_strlit(": ");
    let y = d + ": "@;
    assert(y[d.len() as int] == ':');
    assert(x.len() >= y.len());
    assert(x[d.len() as int] == y[d.len() as int]) by {
        assert(x.subrange(0, y.len() as int) =~= y);
    }
    assert(!is_ws(':'));
    lemma_trim_end_keeps(x, d.len() as int);
    assert forall|j: int| 0 <= j < d.len() implies #[trigger] bookmark_label(r)[j] == d[j] by {
        assert(x[j] == d[j]);
    }
}

/// Bookmarks at different positions get different labels, so resolving a
/// picked label by first match always finds the bookmark that was shown.
pub proof fn law_bookmark_labels_distinct(a: BookmarkRow, b: BookmarkRow)
    requires
        a.position != b.position,
    ensures
        bookmark_label(a) != bookmark_label(b),
{
    let da = decimal(a.position as nat + 1);
    let db = decimal(b.position as nat + 1);
    lemma_label_prefix(a);
    lemma_label_prefix(b);
    lemma_decimal_digits(a.position as nat + 1);
    lemma_decimal_digits(b.position as nat + 1);
    if bookmark_label(a) == bookmark_label(b) {
        let l = bookmark_label(a);
        if da.len() < db.len() {
            assert(l[da.len() as int] == ':');
            assert(l[da.len() as int] == db[da.len() as int]);
            assert(is_digit(db[da.len() as int]));
        } else if db.len() < da.len() {
            assert(l[db.len() as int] == ':');
            assert(l[db.len() as int] == da[db.len() as int]);
            assert(is_digit(da[db.len() as int]));
        } else {
            assert forall|j: int| 0 <= j < da.len() implies da[j] == db[j] by {
                assert(bookmark_label(a)[j] == da[j]);
                assert(bookmark_label(b)[j] == db[j]);
            }
            assert(da =~= db);
            lemma_decimal_injective(a.position as nat + 1, b.position as nat + 1);
        }
    }
}

/// A `niri msg --json` request whose payload a verb reads.
#[derive(Debug, Clone, Copy, PartialEq, Eq, Structural)]
pub enum Query {
    Workspaces,
    Windows,
    Activities,
    Outputs,
    Casts,
    Bookmarks,
}

/// The request name of a query.
pub open spec fn query_name(q: Query) -> Seq<char> {
    match q {
        Query::Workspaces => "workspaces"@,
        Query::Windows => "windows"@,
        Query::Activities => "activities"@,
        Query::Outputs => "outputs"@,
        Query::Casts => "casts"@,
        Query::Bookmarks => "bookmarks"@,
    }
}

/// `niri msg --json <query>`.
pub open spec fn query_call(q: Query) -> InvocationView {
    niri_call(seq!["msg"@, "--json"@, query_name(q)])
}

/// The invocation that reads a payload.
pub fn query(q: Query) -> (c: Invocation)
    ensures
        c@ == query_call(q),
{
    let mut v: Vec<String> = Vec::new();
    push_arg(&mut v, owned("msg"));
    push_arg(&mut v, owned("--json"));
    let name = match q {
        Query::Workspaces => "workspaces",
        Query::Windows => "windows",
        Query::Activities => "activities",
        Query::Outputs => "outputs",
        Query::Casts => "casts",
        Query::Bookmarks => "bookmarks",
    };
    push_arg(&mut v, owned(name));
    assert(texts(v@) =~= seq!["msg"@, "--json"@, query_name(q)]);
    niri(v)
}

/// `niri msg action <args…>`.
pub open spec fn action_call(args: Seq<Seq<char>>) -> InvocationView {
    niri_call(seq!["msg"@, "action"@] + args)
}

/// `msg action <verb>` as an argument vector.
fn action_args(verb: &str) -> (v: Vec<String>)
    ensures
        texts(v@) == seq!["msg"@, "action"@, verb@],
{
    let mut v: Vec<String> = Vec::new();
    push_arg(&mut v, owned("msg"));
    push_arg(&mut v, owned("action"));
    push_arg(&mut v, owned(verb));
    assert(texts(v@) =~= seq!["msg"@, "action"@, verb@]);
    v
}

/// A compositor action without arguments: `niri msg action <name>`.
pub fn run_action(name: &str) -> (c: Invocation)
    ensures
        c@ == action_call(seq![name@]),
{
    let v = action_args(name);
    assert(seq!["msg"@, "action"@] + seq![name@] =~= seq!["msg"@, "action"@, name@]);
    niri(v)
}

/// A compositor action with one argument.
pub fn action_with(verb: &str, arg: &str) -> (c: Invocation)
    ensures
        c@ == action_call(seq![verb@, arg@]),
{
    let mut v = action_args(verb);
    push_arg(&mut v, owned(arg));
    assert(texts(v@) =~= seq!["msg"@, "action"@] + seq![verb@, arg@]);
    niri(v)
}

/// A compositor action addressing an id: `<verb> --id <id>`.
fn action_on_id(verb: &str, id: u64) -> (v: Vec<String>)
    ensures
        texts(v@) == seq!["msg"@, "action"@, verb@, "--id"@, decimal(id as nat)],
{
    let mut v = action_args(verb);
    push_arg(&mut v, owned("--id"));
    push_arg(&mut v, crate::text::decimal_string(id));
    assert(texts(v@) =~= seq!["msg"@, "action"@, verb@, "--id"@, decimal(id as nat)]);
    v
}

/// Lands in `activity` with the referenced workspace focused:
/// `focus-workspace --activity <activity> <reference>`. The reference is
/// either `id:<N>` built by the picker or text the user typed, forwarded
/// verbatim.
pub fn focus_workspace_in_activity(activity: &ActivityName, reference: &str) -> (c: Invocation)
    ensures
        c@ == action_call(seq!["focus-workspace"@, "--activity"@, activity@, reference@]),
{
    let mut v = action_args("focus-workspace");
    push_arg(&mut v, owned("--activity"));
    push_arg(&mut v, owned(activity.as_str()));
    push_arg(&mut v, owned(reference));
    assert(texts(v@) =~= seq!["msg"@, "action"@] + seq![
        "focus-workspace"@,
        "--activity"@,
        activity@,
        reference@,
    ]);
    niri(v)
}

/// Focuses a workspace by a reference from [`WorkspaceChoice::focus_reference`].
pub fn focus_workspace(reference: &FocusReference) -> (c: Invocation)
    ensures
        c@ == action_call(seq!["focus-workspace"@, reference@]),
{
    action_with("focus-workspace", reference.as_arg())
}

/// Focuses a workspace by a reference the user typed, forwarded verbatim;
/// the compositor rejects a bad one loudly.
pub fn focus_workspace_typed(reference: &UserWorkspaceRef) -> (c: Invocation)
    ensures
        c@ == action_call(seq!["focus-workspace"@, reference@]),
{
    action_with("focus-workspace", reference.as_str())
}

/// The `--focus <bool>` tail, present only when the flag was given.
pub open spec fn focus_tail(focus: Option<bool>) -> Seq<Seq<char>> {
    match focus {
        Some(true) => seq!["--focus"@, "true"@],
        Some(false) => seq!["--focus"@, "false"@],
        None => seq![],
    }
}

/// The argument vector of a `move-window-to-new-workspace-*` action:
/// `msg action <action>`, then `--focus true|false` when `focus` is given
/// (absent, the compositor default applies).
pub fn move_to_new_workspace_argv(action: &str, focus: Option<bool>) -> (v: Vec<String>)
    ensures
        texts(v@) == seq!["msg"@, "action"@, action@] + focus_tail(focus),
{
    let mut v = action_args(action);
    match focus {
        Some(b) => {
            push_arg(&mut v, owned("--focus"));
            push_arg(&mut v, owned(if b { "true" } else { "false" }));
        },
        None => {},
    }
    assert(texts(v@) =~= seq!["msg"@, "action"@, action@] + focus_tail(focus));
    v
}

/// Moves the focused window to a new workspace above the current one
/// (fork only).
pub fn move_window_to_new_workspace_up(focus: Option<bool>) -> (c: Invocation)
    ensures
        c@ == action_call(seq!["move-window-to-new-workspace-up"@] + focus_tail(focus)),
{
    let v = move_to_new_workspace_argv("move-window-to-new-workspace-up", focus);
    assert(seq!["msg"@, "action"@, "move-window-to-new-workspace-up"@] + focus_tail(focus) =~= seq![
        "msg"@,
        "action"@,
    ] + (seq!["move-window-to-new-workspace-up"@] + focus_tail(focus)));
    niri(v)
}

/// Moves the focused window to a new workspace below the current one
/// (fork only).
pub fn move_window_to_new_workspace_down(focus: Option<bool>) -> (c: Invocation)
    ensures
        c@ == action_call(seq!["move-window-to-new-workspace-down"@] + focus_tail(focus)),
{
    let v = move_to_new_workspace_argv("move-window-to-new-workspace-down", focus);
    assert(seq!["msg"@, "action"@, "move-window-to-new-workspace-down"@] + focus_tail(focus)
        =~= seq!["msg"@, "action"@] + (seq!["move-window-to-new-workspace-down"@] + focus_tail(
        focus,
    )));
    niri(v)
}

/// Reloads the current config file (`load-config-file` without a path).
pub fn reload_config() -> (c: Invocation)
    ensures
        c@ == action_call(seq!["load-config-file"@]),
{
    run_action("load-config-file")
}

/// Quits the compositor without its own confirmation dialog.
pub fn quit_skip_confirmation() -> (c: Invocation)
    ensures
        c@ == action_call(seq!["quit"@, "--skip-confirmation"@]),
{
    action_with("quit", "--skip-confirmation")
}

/// Names the focused workspace.
pub fn set_workspace_name(name: &str) -> (c: Invocation)
    ensures
        c@ == action_call(seq!["set-workspace-name"@, name@]),
{
    action_with("set-workspace-name", name)
}

/// `niri msg <request>`: a top-level request that is not an action.
fn request(name: &str) -> (c: Invocation)
    ensures
        c@ == niri_call(seq!["msg"@, name@]),
{
    let mut v: Vec<String> = Vec::new();
    push_arg(&mut v, owned("msg"));
    push_arg(&mut v, owned(name));
    assert(texts(v@) =~= seq!["msg"@, name@]);
    niri(v)
}

/// The compositor's interactive window picker; it prints a summary of the
/// picked window.
pub fn pick_window() -> (c: Invocation)
    ensures
        c@ == niri_call(seq!["msg"@, "pick-window"@]),
{
    request("pick-window")
}

/// The compositor's interactive color picker; it prints the picked color.
pub fn pick_color() -> (c: Invocation)
    ensures
        c@ == niri_call(seq!["msg"@, "pick-color"@]),
{
    request("pick-color")
}

/// Focuses a monitor by connector name.
pub fn focus_monitor(connector: &str) -> (c: Invocation)
    ensures
        c@ == action_call(seq!["focus-monitor"@, connector@]),
{
    action_with("focus-monitor", connector)
}

/// Moves the focused window to a monitor.
pub fn move_window_to_monitor(connector: &str) -> (c: Invocation)
    ensures
        c@ == action_call(seq!["move-window-to-monitor"@, connector@]),
{
    action_with("move-window-to-monitor", connector)
}

/// Moves the focused column to a monitor.
pub fn move_column_to_monitor(connector: &str) -> (c: Invocation)
    ensures
        c@ == action_call(seq!["move-column-to-monitor"@, connector@]),
{
    action_with("move-column-to-monitor", connector)
}

/// Moves the focused workspace to a monitor.
pub fn move_workspace_to_monitor(connector: &str) -> (c: Invocation)
    ensures
        c@ == action_call(seq!["move-workspace-to-monitor"@, connector@]),
{
    action_with("move-workspace-to-monitor", connector)
}

/// Stops a screencast session: `stop-cast --session-id <id>`.
pub fn stop_cast(session_id: u64) -> (c: Invocation)
    ensures
        c@ == action_call(seq!["stop-cast"@, "--session-id"@, decimal(session_id as nat)]),
{
    let mut v = action_args("stop-cast");
    push_arg(&mut v, owned("--session-id"));
    push_arg(&mut v, crate::text::decimal_string(session_id));
    assert(texts(v@) =~= seq!["msg"@, "action"@] + seq![
        "stop-cast"@,
        "--session-id"@,
        decimal(session_id as nat),
    ]);
    niri(v)
}

/// Jumps to a bookmark.
pub fn jump_to_bookmark(id: u64) -> (c: Invocation)
    ensures
        c@ == action_call(seq!["jump-to-bookmark"@, "--id"@, decimal(id as nat)]),
{
    let v = action_on_id("jump-to-bookmark", id);
    assert(texts(v@) =~= seq!["msg"@, "action"@] + seq!["jump-to-bookmark"@, "--id"@, decimal(id as nat)]);
    niri(v)
}

/// Removes a bookmark.
pub fn remove_bookmark(id: u64) -> (c: Invocation)
    ensures
        c@ == action_call(seq!["remove-bookmark"@, "--id"@, decimal(id as nat)]),
{
    let v = action_on_id("remove-bookmark", id);
    assert(texts(v@) =~= seq!["msg"@, "action"@] + seq!["remove-bookmark"@, "--id"@, decimal(id as nat)]);
    niri(v)
}

/// Moves a bookmark to a 0-based position (the compositor clamps it).
pub fn move_bookmark(id: u64, pos: u32) -> (c: Invocation)
    ensures
        c@ == action_call(
            seq!["move-bookmark"@, "--id"@, decimal(id as nat), "--pos"@, decimal(pos as nat)],
        ),
{
    let mut v = action_on_id("move-bookmark", id);
    push_arg(&mut v, owned("--pos"));
    push_arg(&mut v, crate::text::decimal_string(pos as u64));
    assert(texts(v@) =~= seq!["msg"@, "action"@] + seq![
        "move-bookmark"@,
        "--id"@,
        decimal(id as nat),
        "--pos"@,
        decimal(pos as nat),
    ]);
    niri(v)
}

/// Assigns a key to a bookmark; the compositor owns key syntax and
/// collisions and rejects a bad key loudly.
pub fn assign_bookmark_key(id: u64, key: &str) -> (c: Invocation)
    ensures
        c@ == action_call(seq!["assign-bookmark-key"@, "--id"@, decimal(id as nat), "--key"@, key@]),
{
    let mut v = action_on_id("assign-bookmark-key", id);
    push_arg(&mut v, owned("--key"));
    push_arg(&mut v, owned(key));
    assert(texts(v@) =~= seq!["msg"@, "action"@] + seq![
        "assign-bookmark-key"@,
        "--id"@,
        decimal(id as nat),
        "--key"@,
        key@,
    ]);
    niri(v)
}

/// Unassigns a bookmark's key.
pub fn unassign_bookmark_key(id: u64) -> (c: Invocation)
    ensures
        c@ == action_call(seq!["unassign-bookmark-key"@, "--id"@, decimal(id as nat)]),
{
    let v = action_on_id("unassign-bookmark-key", id);
    assert(texts(v@) =~= seq!["msg"@, "action"@] + seq![
        "unassign-bookmark-key"@,
        "--id"@,
        decimal(id as nat),
    ]);
    niri(v)
}

/// Opens the compositor's press-a-key capture prompt for a bookmark;
/// validation, collisions and cancel are settled in the compositor overlay.
pub fn capture_bookmark_key(id: u64) -> (c: Invocation)
    ensures
        c@ == action_call(seq!["capture-bookmark-key"@, "--id"@, decimal(id as nat)]),
{
    let v = action_on_id("capture-bookmark-key", id);
    assert(texts(v@) =~= seq!["msg"@, "action"@] + seq![
        "capture-bookmark-key"@,
        "--id"@,
        decimal(id as nat),
    ]);
    niri(v)
}

} // verus!
