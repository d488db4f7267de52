//! fuzzel-backed pickers: the invocation and input a picker is run with,
//! how fuzzel's exit and output are read back, and how a picked label is
//! resolved to the choice it was shown for.

use vstd::prelude::*;
use crate::error::VerbError;
use crate::invocation::{Invocation, InvocationView, owned, push_arg, texts};
use crate::niri::{AllWorkspaceRow, BookmarkChoice, CastChoice, OutputChoice, WorkspaceChoice};
use crate::registry::{Verb, VerbId};
use crate::text::{
    chars_of, first_line, first_line_of, join, join_with, push_signed_decimal, signed_decimal,
    str_eq, trim, trim_str,
};

verus! {

/// A choice shown in a picker under a label.
pub trait Labeled {
    /// The label text.
    spec fn label_view(&self) -> Seq<char>;

    /// The label shown in the picker.
    fn label(&self) -> (s: &str)
        ensures
            s@ == self.label_view(),
    ;
}

impl Labeled for WorkspaceChoice {
    open spec fn label_view(&self) -> Seq<char> {
        self.label@
    }

    fn label(&self) -> (s: &str) {
        self.label.as_str()
    }
}

impl Labeled for OutputChoice {
    open spec fn label_view(&self) -> Seq<char> {
        self.label@
    }

    fn label(&self) -> (s: &str) {
        self.label.as_str()
    }
}

impl Labeled for CastChoice {
    open spec fn label_view(&self) -> Seq<char> {
        self.label@
    }

    fn label(&self) -> (s: &str) {
        self.label.as_str()
    }
}

impl Labeled for BookmarkChoice {
    open spec fn label_view(&self) -> Seq<char> {
        self.label@
    }

    fn label(&self) -> (s: &str) {
        self.label.as_str()
    }
}

impl Labeled for AllWorkspaceRow {
    open spec fn label_view(&self) -> Seq<char> {
        self.label@
    }

    fn label(&self) -> (s: &str) {
        self.label.as_str()
    }
}

impl Labeled for Verb {
    open spec fn label_view(&self) -> Seq<char> {
        self.label@
    }

    fn label(&self) -> (s: &str) {
        self.label
    }
}

/// The labels of the choices, in order.
pub open spec fn labels_of<T: Labeled>(s: Seq<T>) -> Seq<Seq<char>> {
    Seq::new(s.len(), |i: int| s[i].label_view())
}

/// The position of the first label equal to `l`.
pub open spec fn first_match(labels: Seq<Seq<char>>, l: Seq<char>) -> Option<int>
    decreases labels.len(),
{
    if labels.len() == 0 {
        None
    } else if labels[0] == l {
        Some(0)
    } else {
        match first_match(labels.drop_first(), l) {
            Some(k) => Some(k + 1),
            None => None,
        }
    }
}

/// What [`first_match`] finds.
pub proof fn lemma_first_match(labels: Seq<Seq<char>>, l: Seq<char>)
    ensures
        first_match(labels, l) matches Some(k) ==> {
            &&& 0 <= k < labels.len()
            &&& labels[k] == l
            &&& forall|j: int| 0 <= j < k ==> #[trigger] labels[j] != l
        },
        first_match(labels, l) is None ==> forall|j: int| 0 <= j < labels.len() ==> #[trigger] labels[j] != l,
    decreases labels.len(),
{
    if labels.len() > 0 {
        let t = labels.drop_first();
        lemma_first_match(t, l);
        assert forall|j: int| 0 < j < labels.len() implies #[trigger] labels[j] == t[j - 1] by {}
    }
}

/// The labels of the choices, as the picker lists them.
pub fn label_list<T: Labeled>(choices: &Vec<T>) -> (r: Vec<String>)
    ensures
        texts(r@) == labels_of(choices@),
{
    let mut r: Vec<String> = Vec::new();
    let mut i: usize = 0;
    while i < choices.len()
        invariant
            i <= choices@.len(),
            texts(r@) == labels_of(choices@).take(i as int),
        decreases choices@.len() - i,
    {
        push_arg(&mut r, owned(choices[i].label()));
        i = i + 1;
        assert(texts(r@) =~= labels_of(choices@).take(i as int));
    }
    assert(labels_of(choices@).take(choices@.len() as int) =~= labels_of(choices@));
    r
}

/// Position of the first choice labelled `picked`.
fn find_label<T: Labeled>(choices: &Vec<T>, picked: &str) -> (r: Option<usize>)
    ensures
        r matches Some(i) ==> first_match(labels_of(choices@), picked@) == Some(i as int),
        r is None ==> first_match(labels_of(choices@), picked@) is None,
{
    let ghost ls = labels_of(choices@);
    let mut i: usize = 0;
    assert(ls.subrange(0, ls.len() as int) =~= ls);
    while i < choices.len()
        invariant
            ls == labels_of(choices@),
            i <= choices@.len(),
            first_match(ls, picked@) == (match first_match(ls.subrange(i as int, ls.len() as int), picked@) {
                Some(k) => Some(k + i),
                None => None,
            }),
        decreases choices@.len() - i,
    {
        let ghost rest = ls.subrange(i as int, ls.len() as int);
        assert(rest[0] == ls[i as int]);
        if str_eq(choices[i].label(), picked) {
            return Some(i);
        }
        assert(rest.drop_first() =~= ls.subrange(i + 1, ls.len() as int));
        i = i + 1;
    }
    None
}

/// Resolves a label echoed by the picker back to the first choice shown
/// under it; an error when none matches, never a silent default.
pub fn resolve_by_label<'a, T: Labeled>(choices: &'a Vec<T>, picked: &str) -> (r: Result<&'a T, VerbError>)
    ensures
        match first_match(labels_of(choices@), picked@) {
            Some(k) => r matches Ok(c) && *c == choices@[k],
            None => r matches Err(VerbError::UnknownLabel(l)) && l@ == picked@,
        },
{
    proof {
        lemma_first_match(labels_of(choices@), picked@);
    }
    match find_label(choices, picked) {
        Some(k) => Ok(&choices[k]),
        None => Err(VerbError::UnknownLabel(owned(picked))),
    }
}

/// The verb picked from the launcher menu: the first enabled verb whose
/// label was echoed, or none.
pub fn render_menu(enabled: &Vec<Verb>, picked: &str) -> (r: Option<VerbId>)
    ensures
        match first_match(labels_of(enabled@), picked@) {
            Some(k) => r == Some(enabled@[k].id),
            None => r is None,
        },
{
    proof {
        lemma_first_match(labels_of(enabled@), picked@);
    }
    match find_label(enabled, picked) {
        Some(k) => Some(enabled[k].id),
        None => None,
    }
}

/// How fuzzel ended.
#[derive(Debug, Clone, Copy, PartialEq, Eq, Structural)]
pub enum FuzzelExit {
    /// Exit status 0.
    Success,
    /// Any other exit status; 1 means the user cancelled.
    Code(i32),
    /// Killed by a signal.
    Signal,
}

/// `fuzzel --dmenu --prompt <prompt>`.
pub open spec fn fuzzel_call(prompt: Seq<char>) -> InvocationView {
    InvocationView { program: "fuzzel"@, args: seq!["--dmenu"@, "--prompt"@, prompt] }
}

/// The fuzzel invocation of every picker, prompt and confirmation.
pub fn fuzzel(prompt: &str) -> (c: Invocation)
    ensures
        c@ == fuzzel_call(prompt@),
{
    let mut args: Vec<String> = Vec::new();
    push_arg(&mut args, owned("--dmenu"));
    push_arg(&mut args, owned("--prompt"));
    push_arg(&mut args, owned(prompt));
    assert(texts(args@) =~= seq!["--dmenu"@, "--prompt"@, prompt@]);
    Invocation { program: owned("fuzzel"), args }
}

/// What a picker writes to fuzzel: the items, one per line.
pub fn pick_input(items: &Vec<String>) -> (s: String)
    ensures
        s@ == join(texts(items@), "\n"@),
{
    join_with(items, "\n")
}

/// What a confirmation writes to fuzzel: `No` first, so a stray Enter never
/// confirms.
pub fn confirm_input() -> (s: String)
    ensures
        s@ == "No\nYes"@,
{
    owned("No\nYes")
}

/// The error text of a failed fuzzel run:
/// `fuzzel failed (exit <code or signal>): <stderr, trimmed>`.
pub open spec fn failure_text(exit: FuzzelExit, stderr: Seq<char>) -> Seq<char> {
    "fuzzel failed (exit "@ + (match exit {
        FuzzelExit::Code(c) => signed_decimal(c as int),
        _ => "signal"@,
    }) + "): "@ + trim(stderr)
}

/// The error of a failed fuzzel run.
fn fuzzel_failure(exit: FuzzelExit, stderr: &str) -> (e: VerbError)
    ensures
        e matches VerbError::Failed(m) && m@ == failure_text(exit, stderr@),
{
    let mut m = String::new();
    m.append("fuzzel failed (exit ");
    match exit {
        FuzzelExit::Code(c) => push_signed_decimal(&mut m, c),
        _ => m.append("signal"),
    }
    m.append("): ");
    let t = trim_str(stderr);
    m.append(t.as_str());
    assert(m@ =~= failure_text(exit, stderr@));
    VerbError::Failed(m)
}

/// Reads back a pick: on success the trimmed output, `None` when it is
/// empty; exit 1 is a cancel (`None`); any other exit is an error.
pub fn interpret_pick(exit: FuzzelExit, stdout: &str, stderr: &str) -> (r: Result<Option<String>, VerbError>)
    ensures
        if exit == FuzzelExit::Success {
            r matches Ok(o) && (if trim(stdout@).len() == 0 {
                o is None
            } else {
                o matches Some(t) && t@ == trim(stdout@)
            })
        } else if exit == FuzzelExit::Code(1) {
            r matches Ok(None)
        } else {
            r matches Err(VerbError::Failed(m)) && m@ == failure_text(exit, stderr@)
        },
{
    match exit {
        FuzzelExit::Success => {
            let sel = trim_str(stdout);
            if sel.unicode_len() == 0 {
                Ok(None)
            } else {
                Ok(Some(sel))
            }
        },
        FuzzelExit::Code(1) => Ok(None),
        _ => Err(fuzzel_failure(exit, stderr)),
    }
}

/// The first line of the output, trimmed.
fn first_line_trimmed(stdout: &str) -> (r: String)
    ensures
        r@ == trim(first_line(stdout@)),
{
    let v = chars_of(stdout);
    let line = first_line_of(&v);
    trim_str(line.as_str())
}

/// Reads back a free-text prompt: on success the first line, trimmed,
/// `None` when blank; exit 1 is a cancel; any other exit is an error.
pub fn interpret_prompt(exit: FuzzelExit, stdout: &str, stderr: &str) -> (r: Result<Option<String>, VerbError>)
    ensures
        if exit == FuzzelExit::Success {
            r matches Ok(o) && (if trim(first_line(stdout@)).len() == 0 {
                o is None
            } else {
                o matches Some(t) && t@ == trim(first_line(stdout@))
            })
        } else if exit == FuzzelExit::Code(1) {
            r matches Ok(None)
        } else {
            r matches Err(VerbError::Failed(m)) && m@ == failure_text(exit, stderr@)
        },
{
    match exit {
        FuzzelExit::Success => {
            let name = first_line_trimmed(stdout);
            if name.unicode_len() == 0 {
                Ok(None)
            } else {
                Ok(Some(name))
            }
        },
        FuzzelExit::Code(1) => Ok(None),
        _ => Err(fuzzel_failure(exit, stderr)),
    }
}

/// Reads back a confirmation: only a selection that trims to exactly `Yes`
/// confirms; any other selection and a cancel (exit 1) decline; any other
/// exit is an error.
pub fn interpret_confirm(exit: FuzzelExit, stdout: &str, stderr: &str) -> (r: Result<bool, VerbError>)
    ensures
        if exit == FuzzelExit::Success {
            r matches Ok(b) && b == (trim(first_line(stdout@)) == "Yes"@)
        } else if exit == FuzzelExit::Code(1) {
            r matches Ok(b) && !b
        } else {
            r matches Err(VerbError::Failed(m)) && m@ == failure_text(exit, stderr@)
        },
{
    match exit {
        FuzzelExit::Success => {
            let sel = first_line_trimmed(stdout);
            Ok(str_eq(sel.as_str(), "Yes"))
        },
        FuzzelExit::Code(1) => Ok(false),
        _ => Err(fuzzel_failure(exit, stderr)),
    }
}

} // verus!
