//! The conversation between a verb and its driver. A verb never touches
//! the outside world itself: given the launch snapshot, its arguments and
//! the answers to the effects it asked for so far, it names the next effect
//! to perform or finishes. The driver performs each effect and appends the
//! answer.

use vstd::prelude::*;
use crate::error::{VerbError, VerbErrorView};
use crate::invocation::{Invocation, InvocationView, texts};
use crate::niri::{ActivityRow, BookmarkRow, CastRow, OutputRow, Query, WindowRow, WorkspaceRow};
use crate::snapshot::Snapshot;

verus! {

/// The payloads read for a verb; only the requested ones are filled.
#[derive(Debug)]
pub struct Inventory {
    pub workspaces: Vec<WorkspaceRow>,
    pub windows: Vec<WindowRow>,
    pub activities: Vec<ActivityRow>,
    pub outputs: Vec<OutputRow>,
    pub casts: Vec<CastRow>,
    pub bookmarks: Vec<BookmarkRow>,
}

/// Outside work a verb asks for, with the answer it expects.
#[derive(Debug)]
pub enum Effect {
    /// Read these payloads (`niri msg --json <query>`); answered by
    /// `Fetched`.
    Fetch(Vec<Query>),
    /// Build the launch snapshot from these payloads; answered by
    /// `Captured`.
    Capture(Vec<Query>),
    /// Run a program and capture its stdout; answered by `Ran` on exit 0.
    Run(Invocation),
    /// A fuzzel picker over `items`; answered by `Picked`.
    Pick { prompt: String, items: Vec<String> },
    /// A fuzzel free-text prompt; answered by `Typed`.
    Prompt(String),
    /// A fuzzel No/Yes confirmation; answered by `Confirmed`.
    Confirm(String),
    /// A best-effort run of a soft dependency, fed `stdin` when given;
    /// answered by `Delivered`, never by `Failed`.
    Deliver { invocation: Invocation, stdin: Option<String> },
    /// Write text to stdout; answered by `Printed`.
    Print(String),
}

/// The driver's answer to an effect. Any effect but `Deliver` may instead
/// be answered by `Failed` with the reason.
#[derive(Debug)]
pub enum Event {
    Fetched(Inventory),
    Captured(Snapshot),
    /// The run exited 0 with this stdout.
    Ran(String),
    /// The picked label, or `None` when the picker was cancelled or left
    /// empty.
    Picked(Option<String>),
    /// The typed text, or `None` when the prompt was cancelled or blank.
    Typed(Option<String>),
    /// Whether the user confirmed.
    Confirmed(bool),
    /// Whether the soft dependency ran and exited 0.
    Delivered(bool),
    Printed,
    Failed(String),
}

/// What a verb does next.
#[derive(Debug)]
pub enum Step {
    Perform(Effect),
    Finish(Result<(), VerbError>),
}

/// The content of an [`Effect`].
pub enum EffectView {
    Fetch(Seq<Query>),
    Capture(Seq<Query>),
    Run(InvocationView),
    Pick(Seq<char>, Seq<Seq<char>>),
    Prompt(Seq<char>),
    Confirm(Seq<char>),
    Deliver(InvocationView, Option<Seq<char>>),
    Print(Seq<char>),
}

/// The content of a [`Step`].
pub enum StepView {
    Perform(EffectView),
    Finish(Result<(), VerbErrorView>),
}

/// The text of an optional string.
pub open spec fn opt_text(o: Option<String>) -> Option<Seq<char>> {
    match o {
        Some(s) => Some(s@),
        None => None,
    }
}

impl View for Effect {
    type V = EffectView;

    open spec fn view(&self) -> EffectView {
        match self {
            Effect::Fetch(q) => EffectView::Fetch(q@),
            Effect::Capture(q) => EffectView::Capture(q@),
            Effect::Run(c) => EffectView::Run(c@),
            Effect::Pick { prompt, items } => EffectView::Pick(prompt@, texts(items@)),
            Effect::Prompt(p) => EffectView::Prompt(p@),
            Effect::Confirm(p) => EffectView::Confirm(p@),
            Effect::Deliver { invocation, stdin } => EffectView::Deliver(invocation@, opt_text(*stdin)),
            Effect::Print(t) => EffectView::Print(t@),
        }
    }
}

impl View for Step {
    type V = StepView;

    open spec fn view(&self) -> StepView {
        match self {
            Step::Perform(e) => StepView::Perform(e@),
            Step::Finish(Ok(())) => StepView::Finish(Ok(())),
            Step::Finish(Err(e)) => StepView::Finish(Err(e@)),
        }
    }
}

/// The verb completed.
pub open spec fn done() -> StepView {
    StepView::Finish(Ok(()))
}

/// The verb stopped with an error.
pub open spec fn fail(e: VerbErrorView) -> StepView {
    StepView::Finish(Err(e))
}

/// How a verb reacts to an answer that is no answer to its effect: a
/// failure ends it with that failure, anything else is a driver error.
pub open spec fn refuse(e: Event) -> StepView {
    match e {
        Event::Failed(m) => fail(VerbErrorView::Failed(m@)),
        _ => fail(VerbErrorView::UnexpectedEvent),
    }
}

/// Runs `c` as effect number `k`, then goes on with `next`.
pub open spec fn after_run(a: Seq<Event>, k: int, c: InvocationView, next: StepView) -> StepView {
    if a.len() <= k {
        StepView::Perform(EffectView::Run(c))
    } else {
        match a[k] {
            Event::Ran(_) => next,
            _ => refuse(a[k]),
        }
    }
}

/// Runs `c` as effect number `k`, then goes on with what it printed.
pub open spec fn after_output(
    a: Seq<Event>,
    k: int,
    c: InvocationView,
    next: spec_fn(Seq<char>) -> StepView,
) -> StepView {
    if a.len() <= k {
        StepView::Perform(EffectView::Run(c))
    } else {
        match a[k] {
            Event::Ran(out) => next(out@),
            _ => refuse(a[k]),
        }
    }
}

/// Reads payloads as effect number `k`, then goes on with them.
pub open spec fn after_fetch(
    a: Seq<Event>,
    k: int,
    q: Seq<Query>,
    next: spec_fn(Inventory) -> StepView,
) -> StepView {
    if a.len() <= k {
        StepView::Perform(EffectView::Fetch(q))
    } else {
        match a[k] {
            Event::Fetched(inv) => next(inv),
            _ => refuse(a[k]),
        }
    }
}

/// Offers `items` in a picker as effect number `k`; a cancel completes the
/// verb, a pick goes on with the picked label.
pub open spec fn after_pick(
    a: Seq<Event>,
    k: int,
    prompt: Seq<char>,
    items: Seq<Seq<char>>,
    next: spec_fn(Seq<char>) -> StepView,
) -> StepView {
    if a.len() <= k {
        StepView::Perform(EffectView::Pick(prompt, items))
    } else {
        match a[k] {
            Event::Picked(Some(l)) => next(l@),
            Event::Picked(None) => done(),
            _ => refuse(a[k]),
        }
    }
}

/// A free-text prompt as effect number `k`; a cancel or blank entry
/// completes the verb, typed text goes on.
pub open spec fn after_prompt(
    a: Seq<Event>,
    k: int,
    prompt: Seq<char>,
    next: spec_fn(Seq<char>) -> StepView,
) -> StepView {
    if a.len() <= k {
        StepView::Perform(EffectView::Prompt(prompt))
    } else {
        match a[k] {
            Event::Typed(Some(t)) => next(t@),
            Event::Typed(None) => done(),
            _ => refuse(a[k]),
        }
    }
}

/// A confirmation as effect number `k`; declining completes the verb.
pub open spec fn after_confirm(a: Seq<Event>, k: int, prompt: Seq<char>, next: StepView) -> StepView {
    if a.len() <= k {
        StepView::Perform(EffectView::Confirm(prompt))
    } else {
        match a[k] {
            Event::Confirmed(true) => next,
            Event::Confirmed(false) => done(),
            _ => refuse(a[k]),
        }
    }
}

/// A best-effort delivery as effect number `k`; whatever its outcome, the
/// verb goes on with `next`.
pub open spec fn after_deliver(
    a: Seq<Event>,
    k: int,
    c: InvocationView,
    stdin: Option<Seq<char>>,
    next: spec_fn(bool) -> StepView,
) -> StepView {
    if a.len() <= k {
        StepView::Perform(EffectView::Deliver(c, stdin))
    } else {
        match a[k] {
            Event::Delivered(ok) => next(ok),
            _ => refuse(a[k]),
        }
    }
}

/// Prints `text` as effect number `k`, then goes on with `next`.
pub open spec fn after_print(a: Seq<Event>, k: int, text: Seq<char>, next: StepView) -> StepView {
    if a.len() <= k {
        StepView::Perform(EffectView::Print(text))
    } else {
        match a[k] {
            Event::Printed => next,
            _ => refuse(a[k]),
        }
    }
}

/// A finished step.
pub fn finish(r: Result<(), VerbError>) -> (s: Step)
    ensures
        s@ == (match r {
            Ok(()) => done(),
            Err(e) => fail(e@),
        }),
{
    Step::Finish(r)
}

/// The step that refuses answer `e`.
fn refusal(e: &Event) -> (s: Step)
    ensures
        s@ == refuse(*e),
{
    match e {
        Event::Failed(m) => Step::Finish(Err(VerbError::Failed(m.clone()))),
        _ => Step::Finish(Err(VerbError::UnexpectedEvent)),
    }
}

/// Effect number `k` is a run of `c`: `None` once it ran, else the step to
/// take now.
pub fn ask_run(a: &Vec<Event>, k: usize, c: Invocation) -> (r: Option<Step>)
    ensures
        match r {
            None => a@.len() > k && a@[k as int] is Ran,
            Some(s) => forall|next: StepView| #[trigger] after_run(a@, k as int, c@, next) == s@,
        },
{
    if a.len() <= k {
        return Some(Step::Perform(Effect::Run(c)));
    }
    match &a[k] {
        Event::Ran(_) => None,
        e => Some(refusal(e)),
    }
}

/// Effect number `k` is a run of `c`: its output once it ran, else the step
/// to take now.
pub fn ask_output<'a>(a: &'a Vec<Event>, k: usize, c: Invocation) -> (r: Result<&'a String, Step>)
    ensures
        match r {
            Ok(out) => a@.len() > k && a@[k as int] == Event::Ran(*out),
            Err(s) => forall|next: spec_fn(Seq<char>) -> StepView| #[trigger] after_output(
                a@,
                k as int,
                c@,
                next,
            ) == s@,
        },
{
    if a.len() <= k {
        return Err(Step::Perform(Effect::Run(c)));
    }
    match &a[k] {
        Event::Ran(out) => Ok(out),
        e => Err(refusal(e)),
    }
}

/// Effect number `k` reads `q`: the payloads once read, else the step to
/// take now.
pub fn ask_fetch<'a>(a: &'a Vec<Event>, k: usize, q: Vec<Query>) -> (r: Result<&'a Inventory, Step>)
    ensures
        match r {
            Ok(inv) => a@.len() > k && a@[k as int] == Event::Fetched(*inv),
            Err(s) => forall|next: spec_fn(Inventory) -> StepView| #[trigger] after_fetch(
                a@,
                k as int,
                q@,
                next,
            ) == s@,
        },
{
    if a.len() <= k {
        return Err(Step::Perform(Effect::Fetch(q)));
    }
    match &a[k] {
        Event::Fetched(inv) => Ok(inv),
        e => Err(refusal(e)),
    }
}

/// Effect number `k` is a picker: the picked label once picked, else the
/// step to take now.
pub fn ask_pick<'a>(a: &'a Vec<Event>, k: usize, prompt: String, items: Vec<String>) -> (r: Result<&'a String, Step>)
    ensures
        match r {
            Ok(l) => a@.len() > k && a@[k as int] == Event::Picked(Some(*l)),
            Err(s) => forall|next: spec_fn(Seq<char>) -> StepView| #[trigger] after_pick(
                a@,
                k as int,
                prompt@,
                texts(items@),
                next,
            ) == s@,
        },
{
    if a.len() <= k {
        return Err(Step::Perform(Effect::Pick { prompt, items }));
    }
    match &a[k] {
        Event::Picked(Some(l)) => Ok(l),
        Event::Picked(None) => Err(Step::Finish(Ok(()))),
        e => Err(refusal(e)),
    }
}

/// Effect number `k` is a free-text prompt: the typed text once typed,
/// else the step to take now.
pub fn ask_prompt<'a>(a: &'a Vec<Event>, k: usize, prompt: String) -> (r: Result<&'a String, Step>)
    ensures
        match r {
            Ok(t) => a@.len() > k && a@[k as int] == Event::Typed(Some(*t)),
            Err(s) => forall|next: spec_fn(Seq<char>) -> StepView| #[trigger] after_prompt(
                a@,
                k as int,
                prompt@,
                next,
            ) == s@,
        },
{
    if a.len() <= k {
        return Err(Step::Perform(Effect::Prompt(prompt)));
    }
    match &a[k] {
        Event::Typed(Some(t)) => Ok(t),
        Event::Typed(None) => Err(Step::Finish(Ok(()))),
        e => Err(refusal(e)),
    }
}

/// Effect number `k` is a confirmation: `None` once confirmed, else the
/// step to take now.
pub fn ask_confirm(a: &Vec<Event>, k: usize, prompt: String) -> (r: Option<Step>)
    ensures
        match r {
            None => a@.len() > k && a@[k as int] == Event::Confirmed(true),
            Some(s) => forall|next: StepView| #[trigger] after_confirm(a@, k as int, prompt@, next) == s@,
        },
{
    if a.len() <= k {
        return Some(Step::Perform(Effect::Confirm(prompt)));
    }
    match &a[k] {
        Event::Confirmed(true) => None,
        Event::Confirmed(false) => Some(Step::Finish(Ok(()))),
        e => Some(refusal(e)),
    }
}

/// Effect number `k` is a best-effort delivery: its outcome once
/// delivered, else the step to take now.
pub fn ask_deliver(a: &Vec<Event>, k: usize, c: Invocation, stdin: Option<String>) -> (r: Result<bool, Step>)
    ensures
        match r {
            Ok(ok) => a@.len() > k && a@[k as int] == Event::Delivered(ok),
            Err(s) => forall|next: spec_fn(bool) -> StepView| #[trigger] after_deliver(
                a@,
                k as int,
                c@,
                opt_text(stdin),
                next,
            ) == s@,
        },
{
    if a.len() <= k {
        return Err(Step::Perform(Effect::Deliver { invocation: c, stdin }));
    }
    match &a[k] {
        Event::Delivered(ok) => Ok(*ok),
        e => Err(refusal(e)),
    }
}

/// Effect number `k` prints `text`: `None` once printed, else the step to
/// take now.
pub fn ask_print(a: &Vec<Event>, k: usize, text: String) -> (r: Option<Step>)
    ensures
        match r {
            None => a@.len() > k && a@[k as int] == Event::Printed,
            Some(s) => forall|next: StepView| #[trigger] after_print(a@, k as int, text@, next) == s@,
        },
{
    if a.len() <= k {
        return Some(Step::Perform(Effect::Print(text)));
    }
    match &a[k] {
        Event::Printed => None,
        e => Some(refusal(e)),
    }
}

} // verus!
