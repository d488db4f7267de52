//! The launcher: the capability report, the socket and fuzzel gates, the
//! launch snapshot, and the choice of the verb to dispatch — by name from
//! the command line, or from the menu.

use vstd::prelude::*;
use crate::capabilities::{Capabilities, Flag, caps_text, flags_text};
use crate::error::{DoError, VerbError, VerbErrorView};
use crate::invocation::owned;
use crate::menu::{first_match, label_list, labels_of, lemma_first_match};
use crate::protocol::{Effect, EffectView, Event, opt_text};
use crate::registry::{
    Requirement, Verb, VerbArgs, VerbId, enabled_for_menu, find, menu_only, registry, registry_ids,
    spec_enabled, spec_find,
};
use crate::snapshot::Snapshot;

verus! {

/// Why the launcher stopped.
#[derive(Debug)]
pub enum Failure {
    /// A required capability is absent (exit 69).
    Unavailable(DoError),
    /// A verb could not run or failed (exit 1).
    Verb(VerbError),
}

impl Failure {
    /// Process exit code: 69 for a missing capability, 1 otherwise.
    pub fn exit_code(&self) -> (c: i32)
        ensures
            c == (match self {
                Failure::Unavailable(_) => 69i32,
                Failure::Verb(_) => 1i32,
            }),
    {
        match self {
            Failure::Unavailable(e) => e.exit_code(),
            Failure::Verb(e) => e.exit_code(),
        }
    }
}

/// What the launcher does next.
#[derive(Debug)]
pub enum Launch {
    Perform(Effect),
    /// Hand over to the verb, with the captured snapshot and these
    /// arguments.
    Dispatch(VerbId, VerbArgs),
    Finish(Result<(), Failure>),
}

/// The content of a [`Failure`].
pub enum FailureView {
    Unavailable(Seq<char>),
    Verb(VerbErrorView),
}

/// The content of verb arguments.
pub struct ArgsView {
    pub first: Option<Seq<char>>,
    pub second: Option<Seq<char>>,
    pub complete: bool,
    pub focus: Option<bool>,
}

/// The content of [`VerbArgs`].
pub open spec fn args_view(a: VerbArgs) -> ArgsView {
    ArgsView { first: opt_text(a.first), second: opt_text(a.second), complete: a.complete, focus: a.focus }
}

/// The content of a [`Launch`].
pub enum LaunchView {
    Perform(EffectView),
    Dispatch(VerbId, ArgsView),
    Finish(Result<(), FailureView>),
}

impl View for Launch {
    type V = LaunchView;

    open spec fn view(&self) -> LaunchView {
        match self {
            Launch::Perform(e) => LaunchView::Perform(e@),
            Launch::Dispatch(id, a) => LaunchView::Dispatch(*id, args_view(*a)),
            Launch::Finish(Ok(())) => LaunchView::Finish(Ok(())),
            Launch::Finish(Err(Failure::Unavailable(DoError::MissingCapability(m)))) => LaunchView::Finish(
                Err(FailureView::Unavailable(m@)),
            ),
            Launch::Finish(Err(Failure::Verb(e))) => LaunchView::Finish(Err(FailureView::Verb(e@))),
        }
    }
}

/// The launcher stopped for a missing capability.
pub open spec fn unavailable(m: Seq<char>) -> LaunchView {
    LaunchView::Finish(Err(FailureView::Unavailable(m)))
}

/// The line `--debug` prints for one verb: kept, or filtered with the
/// flags it misses.
pub open spec fn status_line(id: VerbId, caps: Capabilities) -> Seq<char> {
    let r = id.spec_requirement();
    "  "@ + id.spec_name()@ + (if id.enabled_under(caps) {
        ": kept"@
    } else {
        ": filtered (missing: "@ + flags_text(
            r.needs(Flag::NiriSocket) && !caps.has(Flag::NiriSocket),
            r.needs(Flag::Fuzzel) && !caps.has(Flag::Fuzzel),
            r.needs(Flag::Fork) && !caps.has(Flag::Fork),
            r.needs(Flag::NiriActivities) && !caps.has(Flag::NiriActivities),
        ) + ")"@
    }) + "\n"@
}

/// The status lines of `ids`, in order.
pub open spec fn status_lines(ids: Seq<VerbId>, caps: Capabilities) -> Seq<char>
    decreases ids.len(),
{
    if ids.len() == 0 {
        seq![]
    } else {
        status_lines(ids.drop_last(), caps) + status_line(ids.last(), caps)
    }
}

/// What `--debug` prints: the capabilities, then every registry verb, kept
/// or filtered.
pub open spec fn debug_report_text(caps: Capabilities) -> Seq<char> {
    "capabilities: "@ + caps_text(caps) + "\n"@ + status_lines(registry_ids(), caps)
}

/// The `--debug` report.
pub fn debug_report(caps: Capabilities) -> (s: String)
    ensures
        s@ == debug_report_text(caps),
{
    let mut s = owned("capabilities: ");
    let c = caps.debug_text();
    s.append(c.as_str());
    s.append("\n");
    let ghost head = s@;
    let reg = registry();
    let mut i: usize = 0;
    while i < reg.len()
        invariant
            reg@.len() == registry_ids().len(),
            forall|k: int| 0 <= k < reg@.len() ==> #[trigger] reg@[k].describes(registry_ids()[k]),
            i <= reg@.len(),
            s@ == head + status_lines(registry_ids().take(i as int), caps),
        decreases reg@.len() - i,
    {
        let v = reg[i];
        let ghost id = registry_ids()[i as int];
        assert(v.describes(id));
        assert(registry_ids().take(i + 1).drop_last() =~= registry_ids().take(i as int));
        assert(registry_ids().take(i + 1).last() == id);
        let ghost before = s@;
        s.append("  ");
        s.append(v.name);
        if v.is_enabled(caps) {
            s.append(": kept");
        } else {
            let missing = v.requires.difference(caps);
            let m = missing.debug_text();
            s.append(": filtered (missing: ");
            s.append(m.as_str());
            s.append(")");
        }
        s.append("\n");
        assert(s@ =~= before + status_line(id, caps));
        i = i + 1;
    }
    assert(registry_ids().take(reg@.len() as int) =~= registry_ids());
    s
}

/// The capability error of a direct dispatch:
/// `<name> requires <flags>; run with --debug to see what's missing`.
pub open spec fn requires_text(name: Seq<char>, r: Requirement) -> Seq<char> {
    name + " requires "@ + flags_text(
        r.needs(Flag::NiriSocket),
        r.needs(Flag::Fuzzel),
        r.needs(Flag::Fork),
        r.needs(Flag::NiriActivities),
    ) + "; run with --debug to see what's missing"@
}

/// The socket gate's message.
pub open spec fn socket_text() -> Seq<char> {
    "niri socket unavailable: $NIRI_SOCKET unset or unreachable"@
}

/// The menu gate's message.
pub open spec fn fuzzel_text() -> Seq<char> {
    "fuzzel not on $PATH (required to render the menu)"@
}

/// The menu prompt; the trailing space keeps typed text off the prompt.
pub open spec fn menu_prompt() -> Seq<char> {
    "jiji-do "@
}

/// The labels the menu offers under `caps`.
pub open spec fn menu_labels(caps: Capabilities) -> Seq<Seq<char>> {
    let m = menu_only(spec_enabled(caps));
    Seq::new(m.len(), |i: int| m[i].spec_label()@)
}

/// Arguments that carry nothing: what a verb picked from the menu gets.
pub open spec fn no_args() -> ArgsView {
    ArgsView { first: None, second: None, complete: false, focus: None }
}

/// What the launcher does, given the capabilities, the request (the
/// `--debug` flag, the verb named on the command line and its arguments)
/// and the answers so far. The socket is the one prerequisite of everything
/// but `--debug`; the snapshot is captured before any picker can open;
/// a named verb is dispatched only when its capabilities are present; the
/// menu needs fuzzel and offers the enabled menu verbs.
pub open spec fn launch_flow(
    caps: Capabilities,
    debug: bool,
    verb: Option<String>,
    args: VerbArgs,
    a: Seq<Event>,
) -> LaunchView {
    if debug {
        if a.len() == 0 {
            LaunchView::Perform(EffectView::Print(debug_report_text(caps)))
        } else {
            match a[0] {
                Event::Printed => LaunchView::Finish(Ok(())),
                _ => refused(a[0]),
            }
        }
    } else if !caps.has(Flag::NiriSocket) {
        unavailable(socket_text())
    } else if a.len() == 0 {
        LaunchView::Perform(EffectView::Capture(Snapshot::capture_queries(caps)))
    } else {
        match a[0] {
            Event::Captured(_) => match verb {
                Some(name) => match spec_find(name@) {
                    None => LaunchView::Finish(Err(FailureView::Verb(VerbErrorView::UnknownVerb(name@)))),
                    Some(id) => if id.enabled_under(caps) {
                        LaunchView::Dispatch(id, args_view(args))
                    } else {
                        unavailable(requires_text(name@, id.spec_requirement()))
                    },
                },
                None => if !caps.has(Flag::Fuzzel) {
                    unavailable(fuzzel_text())
                } else if a.len() == 1 {
                    LaunchView::Perform(EffectView::Pick(menu_prompt(), menu_labels(caps)))
                } else {
                    match a[1] {
                        Event::Picked(Some(l)) => match first_match(menu_labels(caps), l@) {
                            Some(i) => LaunchView::Dispatch(
                                menu_only(spec_enabled(caps))[i],
                                no_args(),
                            ),
                            None => LaunchView::Finish(Ok(())),
                        },
                        Event::Picked(None) => LaunchView::Finish(Ok(())),
                        _ => refused(a[1]),
                    }
                },
            },
            _ => refused(a[0]),
        }
    }
}

/// How the launcher reacts to an answer that is no answer to its effect.
pub open spec fn refused(e: Event) -> LaunchView {
    match e {
        Event::Failed(m) => LaunchView::Finish(Err(FailureView::Verb(VerbErrorView::Failed(m@)))),
        _ => LaunchView::Finish(Err(FailureView::Verb(VerbErrorView::UnexpectedEvent))),
    }
}

fn refusal(e: &Event) -> (l: Launch)
    ensures
        l@ == refused(*e),
{
    match e {
        Event::Failed(m) => Launch::Finish(Err(Failure::Verb(VerbError::Failed(m.clone())))),
        _ => Launch::Finish(Err(Failure::Verb(VerbError::UnexpectedEvent))),
    }
}

fn copy_args(a: &VerbArgs) -> (c: VerbArgs)
    ensures
        args_view(c) == args_view(*a),
{
    VerbArgs {
        first: crate::niri::clone_opt(&a.first),
        second: crate::niri::clone_opt(&a.second),
        complete: a.complete,
        focus: a.focus,
    }
}

fn missing(m: String) -> (l: Launch)
    ensures
        l@ == unavailable(m@),
{
    Launch::Finish(Err(Failure::Unavailable(DoError::MissingCapability(m))))
}

/// The launcher's next step.
pub fn launch(
    caps: Capabilities,
    debug: bool,
    verb: &Option<String>,
    args: &VerbArgs,
    answers: &Vec<Event>,
) -> (l: Launch)
    ensures
        l@ == launch_flow(caps, debug, *verb, *args, answers@),
{
    if debug {
        if answers.len() == 0 {
            return Launch::Perform(Effect::Print(debug_report(caps)));
        }
        return match &answers[0] {
            Event::Printed => Launch::Finish(Ok(())),
            e => refusal(e),
        };
    }
    if !caps.has_flag(Flag::NiriSocket) {
        return missing(owned("niri socket unavailable: $NIRI_SOCKET unset or unreachable"));
    }
    if answers.len() == 0 {
        return Launch::Perform(Effect::Capture(Snapshot::capture(caps)));
    }
    match &answers[0] {
        Event::Captured(_) => {},
        e => return refusal(e),
    }
    match verb {
        Some(name) => match find(name.as_str()) {
            None => Launch::Finish(Err(Failure::Verb(VerbError::UnknownVerb(name.clone())))),
            Some(v) => {
                assert(v.wf());
                if v.is_enabled(caps) {
                    Launch::Dispatch(v.id, copy_args(args))
                } else {
                    let mut m = name.clone();
                    m.append(" requires ");
                    let r = v.requires.debug_text();
                    m.append(r.as_str());
                    m.append("; run with --debug to see what's missing");
                    assert(m@ =~= requires_text(name@, v.id.spec_requirement()));
                    missing(m)
                }
            },
        },
        None => {
            if !caps.has_flag(Flag::Fuzzel) {
                return missing(owned("fuzzel not on $PATH (required to render the menu)"));
            }
            let menu = enabled_for_menu(caps);
            let ghost m = menu_only(spec_enabled(caps));
            assert forall|i: int| 0 <= i < menu@.len() implies labels_of(menu@)[i] == menu_labels(
                caps,
            )[i] by {
                assert(menu@[i].describes(m[i]));
            }
            assert(labels_of(menu@) =~= menu_labels(caps));
            if answers.len() == 1 {
                return Launch::Perform(Effect::Pick { prompt: owned("jiji-do "), items: label_list(&menu) });
            }
            match &answers[1] {
                Event::Picked(Some(l)) => {
                    proof {
                        lemma_first_match(menu_labels(caps), l@);
                    }
                    match crate::menu::render_menu(&menu, l.as_str()) {
                        Some(id) => {
                            proof {
                                let k = first_match(menu_labels(caps), l@)->0;
                                assert(menu@[k].describes(m[k]));
                            }
                            Launch::Dispatch(id, VerbArgs::none())
                        },
                        None => Launch::Finish(Ok(())),
                    }
                },
                Event::Picked(None) => Launch::Finish(Ok(())),
                e => refusal(e),
            }
        },
    }
}

/// Without the niri socket nothing but `--debug` runs: the launch stops
/// with a capability miss, whatever the request.
pub proof fn law_socket_gate(caps: Capabilities, verb: Option<String>, args: VerbArgs, a: Seq<Event>)
    requires
        !caps.has(Flag::NiriSocket),
    ensures
        launch_flow(caps, false, verb, args, a) == unavailable(socket_text()),
{
}

/// A verb is dispatched only when all its capabilities are present, only
/// after the launch snapshot was captured, and — from the menu — only when
/// the menu shows it, with no arguments.
pub proof fn law_dispatch_only_enabled(
    caps: Capabilities,
    debug: bool,
    verb: Option<String>,
    args: VerbArgs,
    a: Seq<Event>,
    id: VerbId,
    given: ArgsView,
)
    requires
        launch_flow(caps, debug, verb, args, a) == LaunchView::Dispatch(id, given),
    ensures
        id.enabled_under(caps),
        !debug,
        a.len() >= 1 && a[0] is Captured,
        verb is None ==> id.spec_menu_visible() && given == no_args(),
        verb is Some ==> given == args_view(args),
{
    if verb is None {
        let m = menu_only(spec_enabled(caps));
        let l = a[1]->Picked_0->0;
        lemma_first_match(menu_labels(caps), l@);
        let i = first_match(menu_labels(caps), l@)->0;
        crate::registry::law_menu_is_visible_part_of_enabled(spec_enabled(caps), m[i]);
        assert(m[i] == id);
        assert(m.contains(m[i]));
        crate::registry::law_enabled_iff_requirement_met(caps, m[i]);
    }
}

/// With the socket present, the first thing a launch does (short of
/// `--debug`) is capture the snapshot: no picker opens before it.
pub proof fn law_snapshot_first(caps: Capabilities, verb: Option<String>, args: VerbArgs)
    requires
        caps.has(Flag::NiriSocket),
    ensures
        launch_flow(caps, false, verb, args, seq![]) == LaunchView::Perform(
            EffectView::Capture(Snapshot::capture_queries(caps)),
        ),
{
}

/// From the menu, picking the label of a verb that is enabled and shown
/// dispatches a verb that bears that label, is enabled and is shown, with
/// no arguments; a label no shown verb bears ends the launch quietly.
pub proof fn law_menu_pick_dispatches_labelled_verb(
    caps: Capabilities,
    args: VerbArgs,
    s: Snapshot,
    l: String,
    id: VerbId,
)
    requires
        caps.has(Flag::NiriSocket),
        caps.has(Flag::Fuzzel),
    ensures
        id.enabled_under(caps) && id.spec_menu_visible() && id.spec_label()@ == l@ ==> exists|d: VerbId|
            launch_flow(caps, false, None, args, seq![Event::Captured(s), Event::Picked(Some(l))])
                == LaunchView::Dispatch(d, no_args()) && d.spec_label()@ == l@ && d.enabled_under(caps)
                && #[trigger] d.spec_menu_visible(),
        (forall|v: VerbId| #[trigger] v.spec_menu_visible() && v.enabled_under(caps) ==> v.spec_label()@ != l@)
            ==> launch_flow(caps, false, None, args, seq![Event::Captured(s), Event::Picked(Some(l))])
            == LaunchView::Finish(Ok(())),
{
    let m = menu_only(spec_enabled(caps));
    let labels = menu_labels(caps);
    lemma_first_match(labels, l@);
    if id.enabled_under(caps) && id.spec_menu_visible() && id.spec_label()@ == l@ {
        crate::registry::law_enabled_iff_requirement_met(caps, id);
        crate::registry::law_menu_is_visible_part_of_enabled(spec_enabled(caps), id);
        let q = choose|q: int| 0 <= q < m.len() && m[q] == id;
        assert(labels[q] == l@);
        let i = first_match(labels, l@)->0;
        let d = m[i];
        assert(m.contains(d));
        crate::registry::law_menu_is_visible_part_of_enabled(spec_enabled(caps), d);
        crate::registry::law_enabled_iff_requirement_met(caps, d);
        assert(d.spec_menu_visible());
    }
    if forall|v: VerbId| #[trigger] v.spec_menu_visible() && v.enabled_under(caps) ==> v.spec_label()@ != l@ {
        if let Some(i) = first_match(labels, l@) {
            let d = m[i];
            assert(m.contains(d));
            crate::registry::law_menu_is_visible_part_of_enabled(spec_enabled(caps), d);
            crate::registry::law_enabled_iff_requirement_met(caps, d);
            assert(d.spec_menu_visible());
        }
    }
}

} // verus!
