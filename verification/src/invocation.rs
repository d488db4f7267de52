//! Subprocess invocations as values: the program and its argument vector.
//! The library decides what to run; the driver runs it.

use vstd::prelude::*;

verus! {

/// A program and its arguments.
#[derive(Debug, Clone, PartialEq, Eq)]
pub struct Invocation {
    pub program: String,
    pub args: Vec<String>,
}

/// The text of an invocation.
pub struct InvocationView {
    pub program: Seq<char>,
    pub args: Seq<Seq<char>>,
}

/// The texts of a list of strings.
pub open spec fn texts(v: Seq<String>) -> Seq<Seq<char>> {
    v.map_values(|s: String| s@)
}

impl View for Invocation {
    type V = InvocationView;

    open spec fn view(&self) -> InvocationView {
        InvocationView { program: self.program@, args: texts(self.args@) }
    }
}

/// `niri` run with `args`.
pub open spec fn niri_call(args: Seq<Seq<char>>) -> InvocationView {
    InvocationView { program: "niri"@, args }
}

/// `jiji-activities` run with `args`.
pub open spec fn activities_call(args: Seq<Seq<char>>) -> InvocationView {
    InvocationView { program: "jiji-activities"@, args }
}

/// An owned copy of a string slice.
pub fn owned(s: &str) -> (r: String)
    ensures
        r@ == s@,
{
    s.to_owned()
}

/// Runs `niri` with `args`.
pub fn niri(args: Vec<String>) -> (c: Invocation)
    ensures
        c@ == niri_call(texts(args@)),
{
    Invocation { program: owned("niri"), args }
}

/// Runs `jiji-activities` with `args`.
pub fn jiji_activities(args: Vec<String>) -> (c: Invocation)
    ensures
        c@ == activities_call(texts(args@)),
{
    Invocation { program: owned("jiji-activities"), args }
}

/// Appends one argument.
pub fn push_arg(args: &mut Vec<String>, a: String)
    ensures
        texts(final(args)@) == texts(old(args)@).push(a@),
{
    args.push(a);
    assert(texts(args@) =~= texts(old(args)@).push(a@));
}

} // verus!
