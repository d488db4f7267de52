//! Shell-completion text for fish: the positional helper functions and the
//! dynamic, position-aware candidate lines appended after the static base
//! that clap's generator emits, and the clean-up of that base.
//!
//! Each table entry fires exactly when the user is completing its verb's
//! positional slot N (N−1 positionals already typed). `create-activity` is
//! left out on purpose (its argument is a new name), as are verbs without
//! positionals. The positional counter skips `-*` tokens but not the value
//! of a value-taking flag; no dynamic verb has such a flag.

use vstd::prelude::*;
use crate::invocation::{owned, push_arg, texts};
use crate::text::{
    chars_of, contains, contains_chars, decimal, ends_with, ends_with_chars, join, join_with, lines,
    push_decimal, split_lines,
};
use crate::order::{lemma_filter_step, lemma_take_all};

verus! {

/// Activity names, from `jiji-activities`; errors are silenced so a stopped
/// compositor yields no candidates rather than noise.
pub open spec fn activity_names_cmd() -> Seq<char> {
    "jiji-activities list --format=name 2>/dev/null"@
}

/// Workspace candidates of the current activity (`token\tdescription`).
pub open spec fn workspace_refs_cmd() -> Seq<char> {
    "jiji-do list-workspaces --complete 2>/dev/null"@
}

/// Workspace candidates of the activity typed as the first positional.
pub open spec fn workspace_refs_in_activity_cmd() -> Seq<char> {
    "jiji-do list-workspaces --complete --activity (__jiji_do_first_positional) 2>/dev/null"@
}

/// The dynamic completion table: verb, 1-based positional slot, candidate
/// command.
pub open spec fn fish_dynamic_table() -> Seq<(Seq<char>, u8, Seq<char>)> {
    seq![
        ("switch-activity"@, 1u8, activity_names_cmd()),
        ("move-window-to-activity"@, 1u8, activity_names_cmd()),
        ("move-workspace-to-activity"@, 1u8, activity_names_cmd()),
        ("remove-activity"@, 1u8, activity_names_cmd()),
        ("save-activity"@, 1u8, activity_names_cmd()),
        ("switch-workspace"@, 1u8, workspace_refs_cmd()),
        ("switch-workspace-all"@, 1u8, activity_names_cmd()),
        ("switch-workspace-all"@, 2u8, workspace_refs_in_activity_cmd()),
    ]
}

/// The dynamic completion table: verb, 1-based positional slot, candidate
/// command.
pub fn fish_dynamic_entries() -> (t: Vec<(&'static str, u8, &'static str)>)
    ensures
        t@.len() == fish_dynamic_table().len(),
        forall|i: int| 0 <= i < t@.len() ==> #[trigger] t@[i].0@ == fish_dynamic_table()[i].0
            && t@[i].1 == fish_dynamic_table()[i].1 && t@[i].2@ == fish_dynamic_table()[i].2,
{
    let names = "jiji-activities list --format=name 2>/dev/null";
    let refs = "jiji-do list-workspaces --complete 2>/dev/null";
    let refs_in = "jiji-do list-workspaces --complete --activity (__jiji_do_first_positional) 2>/dev/null";
    let mut t: Vec<(&'static str, u8, &'static str)> = Vec::new();
    t.push(("switch-activity", 1, names));
    t.push(("move-window-to-activity", 1, names));
    t.push(("move-workspace-to-activity", 1, names));
    t.push(("remove-activity", 1, names));
    t.push(("save-activity", 1, names));
    t.push(("switch-workspace", 1, refs));
    t.push(("switch-workspace-all", 1, names));
    t.push(("switch-workspace-all", 2, refs_in));
    t
}

/// The fish helper functions: the positionals typed after the subcommand
/// (flags skipped), a test of their count, and the first of them.
pub open spec fn positional_helpers_text() -> Seq<char> {
    "function __jiji_do_positionals\n    set -l tokens (commandline -opc)\n    set -e tokens[1]\n    set -l found_subcommand 0\n    for tok in $tokens\n        if string match -q -- '-*' $tok\n            continue\n        end\n        if test $found_subcommand -eq 0\n            set found_subcommand 1\n            continue\n        end\n        echo $tok\n    end\nend\n\nfunction __jiji_do_positional_count_is\n    test (count (__jiji_do_positionals)) -eq $argv[1]\nend\n\nfunction __jiji_do_first_positional\n    set -l pos (__jiji_do_positionals)\n    if set -q pos[1]\n        echo $pos[1]\n    end\nend"@ + "\n"@
}

/// Writes the fish positional helpers.
pub fn emit_positional_helpers() -> (s: String)
    ensures
        s@ == positional_helpers_text(),
{
    let mut s = owned("function __jiji_do_positionals\n    set -l tokens (commandline -opc)\n    set -e tokens[1]\n    set -l found_subcommand 0\n    for tok in $tokens\n        if string match -q -- '-*' $tok\n            continue\n        end\n        if test $found_subcommand -eq 0\n            set found_subcommand 1\n            continue\n        end\n        echo $tok\n    end\nend\n\nfunction __jiji_do_positional_count_is\n    test (count (__jiji_do_positionals)) -eq $argv[1]\nend\n\nfunction __jiji_do_first_positional\n    set -l pos (__jiji_do_positionals)\n    if set -q pos[1]\n        echo $pos[1]\n    end\nend");
    s.append("\n");
    s
}

/// The line of one table entry: fires for `verb` when exactly `slot - 1`
/// positionals are typed, offering the output of `cmd`, no files.
pub open spec fn entry_line(verb: Seq<char>, slot: u8, cmd: Seq<char>) -> Seq<char> {
    "complete -c jiji-do -n \"__fish_jiji_do_using_subcommand "@ + verb
        + "; and __jiji_do_positional_count_is "@ + decimal((slot - 1) as nat) + "\" -f -a \"("@ + cmd
        + ")\"\n"@
}

/// The lines of the table entries, in order.
pub open spec fn entry_lines(t: Seq<(Seq<char>, u8, Seq<char>)>) -> Seq<char>
    decreases t.len(),
{
    if t.len() == 0 {
        seq![]
    } else {
        entry_lines(t.drop_last()) + entry_line(t.last().0, t.last().1, t.last().2)
    }
}

/// `list-workspaces --activity <TAB>` completes activity names exclusively.
pub open spec fn activity_flag_line() -> Seq<char> {
    "complete -c jiji-do -n \"__fish_jiji_do_using_subcommand list-workspaces\" -l activity -x -a \"("@
        + activity_names_cmd() + ")\"\n"@
}

/// The whole fish augmentation: a header, the helpers, the table lines, the
/// flag-value line, and last a global guard against file completions (last,
/// so it does not shadow the candidates above it).
pub open spec fn fish_dynamic_text() -> Seq<char> {
    "\n# Dynamic name completion (position-aware).\n\n"@ + positional_helpers_text() + "\n"@
        + entry_lines(fish_dynamic_table()) + activity_flag_line() + "complete -c jiji-do -f\n"@
}

/// Writes the fish augmentation.
pub fn emit_fish_dynamic() -> (s: String)
    ensures
        s@ == fish_dynamic_text(),
{
    let mut s = owned("\n# Dynamic name completion (position-aware).\n\n");
    let h = emit_positional_helpers();
    s.append(h.as_str());
    s.append("\n");
    let ghost head = s@;
    let t = fish_dynamic_entries();
    let ghost spec_t = fish_dynamic_table();
    let mut i: usize = 0;
    while i < t.len()
        invariant
            t@.len() == spec_t.len(),
            spec_t == fish_dynamic_table(),
            forall|k: int| 0 <= k < t@.len() ==> #[trigger] t@[k].0@ == spec_t[k].0 && t@[k].1
                == spec_t[k].1 && t@[k].2@ == spec_t[k].2,
            i <= t@.len(),
            s@ == head + entry_lines(spec_t.take(i as int)),
        decreases t@.len() - i,
    {
        let (verb, slot, cmd) = t[i];
        assert(t@[i as int].0@ == spec_t[i as int].0);
        assert(spec_t.take(i + 1).drop_last() =~= spec_t.take(i as int));
        assert(spec_t.take(i + 1).last() == spec_t[i as int]);
        assert(slot >= 1);
        let ghost before = s@;
        s.append("complete -c jiji-do -n \"__fish_jiji_do_using_subcommand ");
        s.append(verb);
        s.append("; and __jiji_do_positional_count_is ");
        push_decimal(&mut s, (slot - 1) as u64);
        s.append("\" -f -a \"(");
        s.append(cmd);
        s.append(")\"\n");
        assert(s@ =~= before + entry_line(spec_t[i as int].0, spec_t[i as int].1, spec_t[i as int].2));
        i = i + 1;
    }
    assert(spec_t.take(t@.len() as int) =~= spec_t);
    s.append("complete -c jiji-do -n \"__fish_jiji_do_using_subcommand list-workspaces\" -l activity -x -a \"(");
    s.append("jiji-activities list --format=name 2>/dev/null");
    s.append(")\"\n");
    s.append("complete -c jiji-do -f\n");
    assert(s@ =~= fish_dynamic_text());
    s
}

/// Whether a line of clap's fish output registers the hidden `--complete`
/// flag (` -l complete` as a bare token); lines that merely mention
/// `--complete` inside a candidate command do not.
pub open spec fn is_flag_registration(line: Seq<char>) -> bool {
    contains(line, " -l complete "@) || ends_with(line, " -l complete"@) || contains(line, " -l complete\t"@)
}

/// The lines kept by [`strip_hidden_complete_flag_fish`].
pub open spec fn kept_lines(src: Seq<char>) -> Seq<Seq<char>> {
    lines(src).filter(|l: Seq<char>| !is_flag_registration(l))
}

/// clap's fish output without the registration of the hidden `--complete`
/// flag (the generator ignores `hide`): its lines, minus those, rejoined
/// with a final newline.
pub fn strip_hidden_complete_flag_fish(src: &str) -> (r: String)
    ensures
        r@ == join(kept_lines(src@), "\n"@) + "\n"@,
{
    let all = split_lines(src);
    let ghost ls = lines(src@);
    let spaced = chars_of(" -l complete ");
    let bare = chars_of(" -l complete");
    let tabbed = chars_of(" -l complete\t");
    let mut kept: Vec<String> = Vec::new();
    let mut i: usize = 0;
    while i < all.len()
        invariant
            texts(all@) == ls,
            spaced@ == " -l complete "@,
            bare@ == " -l complete"@,
            tabbed@ == " -l complete\t"@,
            i <= all@.len(),
            texts(kept@) == ls.take(i as int).filter(|l: Seq<char>| !is_flag_registration(l)),
        decreases all@.len() - i,
    {
        proof {
            lemma_filter_step(ls, |l: Seq<char>| !is_flag_registration(l), i as int);
        }
        let line = chars_of(all[i].as_str());
        assert(line@ == ls[i as int]);
        let registration = contains_chars(&line, &spaced) || ends_with_chars(&line, &bare)
            || contains_chars(&line, &tabbed);
        if !registration {
            push_arg(&mut kept, all[i].clone());
        }
        i = i + 1;
    }
    proof {
        lemma_take_all(ls);
    }
    let mut r = join_with(&kept, "\n");
    r.append("\n");
    r
}

} // verus!
