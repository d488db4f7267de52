use jiji_do::completions::{emit_fish_dynamic, emit_positional_helpers, fish_dynamic_entries, strip_hidden_complete_flag_fish};

fn fish_dynamic_out() -> String {
    emit_fish_dynamic()
}

#[test]
fn fish_dynamic_guards_every_table_entry_with_slot_count() {
    let out = fish_dynamic_out();
    for (verb, slot, _) in fish_dynamic_entries() {
        let needle = format!(
            "__fish_jiji_do_using_subcommand {verb}; and __jiji_do_positional_count_is {}",
            slot - 1
        );
        assert!(out.contains(&needle), "entry `{verb}` slot {slot} missing combined position guard:\n{out}");
    }
}

#[test]
fn fish_dynamic_completes_workspace_names_for_switch_workspace() {
    let out = fish_dynamic_out();
    assert!(out.contains("(jiji-do list-workspaces --complete 2>/dev/null)"), "{out}");
}

#[test]
fn fish_dynamic_scopes_second_slot_to_typed_activity() {
    let out = fish_dynamic_out();
    assert!(
        out.contains(
            "(jiji-do list-workspaces --complete --activity (__jiji_do_first_positional) 2>/dev/null)"
        ),
        "{out}"
    );
}

#[test]
fn fish_dynamic_completes_activity_flag_value_for_list_workspaces() {
    let out = fish_dynamic_out();
    assert!(
        out.contains(
            "-n \"__fish_jiji_do_using_subcommand list-workspaces\" -l activity -x -a \"(jiji-activities list --format=name 2>/dev/null)\""
        ),
        "{out}"
    );
}

#[test]
fn fish_dynamic_defines_helpers_before_first_use() {
    let out = fish_dynamic_out();
    for helper in [
        "__jiji_do_positionals",
        "__jiji_do_positional_count_is",
        "__jiji_do_first_positional",
    ] {
        let def = out
            .find(&format!("function {helper}"))
            .unwrap_or_else(|| panic!("helper {helper} not defined:\n{out}"));
        let first_use = out[def + helper.len() + 9..]
            .find(helper)
            .map(|p| p + def + helper.len() + 9);
        if let Some(use_pos) = first_use {
            assert!(def < use_pos, "{helper} must be defined before use");
        }
    }
}

#[test]
fn fish_dynamic_does_not_emit_line_for_create_activity() {
    let out = fish_dynamic_out();
    assert!(!out.contains("__fish_jiji_do_using_subcommand create-activity"), "{out}");
}

#[test]
fn fish_dynamic_does_not_emit_line_for_assign_workspace() {
    let out = fish_dynamic_out();
    assert!(!out.contains("__fish_jiji_do_using_subcommand assign-workspace"), "{out}");
}

#[test]
fn fish_dynamic_uses_list_format_name_for_candidates() {
    let out = fish_dynamic_out();
    assert!(out.contains("(jiji-activities list --format=name 2>/dev/null)"), "{out}");
}

#[test]
fn fish_dynamic_emits_global_file_fallback_guard() {
    let out = fish_dynamic_out();
    assert!(out.contains("complete -c jiji-do -f\n") || out.ends_with("complete -c jiji-do -f"));
    assert!(out.contains("-f -a \"(jiji-activities list --format=name 2>/dev/null)\""));
    let first_verb_pos = out
        .find("-f -a \"(jiji-activities list --format=name 2>/dev/null)\"")
        .unwrap();
    let global_guard_pos = out.rfind("complete -c jiji-do -f").unwrap();
    assert!(global_guard_pos > first_verb_pos);
}

#[test]
fn fish_dynamic_exact_entry_line() {
    let out = fish_dynamic_out();
    assert!(out.starts_with("\n# Dynamic name completion (position-aware).\n\nfunction __jiji_do_positionals\n"));
    assert!(out.contains(
        "complete -c jiji-do -n \"__fish_jiji_do_using_subcommand switch-workspace-all; and __jiji_do_positional_count_is 1\" -f -a \"(jiji-do list-workspaces --complete --activity (__jiji_do_first_positional) 2>/dev/null)\"\n"
    ));
    assert_eq!(out.matches("complete -c jiji-do -n").count(), fish_dynamic_entries().len() + 1);
}

#[test]
fn positional_helpers_end_with_a_newline() {
    let h = emit_positional_helpers();
    assert!(h.starts_with("function __jiji_do_positionals\n    set -l tokens (commandline -opc)\n"));
    assert!(h.contains("function __jiji_do_positional_count_is\n    test (count (__jiji_do_positionals)) -eq $argv[1]\nend\n"));
    assert!(h.ends_with("        echo $pos[1]\n    end\nend\n"));
}

#[test]
fn strip_removes_only_the_static_complete_flag_registration() {
    let raw = "complete -c jiji-do -n \"__fish_jiji_do_using_subcommand list-workspaces\" -l activity -r\n\
complete -c jiji-do -n \"__fish_jiji_do_using_subcommand list-workspaces\" -l complete -d 'hidden'\n\
complete -c jiji-do -n \"__fish_jiji_do_using_subcommand list-workspaces\" -l complete\n\
complete -c jiji-do -n \"x\" -f -a \"(jiji-do list-workspaces --complete 2>/dev/null)\"\n";
    let stripped = strip_hidden_complete_flag_fish(raw);
    assert_eq!(
        stripped,
        "complete -c jiji-do -n \"__fish_jiji_do_using_subcommand list-workspaces\" -l activity -r\n\
complete -c jiji-do -n \"x\" -f -a \"(jiji-do list-workspaces --complete 2>/dev/null)\"\n"
    );
    for line in stripped.lines() {
        assert!(!line.contains(" -l complete ") && !line.ends_with(" -l complete"));
    }
}

#[test]
fn strip_handles_crlf_and_tab_separated_registrations() {
    let raw = "a\r\nb -l complete\tx\nc";
    assert_eq!(strip_hidden_complete_flag_fish(raw), "a\nc\n");
    assert_eq!(strip_hidden_complete_flag_fish(""), "\n");
}
