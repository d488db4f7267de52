use jiji_do::error::VerbError;
use jiji_do::menu::{
    confirm_input, fuzzel, interpret_confirm, interpret_pick, interpret_prompt, label_list,
    pick_input, render_menu, resolve_by_label, FuzzelExit,
};
use jiji_do::niri::OutputChoice;
use jiji_do::registry::{VerbId, find};

fn outputs() -> Vec<OutputChoice> {
    vec![
        OutputChoice { connector: "DP-1".into(), label: "DP-1 (Dell U2720Q)".into() },
        OutputChoice { connector: "DP-2".into(), label: "same".into() },
        OutputChoice { connector: "DP-3".into(), label: "same".into() },
    ]
}

#[test]
fn resolve_by_label_finds_the_first_match() {
    let c = outputs();
    assert_eq!(resolve_by_label(&c, "DP-1 (Dell U2720Q)").unwrap().connector, "DP-1");
    assert_eq!(resolve_by_label(&c, "same").unwrap().connector, "DP-2");
}

#[test]
fn resolve_by_label_unknown_label_is_an_error() {
    let c = outputs();
    match resolve_by_label(&c, "nope") {
        Err(VerbError::UnknownLabel(l)) => assert_eq!(l, "nope"),
        other => panic!("expected an unknown-label error, got {other:?}"),
    }
}

#[test]
fn label_list_keeps_order() {
    assert_eq!(label_list(&outputs()), vec!["DP-1 (Dell U2720Q)", "same", "same"]);
}

#[test]
fn picker_invocation_and_input() {
    let f = fuzzel("Focus monitor: ");
    assert_eq!(f.program, "fuzzel");
    assert_eq!(f.args, vec!["--dmenu", "--prompt", "Focus monitor: "]);
    assert_eq!(pick_input(&vec!["a".to_string(), "b".to_string()]), "a\nb");
    assert_eq!(pick_input(&vec![]), "");
    assert_eq!(confirm_input(), "No\nYes");
}

#[test]
fn pick_reads_trimmed_selection_and_cancel() {
    assert_eq!(interpret_pick(FuzzelExit::Success, "  web \n", "").unwrap(), Some("web".to_string()));
    assert_eq!(interpret_pick(FuzzelExit::Success, " \n", "").unwrap(), None);
    assert_eq!(interpret_pick(FuzzelExit::Code(1), "web", "").unwrap(), None);
}

#[test]
fn pick_failure_carries_exit_and_stderr() {
    match interpret_pick(FuzzelExit::Code(2), "", "  bad things \n") {
        Err(VerbError::Failed(m)) => assert_eq!(m, "fuzzel failed (exit 2): bad things"),
        other => panic!("{other:?}"),
    }
    match interpret_pick(FuzzelExit::Signal, "", "") {
        Err(VerbError::Failed(m)) => assert_eq!(m, "fuzzel failed (exit signal): "),
        other => panic!("{other:?}"),
    }
    match interpret_pick(FuzzelExit::Code(-3), "", "x") {
        Err(VerbError::Failed(m)) => assert_eq!(m, "fuzzel failed (exit -3): x"),
        other => panic!("{other:?}"),
    }
}

#[test]
fn prompt_reads_first_line_trimmed() {
    assert_eq!(interpret_prompt(FuzzelExit::Success, " work \nsecond", "").unwrap(), Some("work".to_string()));
    assert_eq!(interpret_prompt(FuzzelExit::Success, "\nsecond", "").unwrap(), None);
    assert_eq!(interpret_prompt(FuzzelExit::Success, "", "").unwrap(), None);
    assert_eq!(interpret_prompt(FuzzelExit::Code(1), "x", "").unwrap(), None);
    assert!(interpret_prompt(FuzzelExit::Code(4), "x", "").is_err());
}

#[test]
fn confirm_accepts_exactly_yes() {
    assert!(interpret_confirm(FuzzelExit::Success, "Yes\n", "").unwrap());
    assert!(interpret_confirm(FuzzelExit::Success, "  Yes  ", "").unwrap());
    assert!(!interpret_confirm(FuzzelExit::Success, "yes", "").unwrap());
    assert!(!interpret_confirm(FuzzelExit::Success, "No", "").unwrap());
    assert!(!interpret_confirm(FuzzelExit::Success, "", "").unwrap());
    assert!(!interpret_confirm(FuzzelExit::Code(1), "Yes", "").unwrap());
    assert!(interpret_confirm(FuzzelExit::Code(2), "Yes", "e").is_err());
}

#[test]
fn render_menu_maps_label_to_verb() {
    let menu = vec![find("switch-workspace").unwrap(), find("quit").unwrap()];
    assert_eq!(render_menu(&menu, "Quit jiji"), Some(VerbId::Quit));
    assert_eq!(render_menu(&menu, "nothing"), None);
}
