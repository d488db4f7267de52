use jiji_do::cli::{Cmd, Shell};
use jiji_do::registry::{find, registry, VerbArgs};

#[test]
fn verb_args_maps_single_arg_variants_to_first() {
    let cmd = Cmd::SwitchActivity { verb_arg: Some("work".into()) };
    assert_eq!(
        cmd.verb_args(),
        VerbArgs { first: Some("work".into()), second: None, complete: false, focus: None }
    );
}

#[test]
fn verb_args_defaults_for_unit_variants() {
    assert_eq!(Cmd::ReloadConfig.verb_args(), VerbArgs::default());
    assert_eq!(Cmd::AssignWorkspace.verb_args(), VerbArgs::default());
}

#[test]
fn verb_args_maps_two_positional_variant_to_both_slots() {
    let cmd = Cmd::SwitchWorkspaceAll { activity: Some("home".into()), workspace: Some("mail".into()) };
    assert_eq!(
        cmd.verb_args(),
        VerbArgs { first: Some("home".into()), second: Some("mail".into()), complete: false, focus: None }
    );
}

#[test]
fn verb_args_carries_the_flags() {
    let cmd = Cmd::ListWorkspaces { activity: None, complete: true };
    assert!(cmd.verb_args().complete);
    let cmd = Cmd::MoveWindowToNewWorkspaceDown { focus: Some(false) };
    assert_eq!(cmd.verb_args().focus, Some(false));
}

fn bare_commands() -> Vec<Cmd> {
    vec![
        Cmd::SwitchWorkspace { workspace: None },
        Cmd::SwitchWorkspaceAll { activity: None, workspace: None },
        Cmd::FocusWorkspacePrevious,
        Cmd::UnsetWorkspaceName,
        Cmd::RenameWorkspace,
        Cmd::ListWorkspaces { activity: None, complete: false },
        Cmd::AddWorkspaceUp,
        Cmd::AddWorkspaceDown,
        Cmd::MoveWindowToNewWorkspaceUp { focus: None },
        Cmd::MoveWindowToNewWorkspaceDown { focus: None },
        Cmd::PickWindow,
        Cmd::Bookmark,
        Cmd::BookmarkRemove,
        Cmd::BookmarkMove,
        Cmd::BookmarkAssignKey,
        Cmd::BookmarkUnassignKey,
        Cmd::FocusMonitor,
        Cmd::MoveWindowToMonitor,
        Cmd::MoveColumnToMonitor,
        Cmd::MoveWorkspaceToMonitor,
        Cmd::ToggleDebugTint,
        Cmd::SwitchActivity { verb_arg: None },
        Cmd::SwitchActivityPrevious,
        Cmd::MoveWindowToActivity { verb_arg: None },
        Cmd::MoveWindowHere,
        Cmd::MoveWorkspaceToActivity { verb_arg: None },
        Cmd::AssignWorkspace,
        Cmd::SaveActivity { verb_arg: None },
        Cmd::ListActivities,
        Cmd::CreateActivity { verb_arg: None },
        Cmd::RemoveActivity { verb_arg: None },
        Cmd::RenameActivity,
        Cmd::ReloadConfig,
        Cmd::PowerOnMonitors,
        Cmd::PickColor,
        Cmd::Quit,
        Cmd::PowerOffMonitors,
        Cmd::StopCast,
    ]
}

#[test]
fn verb_name_roundtrips_for_every_registry_verb() {
    let mut names: Vec<&str> = bare_commands().iter().map(|c| c.verb_name().unwrap()).collect();
    let mut registry_names: Vec<&str> = registry().iter().map(|v| v.name).collect();
    for c in bare_commands() {
        let id = c.verb().unwrap();
        assert_eq!(c.verb_name(), Some(id.verb().name));
    }
    names.sort_unstable();
    registry_names.sort_unstable();
    assert_eq!(names, registry_names);
    assert_eq!(Cmd::Completions { shell: Shell::Fish }.verb_name(), None);
}

#[test]
fn verb_name_resolves_back_to_the_command_verb() {
    for c in bare_commands() {
        let id = c.verb().unwrap();
        let found = find(c.verb_name().unwrap()).unwrap();
        assert_eq!(found.id, id);
    }
}
