use jiji_do::error::{DoError, VerbError};
use jiji_do::launcher::Failure;

#[test]
fn capability_miss_is_69() {
    assert_eq!(DoError::MissingCapability("x".into()).exit_code(), 69);
}

#[test]
fn display_is_the_raw_message() {
    let e = DoError::MissingCapability("niri socket unavailable".into());
    assert_eq!(e.to_string(), "niri socket unavailable");
}

#[test]
fn verb_errors_exit_one_with_their_messages() {
    assert_eq!(VerbError::NoOutputs.exit_code(), 1);
    assert_eq!(VerbError::NoOutputs.message(), "no outputs available");
    assert_eq!(VerbError::NoFocusedWindow.message(), "no focused window at launch");
    assert_eq!(VerbError::NoFocusedWorkspace.message(), "no focused workspace at launch");
    assert_eq!(VerbError::NoFocusedActivity.message(), "no focused activity at launch");
    assert_eq!(VerbError::NoBookmarks.message(), "no bookmarks");
    assert_eq!(VerbError::NoKeyedBookmarks.message(), "no bookmarks with an assigned key");
    assert_eq!(VerbError::NoCasts.message(), "no active casts");
    assert_eq!(VerbError::NoActivitiesToRemove.message(), "no activities to remove");
    assert_eq!(VerbError::NoActivitiesToRename.message(), "no activities to rename");
    assert_eq!(VerbError::NoWorkspaces.message(), "no workspaces found");
    assert_eq!(
        VerbError::NoWorkspacesInActivity("home".into()).message(),
        "no workspaces found in activity 'home'"
    );
    assert_eq!(VerbError::UnknownActivity("nope".into()).message(), "unknown activity: nope");
    assert_eq!(
        VerbError::UnknownLabel("x".into()).message(),
        "picker returned unknown label: x"
    );
    assert_eq!(VerbError::UnknownVerb("frob".into()).message(), "unknown verb: frob");
    assert_eq!(VerbError::Failed("niri exited 1: boom".into()).message(), "niri exited 1: boom");
}

#[test]
fn launch_failures_map_to_exit_codes() {
    assert_eq!(Failure::Unavailable(DoError::MissingCapability("m".into())).exit_code(), 69);
    assert_eq!(Failure::Verb(VerbError::NoCasts).exit_code(), 1);
}
