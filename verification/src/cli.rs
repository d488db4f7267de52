//! The command-line surface: one subcommand per registry verb, plus the
//! `completions` meta command. The registry stays the single source of truth
//! for dispatch; a command only names its verb and carries its arguments.

use vstd::prelude::*;
use crate::launcher::{ArgsView, args_view, no_args};
use crate::niri::clone_opt;
use crate::protocol::opt_text;
use crate::registry::{VerbArgs, VerbId, law_find_by_name, spec_find};

verus! {

/// A shell completions can be generated for.
#[derive(Debug, Clone, Copy, PartialEq, Eq, Structural)]
pub enum Shell {
    Bash,
    Elvish,
    Fish,
    PowerShell,
    Zsh,
}

/// Top-level subcommands: one per registry verb, and `completions`.
#[derive(Debug)]
pub enum Cmd {
    /// Switch to a workspace: by reference (name, per-monitor index or `id:N`), else through the current activity's picker.
    SwitchWorkspace { workspace: Option<String> },
    /// Switch to a workspace in any activity; the arguments narrow or skip the picker.
    SwitchWorkspaceAll { activity: Option<String>, workspace: Option<String> },
    /// Focus the previously active workspace.
    FocusWorkspacePrevious,
    /// Unset the focused workspace's name.
    UnsetWorkspaceName,
    /// Rename the focused workspace (free-text prompt).
    RenameWorkspace,
    /// List workspace names (current activity by default), or completion rows with `--complete`.
    ListWorkspaces { activity: Option<String>, complete: bool },
    /// Insert a new workspace above the current one.
    AddWorkspaceUp,
    /// Insert a new workspace below the current one.
    AddWorkspaceDown,
    /// Move the focused window to a new workspace above.
    MoveWindowToNewWorkspaceUp { focus: Option<bool> },
    /// Move the focused window to a new workspace below.
    MoveWindowToNewWorkspaceDown { focus: Option<bool> },
    /// Open the compositor's window picker and show the result.
    PickWindow,
    /// Jump to a bookmark (picker).
    Bookmark,
    /// Remove a bookmark (picker and confirmation).
    BookmarkRemove,
    /// Move a bookmark to another position (two pickers).
    BookmarkMove,
    /// Assign a key to a bookmark (picker, then key capture).
    BookmarkAssignKey,
    /// Unassign a bookmark's key (picker).
    BookmarkUnassignKey,
    /// Focus a monitor (picker).
    FocusMonitor,
    /// Move the focused window to a monitor (picker).
    MoveWindowToMonitor,
    /// Move the focused column to a monitor (picker).
    MoveColumnToMonitor,
    /// Move the focused workspace to a monitor (picker).
    MoveWorkspaceToMonitor,
    /// Toggle the compositor debug tint.
    ToggleDebugTint,
    /// Switch to an activity (picker, or directly by name).
    SwitchActivity { verb_arg: Option<String> },
    /// Switch to the previously active activity.
    SwitchActivityPrevious,
    /// Move the focused window to an activity.
    MoveWindowToActivity { verb_arg: Option<String> },
    /// Move a window from another activity to this workspace.
    MoveWindowHere,
    /// Move the focused workspace to an activity.
    MoveWorkspaceToActivity { verb_arg: Option<String> },
    /// Assign the focused workspace to activities (picker).
    AssignWorkspace,
    /// Save the focused activity, or save under a given name.
    SaveActivity { verb_arg: Option<String> },
    /// List activities.
    ListActivities,
    /// Create an activity (prompts for a name when omitted).
    CreateActivity { verb_arg: Option<String> },
    /// Remove an activity (picker when the name is omitted).
    RemoveActivity { verb_arg: Option<String> },
    /// Rename an activity (picker, then prompt).
    RenameActivity,
    /// Reload the compositor config file.
    ReloadConfig,
    /// Power on all monitors.
    PowerOnMonitors,
    /// Pick a color, copy it and show a notification.
    PickColor,
    /// Quit jiji (after a confirmation).
    Quit,
    /// Power off all monitors (after a confirmation).
    PowerOffMonitors,
    /// Stop an active screencast session (picker).
    StopCast,
    /// Emit shell completions and exit.
    Completions { shell: Shell },
}

impl Cmd {
    /// The registry verb the command names; none for `completions`.
    pub open spec fn spec_verb(&self) -> Option<VerbId> {
        match self {
            Cmd::SwitchWorkspace { .. } => Some(VerbId::SwitchWorkspace),
            Cmd::SwitchWorkspaceAll { .. } => Some(VerbId::SwitchWorkspaceAll),
            Cmd::FocusWorkspacePrevious => Some(VerbId::FocusWorkspacePrevious),
            Cmd::UnsetWorkspaceName => Some(VerbId::UnsetWorkspaceName),
            Cmd::RenameWorkspace => Some(VerbId::RenameWorkspace),
            Cmd::ListWorkspaces { .. } => Some(VerbId::ListWorkspaces),
            Cmd::AddWorkspaceUp => Some(VerbId::AddWorkspaceUp),
            Cmd::AddWorkspaceDown => Some(VerbId::AddWorkspaceDown),
            Cmd::MoveWindowToNewWorkspaceUp { .. } => Some(VerbId::MoveWindowToNewWorkspaceUp),
            Cmd::MoveWindowToNewWorkspaceDown { .. } => Some(VerbId::MoveWindowToNewWorkspaceDown),
            Cmd::PickWindow => Some(VerbId::PickWindow),
            Cmd::Bookmark => Some(VerbId::Bookmark),
            Cmd::BookmarkRemove => Some(VerbId::BookmarkRemove),
            Cmd::BookmarkMove => Some(VerbId::BookmarkMove),
            Cmd::BookmarkAssignKey => Some(VerbId::BookmarkAssignKey),
            Cmd::BookmarkUnassignKey => Some(VerbId::BookmarkUnassignKey),
            Cmd::FocusMonitor => Some(VerbId::FocusMonitor),
            Cmd::MoveWindowToMonitor => Some(VerbId::MoveWindowToMonitor),
            Cmd::MoveColumnToMonitor => Some(VerbId::MoveColumnToMonitor),
            Cmd::MoveWorkspaceToMonitor => Some(VerbId::MoveWorkspaceToMonitor),
            Cmd::ToggleDebugTint => Some(VerbId::ToggleDebugTint),
            Cmd::SwitchActivity { .. } => Some(VerbId::SwitchActivity),
            Cmd::SwitchActivityPrevious => Some(VerbId::SwitchActivityPrevious),
            Cmd::MoveWindowToActivity { .. } => Some(VerbId::MoveWindowToActivity),
            Cmd::MoveWindowHere => Some(VerbId::MoveWindowHere),
            Cmd::MoveWorkspaceToActivity { .. } => Some(VerbId::MoveWorkspaceToActivity),
            Cmd::AssignWorkspace => Some(VerbId::AssignWorkspace),
            Cmd::SaveActivity { .. } => Some(VerbId::SaveActivity),
            Cmd::ListActivities => Some(VerbId::ListActivities),
            Cmd::CreateActivity { .. } => Some(VerbId::CreateActivity),
            Cmd::RemoveActivity { .. } => Some(VerbId::RemoveActivity),
            Cmd::RenameActivity => Some(VerbId::RenameActivity),
            Cmd::ReloadConfig => Some(VerbId::ReloadConfig),
            Cmd::PowerOnMonitors => Some(VerbId::PowerOnMonitors),
            Cmd::PickColor => Some(VerbId::PickColor),
            Cmd::Quit => Some(VerbId::Quit),
            Cmd::PowerOffMonitors => Some(VerbId::PowerOffMonitors),
            Cmd::StopCast => Some(VerbId::StopCast),
            Cmd::Completions { .. } => None,
        }
    }

    /// The registry verb the command names; none for `completions`.
    pub fn verb(&self) -> (v: Option<VerbId>)
        ensures
            v == self.spec_verb(),
    {
        match self {
            Cmd::SwitchWorkspace { .. } => Some(VerbId::SwitchWorkspace),
            Cmd::SwitchWorkspaceAll { .. } => Some(VerbId::SwitchWorkspaceAll),
            Cmd::FocusWorkspacePrevious => Some(VerbId::FocusWorkspacePrevious),
            Cmd::UnsetWorkspaceName => Some(VerbId::UnsetWorkspaceName),
            Cmd::RenameWorkspace => Some(VerbId::RenameWorkspace),
            Cmd::ListWorkspaces { .. } => Some(VerbId::ListWorkspaces),
            Cmd::AddWorkspaceUp => Some(VerbId::AddWorkspaceUp),
            Cmd::AddWorkspaceDown => Some(VerbId::AddWorkspaceDown),
            Cmd::MoveWindowToNewWorkspaceUp { .. } => Some(VerbId::MoveWindowToNewWorkspaceUp),
            Cmd::MoveWindowToNewWorkspaceDown { .. } => Some(VerbId::MoveWindowToNewWorkspaceDown),
            Cmd::PickWindow => Some(VerbId::PickWindow),
            Cmd::Bookmark => Some(VerbId::Bookmark),
            Cmd::BookmarkRemove => Some(VerbId::BookmarkRemove),
            Cmd::BookmarkMove => Some(VerbId::BookmarkMove),
            Cmd::BookmarkAssignKey => Some(VerbId::BookmarkAssignKey),
            Cmd::BookmarkUnassignKey => Some(VerbId::BookmarkUnassignKey),
            Cmd::FocusMonitor => Some(VerbId::FocusMonitor),
            Cmd::MoveWindowToMonitor => Some(VerbId::MoveWindowToMonitor),
            Cmd::MoveColumnToMonitor => Some(VerbId::MoveColumnToMonitor),
            Cmd::MoveWorkspaceToMonitor => Some(VerbId::MoveWorkspaceToMonitor),
            Cmd::ToggleDebugTint => Some(VerbId::ToggleDebugTint),
            Cmd::SwitchActivity { .. } => Some(VerbId::SwitchActivity),
            Cmd::SwitchActivityPrevious => Some(VerbId::SwitchActivityPrevious),
            Cmd::MoveWindowToActivity { .. } => Some(VerbId::MoveWindowToActivity),
            Cmd::MoveWindowHere => Some(VerbId::MoveWindowHere),
            Cmd::MoveWorkspaceToActivity { .. } => Some(VerbId::MoveWorkspaceToActivity),
            Cmd::AssignWorkspace => Some(VerbId::AssignWorkspace),
            Cmd::SaveActivity { .. } => Some(VerbId::SaveActivity),
            Cmd::ListActivities => Some(VerbId::ListActivities),
            Cmd::CreateActivity { .. } => Some(VerbId::CreateActivity),
            Cmd::RemoveActivity { .. } => Some(VerbId::RemoveActivity),
            Cmd::RenameActivity => Some(VerbId::RenameActivity),
            Cmd::ReloadConfig => Some(VerbId::ReloadConfig),
            Cmd::PowerOnMonitors => Some(VerbId::PowerOnMonitors),
            Cmd::PickColor => Some(VerbId::PickColor),
            Cmd::Quit => Some(VerbId::Quit),
            Cmd::PowerOffMonitors => Some(VerbId::PowerOffMonitors),
            Cmd::StopCast => Some(VerbId::StopCast),
            Cmd::Completions { .. } => None,
        }
    }

    /// The canonical registry name of the command's verb; none for
    /// `completions`. The bridge from the parsed command to
    /// [`crate::registry::find`].
    pub fn verb_name(&self) -> (n: Option<&'static str>)
        ensures
            match self.spec_verb() {
                Some(id) => n == Some(id.spec_name()),
                None => n is None,
            },
    {
        match self.verb() {
            Some(id) => Some(id.verb().name),
            None => None,
        }
    }

    /// The arguments the command hands its verb: the positional slots in
    /// `first` and `second`, plus the `--complete` and `--focus` flags.
    pub open spec fn spec_args(&self) -> ArgsView {
        match self {
            Cmd::SwitchActivity { verb_arg }
            | Cmd::MoveWindowToActivity { verb_arg }
            | Cmd::MoveWorkspaceToActivity { verb_arg }
            | Cmd::SaveActivity { verb_arg }
            | Cmd::CreateActivity { verb_arg }
            | Cmd::RemoveActivity { verb_arg } => ArgsView {
                first: opt_text(*verb_arg),
                second: None,
                complete: false,
                focus: None,
            },
            Cmd::ListWorkspaces { activity, complete } => ArgsView {
                first: opt_text(*activity),
                second: None,
                complete: *complete,
                focus: None,
            },
            Cmd::SwitchWorkspace { workspace } => ArgsView {
                first: opt_text(*workspace),
                second: None,
                complete: false,
                focus: None,
            },
            Cmd::SwitchWorkspaceAll { activity, workspace } => ArgsView {
                first: opt_text(*activity),
                second: opt_text(*workspace),
                complete: false,
                focus: None,
            },
            Cmd::MoveWindowToNewWorkspaceUp { focus } | Cmd::MoveWindowToNewWorkspaceDown { focus } => ArgsView {
                first: None,
                second: None,
                complete: false,
                focus: *focus,
            },
            _ => no_args(),
        }
    }

    /// Maps the command's positionals and flags into the uniform
    /// [`VerbArgs`] every verb receives; commands without any give the
    /// all-absent default.
    pub fn verb_args(&self) -> (a: VerbArgs)
        ensures
            args_view(a) == self.spec_args(),
    {
        match self {
            Cmd::SwitchActivity { verb_arg }
            | Cmd::MoveWindowToActivity { verb_arg }
            | Cmd::MoveWorkspaceToActivity { verb_arg }
            | Cmd::SaveActivity { verb_arg }
            | Cmd::CreateActivity { verb_arg }
            | Cmd::RemoveActivity { verb_arg } => VerbArgs {
                first: clone_opt(verb_arg),
                second: None,
                complete: false,
                focus: None,
            },
            Cmd::ListWorkspaces { activity, complete } => VerbArgs {
                first: clone_opt(activity),
                second: None,
                complete: *complete,
                focus: None,
            },
            Cmd::SwitchWorkspace { workspace } => VerbArgs {
                first: clone_opt(workspace),
                second: None,
                complete: false,
                focus: None,
            },
            Cmd::SwitchWorkspaceAll { activity, workspace } => VerbArgs {
                first: clone_opt(activity),
                second: clone_opt(workspace),
                complete: false,
                focus: None,
            },
            Cmd::MoveWindowToNewWorkspaceUp { focus } | Cmd::MoveWindowToNewWorkspaceDown { focus } => VerbArgs {
                first: None,
                second: None,
                complete: false,
                focus: *focus,
            },
            _ => VerbArgs::none(),
        }
    }
}

/// A command that names verb `id` and carries no arguments.
pub open spec fn bare_command(id: VerbId) -> Cmd {
    match id {
        VerbId::SwitchWorkspace => Cmd::SwitchWorkspace { workspace: None },
        VerbId::SwitchWorkspaceAll => Cmd::SwitchWorkspaceAll { activity: None, workspace: None },
        VerbId::FocusWorkspacePrevious => Cmd::FocusWorkspacePrevious,
        VerbId::UnsetWorkspaceName => Cmd::UnsetWorkspaceName,
        VerbId::RenameWorkspace => Cmd::RenameWorkspace,
        VerbId::ListWorkspaces => Cmd::ListWorkspaces { activity: None, complete: false },
        VerbId::AddWorkspaceUp => Cmd::AddWorkspaceUp,
        VerbId::AddWorkspaceDown => Cmd::AddWorkspaceDown,
        VerbId::MoveWindowToNewWorkspaceUp => Cmd::MoveWindowToNewWorkspaceUp { focus: None },
        VerbId::MoveWindowToNewWorkspaceDown => Cmd::MoveWindowToNewWorkspaceDown { focus: None },
        VerbId::PickWindow => Cmd::PickWindow,
        VerbId::Bookmark => Cmd::Bookmark,
        VerbId::BookmarkRemove => Cmd::BookmarkRemove,
        VerbId::BookmarkMove => Cmd::BookmarkMove,
        VerbId::BookmarkAssignKey => Cmd::BookmarkAssignKey,
        VerbId::BookmarkUnassignKey => Cmd::BookmarkUnassignKey,
        VerbId::FocusMonitor => Cmd::FocusMonitor,
        VerbId::MoveWindowToMonitor => Cmd::MoveWindowToMonitor,
        VerbId::MoveColumnToMonitor => Cmd::MoveColumnToMonitor,
        VerbId::MoveWorkspaceToMonitor => Cmd::MoveWorkspaceToMonitor,
        VerbId::ToggleDebugTint => Cmd::ToggleDebugTint,
        VerbId::SwitchActivity => Cmd::SwitchActivity { verb_arg: None },
        VerbId::SwitchActivityPrevious => Cmd::SwitchActivityPrevious,
        VerbId::MoveWindowToActivity => Cmd::MoveWindowToActivity { verb_arg: None },
        VerbId::MoveWindowHere => Cmd::MoveWindowHere,
        VerbId::MoveWorkspaceToActivity => Cmd::MoveWorkspaceToActivity { verb_arg: None },
        VerbId::AssignWorkspace => Cmd::AssignWorkspace,
        VerbId::SaveActivity => Cmd::SaveActivity { verb_arg: None },
        VerbId::ListActivities => Cmd::ListActivities,
        VerbId::CreateActivity => Cmd::CreateActivity { verb_arg: None },
        VerbId::RemoveActivity => Cmd::RemoveActivity { verb_arg: None },
        VerbId::RenameActivity => Cmd::RenameActivity,
        VerbId::ReloadConfig => Cmd::ReloadConfig,
        VerbId::PowerOnMonitors => Cmd::PowerOnMonitors,
        VerbId::PickColor => Cmd::PickColor,
        VerbId::Quit => Cmd::Quit,
        VerbId::PowerOffMonitors => Cmd::PowerOffMonitors,
        VerbId::StopCast => Cmd::StopCast,
    }
}

/// Every registry verb is reachable from the command line: a bare command
/// names it, and (carrying no arguments) hands it exactly what the menu
/// would.
pub proof fn law_every_verb_has_a_command(id: VerbId)
    ensures
        bare_command(id).spec_verb() == Some(id),
        bare_command(id).spec_args() == no_args(),
{
}

/// Only the `completions` meta command names no verb.
pub proof fn law_only_completions_names_no_verb(c: Cmd)
    ensures
        c.spec_verb() is None <==> c is Completions,
{
}

/// The verb name a command reports round-trips: the command naming a
/// registry verb reports that verb's registry name, the name any command
/// reports resolves by [`crate::registry::find`] back to the command's own
/// verb, and `completions` reports none.
pub proof fn law_verb_name_roundtrips(id: VerbId, c: Cmd)
    ensures
        bare_command(id).spec_verb() matches Some(v) && v.spec_name() == id.spec_name(),
        c.spec_verb() matches Some(v) ==> spec_find(v.spec_name()@) == Some(v),
        c is Completions ==> c.spec_verb() is None,
{
    if let Some(v) = c.spec_verb() {
        law_find_by_name(v.spec_name()@, v);
    }
}

} // verus!
