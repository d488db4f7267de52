//! The verb registry — the single source of truth for which verbs exist —
//! and capability-based filtering.

use vstd::prelude::*;
use crate::capabilities::{Capabilities, Flag};

verus! {

/// Positional CLI arguments and flags forwarded to a verb. `first` and
/// `second` mirror the verb's positional slots; everything is absent for
/// menu invocation and for verbs that take no positionals.
#[derive(Debug, PartialEq, Eq)]
pub struct VerbArgs {
    pub first: Option<String>,
    pub second: Option<String>,
    /// `list-workspaces --complete` was supplied.
    pub complete: bool,
    /// `--focus <bool>` of the `move-window-to-new-workspace-*` verbs; `None`
    /// leaves the compositor default in force.
    pub focus: Option<bool>,
}

impl VerbArgs {
    /// No positionals, no flags: what the menu passes.
    pub fn none() -> (a: VerbArgs)
        ensures
            a.first is None,
            a.second is None,
            !a.complete,
            a.focus is None,
    {
        VerbArgs { first: None, second: None, complete: false, focus: None }
    }
}

impl Default for VerbArgs {
    fn default() -> (a: VerbArgs)
        ensures
            a.first is None,
            a.second is None,
            !a.complete,
            a.focus is None,
    {
        VerbArgs::none()
    }
}

/// Menu grouping. Declaration order is the menu order:
/// `Workspace < Window < Monitor < Mode < Activity < System`.
#[derive(Debug, Clone, Copy, PartialEq, Eq, Structural, PartialOrd, Ord, Hash)]
pub enum Category {
    Workspace,
    Window,
    Monitor,
    Mode,
    Activity,
    System,
}

impl Category {
    /// Position in declaration order.
    pub open spec fn spec_rank(self) -> nat {
        match self {
            Category::Workspace => 0,
            Category::Window => 1,
            Category::Monitor => 2,
            Category::Mode => 3,
            Category::Activity => 4,
            Category::System => 5,
        }
    }

    /// Position in declaration order.
    pub fn rank(&self) -> (r: u8)
        ensures
            r == self.spec_rank(),
    {
        match self {
            Category::Workspace => 0,
            Category::Window => 1,
            Category::Monitor => 2,
            Category::Mode => 3,
            Category::Activity => 4,
            Category::System => 5,
        }
    }
}

/// The capability sets verbs require. `S` = niri socket, `F` = fuzzel,
/// `K` = fork, `A` = jiji-activities.
#[derive(Debug, Clone, Copy, PartialEq, Eq, Structural)]
pub enum Requirement {
    S,
    SF,
    SK,
    SFK,
    SKA,
    SFKA,
}

impl Requirement {
    /// Whether the requirement names `f`.
    pub open spec fn needs(self, f: Flag) -> bool {
        match f {
            Flag::NiriSocket => true,
            Flag::Fuzzel => self is SF || self is SFK || self is SFKA,
            Flag::Fork => self is SK || self is SFK || self is SKA || self is SFKA,
            Flag::NiriActivities => self is SKA || self is SFKA,
        }
    }

    /// The capability set of the requirement.
    pub fn caps(self) -> (c: Capabilities)
        ensures
            forall|f: Flag| #[trigger] c.has(f) == self.needs(f),
    {
        let s = Capabilities::niri_socket();
        match self {
            Requirement::S => s,
            Requirement::SF => s.union(Capabilities::fuzzel()),
            Requirement::SK => s.union(Capabilities::fork()),
            Requirement::SFK => s.union(Capabilities::fuzzel()).union(Capabilities::fork()),
            Requirement::SKA => s.union(Capabilities::fork()).union(Capabilities::niri_activities()),
            Requirement::SFKA => s.union(Capabilities::fuzzel()).union(Capabilities::fork()).union(
                Capabilities::niri_activities(),
            ),
        }
    }
}

/// Every verb, in registration order.
#[derive(Debug, Clone, Copy, PartialEq, Eq, Structural)]
pub enum VerbId {
    SwitchWorkspace,
    SwitchWorkspaceAll,
    FocusWorkspacePrevious,
    ToggleDebugTint,
    SwitchActivity,
    SwitchActivityPrevious,
    MoveWindowToActivity,
    MoveWindowHere,
    MoveWorkspaceToActivity,
    AssignWorkspace,
    SaveActivity,
    ListActivities,
    CreateActivity,
    RemoveActivity,
    RenameActivity,
    ReloadConfig,
    PowerOnMonitors,
    UnsetWorkspaceName,
    RenameWorkspace,
    ListWorkspaces,
    PickWindow,
    Bookmark,
    BookmarkRemove,
    BookmarkMove,
    BookmarkAssignKey,
    BookmarkUnassignKey,
    FocusMonitor,
    MoveWindowToMonitor,
    MoveColumnToMonitor,
    MoveWorkspaceToMonitor,
    PickColor,
    Quit,
    PowerOffMonitors,
    StopCast,
    AddWorkspaceUp,
    AddWorkspaceDown,
    MoveWindowToNewWorkspaceUp,
    MoveWindowToNewWorkspaceDown,
}

/// A registry entry: CLI name, menu label, category, whether the menu shows
/// it, the capabilities it requires, and which verb it dispatches.
#[derive(Debug, Clone, Copy)]
pub struct Verb {
    pub name: &'static str,
    pub label: &'static str,
    /// Menu group; drives the category-ordered listing of [`enabled`].
    pub category: Category,
    /// False for direct-CLI-only verbs (data verbs whose stdout has no
    /// destination in a launcher flow).
    pub menu_visible: bool,
    pub requires: Capabilities,
    pub id: VerbId,
}

/// The registration order.
pub open spec fn registry_ids() -> Seq<VerbId> {
    seq![
        VerbId::SwitchWorkspace,
        VerbId::SwitchWorkspaceAll,
        VerbId::FocusWorkspacePrevious,
        VerbId::ToggleDebugTint,
        VerbId::SwitchActivity,
        VerbId::SwitchActivityPrevious,
        VerbId::MoveWindowToActivity,
        VerbId::MoveWindowHere,
        VerbId::MoveWorkspaceToActivity,
        VerbId::AssignWorkspace,
        VerbId::SaveActivity,
        VerbId::ListActivities,
        VerbId::CreateActivity,
        VerbId::RemoveActivity,
        VerbId::RenameActivity,
        VerbId::ReloadConfig,
        VerbId::PowerOnMonitors,
        VerbId::UnsetWorkspaceName,
        VerbId::RenameWorkspace,
        VerbId::ListWorkspaces,
        VerbId::PickWindow,
        VerbId::Bookmark,
        VerbId::BookmarkRemove,
        VerbId::BookmarkMove,
        VerbId::BookmarkAssignKey,
        VerbId::BookmarkUnassignKey,
        VerbId::FocusMonitor,
        VerbId::MoveWindowToMonitor,
        VerbId::MoveColumnToMonitor,
        VerbId::MoveWorkspaceToMonitor,
        VerbId::PickColor,
        VerbId::Quit,
        VerbId::PowerOffMonitors,
        VerbId::StopCast,
        VerbId::AddWorkspaceUp,
        VerbId::AddWorkspaceDown,
        VerbId::MoveWindowToNewWorkspaceUp,
        VerbId::MoveWindowToNewWorkspaceDown,
    ]
}

impl VerbId {
    /// CLI name.
    pub open spec fn spec_name(self) -> &'static str {
        match self {
            VerbId::SwitchWorkspace => "switch-workspace",
            VerbId::SwitchWorkspaceAll => "switch-workspace-all",
            VerbId::FocusWorkspacePrevious => "focus-workspace-previous",
            VerbId::ToggleDebugTint => "toggle-debug-tint",
            VerbId::SwitchActivity => "switch-activity",
            VerbId::SwitchActivityPrevious => "switch-activity-previous",
            VerbId::MoveWindowToActivity => "move-window-to-activity",
            VerbId::MoveWindowHere => "move-window-here",
            VerbId::MoveWorkspaceToActivity => "move-workspace-to-activity",
            VerbId::AssignWorkspace => "assign-workspace",
            VerbId::SaveActivity => "save-activity",
            VerbId::ListActivities => "list-activities",
            VerbId::CreateActivity => "create-activity",
            VerbId::RemoveActivity => "remove-activity",
            VerbId::RenameActivity => "rename-activity",
            VerbId::ReloadConfig => "reload-config",
            VerbId::PowerOnMonitors => "power-on-monitors",
            VerbId::UnsetWorkspaceName => "unset-workspace-name",
            VerbId::RenameWorkspace => "rename-workspace",
            VerbId::ListWorkspaces => "list-workspaces",
            VerbId::PickWindow => "pick-window",
            VerbId::Bookmark => "bookmark",
            VerbId::BookmarkRemove => "bookmark-remove",
            VerbId::BookmarkMove => "bookmark-move",
            VerbId::BookmarkAssignKey => "bookmark-assign-key",
            VerbId::BookmarkUnassignKey => "bookmark-unassign-key",
            VerbId::FocusMonitor => "focus-monitor",
            VerbId::MoveWindowToMonitor => "move-window-to-monitor",
            VerbId::MoveColumnToMonitor => "move-column-to-monitor",
            VerbId::MoveWorkspaceToMonitor => "move-workspace-to-monitor",
            VerbId::PickColor => "pick-color",
            VerbId::Quit => "quit",
            VerbId::PowerOffMonitors => "power-off-monitors",
            VerbId::StopCast => "stop-cast",
            VerbId::AddWorkspaceUp => "add-workspace-up",
            VerbId::AddWorkspaceDown => "add-workspace-down",
            VerbId::MoveWindowToNewWorkspaceUp => "move-window-to-new-workspace-up",
            VerbId::MoveWindowToNewWorkspaceDown => "move-window-to-new-workspace-down",
        }
    }

    /// Menu label.
    pub open spec fn spec_label(self) -> &'static str {
        match self {
            VerbId::SwitchWorkspace => "Switch workspace",
            VerbId::SwitchWorkspaceAll => "Switch workspace (all activities)",
            VerbId::FocusWorkspacePrevious => "Focus previous workspace",
            VerbId::ToggleDebugTint => "Toggle debug tint",
            VerbId::SwitchActivity => "Switch activity",
            VerbId::SwitchActivityPrevious => "Switch to previous activity",
            VerbId::MoveWindowToActivity => "Move window to activity",
            VerbId::MoveWindowHere => "Move window to workspace here",
            VerbId::MoveWorkspaceToActivity => "Move workspace to activity",
            VerbId::AssignWorkspace => "Assign workspace to activities",
            VerbId::SaveActivity => "Save activity",
            VerbId::ListActivities => "List activities",
            VerbId::CreateActivity => "Create activity",
            VerbId::RemoveActivity => "Remove activity",
            VerbId::RenameActivity => "Rename activity",
            VerbId::ReloadConfig => "Reload config",
            VerbId::PowerOnMonitors => "Power on monitors",
            VerbId::UnsetWorkspaceName => "Unset workspace name",
            VerbId::RenameWorkspace => "Rename workspace",
            VerbId::ListWorkspaces => "List workspaces",
            VerbId::PickWindow => "Pick window",
            VerbId::Bookmark => "Jump to bookmark",
            VerbId::BookmarkRemove => "Remove bookmark",
            VerbId::BookmarkMove => "Move bookmark",
            VerbId::BookmarkAssignKey => "Assign bookmark key",
            VerbId::BookmarkUnassignKey => "Unassign bookmark key",
            VerbId::FocusMonitor => "Focus monitor",
            VerbId::MoveWindowToMonitor => "Move window to monitor",
            VerbId::MoveColumnToMonitor => "Move column to monitor",
            VerbId::MoveWorkspaceToMonitor => "Move workspace to monitor",
            VerbId::PickColor => "Pick color",
            VerbId::Quit => "Quit jiji",
            VerbId::PowerOffMonitors => "Power off monitors",
            VerbId::StopCast => "Stop screencast",
            VerbId::AddWorkspaceUp => "Add workspace up",
            VerbId::AddWorkspaceDown => "Add workspace down",
            VerbId::MoveWindowToNewWorkspaceUp => "Move window to new workspace up",
            VerbId::MoveWindowToNewWorkspaceDown => "Move window to new workspace down",
        }
    }

    /// Menu group.
    pub open spec fn spec_category(self) -> Category {
        match self {
            VerbId::SwitchWorkspace | VerbId::SwitchWorkspaceAll | VerbId::FocusWorkspacePrevious
            | VerbId::UnsetWorkspaceName | VerbId::RenameWorkspace | VerbId::ListWorkspaces
            | VerbId::AddWorkspaceUp | VerbId::AddWorkspaceDown
            | VerbId::MoveWindowToNewWorkspaceUp
            | VerbId::MoveWindowToNewWorkspaceDown => Category::Workspace,
            VerbId::PickWindow | VerbId::Bookmark | VerbId::BookmarkRemove | VerbId::BookmarkMove
            | VerbId::BookmarkAssignKey | VerbId::BookmarkUnassignKey => Category::Window,
            VerbId::FocusMonitor | VerbId::MoveWindowToMonitor | VerbId::MoveColumnToMonitor
            | VerbId::MoveWorkspaceToMonitor => Category::Monitor,
            VerbId::ToggleDebugTint => Category::Mode,
            VerbId::SwitchActivity | VerbId::SwitchActivityPrevious | VerbId::MoveWindowToActivity
            | VerbId::MoveWindowHere | VerbId::MoveWorkspaceToActivity | VerbId::AssignWorkspace
            | VerbId::SaveActivity | VerbId::ListActivities | VerbId::CreateActivity
            | VerbId::RemoveActivity | VerbId::RenameActivity => Category::Activity,
            VerbId::ReloadConfig | VerbId::PowerOnMonitors | VerbId::PickColor | VerbId::Quit
            | VerbId::PowerOffMonitors | VerbId::StopCast => Category::System,
        }
    }

    /// Whether the menu lists the verb.
    pub open spec fn spec_menu_visible(self) -> bool {
        !(self is ListActivities || self is ListWorkspaces)
    }

    /// The capabilities the verb requires.
    pub open spec fn spec_requirement(self) -> Requirement {
        match self {
            VerbId::FocusWorkspacePrevious | VerbId::ToggleDebugTint | VerbId::ReloadConfig
            | VerbId::PowerOnMonitors | VerbId::UnsetWorkspaceName | VerbId::ListWorkspaces
            | VerbId::PickWindow | VerbId::PickColor => Requirement::S,
            VerbId::SwitchWorkspace | VerbId::RenameWorkspace | VerbId::FocusMonitor
            | VerbId::MoveWindowToMonitor | VerbId::MoveColumnToMonitor
            | VerbId::MoveWorkspaceToMonitor | VerbId::Quit | VerbId::PowerOffMonitors
            | VerbId::StopCast => Requirement::SF,
            VerbId::AddWorkspaceUp | VerbId::AddWorkspaceDown | VerbId::MoveWindowToNewWorkspaceUp
            | VerbId::MoveWindowToNewWorkspaceDown => Requirement::SK,
            VerbId::SwitchWorkspaceAll | VerbId::Bookmark | VerbId::BookmarkRemove
            | VerbId::BookmarkMove | VerbId::BookmarkAssignKey
            | VerbId::BookmarkUnassignKey => Requirement::SFK,
            VerbId::SwitchActivityPrevious | VerbId::SaveActivity
            | VerbId::ListActivities => Requirement::SKA,
            VerbId::SwitchActivity | VerbId::MoveWindowToActivity | VerbId::MoveWindowHere
            | VerbId::MoveWorkspaceToActivity | VerbId::AssignWorkspace | VerbId::CreateActivity
            | VerbId::RemoveActivity | VerbId::RenameActivity => Requirement::SFKA,
        }
    }

    /// Whether `caps` holds every capability the verb requires.
    pub open spec fn enabled_under(self, caps: Capabilities) -> bool {
        forall|f: Flag| #[trigger] self.spec_requirement().needs(f) ==> caps.has(f)
    }

    /// The registry entry of this verb.
    pub fn verb(self) -> (v: Verb)
        ensures
            v.describes(self),
    {
        let (name, label, category, menu_visible): (&'static str, &'static str, Category, bool) =
            match self {
            VerbId::SwitchWorkspace => ("switch-workspace", "Switch workspace", Category::Workspace, true),
            VerbId::SwitchWorkspaceAll => ("switch-workspace-all", "Switch workspace (all activities)", Category::Workspace, true),
            VerbId::FocusWorkspacePrevious => ("focus-workspace-previous", "Focus previous workspace", Category::Workspace, true),
            VerbId::ToggleDebugTint => ("toggle-debug-tint", "Toggle debug tint", Category::Mode, true),
            VerbId::SwitchActivity => ("switch-activity", "Switch activity", Category::Activity, true),
            VerbId::SwitchActivityPrevious => ("switch-activity-previous", "Switch to previous activity", Category::Activity, true),
            VerbId::MoveWindowToActivity => ("move-window-to-activity", "Move window to activity", Category::Activity, true),
            VerbId::MoveWindowHere => ("move-window-here", "Move window to workspace here", Category::Activity, true),
            VerbId::MoveWorkspaceToActivity => ("move-workspace-to-activity", "Move workspace to activity", Category::Activity, true),
            VerbId::AssignWorkspace => ("assign-workspace", "Assign workspace to activities", Category::Activity, true),
            VerbId::SaveActivity => ("save-activity", "Save activity", Category::Activity, true),
            VerbId::ListActivities => ("list-activities", "List activities", Category::Activity, false),
            VerbId::CreateActivity => ("create-activity", "Create activity", Category::Activity, true),
            VerbId::RemoveActivity => ("remove-activity", "Remove activity", Category::Activity, true),
            VerbId::RenameActivity => ("rename-activity", "Rename activity", Category::Activity, true),
            VerbId::ReloadConfig => ("reload-config", "Reload config", Category::System, true),
            VerbId::PowerOnMonitors => ("power-on-monitors", "Power on monitors", Category::System, true),
            VerbId::UnsetWorkspaceName => ("unset-workspace-name", "Unset workspace name", Category::Workspace, true),
            VerbId::RenameWorkspace => ("rename-workspace", "Rename workspace", Category::Workspace, true),
            VerbId::ListWorkspaces => ("list-workspaces", "List workspaces", Category::Workspace, false),
            VerbId::PickWindow => ("pick-window", "Pick window", Category::Window, true),
            VerbId::Bookmark => ("bookmark", "Jump to bookmark", Category::Window, true),
            VerbId::BookmarkRemove => ("bookmark-remove", "Remove bookmark", Category::Window, true),
            VerbId::BookmarkMove => ("bookmark-move", "Move bookmark", Category::Window, true),
            VerbId::BookmarkAssignKey => ("bookmark-assign-key", "Assign bookmark key", Category::Window, true),
            VerbId::BookmarkUnassignKey => ("bookmark-unassign-key", "Unassign bookmark key", Category::Window, true),
            VerbId::FocusMonitor => ("focus-monitor", "Focus monitor", Category::Monitor, true),
            VerbId::MoveWindowToMonitor => ("move-window-to-monitor", "Move window to monitor", Category::Monitor, true),
            VerbId::MoveColumnToMonitor => ("move-column-to-monitor", "Move column to monitor", Category::Monitor, true),
            VerbId::MoveWorkspaceToMonitor => ("move-workspace-to-monitor", "Move workspace to monitor", Category::Monitor, true),
            VerbId::PickColor => ("pick-color", "Pick color", Category::System, true),
            VerbId::Quit => ("quit", "Quit jiji", Category::System, true),
            VerbId::PowerOffMonitors => ("power-off-monitors", "Power off monitors", Category::System, true),
            VerbId::StopCast => ("stop-cast", "Stop screencast", Category::System, true),
            VerbId::AddWorkspaceUp => ("add-workspace-up", "Add workspace up", Category::Workspace, true),
            VerbId::AddWorkspaceDown => ("add-workspace-down", "Add workspace down", Category::Workspace, true),
            VerbId::MoveWindowToNewWorkspaceUp => ("move-window-to-new-workspace-up", "Move window to new workspace up", Category::Workspace, true),
            VerbId::MoveWindowToNewWorkspaceDown => ("move-window-to-new-workspace-down", "Move window to new workspace down", Category::Workspace, true),
        };
        let req = match self {
            VerbId::FocusWorkspacePrevious | VerbId::ToggleDebugTint | VerbId::ReloadConfig
            | VerbId::PowerOnMonitors | VerbId::UnsetWorkspaceName | VerbId::ListWorkspaces
            | VerbId::PickWindow | VerbId::PickColor => Requirement::S,
            VerbId::SwitchWorkspace | VerbId::RenameWorkspace | VerbId::FocusMonitor
            | VerbId::MoveWindowToMonitor | VerbId::MoveColumnToMonitor
            | VerbId::MoveWorkspaceToMonitor | VerbId::Quit | VerbId::PowerOffMonitors
            | VerbId::StopCast => Requirement::SF,
            VerbId::AddWorkspaceUp | VerbId::AddWorkspaceDown | VerbId::MoveWindowToNewWorkspaceUp
            | VerbId::MoveWindowToNewWorkspaceDown => Requirement::SK,
            VerbId::SwitchWorkspaceAll | VerbId::Bookmark | VerbId::BookmarkRemove
            | VerbId::BookmarkMove | VerbId::BookmarkAssignKey
            | VerbId::BookmarkUnassignKey => Requirement::SFK,
            VerbId::SwitchActivityPrevious | VerbId::SaveActivity
            | VerbId::ListActivities => Requirement::SKA,
            VerbId::SwitchActivity | VerbId::MoveWindowToActivity | VerbId::MoveWindowHere
            | VerbId::MoveWorkspaceToActivity | VerbId::AssignWorkspace | VerbId::CreateActivity
            | VerbId::RemoveActivity | VerbId::RenameActivity => Requirement::SFKA,
        };
        Verb { name, label, category, menu_visible, requires: req.caps(), id: self }
    }
}

impl Verb {
    /// The entry carries exactly the registry data of `id`.
    pub open spec fn describes(self, id: VerbId) -> bool {
        &&& self.id == id
        &&& self.name == id.spec_name()
        &&& self.label == id.spec_label()
        &&& self.category == id.spec_category()
        &&& self.menu_visible == id.spec_menu_visible()
        &&& forall|f: Flag| #[trigger] self.requires.has(f) == id.spec_requirement().needs(f)
    }

    /// The entry is the registry entry of its own id.
    pub open spec fn wf(self) -> bool {
        self.describes(self.id)
    }

    /// True iff every required capability is present. For a registry
    /// entry this is exactly its verb being enabled under `caps`.
    pub fn is_enabled(&self, caps: Capabilities) -> (r: bool)
        ensures
            r == (forall|f: Flag| #[trigger] self.requires.has(f) ==> caps.has(f)),
            self.wf() ==> r == self.id.enabled_under(caps),
    {
        let r = caps.contains(self.requires);
        proof {
            if self.wf() {
                if r {
                    assert forall|f: Flag| #[trigger] self.id.spec_requirement().needs(f) implies caps.has(
                        f,
                    ) by {
                        assert(self.requires.has(f));
                    }
                } else {
                    let f = choose|f: Flag| self.requires.has(f) && !caps.has(f);
                    assert(self.id.spec_requirement().needs(f));
                }
            }
        }
        r
    }
}

/// The verbs of `ids` enabled under `caps` and of category rank `c`, in order.
pub open spec fn enabled_of_rank(ids: Seq<VerbId>, caps: Capabilities, c: nat) -> Seq<VerbId>
    decreases ids.len(),
{
    if ids.len() == 0 {
        seq![]
    } else {
        let rest = enabled_of_rank(ids.drop_last(), caps, c);
        let id = ids.last();
        if id.enabled_under(caps) && id.spec_category().spec_rank() == c {
            rest.push(id)
        } else {
            rest
        }
    }
}

/// The enabled verbs of the first `n` categories, category by category,
/// registration order within each.
pub open spec fn enabled_by_category(caps: Capabilities, n: nat) -> Seq<VerbId>
    decreases n,
{
    if n == 0 {
        seq![]
    } else {
        enabled_by_category(caps, (n - 1) as nat) + enabled_of_rank(
            registry_ids(),
            caps,
            (n - 1) as nat,
        )
    }
}

/// The verbs enabled under `caps`: those whose requirement `caps` covers,
/// grouped by category in declaration order, registration order kept within
/// each category (a stable sort by category).
pub open spec fn spec_enabled(caps: Capabilities) -> Seq<VerbId> {
    enabled_by_category(caps, 6)
}

/// The full registry, in registration order.
pub fn registry() -> (r: Vec<Verb>)
    ensures
        r@.len() == registry_ids().len(),
        forall|i: int| 0 <= i < r@.len() ==> #[trigger] r@[i].describes(registry_ids()[i]),
{
    let ids = vec![
        VerbId::SwitchWorkspace,
        VerbId::SwitchWorkspaceAll,
        VerbId::FocusWorkspacePrevious,
        VerbId::ToggleDebugTint,
        VerbId::SwitchActivity,
        VerbId::SwitchActivityPrevious,
        VerbId::MoveWindowToActivity,
        VerbId::MoveWindowHere,
        VerbId::MoveWorkspaceToActivity,
        VerbId::AssignWorkspace,
        VerbId::SaveActivity,
        VerbId::ListActivities,
        VerbId::CreateActivity,
        VerbId::RemoveActivity,
        VerbId::RenameActivity,
        VerbId::ReloadConfig,
        VerbId::PowerOnMonitors,
        VerbId::UnsetWorkspaceName,
        VerbId::RenameWorkspace,
        VerbId::ListWorkspaces,
        VerbId::PickWindow,
        VerbId::Bookmark,
        VerbId::BookmarkRemove,
        VerbId::BookmarkMove,
        VerbId::BookmarkAssignKey,
        VerbId::BookmarkUnassignKey,
        VerbId::FocusMonitor,
        VerbId::MoveWindowToMonitor,
        VerbId::MoveColumnToMonitor,
        VerbId::MoveWorkspaceToMonitor,
        VerbId::PickColor,
        VerbId::Quit,
        VerbId::PowerOffMonitors,
        VerbId::StopCast,
        VerbId::AddWorkspaceUp,
        VerbId::AddWorkspaceDown,
        VerbId::MoveWindowToNewWorkspaceUp,
        VerbId::MoveWindowToNewWorkspaceDown,
    ];
    assert(ids@ =~= registry_ids());
    let mut r: Vec<Verb> = Vec::new();
    let mut i: usize = 0;
    while i < ids.len()
        invariant
            ids@ == registry_ids(),
            i <= ids@.len(),
            r@.len() == i,
            forall|j: int| 0 <= j < i ==> #[trigger] r@[j].describes(registry_ids()[j]),
        decreases ids@.len() - i,
    {
        r.push(ids[i].verb());
        i = i + 1;
    }
    r
}

/// Verbs whose required capabilities are all present, sorted by [`Category`]
/// declaration order, registration order preserved within a category.
pub fn enabled(caps: Capabilities) -> (r: Vec<Verb>)
    ensures
        r@.len() == spec_enabled(caps).len(),
        forall|i: int| 0 <= i < r@.len() ==> #[trigger] r@[i].describes(spec_enabled(caps)[i]),
{
    let reg = registry();
    let mut r: Vec<Verb> = Vec::new();
    let mut c: u8 = 0;
    while c < 6
        invariant
            reg@.len() == registry_ids().len(),
            forall|i: int| 0 <= i < reg@.len() ==> #[trigger] reg@[i].describes(registry_ids()[i]),
            c <= 6,
            r@.len() == enabled_by_category(caps, c as nat).len(),
            forall|i: int| 0 <= i < r@.len() ==> #[trigger] r@[i].describes(
                enabled_by_category(caps, c as nat)[i],
            ),
        decreases 6 - c,
    {
        let ghost before = r@;
        let mut j: usize = 0;
        while j < reg.len()
            invariant
                reg@.len() == registry_ids().len(),
                forall|i: int| 0 <= i < reg@.len() ==> #[trigger] reg@[i].describes(registry_ids()[i]),
                c < 6,
                j <= reg@.len(),
                before.len() == enabled_by_category(caps, c as nat).len(),
                r@.len() == before.len() + enabled_of_rank(registry_ids().take(j as int), caps, c as nat).len(),
                forall|i: int| 0 <= i < before.len() ==> #[trigger] r@[i] == before[i],
                forall|i: int| 0 <= i < before.len() ==> #[trigger] before[i].describes(
                    enabled_by_category(caps, c as nat)[i],
                ),
                forall|i: int| 0 <= i < r@.len() - before.len() ==> #[trigger] r@[before.len() + i].describes(
                    enabled_of_rank(registry_ids().take(j as int), caps, c as nat)[i],
                ),
            decreases reg@.len() - j,
        {
            let v = reg[j];
            proof {
                assert(registry_ids().take(j + 1).drop_last() =~= registry_ids().take(j as int));
                assert(registry_ids().take(j + 1).last() == registry_ids()[j as int]);
                assert(v.describes(registry_ids()[j as int]));
            }
            if v.is_enabled(caps) && v.category.rank() == c {
                r.push(v);
            }
            j = j + 1;
        }
        proof {
            assert(registry_ids().take(reg@.len() as int) =~= registry_ids());
            let e = enabled_by_category(caps, (c + 1) as nat);
            assert(e == enabled_by_category(caps, c as nat) + enabled_of_rank(registry_ids(), caps, c as nat));
            assert forall|i: int| 0 <= i < r@.len() implies #[trigger] r@[i].describes(e[i]) by {
                if i < before.len() {
                    assert(r@[i] == before[i]);
                } else {
                    assert(r@[before.len() + (i - before.len())].describes(
                        enabled_of_rank(registry_ids(), caps, c as nat)[i - before.len()],
                    ));
                }
            }
        }
        c = c + 1;
    }
    r
}

/// The first verb of `ids` whose name is `name`.
pub open spec fn find_in(ids: Seq<VerbId>, name: Seq<char>) -> Option<VerbId>
    decreases ids.len(),
{
    if ids.len() == 0 {
        None
    } else if ids[0].spec_name()@ == name {
        Some(ids[0])
    } else {
        find_in(ids.drop_first(), name)
    }
}

/// The registry verb named `name`, if any.
pub open spec fn spec_find(name: Seq<char>) -> Option<VerbId> {
    find_in(registry_ids(), name)
}

/// Look up a verb by its CLI name.
pub fn find(name: &str) -> (r: Option<Verb>)
    ensures
        r is Some <==> spec_find(name@) is Some,
        r matches Some(v) ==> v.describes(spec_find(name@)->0),
{
    let reg = registry();
    let mut i: usize = 0;
    assert(registry_ids().subrange(0, reg@.len() as int) =~= registry_ids());
    while i < reg.len()
        invariant
            reg@.len() == registry_ids().len(),
            forall|k: int| 0 <= k < reg@.len() ==> #[trigger] reg@[k].describes(registry_ids()[k]),
            i <= reg@.len(),
            spec_find(name@) == find_in(registry_ids().subrange(i as int, reg@.len() as int), name@),
        decreases reg@.len() - i,
    {
        let v = reg[i];
        let ghost rest = registry_ids().subrange(i as int, reg@.len() as int);
        assert(rest[0] == registry_ids()[i as int]);
        assert(v.describes(registry_ids()[i as int]));
        if crate::text::str_eq(v.name, name) {
            return Some(v);
        }
        assert(rest.drop_first() =~= registry_ids().subrange(i + 1, reg@.len() as int));
        i = i + 1;
    }
    None
}

/// The verbs of `ids` that the menu lists, in order.
pub open spec fn menu_only(ids: Seq<VerbId>) -> Seq<VerbId>
    decreases ids.len(),
{
    if ids.len() == 0 {
        seq![]
    } else if ids.last().spec_menu_visible() {
        menu_only(ids.drop_last()).push(ids.last())
    } else {
        menu_only(ids.drop_last())
    }
}

/// The enabled verbs the menu shows: [`enabled`] without the direct-CLI-only
/// verbs. `enabled` and `find` still surface those, so `--debug` and direct
/// dispatch are unaffected.
pub fn enabled_for_menu(caps: Capabilities) -> (r: Vec<Verb>)
    ensures
        r@.len() == menu_only(spec_enabled(caps)).len(),
        forall|i: int| 0 <= i < r@.len() ==> #[trigger] r@[i].describes(menu_only(spec_enabled(caps))[i]),
{
    let all = enabled(caps);
    let ghost e = spec_enabled(caps);
    let mut r: Vec<Verb> = Vec::new();
    let mut i: usize = 0;
    while i < all.len()
        invariant
            all@.len() == e.len(),
            forall|k: int| 0 <= k < all@.len() ==> #[trigger] all@[k].describes(e[k]),
            i <= all@.len(),
            r@.len() == menu_only(e.take(i as int)).len(),
            forall|k: int| 0 <= k < r@.len() ==> #[trigger] r@[k].describes(menu_only(e.take(i as int))[k]),
        decreases all@.len() - i,
    {
        let v = all[i];
        assert(e.take(i + 1).drop_last() =~= e.take(i as int));
        assert(v.describes(e[i as int]));
        if v.menu_visible {
            r.push(v);
        }
        i = i + 1;
    }
    assert(e.take(all@.len() as int) =~= e);
    r
}

/// Position of a verb in registration order.
pub open spec fn reg_index(id: VerbId) -> int {
    match id {
            VerbId::SwitchWorkspace => 0,
            VerbId::SwitchWorkspaceAll => 1,
            VerbId::FocusWorkspacePrevious => 2,
            VerbId::ToggleDebugTint => 3,
            VerbId::SwitchActivity => 4,
            VerbId::SwitchActivityPrevious => 5,
            VerbId::MoveWindowToActivity => 6,
            VerbId::MoveWindowHere => 7,
            VerbId::MoveWorkspaceToActivity => 8,
            VerbId::AssignWorkspace => 9,
            VerbId::SaveActivity => 10,
            VerbId::ListActivities => 11,
            VerbId::CreateActivity => 12,
            VerbId::RemoveActivity => 13,
            VerbId::RenameActivity => 14,
            VerbId::ReloadConfig => 15,
            VerbId::PowerOnMonitors => 16,
            VerbId::UnsetWorkspaceName => 17,
            VerbId::RenameWorkspace => 18,
            VerbId::ListWorkspaces => 19,
            VerbId::PickWindow => 20,
            VerbId::Bookmark => 21,
            VerbId::BookmarkRemove => 22,
            VerbId::BookmarkMove => 23,
            VerbId::BookmarkAssignKey => 24,
            VerbId::BookmarkUnassignKey => 25,
            VerbId::FocusMonitor => 26,
            VerbId::MoveWindowToMonitor => 27,
            VerbId::MoveColumnToMonitor => 28,
            VerbId::MoveWorkspaceToMonitor => 29,
            VerbId::PickColor => 30,
            VerbId::Quit => 31,
            VerbId::PowerOffMonitors => 32,
            VerbId::StopCast => 33,
            VerbId::AddWorkspaceUp => 34,
            VerbId::AddWorkspaceDown => 35,
            VerbId::MoveWindowToNewWorkspaceUp => 36,
            VerbId::MoveWindowToNewWorkspaceDown => 37,
    }
}

/// The registration order lists every verb once, at its own position.
pub proof fn lemma_registry_positions()
    ensures
        registry_ids().len() == 38,
        forall|i: int| 0 <= i < 38 ==> reg_index(#[trigger] registry_ids()[i]) == i,
        forall|id: VerbId| 0 <= #[trigger] reg_index(id) < 38 && registry_ids()[reg_index(id)] == id,
{
    let r = registry_ids();
    assert(reg_index(r[0]) == 0);
    assert(reg_index(r[1]) == 1);
    assert(reg_index(r[2]) == 2);
    assert(reg_index(r[3]) == 3);
    assert(reg_index(r[4]) == 4);
    assert(reg_index(r[5]) == 5);
    assert(reg_index(r[6]) == 6);
    assert(reg_index(r[7]) == 7);
    assert(reg_index(r[8]) == 8);
    assert(reg_index(r[9]) == 9);
    assert(reg_index(r[10]) == 10);
    assert(reg_index(r[11]) == 11);
    assert(reg_index(r[12]) == 12);
    assert(reg_index(r[13]) == 13);
    assert(reg_index(r[14]) == 14);
    assert(reg_index(r[15]) == 15);
    assert(reg_index(r[16]) == 16);
    assert(reg_index(r[17]) == 17);
    assert(reg_index(r[18]) == 18);
    assert(reg_index(r[19]) == 19);
    assert(reg_index(r[20]) == 20);
    assert(reg_index(r[21]) == 21);
    assert(reg_index(r[22]) == 22);
    assert(reg_index(r[23]) == 23);
    assert(reg_index(r[24]) == 24);
    assert(reg_index(r[25]) == 25);
    assert(reg_index(r[26]) == 26);
    assert(reg_index(r[27]) == 27);
    assert(reg_index(r[28]) == 28);
    assert(reg_index(r[29]) == 29);
    assert(reg_index(r[30]) == 30);
    assert(reg_index(r[31]) == 31);
    assert(reg_index(r[32]) == 32);
    assert(reg_index(r[33]) == 33);
    assert(reg_index(r[34]) == 34);
    assert(reg_index(r[35]) == 35);
    assert(reg_index(r[36]) == 36);
    assert(reg_index(r[37]) == 37);
    assert forall|i: int| 0 <= i < 38 implies reg_index(#[trigger] registry_ids()[i]) == i by {
        if i == 0 {
        }
        else if i == 1 {
        }
        else if i == 2 {
        }
        else if i == 3 {
        }
        else if i == 4 {
        }
        else if i == 5 {
        }
        else if i == 6 {
        }
        else if i == 7 {
        }
        else if i == 8 {
        }
        else if i == 9 {
        }
        else if i == 10 {
        }
        else if i == 11 {
        }
        else if i == 12 {
        }
        else if i == 13 {
        }
        else if i == 14 {
        }
        else if i == 15 {
        }
        else if i == 16 {
        }
        else if i == 17 {
        }
        else if i == 18 {
        }
        else if i == 19 {
        }
        else if i == 20 {
        }
        else if i == 21 {
        }
        else if i == 22 {
        }
        else if i == 23 {
        }
        else if i == 24 {
        }
        else if i == 25 {
        }
        else if i == 26 {
        }
        else if i == 27 {
        }
        else if i == 28 {
        }
        else if i == 29 {
        }
        else if i == 30 {
        }
        else if i == 31 {
        }
        else if i == 32 {
        }
        else if i == 33 {
        }
        else if i == 34 {
        }
        else if i == 35 {
        }
        else if i == 36 {
        }
        else if i == 37 {
        }
    }
    assert forall|id: VerbId| 0 <= #[trigger] reg_index(id) < 38 && registry_ids()[reg_index(id)]
        == id by {
        match id {
            VerbId::SwitchWorkspace => { assert(r[0] == id); },
            VerbId::SwitchWorkspaceAll => { assert(r[1] == id); },
            VerbId::FocusWorkspacePrevious => { assert(r[2] == id); },
            VerbId::ToggleDebugTint => { assert(r[3] == id); },
            VerbId::SwitchActivity => { assert(r[4] == id); },
            VerbId::SwitchActivityPrevious => { assert(r[5] == id); },
            VerbId::MoveWindowToActivity => { assert(r[6] == id); },
            VerbId::MoveWindowHere => { assert(r[7] == id); },
            VerbId::MoveWorkspaceToActivity => { assert(r[8] == id); },
            VerbId::AssignWorkspace => { assert(r[9] == id); },
            VerbId::SaveActivity => { assert(r[10] == id); },
            VerbId::ListActivities => { assert(r[11] == id); },
            VerbId::CreateActivity => { assert(r[12] == id); },
            VerbId::RemoveActivity => { assert(r[13] == id); },
            VerbId::RenameActivity => { assert(r[14] == id); },
            VerbId::ReloadConfig => { assert(r[15] == id); },
            VerbId::PowerOnMonitors => { assert(r[16] == id); },
            VerbId::UnsetWorkspaceName => { assert(r[17] == id); },
            VerbId::RenameWorkspace => { assert(r[18] == id); },
            VerbId::ListWorkspaces => { assert(r[19] == id); },
            VerbId::PickWindow => { assert(r[20] == id); },
            VerbId::Bookmark => { assert(r[21] == id); },
            VerbId::BookmarkRemove => { assert(r[22] == id); },
            VerbId::BookmarkMove => { assert(r[23] == id); },
            VerbId::BookmarkAssignKey => { assert(r[24] == id); },
            VerbId::BookmarkUnassignKey => { assert(r[25] == id); },
            VerbId::FocusMonitor => { assert(r[26] == id); },
            VerbId::MoveWindowToMonitor => { assert(r[27] == id); },
            VerbId::MoveColumnToMonitor => { assert(r[28] == id); },
            VerbId::MoveWorkspaceToMonitor => { assert(r[29] == id); },
            VerbId::PickColor => { assert(r[30] == id); },
            VerbId::Quit => { assert(r[31] == id); },
            VerbId::PowerOffMonitors => { assert(r[32] == id); },
            VerbId::StopCast => { assert(r[33] == id); },
            VerbId::AddWorkspaceUp => { assert(r[34] == id); },
            VerbId::AddWorkspaceDown => { assert(r[35] == id); },
            VerbId::MoveWindowToNewWorkspaceUp => { assert(r[36] == id); },
            VerbId::MoveWindowToNewWorkspaceDown => { assert(r[37] == id); },
        }
    }
}

/// Membership and order facts about one category's enabled verbs.
proof fn lemma_of_rank(ids: Seq<VerbId>, caps: Capabilities, c: nat)
    ensures
        forall|i: int| 0 <= i < enabled_of_rank(ids, caps, c).len() ==> {
            let x = #[trigger] enabled_of_rank(ids, caps, c)[i];
            &&& x.enabled_under(caps)
            &&& x.spec_category().spec_rank() == c
            &&& ids.contains(x)
        },
        forall|x: VerbId| ids.contains(x) && x.enabled_under(caps) && x.spec_category().spec_rank() == c
            ==> #[trigger] enabled_of_rank(ids, caps, c).contains(x),
        (forall|i: int, j: int| 0 <= i < j < ids.len() ==> reg_index(#[trigger] ids[i]) < reg_index(#[trigger] ids[j]))
            ==> (forall|i: int, j: int| 0 <= i < j < enabled_of_rank(ids, caps, c).len()
                ==> reg_index(#[trigger] enabled_of_rank(ids, caps, c)[i]) < reg_index(#[trigger] enabled_of_rank(ids, caps, c)[j])),
        (forall|i: int, j: int| 0 <= i < j < ids.len() ==> reg_index(#[trigger] ids[i]) < reg_index(#[trigger] ids[j]))
            ==> (forall|i: int| 0 <= i < enabled_of_rank(ids, caps, c).len() && ids.len() > 0
                ==> reg_index(#[trigger] enabled_of_rank(ids, caps, c)[i]) <= reg_index(ids.last())),
    decreases ids.len(),
{
    if ids.len() > 0 {
        let pre = ids.drop_last();
        lemma_of_rank(pre, caps, c);
        let r = enabled_of_rank(ids, caps, c);
        let rp = enabled_of_rank(pre, caps, c);
        assert forall|x: VerbId| pre.contains(x) implies ids.contains(x) by {
            let k = choose|k: int| 0 <= k < pre.len() && pre[k] == x;
            assert(ids[k] == x);
        }
        assert(ids.contains(ids.last())) by {
            assert(ids[ids.len() - 1] == ids.last());
        }
        assert forall|x: VerbId| ids.contains(x) && x.enabled_under(caps) && x.spec_category().spec_rank()
            == c implies #[trigger] r.contains(x) by {
            let k = choose|k: int| 0 <= k < ids.len() && ids[k] == x;
            if k < ids.len() - 1 {
                assert(pre[k] == x);
                assert(pre.contains(x));
                assert(rp.contains(x));
                let m = choose|m: int| 0 <= m < rp.len() && rp[m] == x;
                assert(r[m] == x);
            } else {
                assert(r[r.len() - 1] == x);
            }
        }
        if forall|i: int, j: int| 0 <= i < j < ids.len() ==> reg_index(#[trigger] ids[i]) < reg_index(#[trigger] ids[j]) {
            assert forall|i: int, j: int| 0 <= i < j < pre.len() implies reg_index(#[trigger] pre[i]) < reg_index(#[trigger] pre[j]) by {
                assert(pre[i] == ids[i] && pre[j] == ids[j]);
            }
            if pre.len() > 0 {
                assert(reg_index(pre.last()) < reg_index(ids.last())) by {
                    assert(pre.last() == ids[ids.len() - 2]);
                }
            }
        }
    }
}

/// The enabled verbs of the first `n` categories are exactly the enabled
/// verbs of rank below `n`, ranks never decrease along the listing, and
/// within one category registration order is kept.
proof fn lemma_by_category(caps: Capabilities, n: nat)
    ensures
        forall|i: int| 0 <= i < enabled_by_category(caps, n).len() ==> {
            let x = #[trigger] enabled_by_category(caps, n)[i];
            x.enabled_under(caps) && x.spec_category().spec_rank() < n
        },
        forall|x: VerbId| x.enabled_under(caps) && x.spec_category().spec_rank() < n
            ==> #[trigger] enabled_by_category(caps, n).contains(x),
        forall|i: int, j: int| 0 <= i < j < enabled_by_category(caps, n).len() ==> {
            let a = #[trigger] enabled_by_category(caps, n)[i];
            let b = #[trigger] enabled_by_category(caps, n)[j];
            a.spec_category().spec_rank() < b.spec_category().spec_rank()
                || (a.spec_category().spec_rank() == b.spec_category().spec_rank() && reg_index(a) < reg_index(b))
        },
    decreases n,
{
    lemma_registry_positions();
    if n > 0 {
        let m = (n - 1) as nat;
        lemma_by_category(caps, m);
        let pre = enabled_by_category(caps, m);
        let blk = enabled_of_rank(registry_ids(), caps, m);
        let e = enabled_by_category(caps, n);
        assert(e == pre + blk);
        assert forall|i: int, j: int| 0 <= i < j < registry_ids().len() implies reg_index(#[trigger] registry_ids()[i]) < reg_index(#[trigger] registry_ids()[j]) by {
        }
        lemma_of_rank(registry_ids(), caps, m);
        assert forall|i: int| 0 <= i < e.len() implies {
            let x = #[trigger] e[i];
            x.enabled_under(caps) && x.spec_category().spec_rank() < n
        } by {
            if i < pre.len() {
                assert(e[i] == pre[i]);
            } else {
                assert(e[i] == blk[i - pre.len()]);
            }
        }
        assert forall|x: VerbId| x.enabled_under(caps) && x.spec_category().spec_rank() < n implies #[trigger] e.contains(x) by {
            if x.spec_category().spec_rank() < m {
                assert(pre.contains(x));
                let k = choose|k: int| 0 <= k < pre.len() && pre[k] == x;
                assert(e[k] == x);
            } else {
                assert(registry_ids()[reg_index(x)] == x);
                assert(registry_ids().contains(x));
                assert(blk.contains(x));
                let k = choose|k: int| 0 <= k < blk.len() && blk[k] == x;
                assert(e[pre.len() + k] == x);
            }
        }
        assert forall|i: int, j: int| 0 <= i < j < e.len() implies {
            let a = #[trigger] e[i];
            let b = #[trigger] e[j];
            a.spec_category().spec_rank() < b.spec_category().spec_rank()
                || (a.spec_category().spec_rank() == b.spec_category().spec_rank() && reg_index(a) < reg_index(b))
        } by {
            if j < pre.len() {
                assert(e[i] == pre[i] && e[j] == pre[j]);
            } else if i < pre.len() {
                assert(e[i] == pre[i] && e[j] == blk[j - pre.len()]);
            } else {
                assert(e[i] == blk[i - pre.len()] && e[j] == blk[j - pre.len()]);
            }
        }
    }
}

/// Distinct verbs have distinct CLI names.
pub proof fn lemma_names_distinct(a: VerbId, b: VerbId)
    ensures
        a.spec_name()@ == b.spec_name()@ ==> a == b,
{
    reveal_strlit("switch-workspace");
    reveal_strlit("switch-workspace-all");
    reveal_strlit("focus-workspace-previous");
    reveal_strlit("toggle-debug-tint");
    reveal_strlit("switch-activity");
    reveal_strlit("switch-activity-previous");
    reveal_strlit("move-window-to-activity");
    reveal_strlit("move-window-here");
    reveal_strlit("move-workspace-to-activity");
    reveal_strlit("assign-workspace");
    reveal_strlit("save-activity");
    reveal_strlit("list-activities");
    reveal_strlit("create-activity");
    reveal_strlit("remove-activity");
    reveal_strlit("rename-activity");
    reveal_strlit("reload-config");
    reveal_strlit("power-on-monitors");
    reveal_strlit("unset-workspace-name");
    reveal_strlit("rename-workspace");
    reveal_strlit("list-workspaces");
    reveal_strlit("pick-window");
    reveal_strlit("bookmark");
    reveal_strlit("bookmark-remove");
    reveal_strlit("bookmark-move");
    reveal_strlit("bookmark-assign-key");
    reveal_strlit("bookmark-unassign-key");
    reveal_strlit("focus-monitor");
    reveal_strlit("move-window-to-monitor");
    reveal_strlit("move-column-to-monitor");
    reveal_strlit("move-workspace-to-monitor");
    reveal_strlit("pick-color");
    reveal_strlit("quit");
    reveal_strlit("power-off-monitors");
    reveal_strlit("stop-cast");
    reveal_strlit("add-workspace-up");
    reveal_strlit("add-workspace-down");
    reveal_strlit("move-window-to-new-workspace-up");
    reveal_strlit("move-window-to-new-workspace-down");
    let x = a.spec_name()@;
    let y = b.spec_name()@;
    if x == y {
        assert(x.len() == y.len());
        assert(x[2] == y[2]);
        assert(x[5] == y[5]);
    }
}

/// What a search of `ids` by name finds bears that name, and a verb that
/// `ids` holds is found under its own name.
proof fn lemma_find_in(ids: Seq<VerbId>, name: Seq<char>, id: VerbId)
    ensures
        find_in(ids, name) matches Some(found) ==> found.spec_name()@ == name && ids.contains(found),
        ids.contains(id) ==> find_in(ids, id.spec_name()@) == Some(id),
    decreases ids.len(),
{
    if ids.len() > 0 {
        lemma_find_in(ids.drop_first(), name, id);
        lemma_names_distinct(ids[0], id);
        if ids.contains(id) && ids[0] != id {
            let k = choose|k: int| 0 <= k < ids.len() && ids[k] == id;
            assert(ids.drop_first()[k - 1] == id);
        }
        if let Some(found) = find_in(ids.drop_first(), name) {
            let k = choose|k: int| 0 <= k < ids.len() - 1 && ids.drop_first()[k] == found;
            assert(ids[k + 1] == found);
        }
    }
}

/// Looking a name up finds the registered verb that bears it, and every
/// registered verb is found under its own CLI name: the names of the
/// registry are a faithful index of its verbs.
pub proof fn law_find_by_name(name: Seq<char>, id: VerbId)
    ensures
        spec_find(name) matches Some(found) ==> found.spec_name()@ == name,
        spec_find(id.spec_name()@) == Some(id),
{
    lemma_registry_positions();
    lemma_find_in(registry_ids(), name, id);
    assert(registry_ids()[reg_index(id)] == id);
}

/// `m` places each element of `a` at a position of `b`, positions strictly
/// increasing: `a` is `b` with some elements left out, order kept.
pub open spec fn embeds(a: Seq<VerbId>, b: Seq<VerbId>, m: Seq<int>) -> bool {
    &&& m.len() == a.len()
    &&& forall|i: int| 0 <= i < m.len() ==> 0 <= #[trigger] m[i] < b.len() && b[m[i]] == a[i]
    &&& forall|i: int, j: int| 0 <= i < j < m.len() ==> #[trigger] m[i] < #[trigger] m[j]
}

/// `a` is a subsequence of `b`.
pub open spec fn is_subsequence(a: Seq<VerbId>, b: Seq<VerbId>) -> bool {
    exists|m: Seq<int>| embeds(a, b, m)
}

/// Each rank block under fewer capabilities is embedded in the block under more.
proof fn lemma_rank_embeds(ids: Seq<VerbId>, small: Capabilities, large: Capabilities, c: nat) -> (m: Seq<int>)
    requires
        large.covers(small),
    ensures
        embeds(enabled_of_rank(ids, small, c), enabled_of_rank(ids, large, c), m),
    decreases ids.len(),
{
    if ids.len() == 0 {
        seq![]
    } else {
        let m0 = lemma_rank_embeds(ids.drop_last(), small, large, c);
        let a0 = enabled_of_rank(ids.drop_last(), small, c);
        let b0 = enabled_of_rank(ids.drop_last(), large, c);
        let id = ids.last();
        let in_small = id.enabled_under(small) && id.spec_category().spec_rank() == c;
        let in_large = id.enabled_under(large) && id.spec_category().spec_rank() == c;
        if id.enabled_under(small) {
            assert forall|f: Flag| #[trigger] id.spec_requirement().needs(f) implies large.has(f) by {
                assert(small.has(f));
            }
        }
        if in_small {
            let m = m0.push(b0.len() as int);
            let a = a0.push(id);
            let b = b0.push(id);
            assert forall|i: int| 0 <= i < m.len() implies 0 <= #[trigger] m[i] < b.len() && b[m[i]] == a[i] by {
                if i < m0.len() {
                    assert(m[i] == m0[i]);
                }
            }
            assert forall|i: int, j: int| 0 <= i < j < m.len() implies #[trigger] m[i] < #[trigger] m[j] by {
                if j < m0.len() {
                    assert(m[i] == m0[i] && m[j] == m0[j]);
                } else {
                    assert(m[i] == m0[i]);
                }
            }
            m
        } else if in_large {
            let b = b0.push(id);
            assert forall|i: int| 0 <= i < m0.len() implies 0 <= #[trigger] m0[i] < b.len() && b[m0[i]] == a0[i] by {
                assert(b[m0[i]] == b0[m0[i]]);
            }
            m0
        } else {
            m0
        }
    }
}

/// Embeddings of two parts give an embedding of the joined parts.
proof fn lemma_embeds_concat(
    a1: Seq<VerbId>,
    b1: Seq<VerbId>,
    m1: Seq<int>,
    a2: Seq<VerbId>,
    b2: Seq<VerbId>,
    m2: Seq<int>,
) -> (m: Seq<int>)
    requires
        embeds(a1, b1, m1),
        embeds(a2, b2, m2),
    ensures
        embeds(a1 + a2, b1 + b2, m),
{
    let shifted = Seq::new(m2.len(), |i: int| m2[i] + b1.len());
    let m = m1 + shifted;
    let a = a1 + a2;
    let b = b1 + b2;
    assert forall|i: int| 0 <= i < m.len() implies 0 <= #[trigger] m[i] < b.len() && b[m[i]] == a[i] by {
        if i < m1.len() {
            assert(m[i] == m1[i]);
        } else {
            assert(m[i] == m2[i - m1.len()] + b1.len());
        }
    }
    assert forall|i: int, j: int| 0 <= i < j < m.len() implies #[trigger] m[i] < #[trigger] m[j] by {
        if j < m1.len() {
            assert(m[i] == m1[i] && m[j] == m1[j]);
        } else if i < m1.len() {
            assert(m[i] == m1[i]);
            assert(m[j] == m2[j - m1.len()] + b1.len());
        } else {
            assert(m[i] == m2[i - m1.len()] + b1.len());
            assert(m[j] == m2[j - m1.len()] + b1.len());
        }
    }
    m
}

proof fn lemma_by_category_embeds(small: Capabilities, large: Capabilities, n: nat) -> (m: Seq<int>)
    requires
        large.covers(small),
    ensures
        embeds(enabled_by_category(small, n), enabled_by_category(large, n), m),
    decreases n,
{
    if n == 0 {
        seq![]
    } else {
        let k = (n - 1) as nat;
        let m1 = lemma_by_category_embeds(small, large, k);
        let m2 = lemma_rank_embeds(registry_ids(), small, large, k);
        lemma_embeds_concat(
            enabled_by_category(small, k),
            enabled_by_category(large, k),
            m1,
            enabled_of_rank(registry_ids(), small, k),
            enabled_of_rank(registry_ids(), large, k),
            m2,
        )
    }
}

/// More capabilities never reorder or hide verbs: what [`enabled`] lists
/// under `small` appears, in the same order, in what it lists under any
/// `large` that covers `small` (a subsequence).
pub proof fn law_enabled_subsequence_when_covered(small: Capabilities, large: Capabilities)
    requires
        large.covers(small),
    ensures
        is_subsequence(spec_enabled(small), spec_enabled(large)),
{
    let m = lemma_by_category_embeds(small, large, 6);
    assert(embeds(spec_enabled(small), spec_enabled(large), m));
}

/// With no capability at all, [`enabled`] lists nothing.
pub proof fn law_no_capabilities_enable_nothing(caps: Capabilities)
    requires
        forall|f: Flag| !#[trigger] caps.has(f),
    ensures
        spec_enabled(caps).len() == 0,
{
    lemma_by_category(caps, 6);
    if spec_enabled(caps).len() > 0 {
        let x = spec_enabled(caps)[0];
        assert(x.spec_requirement().needs(Flag::NiriSocket));
    }
}

/// A verb is listed by [`enabled`] exactly when the capabilities cover its
/// requirement: a verb is shown and dispatchable only when every flag in its
/// `requires` set is present.
pub proof fn law_enabled_iff_requirement_met(caps: Capabilities, id: VerbId)
    ensures
        spec_enabled(caps).contains(id) <==> id.enabled_under(caps),
{
    lemma_by_category(caps, 6);
    if spec_enabled(caps).contains(id) {
        let k = choose|k: int| 0 <= k < spec_enabled(caps).len() && spec_enabled(caps)[k] == id;
        assert(spec_enabled(caps)[k].enabled_under(caps));
    }
}

/// [`enabled`] lists verbs grouped by category in declaration order, and
/// within one category keeps registration order (a stable sort by category).
pub proof fn law_enabled_sorted_by_category_stably(caps: Capabilities, i: int, j: int)
    requires
        0 <= i < j < spec_enabled(caps).len(),
    ensures
        spec_enabled(caps)[i].spec_category().spec_rank() <= spec_enabled(caps)[j].spec_category().spec_rank(),
        spec_enabled(caps)[i].spec_category() == spec_enabled(caps)[j].spec_category()
            ==> reg_index(spec_enabled(caps)[i]) < reg_index(spec_enabled(caps)[j]),
{
    lemma_by_category(caps, 6);
    let a = spec_enabled(caps)[i];
    let b = spec_enabled(caps)[j];
    assert(a.spec_category().spec_rank() < b.spec_category().spec_rank()
        || (a.spec_category().spec_rank() == b.spec_category().spec_rank() && reg_index(a) < reg_index(b)));
    if a.spec_category() == b.spec_category() {
    }
}

/// [`enabled`] never lists a verb twice.
pub proof fn law_enabled_no_duplicates(caps: Capabilities, i: int, j: int)
    requires
        0 <= i < j < spec_enabled(caps).len(),
    ensures
        spec_enabled(caps)[i] != spec_enabled(caps)[j],
{
    law_enabled_sorted_by_category_stably(caps, i, j);
}

/// With every capability present, every registered verb is enabled.
pub proof fn law_full_capabilities_enable_every_verb(caps: Capabilities)
    requires
        forall|f: Flag| #[trigger] caps.has(f),
    ensures
        spec_enabled(caps).len() == registry_ids().len(),
        forall|id: VerbId| #[trigger] spec_enabled(caps).contains(id),
{
    lemma_registry_positions();
    lemma_by_category(caps, 6);
    assert forall|id: VerbId| #[trigger] spec_enabled(caps).contains(id) by {
        assert(id.enabled_under(caps));
    }
    // Distinct elements drawn from 38 verbs: count both ways.
    let e = spec_enabled(caps);
    let pos = Seq::new(e.len(), |k: int| reg_index(e[k]));
    assert forall|a: int, b: int| 0 <= a < b < e.len() implies pos[a] != pos[b] by {
        law_enabled_sorted_by_category_stably(caps, a, b);
    }
    lemma_distinct_ranks_fill(e, caps);
}

/// A duplicate-free listing that contains every verb holds 38 entries.
proof fn lemma_distinct_ranks_fill(e: Seq<VerbId>, caps: Capabilities)
    requires
        forall|id: VerbId| #[trigger] e.contains(id),
        forall|a: int, b: int| 0 <= a < b < e.len() ==> reg_index(#[trigger] e[a]) != reg_index(#[trigger] e[b]),
    ensures
        e.len() == 38,
{
    lemma_registry_positions();
    let mv = e.map_values(|x: VerbId| reg_index(x));
    let s = mv.to_set();
    let full = Set::new(|k: int| 0 <= k < 38);
    assert forall|k: int| full.contains(k) implies s.contains(k) by {
        let id = registry_ids()[k];
        assert(reg_index(id) == k);
        assert(e.contains(id));
        let m = choose|m: int| 0 <= m < e.len() && e[m] == id;
        assert(mv[m] == k);
    }
    assert forall|k: int| s.contains(k) implies full.contains(k) by {
        let m = choose|m: int| 0 <= m < mv.len() && #[trigger] mv[m] == k;
        assert(0 <= reg_index(e[m]) < 38);
    }
    assert(s =~= full);
    assert forall|a: int, b: int| 0 <= a < mv.len() && 0 <= b < mv.len() && a != b implies mv[a] != mv[b] by {
        if a < b {
        } else {
        }
    }
    mv.unique_seq_to_set();
    vstd::set_lib::lemma_int_range(0, 38);
    assert(full == vstd::set_lib::set_int_range(0, 38));
}

/// Every verb needs the compositor socket, so without it nothing is enabled.
pub proof fn law_socket_required(caps: Capabilities)
    requires
        !caps.has(Flag::NiriSocket),
    ensures
        spec_enabled(caps).len() == 0,
{
    lemma_by_category(caps, 6);
    if spec_enabled(caps).len() > 0 {
        let x = spec_enabled(caps)[0];
        assert(x.enabled_under(caps));
        assert(x.spec_requirement().needs(Flag::NiriSocket));
    }
}

/// Adding capabilities never hides a verb.
pub proof fn law_enabled_monotone(small: Capabilities, large: Capabilities, id: VerbId)
    requires
        large.covers(small),
        spec_enabled(small).contains(id),
    ensures
        spec_enabled(large).contains(id),
{
    law_enabled_iff_requirement_met(small, id);
    law_enabled_iff_requirement_met(large, id);
    assert forall|f: Flag| #[trigger] id.spec_requirement().needs(f) implies large.has(f) by {
        assert(small.has(f));
    }
}

/// Every Activity-category verb requires the fork and `jiji-activities` (and,
/// like every verb, the socket).
pub proof fn law_activity_verbs_need_fork_and_activities(id: VerbId)
    requires
        id.spec_category() == Category::Activity,
    ensures
        id.spec_requirement().needs(Flag::NiriSocket),
        id.spec_requirement().needs(Flag::Fork),
        id.spec_requirement().needs(Flag::NiriActivities),
{
}

/// The menu lists exactly the enabled verbs that are not direct-CLI-only, in
/// the same order.
pub proof fn law_menu_is_visible_part_of_enabled(ids: Seq<VerbId>, x: VerbId)
    ensures
        menu_only(ids).contains(x) <==> (ids.contains(x) && x.spec_menu_visible()),
    decreases ids.len(),
{
    if ids.len() > 0 {
        let pre = ids.drop_last();
        law_menu_is_visible_part_of_enabled(pre, x);
        let m = menu_only(ids);
        let mp = menu_only(pre);
        if ids.contains(x) && x.spec_menu_visible() {
            let k = choose|k: int| 0 <= k < ids.len() && ids[k] == x;
            if k < ids.len() - 1 {
                assert(pre[k] == x);
                let q = choose|q: int| 0 <= q < mp.len() && mp[q] == x;
                assert(m[q] == x);
            } else {
                assert(m[m.len() - 1] == x);
            }
        }
        if m.contains(x) {
            let q = choose|q: int| 0 <= q < m.len() && m[q] == x;
            if ids.last().spec_menu_visible() && q == m.len() - 1 {
                assert(ids[ids.len() - 1] == x);
            } else {
                assert(mp[q] == x);
                assert(mp.contains(x));
                let k = choose|k: int| 0 <= k < pre.len() && pre[k] == x;
                assert(ids[k] == x);
            }
        }
    }
}

} // verus!
