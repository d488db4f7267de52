//! Typed errors with explicit exit codes. Capability misses map to 69
//! (EX_UNAVAILABLE); every other failure maps to 1.

use vstd::prelude::*;

verus! {

/// A required capability is absent: `$NIRI_SOCKET` unreachable, a gated verb
/// invoked in an unsupported environment, or the menu requested with fuzzel
/// missing.
#[derive(Debug)]
pub enum DoError {
    MissingCapability(String),
}

impl DoError {
    /// Process exit code. 69 = EX_UNAVAILABLE.
    pub fn exit_code(&self) -> (c: i32)
        ensures
            c == 69,
    {
        match self {
            DoError::MissingCapability(_) => 69,
        }
    }

    /// The diagnostic text: the raw message (what `Display` shows).
    pub fn to_string(&self) -> (m: String)
        ensures
            m@ == self.spec_message(),
    {
        match self {
            DoError::MissingCapability(m) => m.clone(),
        }
    }

    pub open spec fn spec_message(&self) -> Seq<char> {
        match self {
            DoError::MissingCapability(m) => m@,
        }
    }
}

/// Why a verb stopped without completing its action. All of these exit 1:
/// they are runtime data conditions or outside failures, never capability
/// misses.
#[derive(Debug)]
pub enum VerbError {
    /// The launch snapshot holds no focused window.
    NoFocusedWindow,
    /// The launch snapshot holds no focused workspace.
    NoFocusedWorkspace,
    /// The launch snapshot holds no focused activity.
    NoFocusedActivity,
    /// The bookmark inventory is empty.
    NoBookmarks,
    /// No bookmark has a key assigned.
    NoKeyedBookmarks,
    /// The compositor reports no outputs.
    NoOutputs,
    /// No screencast is active.
    NoCasts,
    /// The activity inventory is empty (remove-activity).
    NoActivitiesToRemove,
    /// The activity inventory is empty (rename-activity).
    NoActivitiesToRename,
    /// The all-activities workspace inventory is empty.
    NoWorkspaces,
    /// The named activity has no workspaces.
    NoWorkspacesInActivity(String),
    /// The named activity is not in the activities payload.
    UnknownActivity(String),
    /// The picker echoed a label that matches no choice.
    UnknownLabel(String),
    /// No registry verb has this name.
    UnknownVerb(String),
    /// Outside work failed (a subprocess exited non-zero, fuzzel failed, a
    /// payload did not parse); the text says how.
    Failed(String),
    /// The driver answered with an event the verb did not ask for.
    UnexpectedEvent,
}

/// The content of a [`VerbError`].
pub enum VerbErrorView {
    NoFocusedWindow,
    NoFocusedWorkspace,
    NoFocusedActivity,
    NoBookmarks,
    NoKeyedBookmarks,
    NoOutputs,
    NoCasts,
    NoActivitiesToRemove,
    NoActivitiesToRename,
    NoWorkspaces,
    NoWorkspacesInActivity(Seq<char>),
    UnknownActivity(Seq<char>),
    UnknownLabel(Seq<char>),
    UnknownVerb(Seq<char>),
    Failed(Seq<char>),
    UnexpectedEvent,
}

impl View for VerbError {
    type V = VerbErrorView;

    open spec fn view(&self) -> VerbErrorView {
        match self {
            VerbError::NoFocusedWindow => VerbErrorView::NoFocusedWindow,
            VerbError::NoFocusedWorkspace => VerbErrorView::NoFocusedWorkspace,
            VerbError::NoFocusedActivity => VerbErrorView::NoFocusedActivity,
            VerbError::NoBookmarks => VerbErrorView::NoBookmarks,
            VerbError::NoKeyedBookmarks => VerbErrorView::NoKeyedBookmarks,
            VerbError::NoOutputs => VerbErrorView::NoOutputs,
            VerbError::NoCasts => VerbErrorView::NoCasts,
            VerbError::NoActivitiesToRemove => VerbErrorView::NoActivitiesToRemove,
            VerbError::NoActivitiesToRename => VerbErrorView::NoActivitiesToRename,
            VerbError::NoWorkspaces => VerbErrorView::NoWorkspaces,
            VerbError::NoWorkspacesInActivity(a) => VerbErrorView::NoWorkspacesInActivity(a@),
            VerbError::UnknownActivity(a) => VerbErrorView::UnknownActivity(a@),
            VerbError::UnknownLabel(l) => VerbErrorView::UnknownLabel(l@),
            VerbError::UnknownVerb(n) => VerbErrorView::UnknownVerb(n@),
            VerbError::Failed(m) => VerbErrorView::Failed(m@),
            VerbError::UnexpectedEvent => VerbErrorView::UnexpectedEvent,
        }
    }
}

/// The diagnostic text of each error.
pub open spec fn verb_error_text(e: VerbErrorView) -> Seq<char> {
    match e {
        VerbErrorView::NoFocusedWindow => "no focused window at launch"@,
        VerbErrorView::NoFocusedWorkspace => "no focused workspace at launch"@,
        VerbErrorView::NoFocusedActivity => "no focused activity at launch"@,
        VerbErrorView::NoBookmarks => "no bookmarks"@,
        VerbErrorView::NoKeyedBookmarks => "no bookmarks with an assigned key"@,
        VerbErrorView::NoOutputs => "no outputs available"@,
        VerbErrorView::NoCasts => "no active casts"@,
        VerbErrorView::NoActivitiesToRemove => "no activities to remove"@,
        VerbErrorView::NoActivitiesToRename => "no activities to rename"@,
        VerbErrorView::NoWorkspaces => "no workspaces found"@,
        VerbErrorView::NoWorkspacesInActivity(a) => "no workspaces found in activity '"@ + a + "'"@,
        VerbErrorView::UnknownActivity(a) => "unknown activity: "@ + a,
        VerbErrorView::UnknownLabel(l) => "picker returned unknown label: "@ + l,
        VerbErrorView::UnknownVerb(n) => "unknown verb: "@ + n,
        VerbErrorView::Failed(m) => m,
        VerbErrorView::UnexpectedEvent => "unexpected answer from the driver"@,
    }
}

impl VerbError {
    /// Process exit code: always 1.
    pub fn exit_code(&self) -> (c: i32)
        ensures
            c == 1,
    {
        1
    }

    /// The diagnostic text.
    pub fn message(&self) -> (m: String)
        ensures
            m@ == verb_error_text(self@),
    {
        let mut m = String::new();
        match self {
            VerbError::NoFocusedWindow => m.append("no focused window at launch"),
            VerbError::NoFocusedWorkspace => m.append("no focused workspace at launch"),
            VerbError::NoFocusedActivity => m.append("no focused activity at launch"),
            VerbError::NoBookmarks => m.append("no bookmarks"),
            VerbError::NoKeyedBookmarks => m.append("no bookmarks with an assigned key"),
            VerbError::NoOutputs => m.append("no outputs available"),
            VerbError::NoCasts => m.append("no active casts"),
            VerbError::NoActivitiesToRemove => m.append("no activities to remove"),
            VerbError::NoActivitiesToRename => m.append("no activities to rename"),
            VerbError::NoWorkspaces => m.append("no workspaces found"),
            VerbError::NoWorkspacesInActivity(a) => {
                m.append("no workspaces found in activity '");
                m.append(a.as_str());
                m.append("'");
            },
            VerbError::UnknownActivity(a) => {
                m.append("unknown activity: ");
                m.append(a.as_str());
            },
            VerbError::UnknownLabel(l) => {
                m.append("picker returned unknown label: ");
                m.append(l.as_str());
            },
            VerbError::UnknownVerb(n) => {
                m.append("unknown verb: ");
                m.append(n.as_str());
            },
            VerbError::Failed(t) => m.append(t.as_str()),
            VerbError::UnexpectedEvent => m.append("unexpected answer from the driver"),
        }
        assert(m@ =~= verb_error_text(self@));
        m
    }
}

} // verus!
