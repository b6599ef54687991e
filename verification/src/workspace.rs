//! Workspaces, as the session's reference cache holds them.

use vstd::prelude::*;

verus! {

/// A workspace of the user.
#[derive(Debug, Clone, PartialEq, Eq)]
pub struct Workspace {
    pub id: i64,
    pub name: String,
}

/// What a [`Workspace`] stands for in contracts.
pub struct WorkspaceView {
    pub id: i64,
    pub name: Seq<char>,
}

impl View for Workspace {
    type V = WorkspaceView;

    open spec fn view(&self) -> WorkspaceView {
        WorkspaceView { id: self.id, name: self.name@ }
    }
}

impl DeepView for Workspace {
    type V = WorkspaceView;

    open spec fn deep_view(&self) -> WorkspaceView {
        self@
    }
}

} // verus!
