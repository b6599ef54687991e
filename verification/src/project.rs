//! Projects, as the session's reference cache holds them.

use vstd::prelude::*;

verus! {

/// A project, with the workspace that owns it.
#[derive(Debug, Clone, PartialEq, Eq)]
pub struct Project {
    pub id: i64,
    pub name: String,
    pub wid: i64,
}

/// What a [`Project`] stands for in contracts.
pub struct ProjectView {
    pub id: i64,
    pub name: Seq<char>,
    pub wid: i64,
}

impl View for Project {
    type V = ProjectView;

    open spec fn view(&self) -> ProjectView {
        ProjectView { id: self.id, name: self.name@, wid: self.wid }
    }
}

impl DeepView for Project {
    type V = ProjectView;

    open spec fn deep_view(&self) -> ProjectView {
        self@
    }
}

} // verus!
