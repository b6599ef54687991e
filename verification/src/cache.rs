//! The reference cache: the workspaces and projects that the session has
//! fetched, found again by identifier.

use std::rc::Rc;
use vstd::prelude::*;

use crate::error::TogglError;
use crate::project::{Project, ProjectView};
use crate::time_entry::{
    resolve, resolve_many, resolved, resolved_all, TimeEntry, TimeEntryView, TimeEntryWire,
};
use crate::workspace::{Workspace, WorkspaceView};

verus! {

/// The identifiers of `workspaces`, in order.
pub open spec fn workspace_ids(workspaces: Seq<WorkspaceView>) -> Seq<i64> {
    workspaces.map_values(|w: WorkspaceView| w.id)
}

/// The identifiers of `projects`, in order.
pub open spec fn project_ids(projects: Seq<ProjectView>) -> Seq<i64> {
    projects.map_values(|p: ProjectView| p.id)
}

/// The first of `workspaces` whose identifier is `id`, if there is one.
pub open spec fn lookup_workspace(workspaces: Seq<WorkspaceView>, id: i64) -> Option<
    WorkspaceView,
> {
    match workspace_ids(workspaces).index_of_first(id) {
        Some(i) => Some(workspaces[i]),
        None => None,
    }
}

/// The first of `projects` whose identifier is `id`, if there is one.
pub open spec fn lookup_project(projects: Seq<ProjectView>, id: i64) -> Option<ProjectView> {
    match project_ids(projects).index_of_first(id) {
        Some(i) => Some(projects[i]),
        None => None,
    }
}

/// `Rc::clone`: one more handle to the allocation that `handle` points to,
/// so the value behind the new handle is the value behind `handle`.
#[verifier::external_body]
fn share<T>(handle: &Rc<T>) -> (shared: Rc<T>)
    ensures
        shared == *handle,
{
    Rc::clone(handle)
}

/// What [`lookup_workspace`] finds is the workspace at the first index whose
/// identifier is `id`; it finds nothing exactly when there is no such index.
pub proof fn lemma_lookup_workspace(workspaces: Seq<WorkspaceView>, id: i64)
    ensures
        match lookup_workspace(workspaces, id) {
            Some(w) => exists|i: int|
                0 <= i < workspaces.len() && workspaces[i] == w && w.id == id && forall|j: int|
                    0 <= j < i ==> workspaces[j].id != id,
            None => forall|i: int| 0 <= i < workspaces.len() ==> workspaces[i].id != id,
        },
{
    let ids = workspace_ids(workspaces);
    ids.index_of_first_ensures(id);
    match ids.index_of_first(id) {
        Some(i) => {
            assert(ids[i] == workspaces[i].id);
            assert forall|j: int| 0 <= j < i implies workspaces[j].id != id by {
                assert(ids[j] == workspaces[j].id);
            }
        },
        None => {
            assert forall|i: int| 0 <= i < workspaces.len() implies workspaces[i].id != id by {
                assert(ids[i] == workspaces[i].id);
            }
        },
    }
}

/// What [`lookup_project`] finds is the project at the first index whose
/// identifier is `id`; it finds nothing exactly when there is no such index.
pub proof fn lemma_lookup_project(projects: Seq<ProjectView>, id: i64)
    ensures
        match lookup_project(projects, id) {
            Some(p) => exists|i: int|
                0 <= i < projects.len() && projects[i] == p && p.id == id && forall|j: int|
                    0 <= j < i ==> projects[j].id != id,
            None => forall|i: int| 0 <= i < projects.len() ==> projects[i].id != id,
        },
{
    let ids = project_ids(projects);
    ids.index_of_first_ensures(id);
    match ids.index_of_first(id) {
        Some(i) => {
            assert(ids[i] == projects[i].id);
            assert forall|j: int| 0 <= j < i implies projects[j].id != id by {
                assert(ids[j] == projects[j].id);
            }
        },
        None => {
            assert forall|i: int| 0 <= i < projects.len() implies projects[i].id != id by {
                assert(ids[i] == projects[i].id);
            }
        },
    }
}

/// [`lookup_workspace`] finds a workspace exactly when `id` is among the
/// identifiers of `workspaces`.
pub proof fn lemma_lookup_workspace_present(workspaces: Seq<WorkspaceView>, id: i64)
    ensures
        lookup_workspace(workspaces, id) is Some <==> workspace_ids(workspaces).contains(id),
{
    workspace_ids(workspaces).index_of_first_ensures(id);
}

/// [`lookup_project`] finds a project exactly when `id` is among the
/// identifiers of `projects`.
pub proof fn lemma_lookup_project_present(projects: Seq<ProjectView>, id: i64)
    ensures
        lookup_project(projects, id) is Some <==> project_ids(projects).contains(id),
{
    project_ids(projects).index_of_first_ensures(id);
}

/// Where identifiers are unique, [`lookup_workspace`] finds the one
/// workspace that has the identifier.
pub proof fn lemma_lookup_unique_workspace(workspaces: Seq<WorkspaceView>, at: int)
    requires
        0 <= at < workspaces.len(),
        forall|i: int, j: int|
            0 <= i < j < workspaces.len() ==> workspaces[i].id != workspaces[j].id,
    ensures
        lookup_workspace(workspaces, workspaces[at].id) == Some(workspaces[at]),
{
    lemma_lookup_workspace(workspaces, workspaces[at].id);
}

/// Where identifiers are unique, [`lookup_project`] finds the one project
/// that has the identifier.
pub proof fn lemma_lookup_unique_project(projects: Seq<ProjectView>, at: int)
    requires
        0 <= at < projects.len(),
        forall|i: int, j: int| 0 <= i < j < projects.len() ==> projects[i].id != projects[j].id,
    ensures
        lookup_project(projects, projects[at].id) == Some(projects[at]),
{
    lemma_lookup_project(projects, projects[at].id);
}

/// If `at` is the first index of `ids` that holds `id`, that is the index
/// found; if `at` is the length of `ids` and no index holds `id`, none is
/// found.
proof fn lemma_first_index(ids: Seq<i64>, id: i64, at: int)
    requires
        0 <= at <= ids.len(),
        forall|j: int| 0 <= j < at ==> ids[j] != id,
        at < ids.len() ==> ids[at] == id,
    ensures
        at < ids.len() ==> ids.index_of_first(id) == Some(at),
        at == ids.len() ==> ids.index_of_first(id) is None,
{
    ids.index_of_first_ensures(id);
}

/// Looks for the workspace with identifier `id`, going through `workspaces`
/// from the front. The handle that comes back shares the workspace with the
/// one in `workspaces`.
pub fn find_workspace(workspaces: &[Rc<Workspace>], id: i64) -> (found: Option<Rc<Workspace>>)
    ensures
        found.deep_view() == lookup_workspace(workspaces.deep_view(), id),
        found matches Some(w) ==> workspaces@.contains(w),
{
    let mut i: usize = 0;
    while i < workspaces.len()
        invariant
            i <= workspaces.len(),
            forall|j: int| 0 <= j < i ==> workspace_ids(workspaces.deep_view())[j] != id,
        decreases workspaces.len() - i,
    {
        if workspaces[i].id == id {
            let found = share(&workspaces[i]);
            proof {
                lemma_first_index(workspace_ids(workspaces.deep_view()), id, i as int);
                assert(workspaces@[i as int] == found);
            }
            return Some(found);
        }
        i += 1;
    }
    proof {
        lemma_first_index(workspace_ids(workspaces.deep_view()), id, i as int);
    }
    None
}

/// Looks for the project with identifier `id`, going through `projects`
/// from the front. The handle that comes back shares the project with the
/// one in `projects`.
pub fn find_project(projects: &[Rc<Project>], id: i64) -> (found: Option<Rc<Project>>)
    ensures
        found.deep_view() == lookup_project(projects.deep_view(), id),
        found matches Some(p) ==> projects@.contains(p),
{
    let mut i: usize = 0;
    while i < projects.len()
        invariant
            i <= projects.len(),
            forall|j: int| 0 <= j < i ==> project_ids(projects.deep_view())[j] != id,
        decreases projects.len() - i,
    {
        if projects[i].id == id {
            let found = share(&projects[i]);
            proof {
                lemma_first_index(project_ids(projects.deep_view()), id, i as int);
                assert(projects@[i as int] == found);
            }
            return Some(found);
        }
        i += 1;
    }
    proof {
        lemma_first_index(project_ids(projects.deep_view()), id, i as int);
    }
    None
}

/// The workspaces and projects that the session has fetched.
///
/// The workspaces are there from the start. The projects are fetched when
/// they are first needed and stored once; until then the cache is not
/// filled and holds no project.
pub struct ReferenceCache {
    workspaces: Vec<Rc<Workspace>>,
    projects: Option<Vec<Rc<Project>>>,
}

/// What a [`ReferenceCache`] stands for in contracts.
pub struct ReferenceCacheView {
    pub workspaces: Seq<WorkspaceView>,
    pub projects: Option<Seq<ProjectView>>,
}

/// What the cache needs before records can be resolved against it.
#[derive(Debug, Clone, Copy, PartialEq, Eq, Structural)]
pub enum CacheAction {
    /// The projects have not been fetched yet: fetch them and store them.
    FetchProjects,
    /// The cache is filled: nothing is to be fetched.
    Proceed,
}

impl ReferenceCacheView {
    /// Whether the projects have been stored.
    pub open spec fn filled(self) -> bool {
        self.projects is Some
    }

    /// The projects that the cache holds: none until it is filled.
    pub open spec fn known_projects(self) -> Seq<ProjectView> {
        match self.projects {
            Some(projects) => projects,
            None => Seq::empty(),
        }
    }

    /// The cache after `fetched` was handed to it: filled with `fetched` if
    /// it was not filled, unchanged if it was.
    pub open spec fn store(self, fetched: Seq<ProjectView>) -> ReferenceCacheView {
        if self.filled() {
            self
        } else {
            ReferenceCacheView { workspaces: self.workspaces, projects: Some(fetched) }
        }
    }
}

impl View for ReferenceCache {
    type V = ReferenceCacheView;

    closed spec fn view(&self) -> ReferenceCacheView {
        ReferenceCacheView {
            workspaces: self.workspaces.deep_view(),
            projects: match self.projects {
                Some(projects) => Some(projects.deep_view()),
                None => None,
            },
        }
    }
}

impl ReferenceCache {
    /// A cache with the session's workspaces and no projects yet.
    pub fn new(workspaces: Vec<Rc<Workspace>>) -> (cache: ReferenceCache)
        ensures
            cache@.workspaces == workspaces.deep_view(),
            cache@.projects is None,
    {
        ReferenceCache { workspaces, projects: None }
    }

    /// The workspaces of the session.
    pub fn workspaces(&self) -> (all: &[Rc<Workspace>])
        ensures
            all.deep_view() == self@.workspaces,
    {
        self.workspaces.as_slice()
    }

    /// The projects that were stored, or `None` as long as the cache is not
    /// filled.
    pub fn projects(&self) -> (all: Option<&[Rc<Project>]>)
        ensures
            match all {
                Some(projects) => self@.projects == Some(projects.deep_view()),
                None => self@.projects is None,
            },
    {
        match &self.projects {
            Some(projects) => Some(projects.as_slice()),
            None => None,
        }
    }

    /// Says what has to happen so that the cache is filled: the projects are
    /// to be fetched if they never were, and nothing is to be done if they
    /// were.
    pub fn ensure_filled(&self) -> (action: CacheAction)
        ensures
            action == if self@.filled() {
                CacheAction::Proceed
            } else {
                CacheAction::FetchProjects
            },
    {
        match self.projects {
            Some(_) => CacheAction::Proceed,
            None => CacheAction::FetchProjects,
        }
    }

    /// Takes the projects that were fetched. A cache that is not filled
    /// stores them and is filled from then on; a filled cache keeps what it
    /// has.
    pub fn store_projects(&mut self, fetched: Vec<Rc<Project>>)
        ensures
            final(self)@ == old(self)@.store(fetched.deep_view()),
    {
        if self.projects.is_none() {
            self.projects = Some(fetched);
        }
    }

    /// The cached workspace with identifier `id`, or `None` if the cache
    /// holds no such workspace.
    pub fn find_workspace(&self, id: i64) -> (found: Option<Rc<Workspace>>)
        ensures
            found.deep_view() == lookup_workspace(self@.workspaces, id),
    {
        find_workspace(self.workspaces.as_slice(), id)
    }

    /// The cached project with identifier `id`, or `None` if the cache holds
    /// no such project.
    pub fn find_project(&self, id: i64) -> (found: Option<Rc<Project>>)
        ensures
            found.deep_view() == lookup_project(self@.known_projects(), id),
    {
        match &self.projects {
            Some(projects) => find_project(projects.as_slice(), id),
            None => {
                proof {
                    lemma_first_index(project_ids(Seq::<ProjectView>::empty()), id, 0);
                }
                None
            },
        }
    }

    /// Resolves `record` against what the cache holds.
    pub fn resolve(&self, record: &TimeEntryWire) -> (result: Result<TimeEntry, TogglError>)
        ensures
            match result {
                Ok(entry) => resolved(record@, self@.workspaces, self@.known_projects()) == Ok::<
                    TimeEntryView,
                    TogglError,
                >(entry@),
                Err(error) => resolved(record@, self@.workspaces, self@.known_projects()) == Err::<
                    TimeEntryView,
                    TogglError,
                >(error),
            },
    {
        match &self.projects {
            Some(projects) => resolve(record, self.workspaces.as_slice(), projects.as_slice()),
            None => {
                let none: Vec<Rc<Project>> = Vec::new();
                assert(none.deep_view() =~= Seq::<ProjectView>::empty());
                resolve(record, self.workspaces.as_slice(), none.as_slice())
            },
        }
    }

    /// Resolves every record of `records` against what the cache holds, in
    /// order, all or none.
    pub fn resolve_many(&self, records: &[TimeEntryWire]) -> (result: Result<
        Vec<TimeEntry>,
        TogglError,
    >)
        ensures
            match result {
                Ok(entries) => resolved_all(
                    records.deep_view(),
                    self@.workspaces,
                    self@.known_projects(),
                ) == Ok::<Seq<TimeEntryView>, TogglError>(entries.deep_view()),
                Err(error) => resolved_all(
                    records.deep_view(),
                    self@.workspaces,
                    self@.known_projects(),
                ) == Err::<Seq<TimeEntryView>, TogglError>(error),
            },
    {
        match &self.projects {
            Some(projects) => resolve_many(
                records,
                self.workspaces.as_slice(),
                projects.as_slice(),
            ),
            None => {
                let none: Vec<Rc<Project>> = Vec::new();
                assert(none.deep_view() =~= Seq::<ProjectView>::empty());
                resolve_many(records, self.workspaces.as_slice(), none.as_slice())
            },
        }
    }
}

/// Storing projects twice is storing them once: what comes second is
/// dropped, the workspaces stay, and the cache is filled after the first
/// time.
pub proof fn lemma_store_once(
    cache: ReferenceCacheView,
    first: Seq<ProjectView>,
    second: Seq<ProjectView>,
)
    ensures
        cache.store(first).filled(),
        cache.store(first).store(second) == cache.store(first),
        cache.store(first).workspaces == cache.workspaces,
        !cache.filled() ==> cache.store(first).known_projects() == first,
        cache.filled() ==> cache.store(first) == cache,
{
}

} // verus!
