//! Time entries: the flat record that travels to and from the service, the
//! entry that holds its workspace and project, and the way from one to the
//! other.

use std::rc::Rc;
use vstd::prelude::*;
use vstd::std_specs::convert::FromSpecImpl;

use crate::cache::{
    find_project, find_workspace, lemma_lookup_project, lemma_lookup_project_present,
    lemma_lookup_workspace, lemma_lookup_workspace_present, lookup_project, lookup_workspace,
    project_ids, workspace_ids,
};
use crate::error::{ReferenceKind, TogglError};
use crate::project::{Project, ProjectView};
use crate::timestamp::Timestamp;
use crate::workspace::{Workspace, WorkspaceView};

verus! {

/// `uuid::Uuid`, the token by which client and service tell entries apart.
/// Nothing here looks inside one: it is carried from record to entry and
/// back.
#[verifier::external_type_specification]
#[verifier::external_body]
pub struct ExUuid(uuid::Uuid);

/// A time entry as the service sends and receives it: workspace and project
/// appear by identifier only.
#[derive(Debug, PartialEq, Eq)]
pub struct TimeEntryWire {
    pub id: i64,
    pub guid: uuid::Uuid,
    pub wid: i64,
    pub pid: i64,
    pub start: Timestamp,
    pub stop: Timestamp,
    pub duration: i64,
    pub description: String,
    pub duronly: bool,
    pub at: Timestamp,
    pub uuid: uuid::Uuid,
}

/// What a [`TimeEntryWire`] stands for in contracts.
pub struct TimeEntryWireView {
    pub id: i64,
    pub guid: uuid::Uuid,
    pub wid: i64,
    pub pid: i64,
    pub start: Timestamp,
    pub stop: Timestamp,
    pub duration: i64,
    pub description: Seq<char>,
    pub duronly: bool,
    pub at: Timestamp,
    pub uuid: uuid::Uuid,
}

impl View for TimeEntryWire {
    type V = TimeEntryWireView;

    open spec fn view(&self) -> TimeEntryWireView {
        TimeEntryWireView {
            id: self.id,
            guid: self.guid,
            wid: self.wid,
            pid: self.pid,
            start: self.start,
            stop: self.stop,
            duration: self.duration,
            description: self.description@,
            duronly: self.duronly,
            at: self.at,
            uuid: self.uuid,
        }
    }
}

impl DeepView for TimeEntryWire {
    type V = TimeEntryWireView;

    open spec fn deep_view(&self) -> TimeEntryWireView {
        self@
    }
}

/// A time entry that holds its workspace and its project, shared with the
/// collections they were found in.
#[derive(Debug, PartialEq, Eq)]
pub struct TimeEntry {
    id: i64,
    guid: uuid::Uuid,
    workspace: Rc<Workspace>,
    project: Rc<Project>,
    start: Timestamp,
    stop: Timestamp,
    duration: i64,
    description: String,
    duronly: bool,
    at: Timestamp,
    uuid: uuid::Uuid,
}

/// What a [`TimeEntry`] stands for in contracts.
pub struct TimeEntryView {
    pub id: i64,
    pub guid: uuid::Uuid,
    pub workspace: WorkspaceView,
    pub project: ProjectView,
    pub start: Timestamp,
    pub stop: Timestamp,
    pub duration: i64,
    pub description: Seq<char>,
    pub duronly: bool,
    pub at: Timestamp,
    pub uuid: uuid::Uuid,
}

impl View for TimeEntry {
    type V = TimeEntryView;

    closed spec fn view(&self) -> TimeEntryView {
        TimeEntryView {
            id: self.id,
            guid: self.guid,
            workspace: self.workspace@,
            project: self.project@,
            start: self.start,
            stop: self.stop,
            duration: self.duration,
            description: self.description@,
            duronly: self.duronly,
            at: self.at,
            uuid: self.uuid,
        }
    }
}

impl DeepView for TimeEntry {
    type V = TimeEntryView;

    open spec fn deep_view(&self) -> TimeEntryView {
        self@
    }
}

/// The record that stands for `entry` on the wire: the entry's own fields,
/// with the identifiers of its workspace and project in their place.
pub open spec fn wire_of(entry: TimeEntryView) -> TimeEntryWireView {
    TimeEntryWireView {
        id: entry.id,
        guid: entry.guid,
        wid: entry.workspace.id,
        pid: entry.project.id,
        start: entry.start,
        stop: entry.stop,
        duration: entry.duration,
        description: entry.description,
        duronly: entry.duronly,
        at: entry.at,
        uuid: entry.uuid,
    }
}

impl TimeEntry {
    /// The identifier that the service gave the entry.
    pub fn id(&self) -> (id: i64)
        ensures
            id == self@.id,
    {
        self.id
    }

    /// The token that the service knows the entry by.
    pub fn guid(&self) -> (guid: uuid::Uuid)
        ensures
            guid == self@.guid,
    {
        self.guid
    }

    /// The workspace of the entry.
    pub fn workspace(&self) -> (workspace: &Rc<Workspace>)
        ensures
            workspace@ == self@.workspace,
    {
        &self.workspace
    }

    /// The project of the entry.
    pub fn project(&self) -> (project: &Rc<Project>)
        ensures
            project@ == self@.project,
    {
        &self.project
    }

    /// When the entry started.
    pub fn start(&self) -> (start: Timestamp)
        ensures
            start == self@.start,
    {
        self.start
    }

    /// When the entry stopped.
    pub fn stop(&self) -> (stop: Timestamp)
        ensures
            stop == self@.stop,
    {
        self.stop
    }

    /// The length of the entry in seconds; negative while the entry runs.
    pub fn duration(&self) -> (duration: i64)
        ensures
            duration == self@.duration,
    {
        self.duration
    }

    /// Whether the entry is running: it is while its duration is negative.
    pub fn is_running(&self) -> (running: bool)
        ensures
            running == (self@.duration < 0),
    {
        self.duration < 0
    }

    /// What the entry is about.
    pub fn description(&self) -> (description: &str)
        ensures
            description@ == self@.description,
    {
        self.description.as_str()
    }

    /// Whether the entry records a duration only, without start and stop.
    pub fn duronly(&self) -> (duronly: bool)
        ensures
            duronly == self@.duronly,
    {
        self.duronly
    }

    /// When the entry was last changed.
    pub fn at(&self) -> (at: Timestamp)
        ensures
            at == self@.at,
    {
        self.at
    }

    /// The token that the client gave the entry.
    pub fn correlation_token(&self) -> (token: uuid::Uuid)
        ensures
            token == self@.uuid,
    {
        self.uuid
    }

    /// Says anew what the entry is about. Nothing else changes, and the
    /// service learns of it only when the entry is sent as an update.
    pub fn set_description(&mut self, description: String)
        ensures
            final(self)@ == (TimeEntryView { description: description@, ..old(self)@ }),
    {
        self.description = description;
    }

    /// Sets when the entry started. Nothing else changes.
    pub fn set_start(&mut self, start: Timestamp)
        ensures
            final(self)@ == (TimeEntryView { start, ..old(self)@ }),
    {
        self.start = start;
    }

    /// Sets when the entry stopped. Nothing else changes.
    pub fn set_stop(&mut self, stop: Timestamp)
        ensures
            final(self)@ == (TimeEntryView { stop, ..old(self)@ }),
    {
        self.stop = stop;
    }

    /// Sets the length of the entry in seconds; a negative length says that
    /// the entry runs. Nothing else changes.
    pub fn set_duration(&mut self, duration: i64)
        ensures
            final(self)@ == (TimeEntryView { duration, ..old(self)@ }),
    {
        self.duration = duration;
    }

    /// Sets whether the entry records a duration only. Nothing else
    /// changes.
    pub fn set_duronly(&mut self, duronly: bool)
        ensures
            final(self)@ == (TimeEntryView { duronly, ..old(self)@ }),
    {
        self.duronly = duronly;
    }
}

impl From<TimeEntry> for TimeEntryWire {
    /// The record that stands for `entry` on the wire.
    fn from(entry: TimeEntry) -> (record: TimeEntryWire)
        ensures
            record@ == wire_of(entry@),
    {
        TimeEntryWire {
            id: entry.id,
            guid: entry.guid,
            wid: entry.workspace.id,
            pid: entry.project.id,
            start: entry.start,
            stop: entry.stop,
            duration: entry.duration,
            description: entry.description,
            duronly: entry.duronly,
            at: entry.at,
            uuid: entry.uuid,
        }
    }
}

impl FromSpecImpl<TimeEntry> for TimeEntryWire {
    open spec fn obeys_from_spec() -> bool {
        true
    }

    closed spec fn from_spec(entry: TimeEntry) -> TimeEntryWire {
        TimeEntryWire {
            id: entry.id,
            guid: entry.guid,
            wid: entry.workspace.id,
            pid: entry.project.id,
            start: entry.start,
            stop: entry.stop,
            duration: entry.duration,
            description: entry.description,
            duronly: entry.duronly,
            at: entry.at,
            uuid: entry.uuid,
        }
    }
}

/// The entry that `record` resolves to among `workspaces` and `projects`:
/// the record's own fields, with the first workspace whose identifier is
/// `record.wid` and the first project whose identifier is `record.pid`.
/// Where the workspace is missing, that is the error; else, where the
/// project is missing, that is.
pub open spec fn resolved(
    record: TimeEntryWireView,
    workspaces: Seq<WorkspaceView>,
    projects: Seq<ProjectView>,
) -> Result<TimeEntryView, TogglError> {
    match lookup_workspace(workspaces, record.wid) {
        None => Err(
            TogglError::MissingReference { kind: ReferenceKind::Workspace, id: record.wid },
        ),
        Some(workspace) => match lookup_project(projects, record.pid) {
            None => Err(
                TogglError::MissingReference { kind: ReferenceKind::Project, id: record.pid },
            ),
            Some(project) => Ok(
                TimeEntryView {
                    id: record.id,
                    guid: record.guid,
                    workspace,
                    project,
                    start: record.start,
                    stop: record.stop,
                    duration: record.duration,
                    description: record.description,
                    duronly: record.duronly,
                    at: record.at,
                    uuid: record.uuid,
                },
            ),
        },
    }
}

/// What [`resolved`] comes to. A record resolves exactly when its two
/// identifiers are among those of `workspaces` and `projects`; the entry
/// then carries these identifiers, and its workspace and project are among
/// the two collections. A record that does not resolve fails with
/// `MissingReference`, which names the workspace if that is missing and
/// the project otherwise.
pub proof fn lemma_resolved(
    record: TimeEntryWireView,
    workspaces: Seq<WorkspaceView>,
    projects: Seq<ProjectView>,
)
    ensures
        match resolved(record, workspaces, projects) {
            Ok(entry) => {
                &&& workspace_ids(workspaces).contains(record.wid)
                &&& project_ids(projects).contains(record.pid)
                &&& entry.workspace.id == record.wid
                &&& entry.project.id == record.pid
                &&& workspaces.contains(entry.workspace)
                &&& projects.contains(entry.project)
                &&& wire_of(entry) == record
            },
            Err(error) => if workspace_ids(workspaces).contains(record.wid) {
                &&& !project_ids(projects).contains(record.pid)
                &&& error == (TogglError::MissingReference {
                    kind: ReferenceKind::Project,
                    id: record.pid,
                })
            } else {
                error == (TogglError::MissingReference {
                    kind: ReferenceKind::Workspace,
                    id: record.wid,
                })
            },
        },
{
    lemma_lookup_workspace(workspaces, record.wid);
    lemma_lookup_project(projects, record.pid);
    lemma_lookup_workspace_present(workspaces, record.wid);
    lemma_lookup_project_present(projects, record.pid);
}

/// Resolves `record` against `workspaces` and `projects`.
///
/// The entry holds the very workspace and project of the two collections
/// whose identifiers the record names. If either is missing the result is
/// `MissingReference`, with the kind and the identifier that could not be
/// found, and no entry is made.
pub fn resolve(
    record: &TimeEntryWire,
    workspaces: &[Rc<Workspace>],
    projects: &[Rc<Project>],
) -> (result: Result<TimeEntry, TogglError>)
    ensures
        match result {
            Ok(entry) => resolved(record@, workspaces.deep_view(), projects.deep_view()) == Ok::<
                TimeEntryView,
                TogglError,
            >(entry@),
            Err(error) => resolved(record@, workspaces.deep_view(), projects.deep_view()) == Err::<
                TimeEntryView,
                TogglError,
            >(error),
        },
        result is Ok <==> workspace_ids(workspaces.deep_view()).contains(record.wid)
            && project_ids(projects.deep_view()).contains(record.pid),
        result matches Ok(entry) ==> {
            &&& entry@.workspace.id == record.wid
            &&& entry@.project.id == record.pid
            &&& workspaces.deep_view().contains(entry@.workspace)
            &&& projects.deep_view().contains(entry@.project)
        },
        result matches Err(error) ==> error is MissingReference,
{
    proof {
        lemma_resolved(record@, workspaces.deep_view(), projects.deep_view());
    }
    let workspace = match find_workspace(workspaces, record.wid) {
        Some(workspace) => workspace,
        None => {
            return Err(
                TogglError::MissingReference { kind: ReferenceKind::Workspace, id: record.wid },
            );
        },
    };
    let project = match find_project(projects, record.pid) {
        Some(project) => project,
        None => {
            return Err(
                TogglError::MissingReference { kind: ReferenceKind::Project, id: record.pid },
            );
        },
    };
    Ok(
        TimeEntry {
            id: record.id,
            guid: record.guid,
            workspace,
            project,
            start: record.start,
            stop: record.stop,
            duration: record.duration,
            description: record.description.clone(),
            duronly: record.duronly,
            at: record.at,
            uuid: record.uuid,
        },
    )
}

/// What resolving `records` one by one, in order, comes to: the entries in
/// the order of their records if every one resolves, else the error of the
/// first record that does not.
pub open spec fn resolved_all(
    records: Seq<TimeEntryWireView>,
    workspaces: Seq<WorkspaceView>,
    projects: Seq<ProjectView>,
) -> Result<Seq<TimeEntryView>, TogglError>
    decreases records.len(),
{
    if records.len() == 0 {
        Ok(Seq::empty())
    } else {
        match resolved_all(records.drop_last(), workspaces, projects) {
            Err(error) => Err(error),
            Ok(entries) => match resolved(records.last(), workspaces, projects) {
                Err(error) => Err(error),
                Ok(entry) => Ok(entries.push(entry)),
            },
        }
    }
}

/// What [`resolved_all`] comes to, record by record. If it succeeds, there
/// is one entry for each record, at the record's index, and it is what the
/// record resolves to. If it fails, some record does not resolve while all
/// before it do, and the error is that record's.
pub proof fn lemma_resolved_all(
    records: Seq<TimeEntryWireView>,
    workspaces: Seq<WorkspaceView>,
    projects: Seq<ProjectView>,
)
    ensures
        match resolved_all(records, workspaces, projects) {
            Ok(entries) => {
                &&& entries.len() == records.len()
                &&& forall|i: int|
                    0 <= i < records.len() ==> resolved(records[i], workspaces, projects) == Ok::<
                        TimeEntryView,
                        TogglError,
                    >(#[trigger] entries[i])
            },
            Err(error) => exists|i: int|
                {
                    &&& 0 <= i < records.len()
                    &&& #[trigger] resolved(records[i], workspaces, projects) == Err::<
                        TimeEntryView,
                        TogglError,
                    >(error)
                    &&& forall|j: int|
                        0 <= j < i ==> (#[trigger] resolved(records[j], workspaces, projects)) is Ok
                },
        },
    decreases records.len(),
{
    if records.len() > 0 {
        let front = records.drop_last();
        lemma_resolved_all(front, workspaces, projects);
        match resolved_all(front, workspaces, projects) {
            Ok(entries) => {
                match resolved(records.last(), workspaces, projects) {
                    Ok(entry) => {
                        let all = entries.push(entry);
                        assert forall|i: int| 0 <= i < records.len() implies resolved(
                            records[i],
                            workspaces,
                            projects,
                        ) == Ok::<TimeEntryView, TogglError>(#[trigger] all[i]) by {
                            if i < front.len() {
                                assert(records[i] == front[i]);
                                assert(all[i] == entries[i]);
                            }
                        }
                    },
                    Err(error) => {
                        let at = records.len() - 1;
                        assert forall|j: int| 0 <= j < at implies (#[trigger] resolved(
                            records[j],
                            workspaces,
                            projects,
                        )) is Ok by {
                            assert(records[j] == front[j]);
                            assert(resolved(front[j], workspaces, projects) == Ok::<
                                TimeEntryView,
                                TogglError,
                            >(entries[j]));
                        }
                        assert(resolved(records[at], workspaces, projects) == Err::<
                            TimeEntryView,
                            TogglError,
                        >(error));
                    },
                }
            },
            Err(error) => {
                let at = choose|i: int|
                    {
                        &&& 0 <= i < front.len()
                        &&& #[trigger] resolved(front[i], workspaces, projects) == Err::<
                            TimeEntryView,
                            TogglError,
                        >(error)
                        &&& forall|j: int|
                            0 <= j < i ==> (#[trigger] resolved(front[j], workspaces, projects)) is Ok
                    };
                assert(records[at] == front[at]);
                assert forall|j: int| 0 <= j < at implies (#[trigger] resolved(
                    records[j],
                    workspaces,
                    projects,
                )) is Ok by {
                    assert(records[j] == front[j]);
                }
                assert(resolved(records[at], workspaces, projects) == Err::<
                    TimeEntryView,
                    TogglError,
                >(error));
            },
        }
    }
}

/// If every record resolves, to the entry at its index in `entries`, then
/// all of them resolve to `entries`.
pub proof fn lemma_all_resolve(
    records: Seq<TimeEntryWireView>,
    workspaces: Seq<WorkspaceView>,
    projects: Seq<ProjectView>,
    entries: Seq<TimeEntryView>,
)
    requires
        entries.len() == records.len(),
        forall|i: int|
            0 <= i < records.len() ==> resolved(records[i], workspaces, projects) == Ok::<
                TimeEntryView,
                TogglError,
            >(#[trigger] entries[i]),
    ensures
        resolved_all(records, workspaces, projects) == Ok::<Seq<TimeEntryView>, TogglError>(
            entries,
        ),
{
    lemma_resolved_all(records, workspaces, projects);
    match resolved_all(records, workspaces, projects) {
        Ok(expected) => {
            assert forall|i: int| 0 <= i < expected.len() implies expected[i] == entries[i] by {
                assert(resolved(records[i], workspaces, projects) == Ok::<
                    TimeEntryView,
                    TogglError,
                >(entries[i]));
            }
            assert(expected =~= entries);
        },
        Err(first) => {
            let at = choose|k: int|
                {
                    &&& 0 <= k < records.len()
                    &&& #[trigger] resolved(records[k], workspaces, projects) == Err::<
                        TimeEntryView,
                        TogglError,
                    >(first)
                    &&& forall|j: int|
                        0 <= j < k ==> (#[trigger] resolved(records[j], workspaces, projects)) is Ok
                };
            assert(resolved(records[at], workspaces, projects) == Ok::<TimeEntryView, TogglError>(
                entries[at],
            ));
        },
    }
}

/// If the record at index `at` does not resolve and all before it do, then
/// resolving all records fails, with that record's error: nothing is
/// resolved in part.
pub proof fn lemma_first_failure_decides(
    records: Seq<TimeEntryWireView>,
    workspaces: Seq<WorkspaceView>,
    projects: Seq<ProjectView>,
    at: int,
)
    requires
        0 <= at < records.len(),
        resolved(records[at], workspaces, projects) is Err,
        forall|j: int|
            0 <= j < at ==> (#[trigger] resolved(records[j], workspaces, projects)) is Ok,
    ensures
        resolved_all(records, workspaces, projects) == Err::<Seq<TimeEntryView>, TogglError>(
            resolved(records[at], workspaces, projects)->Err_0,
        ),
{
    lemma_resolved_all(records, workspaces, projects);
    match resolved_all(records, workspaces, projects) {
        Ok(expected) => {
            assert(resolved(records[at], workspaces, projects) == Ok::<TimeEntryView, TogglError>(
                expected[at],
            ));
        },
        Err(first) => {
            let k = choose|k: int|
                {
                    &&& 0 <= k < records.len()
                    &&& #[trigger] resolved(records[k], workspaces, projects) == Err::<
                        TimeEntryView,
                        TogglError,
                    >(first)
                    &&& forall|j: int|
                        0 <= j < k ==> (#[trigger] resolved(records[j], workspaces, projects)) is Ok
                };
            assert(k == at);
        },
    }
}

/// Resolves every record of `records` against `workspaces` and `projects`.
///
/// The entries come in the order of their records. If any record fails to
/// resolve, the whole call fails with the error of the first such record,
/// and no entry is handed out.
pub fn resolve_many(
    records: &[TimeEntryWire],
    workspaces: &[Rc<Workspace>],
    projects: &[Rc<Project>],
) -> (result: Result<Vec<TimeEntry>, TogglError>)
    ensures
        match result {
            Ok(entries) => resolved_all(
                records.deep_view(),
                workspaces.deep_view(),
                projects.deep_view(),
            ) == Ok::<Seq<TimeEntryView>, TogglError>(entries.deep_view()),
            Err(error) => resolved_all(
                records.deep_view(),
                workspaces.deep_view(),
                projects.deep_view(),
            ) == Err::<Seq<TimeEntryView>, TogglError>(error),
        },
        result matches Ok(entries) ==> entries.len() == records.len(),
{
    let ghost all = records.deep_view();
    let ghost ws = workspaces.deep_view();
    let ghost ps = projects.deep_view();
    let mut entries: Vec<TimeEntry> = Vec::new();
    let mut i: usize = 0;
    while i < records.len()
        invariant
            i <= records.len(),
            entries.len() == i,
            all == records.deep_view(),
            ws == workspaces.deep_view(),
            ps == projects.deep_view(),
            forall|j: int|
                0 <= j < i ==> resolved(all[j], ws, ps) == Ok::<TimeEntryView, TogglError>(
                    #[trigger] entries[j]@,
                ),
        decreases records.len() - i,
    {
        match resolve(&records[i], workspaces, projects) {
            Ok(entry) => {
                entries.push(entry);
            },
            Err(error) => {
                proof {
                    assert(all[i as int] == records[i as int]@);
                    assert forall|j: int| 0 <= j < i implies (#[trigger] resolved(
                        all[j],
                        ws,
                        ps,
                    )) is Ok by {
                        assert(resolved(all[j], ws, ps) == Ok::<TimeEntryView, TogglError>(
                            entries[j]@,
                        ));
                    }
                    lemma_first_failure_decides(all, ws, ps, i as int);
                }
                return Err(error);
            },
        }
        i += 1;
    }
    proof {
        assert forall|j: int| 0 <= j < all.len() implies resolved(all[j], ws, ps) == Ok::<
            TimeEntryView,
            TogglError,
        >(#[trigger] entries.deep_view()[j]) by {
            assert(resolved(all[j], ws, ps) == Ok::<TimeEntryView, TogglError>(entries[j]@));
        }
        lemma_all_resolve(all, ws, ps, entries.deep_view());
    }
    Ok(entries)
}

/// An entry that was resolved against `workspaces` and `projects` goes to
/// the wire and back unchanged: its record is the one it came from, and
/// resolving that record against the same collections gives the entry
/// again, field for field, with the same workspace and project.
pub proof fn lemma_round_trip(
    record: TimeEntryWireView,
    workspaces: Seq<WorkspaceView>,
    projects: Seq<ProjectView>,
    entry: TimeEntryView,
)
    requires
        resolved(record, workspaces, projects) == Ok::<TimeEntryView, TogglError>(entry),
    ensures
        wire_of(entry) == record,
        resolved(wire_of(entry), workspaces, projects) == Ok::<TimeEntryView, TogglError>(entry),
{
    lemma_resolved(record, workspaces, projects);
}

/// An entry whose workspace and project are the ones that `workspaces` and
/// `projects` hold under their identifiers resolves from its own record to
/// itself.
pub proof fn lemma_wire_round_trip(
    entry: TimeEntryView,
    workspaces: Seq<WorkspaceView>,
    projects: Seq<ProjectView>,
)
    requires
        lookup_workspace(workspaces, entry.workspace.id) == Some(entry.workspace),
        lookup_project(projects, entry.project.id) == Some(entry.project),
    ensures
        resolved(wire_of(entry), workspaces, projects) == Ok::<TimeEntryView, TogglError>(entry),
{
}

} // verus!
