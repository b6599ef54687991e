//! The time-entry operations of a session.
//!
//! An operation is carried out in two halves, with the exchange of bytes
//! between them left to the caller. The first half says what is to be sent:
//! a [`Request`], or, for the operations whose answer holds records, a
//! [`Step`], which asks for the projects first where the cache is not
//! filled. The second half takes the answer, out of its envelope, and
//! resolves the records in it against the cache.

use vstd::prelude::*;

use crate::cache::{CacheAction, ReferenceCache, ReferenceCacheView};
use crate::endpoint::{
    current_url, entry_url, instant_text, list_range_url, list_url_text, start_url, stop_url,
};
use crate::error::TogglError;
use crate::project::Project;
use crate::request::{
    current_request, delete_request, details_request, list_range_request, list_request,
    start_request, stop_request, update_request, Body, Method, Request, RequestView, StartEntry,
    StartTimeEntry,
};
use crate::return_types::Return;
use crate::time_entry::{
    resolved, resolved_all, TimeEntry, TimeEntryView, TimeEntryWire, TimeEntryWireView,
};
use crate::timestamp::Timestamp;

verus! {

/// What the caller is to do next for an operation whose answer holds
/// records.
#[derive(Debug, PartialEq, Eq)]
pub enum Step {
    /// Fetch the projects, store them in the cache, and ask again.
    FetchProjects,
    /// Send this request.
    Send(Request),
}

/// What a [`Step`] stands for in contracts.
pub enum StepView {
    FetchProjects,
    Send(RequestView),
}

impl View for Step {
    type V = StepView;

    open spec fn view(&self) -> StepView {
        match self {
            Step::FetchProjects => StepView::FetchProjects,
            Step::Send(request) => StepView::Send(request@),
        }
    }
}

/// The step towards sending `request`: the request itself once the cache is
/// filled, the fetching of the projects before that.
pub open spec fn step_towards(cache: ReferenceCacheView, request: RequestView) -> StepView {
    if cache.filled() {
        StepView::Send(request)
    } else {
        StepView::FetchProjects
    }
}

/// What the answer to a listing comes to: its records resolved against the
/// cache, in order, all or none.
pub open spec fn listed(cache: ReferenceCacheView, records: Seq<TimeEntryWireView>) -> Result<
    Seq<TimeEntryView>,
    TogglError,
> {
    resolved_all(records, cache.workspaces, cache.known_projects())
}

/// What the answer to the question for one entry comes to: `NotFound` if
/// the service returned no record, else the record resolved against the
/// cache.
pub open spec fn detailed(cache: ReferenceCacheView, record: Option<TimeEntryWireView>) -> Result<
    TimeEntryView,
    TogglError,
> {
    match record {
        None => Err(TogglError::NotFound),
        Some(record) => resolved(record, cache.workspaces, cache.known_projects()),
    }
}

/// What the answer to the question for the running entry comes to: no entry
/// if the service returned no record, else the record resolved against the
/// cache.
pub open spec fn running(cache: ReferenceCacheView, record: Option<TimeEntryWireView>) -> Result<
    Option<TimeEntryView>,
    TogglError,
> {
    match record {
        None => Ok(None),
        Some(record) => match resolved(record, cache.workspaces, cache.known_projects()) {
            Ok(entry) => Ok(Some(entry)),
            Err(error) => Err(error),
        },
    }
}

/// The view of the record in `record`, if there is one.
pub open spec fn record_view(record: Option<TimeEntryWire>) -> Option<TimeEntryWireView> {
    match record {
        Some(record) => Some(record@),
        None => None,
    }
}

/// Copies `tags`, in order.
fn copy_tags(tags: &[String]) -> (copy: Vec<String>)
    ensures
        copy.deep_view() == tags.deep_view(),
{
    let mut copy: Vec<String> = Vec::new();
    let mut i: usize = 0;
    while i < tags.len()
        invariant
            i <= tags.len(),
            copy.len() == i,
            forall|j: int| 0 <= j < i ==> copy[j]@ == tags[j]@,
        decreases tags.len() - i,
    {
        copy.push(tags[i].clone());
        i += 1;
    }
    assert(copy.deep_view() =~= tags.deep_view());
    copy
}

/// The step towards sending `request`.
fn step(cache: &ReferenceCache, request: Request) -> (step: Step)
    ensures
        step@ == step_towards(cache@, request@),
{
    match cache.ensure_filled() {
        CacheAction::FetchProjects => Step::FetchProjects,
        CacheAction::Proceed => Step::Send(request),
    }
}

/// The time-entry operations of a session.
pub trait TimeEntryExt {
    /// Lists all entries.
    fn get_time_entries(&self) -> Step;

    /// Lists the entries between `start` and `end`.
    fn get_time_entries_range(&self, start: Option<Timestamp>, end: Option<Timestamp>) -> Step;

    /// Starts an entry with `description` and `tags` in the project `p`.
    fn start_entry(&self, description: &str, tags: &[String], p: &Project) -> Request;

    /// Stops the entry `t`.
    fn stop_entry(&self, t: &TimeEntry) -> Request;

    /// Asks for the entry with identifier `id`.
    fn get_entry_details(&self, id: i64) -> Step;

    /// Asks for the entry that is running.
    fn get_running_entry(&self) -> Step;

    /// Replaces the entry at the service by `t`.
    fn update_entry(&self, t: TimeEntry) -> Request;

    /// Deletes the entry `t`.
    fn delete_entry(&self, t: &TimeEntry) -> Request;

    /// Takes the answer to a listing.
    fn time_entries(&self, reply: Return<Vec<TimeEntryWire>>) -> Result<Vec<TimeEntry>, TogglError>;

    /// Takes the answer to the question for one entry.
    fn entry_details(&self, reply: Return<Option<TimeEntryWire>>) -> Result<TimeEntry, TogglError>;

    /// Takes the answer to the question for the running entry.
    fn running_entry(&self, reply: Return<Option<TimeEntryWire>>) -> Result<
        Option<TimeEntry>,
        TogglError,
    >;
}

impl TimeEntryExt for ReferenceCache {
    /// Lists all entries: a `GET` of the collection, once the cache is
    /// filled. It is the listing of a range without bounds.
    fn get_time_entries(&self) -> (step: Step)
        ensures
            step@ == step_towards(self@, list_request()),
            step@ matches StepView::Send(request) ==> request.url == list_url_text(),
    {
        proof {
            assert(list_url_text() + Seq::<char>::empty() =~= list_url_text());
        }
        self.get_time_entries_range(None, None)
    }

    /// Lists the entries between `start` and `end`: a `GET` of the
    /// collection with the bounds that are given, `start_date` before
    /// `end_date`, each in RFC 3339, once the cache is filled.
    fn get_time_entries_range(&self, start: Option<Timestamp>, end: Option<Timestamp>) -> (step:
        Step)
        ensures
            step@ == step_towards(
                self@,
                list_range_request(instant_text(start), instant_text(end)),
            ),
    {
        step(
            self,
            Request { method: Method::Get, url: list_range_url(start, end), body: Body::Empty },
        )
    }

    /// Starts an entry with `description` and `tags` in the project `p`: a
    /// `POST` that carries the description, the tags in their order, the
    /// project's identifier and this client's name. The service stops
    /// whatever entry is running before it starts the new one.
    fn start_entry(&self, description: &str, tags: &[String], p: &Project) -> (request: Request)
        ensures
            request@ == start_request(description@, tags.deep_view(), p.id),
    {
        let body = StartEntry {
            time_entry: StartTimeEntry {
                description: description.to_owned(),
                tags: copy_tags(tags),
                pid: p.id,
                created_with: String::from_str("toggl-rs"),
            },
        };
        Request { method: Method::Post, url: start_url(), body: Body::Start(body) }
    }

    /// Stops the entry `t`: a `PUT` without a body to the entry's stop
    /// address.
    fn stop_entry(&self, t: &TimeEntry) -> (request: Request)
        ensures
            request@ == stop_request(t@.id),
    {
        Request { method: Method::Put, url: stop_url(t.id()), body: Body::Empty }
    }

    /// Asks for the entry with identifier `id`: a `GET` of the entry's
    /// address, once the cache is filled.
    fn get_entry_details(&self, id: i64) -> (step: Step)
        ensures
            step@ == step_towards(self@, details_request(id)),
    {
        step(self, Request { method: Method::Get, url: entry_url(id), body: Body::Empty })
    }

    /// Asks for the entry that is running: a `GET` of the address
    /// `current`, once the cache is filled.
    fn get_running_entry(&self) -> (step: Step)
        ensures
            step@ == step_towards(self@, current_request()),
    {
        step(self, Request { method: Method::Get, url: current_url(), body: Body::Empty })
    }

    /// Replaces the entry at the service by `t`: a `PUT` of the entry's
    /// record to the entry's address.
    fn update_entry(&self, t: TimeEntry) -> (request: Request)
        ensures
            request@ == update_request(t@),
    {
        let record: TimeEntryWire = TimeEntryWire::from(t);
        Request { method: Method::Put, url: entry_url(record.id), body: Body::Entry(record) }
    }

    /// Deletes the entry `t`: a `DELETE` of the entry's address.
    fn delete_entry(&self, t: &TimeEntry) -> (request: Request)
        ensures
            request@ == delete_request(t@.id),
    {
        Request { method: Method::Delete, url: entry_url(t.id()), body: Body::Empty }
    }

    /// Takes the answer to a listing: the entries of its records, in the
    /// order of the records, or the error of the first record that does
    /// not resolve.
    fn time_entries(&self, reply: Return<Vec<TimeEntryWire>>) -> (result: Result<
        Vec<TimeEntry>,
        TogglError,
    >)
        ensures
            match result {
                Ok(entries) => listed(self@, reply.payload().deep_view()) == Ok::<
                    Seq<TimeEntryView>,
                    TogglError,
                >(entries.deep_view()),
                Err(error) => listed(self@, reply.payload().deep_view()) == Err::<
                    Seq<TimeEntryView>,
                    TogglError,
                >(error),
            },
    {
        let records = reply.into_data();
        self.resolve_many(records.as_slice())
    }

    /// Takes the answer to the question for one entry: the entry of the
    /// record, `NotFound` where the service returned none.
    fn entry_details(&self, reply: Return<Option<TimeEntryWire>>) -> (result: Result<
        TimeEntry,
        TogglError,
    >)
        ensures
            match result {
                Ok(entry) => detailed(self@, record_view(reply.payload())) == Ok::<
                    TimeEntryView,
                    TogglError,
                >(entry@),
                Err(error) => detailed(self@, record_view(reply.payload())) == Err::<
                    TimeEntryView,
                    TogglError,
                >(error),
            },
            reply.payload() is None ==> result == Err::<TimeEntry, TogglError>(
                TogglError::NotFound,
            ),
    {
        match reply.into_data() {
            Some(record) => self.resolve(&record),
            None => Err(TogglError::NotFound),
        }
    }

    /// Takes the answer to the question for the running entry: no entry
    /// where the service returned none, which is no error, else the entry
    /// of the record.
    fn running_entry(&self, reply: Return<Option<TimeEntryWire>>) -> (result: Result<
        Option<TimeEntry>,
        TogglError,
    >)
        ensures
            match result {
                Ok(entry) => running(self@, record_view(reply.payload())) == Ok::<
                    Option<TimeEntryView>,
                    TogglError,
                >(entry.deep_view()),
                Err(error) => running(self@, record_view(reply.payload())) == Err::<
                    Option<TimeEntryView>,
                    TogglError,
                >(error),
            },
            reply.payload() is None ==> result == Ok::<Option<TimeEntry>, TogglError>(None),
    {
        match reply.into_data() {
            Some(record) => match self.resolve(&record) {
                Ok(entry) => Ok(Some(entry)),
                Err(error) => Err(error),
            },
            None => Ok(None),
        }
    }
}

} // verus!
