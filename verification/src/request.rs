//! Requests to the service: a method, an address and a body, and the
//! request that each time-entry operation makes.

use vstd::prelude::*;

use crate::endpoint::{
    current_url_text, entry_url_text, range_url_text, start_url_text, stop_url_text,
};
use crate::time_entry::{wire_of, TimeEntryView, TimeEntryWire, TimeEntryWireView};

verus! {

/// The name under which this client starts entries.
pub open spec fn created_with_text() -> Seq<char> {
    "toggl-rs"@
}

/// What is said of an entry that is to be started.
#[derive(Debug, Clone, PartialEq, Eq)]
pub struct StartTimeEntry {
    pub description: String,
    pub tags: Vec<String>,
    pub pid: i64,
    pub created_with: String,
}

/// The body of the request that starts an entry.
#[derive(Debug, Clone, PartialEq, Eq)]
pub struct StartEntry {
    pub time_entry: StartTimeEntry,
}

/// What a [`StartTimeEntry`] stands for in contracts.
pub struct StartTimeEntryView {
    pub description: Seq<char>,
    pub tags: Seq<Seq<char>>,
    pub pid: i64,
    pub created_with: Seq<char>,
}

/// What a [`StartEntry`] stands for in contracts.
pub struct StartEntryView {
    pub time_entry: StartTimeEntryView,
}

impl View for StartTimeEntry {
    type V = StartTimeEntryView;

    open spec fn view(&self) -> StartTimeEntryView {
        StartTimeEntryView {
            description: self.description@,
            tags: self.tags.deep_view(),
            pid: self.pid,
            created_with: self.created_with@,
        }
    }
}

impl View for StartEntry {
    type V = StartEntryView;

    open spec fn view(&self) -> StartEntryView {
        StartEntryView { time_entry: self.time_entry@ }
    }
}

/// How a request is made.
#[derive(Debug, Clone, Copy, PartialEq, Eq, Structural)]
pub enum Method {
    Get,
    Post,
    Put,
    Delete,
}

/// What a request carries.
#[derive(Debug, PartialEq, Eq)]
pub enum Body {
    /// Nothing.
    Empty,
    /// The entry that is to be started.
    Start(StartEntry),
    /// The full record of an entry.
    Entry(TimeEntryWire),
}

/// What a [`Body`] stands for in contracts.
pub enum BodyView {
    Empty,
    Start(StartEntryView),
    Entry(TimeEntryWireView),
}

impl View for Body {
    type V = BodyView;

    open spec fn view(&self) -> BodyView {
        match self {
            Body::Empty => BodyView::Empty,
            Body::Start(start) => BodyView::Start(start@),
            Body::Entry(record) => BodyView::Entry(record@),
        }
    }
}

/// One request to the service.
#[derive(Debug, PartialEq, Eq)]
pub struct Request {
    pub method: Method,
    pub url: String,
    pub body: Body,
}

/// What a [`Request`] stands for in contracts.
pub struct RequestView {
    pub method: Method,
    pub url: Seq<char>,
    pub body: BodyView,
}

impl View for Request {
    type V = RequestView;

    open spec fn view(&self) -> RequestView {
        RequestView { method: self.method, url: self.url@, body: self.body@ }
    }
}

/// The request that lists the entries between two dates, each given by its
/// text if it is there.
pub open spec fn list_range_request(start: Option<Seq<char>>, end: Option<Seq<char>>) -> RequestView {
    RequestView { method: Method::Get, url: range_url_text(start, end), body: BodyView::Empty }
}

/// The request that lists all entries.
pub open spec fn list_request() -> RequestView {
    list_range_request(None, None)
}

/// The request that starts an entry in the project with identifier `pid`.
pub open spec fn start_request(description: Seq<char>, tags: Seq<Seq<char>>, pid: i64) -> RequestView {
    RequestView {
        method: Method::Post,
        url: start_url_text(),
        body: BodyView::Start(
            StartEntryView {
                time_entry: StartTimeEntryView {
                    description,
                    tags,
                    pid,
                    created_with: created_with_text(),
                },
            },
        ),
    }
}

/// The request that stops the entry with identifier `id`.
pub open spec fn stop_request(id: i64) -> RequestView {
    RequestView { method: Method::Put, url: stop_url_text(id as int), body: BodyView::Empty }
}

/// The request that asks for the entry with identifier `id`.
pub open spec fn details_request(id: i64) -> RequestView {
    RequestView { method: Method::Get, url: entry_url_text(id as int), body: BodyView::Empty }
}

/// The request that asks for the running entry.
pub open spec fn current_request() -> RequestView {
    RequestView { method: Method::Get, url: current_url_text(), body: BodyView::Empty }
}

/// The request that replaces an entry at the service by `entry`.
pub open spec fn update_request(entry: TimeEntryView) -> RequestView {
    RequestView {
        method: Method::Put,
        url: entry_url_text(entry.id as int),
        body: BodyView::Entry(wire_of(entry)),
    }
}

/// The request that deletes the entry with identifier `id`.
pub open spec fn delete_request(id: i64) -> RequestView {
    RequestView { method: Method::Delete, url: entry_url_text(id as int), body: BodyView::Empty }
}

} // verus!
