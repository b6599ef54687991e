//! The addresses of the time-entry operations.
//!
//! Every address is the collection's address, followed by what the
//! operation adds to it: an identifier, a fixed word, or the bounds of a
//! range of dates, always in the same order.

use vstd::prelude::*;

use crate::decimal::{decimal, decimal_text};
use crate::timestamp::{rfc3339_text, Timestamp};

verus! {

/// The address of the collection of time entries.
pub open spec fn list_url_text() -> Seq<char> {
    "https://www.toggl.com/api/v8/time_entries"@
}

/// What a range of dates adds to the collection's address: nothing without
/// bounds, else `?` and the bounds that are there, `start_date` before
/// `end_date`, with `&` between them. `start` and `end` are the texts of
/// the two dates.
pub open spec fn range_query(start: Option<Seq<char>>, end: Option<Seq<char>>) -> Seq<char> {
    match (start, end) {
        (Some(s), Some(e)) => "?start_date="@ + s + "&end_date="@ + e,
        (Some(s), None) => "?start_date="@ + s,
        (None, Some(e)) => "?end_date="@ + e,
        (None, None) => Seq::empty(),
    }
}

/// The address that lists the entries between two dates, given as text.
pub open spec fn range_url_text(start: Option<Seq<char>>, end: Option<Seq<char>>) -> Seq<char> {
    list_url_text() + range_query(start, end)
}

/// The RFC 3339 text of `instant`, if there is one.
pub open spec fn instant_text(instant: Option<Timestamp>) -> Option<Seq<char>> {
    match instant {
        Some(t) => Some(rfc3339_text(t.seconds(), t.subsec_nanos())),
        None => None,
    }
}

/// The address that starts an entry.
pub open spec fn start_url_text() -> Seq<char> {
    "https://www.toggl.com/api/v8/time_entries/start"@
}

/// The address of the entry that is running.
pub open spec fn current_url_text() -> Seq<char> {
    "https://www.toggl.com/api/v8/time_entries/current"@
}

/// The address of the entry with identifier `id`.
pub open spec fn entry_url_text(id: int) -> Seq<char> {
    "https://www.toggl.com/api/v8/time_entries/"@ + decimal_text(id)
}

/// The address that stops the entry with identifier `id`.
pub open spec fn stop_url_text(id: int) -> Seq<char> {
    entry_url_text(id) + "/stop"@
}

/// Whether `word` stands in `text` at index `at`.
pub open spec fn occurs_at(text: Seq<char>, word: Seq<char>, at: int) -> bool {
    &&& 0 <= at
    &&& at + word.len() <= text.len()
    &&& text.subrange(at, at + word.len()) == word
}

/// The address of the collection of time entries.
pub fn list_url() -> (url: String)
    ensures
        url@ == list_url_text(),
{
    String::from_str("https://www.toggl.com/api/v8/time_entries")
}

/// The address that lists the entries between `start` and `end`, where
/// each bound, if it is there, is already written out as text.
pub fn range_url(start: Option<&str>, end: Option<&str>) -> (url: String)
    ensures
        url@ == range_url_text(
            match start {
                Some(s) => Some(s@),
                None => None,
            },
            match end {
                Some(e) => Some(e@),
                None => None,
            },
        ),
{
    let mut url = list_url();
    let ghost base = url@;
    match start {
        Some(s) => {
            url.append("?start_date=");
            url.append(s);
            match end {
                Some(e) => {
                    url.append("&end_date=");
                    url.append(e);
                    assert(url@ =~= base + ("?start_date="@ + s@ + "&end_date="@ + e@));
                },
                None => {
                    assert(url@ =~= base + ("?start_date="@ + s@));
                },
            }
        },
        None => {
            match end {
                Some(e) => {
                    url.append("?end_date=");
                    url.append(e);
                    assert(url@ =~= base + ("?end_date="@ + e@));
                },
                None => {
                    assert(url@ =~= base + Seq::<char>::empty());
                },
            }
        },
    }
    url
}

/// The address that lists the entries between `start` and `end`, each
/// bound written in RFC 3339.
pub fn list_range_url(start: Option<Timestamp>, end: Option<Timestamp>) -> (url: String)
    ensures
        url@ == range_url_text(instant_text(start), instant_text(end)),
{
    let start_text = match start {
        Some(t) => Some(t.to_rfc3339()),
        None => None,
    };
    let end_text = match end {
        Some(t) => Some(t.to_rfc3339()),
        None => None,
    };
    range_url(
        match &start_text {
            Some(s) => Some(s.as_str()),
            None => None,
        },
        match &end_text {
            Some(e) => Some(e.as_str()),
            None => None,
        },
    )
}

/// The address that starts an entry.
pub fn start_url() -> (url: String)
    ensures
        url@ == start_url_text(),
{
    String::from_str("https://www.toggl.com/api/v8/time_entries/start")
}

/// The address of the entry that is running.
pub fn current_url() -> (url: String)
    ensures
        url@ == current_url_text(),
{
    String::from_str("https://www.toggl.com/api/v8/time_entries/current")
}

/// The address of the entry with identifier `id`.
pub fn entry_url(id: i64) -> (url: String)
    ensures
        url@ == entry_url_text(id as int),
{
    let mut url = String::from_str("https://www.toggl.com/api/v8/time_entries/");
    let number = decimal(id);
    url.append(number.as_str());
    url
}

/// The address that stops the entry with identifier `id`.
pub fn stop_url(id: i64) -> (url: String)
    ensures
        url@ == stop_url_text(id as int),
{
    let mut url = entry_url(id);
    url.append("/stop");
    url
}

/// Listing without bounds asks at the same address as listing everything.
pub proof fn lemma_unbounded_range_is_list()
    ensures
        range_url_text(None, None) == list_url_text(),
        range_query(None, None).len() == 0,
{
    assert(list_url_text() + Seq::<char>::empty() =~= list_url_text());
}

/// With both bounds given, the address names `start_date` before
/// `end_date`: the word `start_date` stands right behind the `?` that
/// follows the collection's address, and the word `end_date` stands behind
/// the text of the first bound and `&`.
pub proof fn lemma_start_date_before_end_date(start: Seq<char>, end: Seq<char>)
    ensures
        ({
            let url = range_url_text(Some(start), Some(end));
            let first: int = list_url_text().len() as int + 1;
            let second: int = list_url_text().len() as int + 12 + start.len() as int + 1;
            &&& first < second
            &&& occurs_at(url, "start_date"@, first)
            &&& occurs_at(url, "end_date"@, second)
            &&& url == list_url_text() + "?start_date="@ + start + "&end_date="@ + end
        }),
{
    reveal_strlit("?start_date=");
    reveal_strlit("&end_date=");
    reveal_strlit("start_date");
    reveal_strlit("end_date");
    let url = range_url_text(Some(start), Some(end));
    let first: int = list_url_text().len() as int + 1;
    let second: int = list_url_text().len() as int + 12 + start.len() as int + 1;
    assert(url =~= list_url_text() + "?start_date="@ + start + "&end_date="@ + end);
    assert(url.subrange(first, first + 10) =~= "start_date"@);
    assert(url.subrange(second, second + 8) =~= "end_date"@);
}

} // verus!
