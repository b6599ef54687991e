use std::rc::Rc;

use toggl_rs::cache::ReferenceCache;
use toggl_rs::error::{ReferenceKind, TogglError};
use toggl_rs::project::Project;
use toggl_rs::request::{Body, Method, Request, StartEntry, StartTimeEntry};
use toggl_rs::return_types::{Return, StartEntryReturn, StartEntryReturnInner, StopEntryReturn};
use toggl_rs::service::{Step, TimeEntryExt};
use toggl_rs::time_entry::{TimeEntry, TimeEntryWire};
use toggl_rs::timestamp::Timestamp;
use toggl_rs::workspace::Workspace;
use uuid::Uuid;

fn filled_cache() -> ReferenceCache {
    let mut cache = ReferenceCache::new(vec![
        Rc::new(Workspace { id: 1, name: "home".to_string() }),
        Rc::new(Workspace { id: 2, name: "work".to_string() }),
    ]);
    cache.store_projects(vec![
        Rc::new(Project { id: 10, name: "garden".to_string(), wid: 1 }),
        Rc::new(Project { id: 20, name: "reports".to_string(), wid: 2 }),
    ]);
    cache
}

fn cold_cache() -> ReferenceCache {
    ReferenceCache::new(vec![Rc::new(Workspace { id: 1, name: "home".to_string() })])
}

fn record(id: i64, wid: i64, pid: i64, duration: i64) -> TimeEntryWire {
    TimeEntryWire {
        id,
        guid: Uuid::from_u128(7),
        wid,
        pid,
        start: Timestamp::new(1_546_300_800, 0).unwrap(),
        stop: Timestamp::new(1_546_304_400, 0).unwrap(),
        duration,
        description: "coding".to_string(),
        duronly: false,
        at: Timestamp::new(1_546_304_401, 0).unwrap(),
        uuid: Uuid::from_u128(8),
    }
}

fn entry(cache: &ReferenceCache, id: i64) -> TimeEntry {
    cache.resolve(&record(id, 1, 10, 60)).unwrap()
}

fn get(url: &str) -> Step {
    Step::Send(Request { method: Method::Get, url: url.to_string(), body: Body::Empty })
}

#[test]
fn listing_asks_at_the_collection() {
    let cache = filled_cache();
    assert_eq!(cache.get_time_entries(), get("https://www.toggl.com/api/v8/time_entries"));
}

#[test]
fn listing_is_the_range_without_bounds() {
    let cache = filled_cache();
    assert_eq!(cache.get_time_entries(), cache.get_time_entries_range(None, None));

    let cold = cold_cache();
    assert_eq!(cold.get_time_entries(), cold.get_time_entries_range(None, None));
}

#[test]
fn listing_a_range_names_the_bounds_in_order() {
    let cache = filled_cache();
    let start = Timestamp::new(1_546_300_800, 0).unwrap();
    let end = Timestamp::new(1_548_979_199, 0).unwrap();

    assert_eq!(
        cache.get_time_entries_range(Some(start), Some(end)),
        get("https://www.toggl.com/api/v8/time_entries?start_date=2019-01-01T00:00:00+00:00&end_date=2019-01-31T23:59:59+00:00")
    );
    assert_eq!(
        cache.get_time_entries_range(Some(start), None),
        get("https://www.toggl.com/api/v8/time_entries?start_date=2019-01-01T00:00:00+00:00")
    );
    assert_eq!(
        cache.get_time_entries_range(None, Some(end)),
        get("https://www.toggl.com/api/v8/time_entries?end_date=2019-01-31T23:59:59+00:00")
    );
}

#[test]
fn operations_that_resolve_fill_the_cache_first() {
    let mut cache = cold_cache();
    let start = Timestamp::new(0, 0).unwrap();

    assert_eq!(cache.get_time_entries(), Step::FetchProjects);
    assert_eq!(cache.get_time_entries_range(Some(start), None), Step::FetchProjects);
    assert_eq!(cache.get_entry_details(5), Step::FetchProjects);
    assert_eq!(cache.get_running_entry(), Step::FetchProjects);

    cache.store_projects(vec![]);

    assert_eq!(cache.get_time_entries(), get("https://www.toggl.com/api/v8/time_entries"));
    assert_eq!(cache.get_entry_details(5), get("https://www.toggl.com/api/v8/time_entries/5"));
    assert_eq!(
        cache.get_running_entry(),
        get("https://www.toggl.com/api/v8/time_entries/current")
    );
}

#[test]
fn starting_posts_description_tags_and_project() {
    let cache = cold_cache();
    let project = Project { id: 10, name: "garden".to_string(), wid: 1 };
    let tags = vec!["b".to_string(), "a".to_string(), "b".to_string()];

    let request = cache.start_entry("weeding", &tags, &project);

    assert_eq!(
        request,
        Request {
            method: Method::Post,
            url: "https://www.toggl.com/api/v8/time_entries/start".to_string(),
            body: Body::Start(StartEntry {
                time_entry: StartTimeEntry {
                    description: "weeding".to_string(),
                    tags: vec!["b".to_string(), "a".to_string(), "b".to_string()],
                    pid: 10,
                    created_with: "toggl-rs".to_string(),
                },
            }),
        }
    );
}

#[test]
fn starting_accepts_an_empty_description_and_no_tags() {
    let cache = filled_cache();
    let project = Project { id: 20, name: "reports".to_string(), wid: 2 };

    let request = cache.start_entry("", &[], &project);

    match request.body {
        Body::Start(body) => {
            assert_eq!(body.time_entry.description, "");
            assert!(body.time_entry.tags.is_empty());
            assert_eq!(body.time_entry.pid, 20);
            assert_eq!(body.time_entry.created_with, "toggl-rs");
        }
        other => panic!("unexpected body {:?}", other),
    }
    assert_eq!(request.method, Method::Post);
}

#[test]
fn stopping_puts_nothing_to_the_stop_address() {
    let cache = filled_cache();
    let running = entry(&cache, 436_694_100);

    assert_eq!(
        cache.stop_entry(&running),
        Request {
            method: Method::Put,
            url: "https://www.toggl.com/api/v8/time_entries/436694100/stop".to_string(),
            body: Body::Empty,
        }
    );
}

#[test]
fn details_are_asked_at_the_address_of_the_entry() {
    let cache = filled_cache();
    assert_eq!(
        cache.get_entry_details(436_694_100),
        get("https://www.toggl.com/api/v8/time_entries/436694100")
    );
}

#[test]
fn updating_puts_the_record_of_the_entry() {
    let cache = filled_cache();
    let wire = record(5, 2, 20, -1);
    let changed = cache.resolve(&wire).unwrap();
    assert!(changed.is_running());

    assert_eq!(
        cache.update_entry(changed),
        Request {
            method: Method::Put,
            url: "https://www.toggl.com/api/v8/time_entries/5".to_string(),
            body: Body::Entry(wire),
        }
    );
}

#[test]
fn changes_reach_the_service_with_the_update() {
    let cache = filled_cache();
    let mut changed = cache.resolve(&record(5, 2, 20, -1)).unwrap();

    changed.set_description("reading".to_string());
    changed.set_duration(120);
    changed.set_start(Timestamp::new(1_546_300_000, 0).unwrap());
    changed.set_stop(Timestamp::new(1_546_300_120, 0).unwrap());
    changed.set_duronly(true);

    assert_eq!(changed.description(), "reading");
    assert_eq!(changed.duration(), 120);
    assert!(!changed.is_running());
    assert_eq!(changed.id(), 5);
    assert_eq!(changed.workspace().id, 2);
    assert_eq!(changed.project().id, 20);

    let mut expected = record(5, 2, 20, 120);
    expected.description = "reading".to_string();
    expected.start = Timestamp::new(1_546_300_000, 0).unwrap();
    expected.stop = Timestamp::new(1_546_300_120, 0).unwrap();
    expected.duronly = true;
    assert_eq!(
        cache.update_entry(changed),
        Request {
            method: Method::Put,
            url: "https://www.toggl.com/api/v8/time_entries/5".to_string(),
            body: Body::Entry(expected),
        }
    );
}

#[test]
fn deleting_addresses_the_entry() {
    let cache = filled_cache();
    let gone = entry(&cache, 12);

    assert_eq!(
        cache.delete_entry(&gone),
        Request {
            method: Method::Delete,
            url: "https://www.toggl.com/api/v8/time_entries/12".to_string(),
            body: Body::Empty,
        }
    );
}

#[test]
fn no_record_means_no_running_entry() {
    assert_eq!(filled_cache().running_entry(Return::new(None)), Ok(None));
    assert_eq!(cold_cache().running_entry(Return::new(None)), Ok(None));
}

#[test]
fn running_entry_is_resolved() {
    let cache = filled_cache();

    let running = cache.running_entry(Return::new(Some(record(5, 1, 10, -1)))).unwrap().unwrap();

    assert_eq!(running.id(), 5);
    assert!(running.is_running());
    assert_eq!(running.workspace().id, 1);
    assert_eq!(running.project().id, 10);
}

#[test]
fn running_entry_with_an_unknown_project_fails() {
    let cache = filled_cache();

    assert_eq!(
        cache.running_entry(Return::new(Some(record(5, 1, 99, -1)))),
        Err(TogglError::MissingReference { kind: ReferenceKind::Project, id: 99 })
    );
}

#[test]
fn no_record_means_not_found() {
    assert_eq!(filled_cache().entry_details(Return::new(None)), Err(TogglError::NotFound));
}

#[test]
fn details_are_resolved() {
    let cache = filled_cache();

    let found = cache.entry_details(Return::new(Some(record(5, 2, 20, 90)))).unwrap();

    assert_eq!(found.id(), 5);
    assert_eq!(found.duration(), 90);
    assert_eq!(found.workspace().name, "work");
    assert_eq!(found.project().name, "reports");
    assert_eq!(
        cache.entry_details(Return::new(Some(record(5, 3, 20, 90)))),
        Err(TogglError::MissingReference { kind: ReferenceKind::Workspace, id: 3 })
    );
}

#[test]
fn listed_records_are_resolved_in_order() {
    let cache = filled_cache();
    let reply = Return::new(vec![record(2, 2, 20, 1), record(1, 1, 10, 2)]);

    let entries = cache.time_entries(reply).unwrap();

    assert_eq!(entries.len(), 2);
    assert_eq!(entries[0].id(), 2);
    assert_eq!(entries[1].id(), 1);
    assert_eq!(cache.time_entries(Return::new(vec![])), Ok(vec![]));
    assert_eq!(
        cache.time_entries(Return::new(vec![record(2, 2, 20, 1), record(1, 1, 11, 2)])),
        Err(TogglError::MissingReference { kind: ReferenceKind::Project, id: 11 })
    );
}

#[test]
fn envelope_hands_out_what_it_holds() {
    let envelope = Return::new(vec![1, 2, 3]);
    assert_eq!(envelope.data(), &vec![1, 2, 3]);
    assert_eq!(envelope.into_data(), vec![1, 2, 3]);
}

#[test]
fn start_and_stop_answers_have_one_shape() {
    let inner = StartEntryReturnInner {
        id: 5,
        pid: 10,
        wid: 1,
        billable: false,
        start: Timestamp::new(1_546_300_800, 0).unwrap(),
        tags: Some(vec!["a".to_string()]),
        duration: -1_546_300_800,
        description: "coding".to_string(),
    };
    let started: StartEntryReturn = Return::new(inner.clone());
    let stopped: StopEntryReturn = Return::new(inner);
    assert_eq!(started, stopped);
    assert_eq!(started.data().id, 5);
    assert_eq!(stopped.into_data().tags, Some(vec!["a".to_string()]));
}
