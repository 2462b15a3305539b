use std::sync::Arc;

use maptile_cacher::error::AppError;
use maptile_cacher::handlers::tile::{Action, Event, Stage};
use maptile_cacher::types::TileData;
use maptile_cacher::upstream::osm::FetchResult;

fn tile(body: &[u8], etag: &str) -> TileData {
    TileData::new(body.to_vec(), Some(etag.to_string()))
}

fn step(stage: Stage, event: Event) -> (Stage, Action) {
    stage.advance(event).expect("the event answers the operation")
}

#[test]
fn a_request_begins_with_the_memory_tier() {
    assert!(matches!(Stage::begin(), (Stage::Memory, Action::LookupMemory)));
}

#[test]
fn a_memory_hit_is_served_at_once() {
    let cached = Arc::new(tile(b"B", "\"v1\""));
    let (stage, action) = step(Stage::Memory, Event::Memory(Some(cached.clone())));
    assert!(matches!(stage, Stage::Done));
    match action {
        Action::Serve(served) => assert_eq!(served, cached),
        other => panic!("{other:?}"),
    }
}

#[test]
fn a_memory_miss_asks_the_disk_tier() {
    assert!(matches!(
        step(Stage::Memory, Event::Memory(None)),
        (Stage::Disk, Action::LookupDisk)
    ));
}

#[test]
fn a_disk_hit_is_promoted_and_then_served() {
    let on_disk = Arc::new(tile(b"B1", "\"v1\""));
    let (stage, action) = step(Stage::Disk, Event::Disk(Some(on_disk.clone())));
    match action {
        Action::Promote(promoted) => assert_eq!(promoted, on_disk),
        other => panic!("{other:?}"),
    }
    let (stage, action) = step(stage, Event::Promoted);
    assert!(matches!(stage, Stage::Done));
    match action {
        Action::Serve(served) => assert_eq!(served, on_disk),
        other => panic!("{other:?}"),
    }
}

#[test]
fn a_miss_in_both_tiers_claims_the_key() {
    assert!(matches!(
        step(Stage::Disk, Event::Disk(None)),
        (Stage::Claim, Action::TryAcquire)
    ));
}

#[test]
fn a_cold_miss_fetches_stores_promotes_and_serves() {
    let (stage, action) = Stage::begin();
    assert!(matches!(action, Action::LookupMemory));
    let (stage, action) = step(stage, Event::Memory(None));
    assert!(matches!(action, Action::LookupDisk));
    let (stage, action) = step(stage, Event::Disk(None));
    assert!(matches!(action, Action::TryAcquire));
    let (stage, action) = step(stage, Event::Acquired);
    assert!(matches!(action, Action::ReadValidator));
    let (stage, action) = step(stage, Event::Validator(None));
    assert!(matches!(action, Action::Fetch(None)));
    let (stage, action) = step(
        stage,
        Event::Fetched(Ok(FetchResult::Data(tile(b"B", "\"v1\"")))),
    );
    assert!(matches!(action, Action::Release));
    let (stage, action) = step(stage, Event::Released);
    match action {
        Action::Store(stored) => assert_eq!(*stored, tile(b"B", "\"v1\"")),
        other => panic!("{other:?}"),
    }
    let (stage, action) = step(stage, Event::Stored);
    match action {
        Action::Promote(promoted) => assert_eq!(*promoted, tile(b"B", "\"v1\"")),
        other => panic!("{other:?}"),
    }
    let (stage, action) = step(stage, Event::Promoted);
    assert!(matches!(stage, Stage::Done));
    match action {
        Action::Serve(served) => assert_eq!(*served, tile(b"B", "\"v1\"")),
        other => panic!("{other:?}"),
    }
}

#[test]
fn the_stored_validator_goes_upstream() {
    let (stage, action) = step(Stage::Validator, Event::Validator(Some("\"v1\"".to_string())));
    assert!(matches!(stage, Stage::Fetch));
    match action {
        Action::Fetch(validator) => assert_eq!(validator.as_deref(), Some("\"v1\"")),
        other => panic!("{other:?}"),
    }
}

#[test]
fn a_confirmed_validator_serves_the_payload_from_disk() {
    let (stage, action) = step(Stage::Fetch, Event::Fetched(Ok(FetchResult::NotModified)));
    assert!(matches!(action, Action::Release));
    let (stage, action) = step(stage, Event::Released);
    assert!(matches!(stage, Stage::Reread));
    assert!(matches!(action, Action::LookupDisk));
    let on_disk = Arc::new(tile(b"B1", "\"v1\""));
    let (stage, action) = step(stage, Event::Disk(Some(on_disk.clone())));
    assert!(matches!(action, Action::Promote(_)));
    let (stage, action) = step(stage, Event::Promoted);
    assert!(matches!(stage, Stage::Done));
    match action {
        Action::Serve(served) => assert_eq!(served, on_disk),
        other => panic!("{other:?}"),
    }
}

#[test]
fn a_validator_without_payload_fetches_again_without_it() {
    let (stage, _) = step(Stage::Fetch, Event::Fetched(Ok(FetchResult::NotModified)));
    let (stage, _) = step(stage, Event::Released);
    let (stage, action) = step(stage, Event::Disk(None));
    assert!(matches!(stage, Stage::Refetch));
    assert!(matches!(action, Action::Fetch(None)));
    let (stage, action) = step(
        stage,
        Event::Fetched(Ok(FetchResult::Data(tile(b"B2", "\"v2\"")))),
    );
    match action {
        Action::Store(stored) => assert_eq!(*stored, tile(b"B2", "\"v2\"")),
        other => panic!("{other:?}"),
    }
    let (stage, action) = step(stage, Event::Stored);
    assert!(matches!(action, Action::Promote(_)));
    let (stage, action) = step(stage, Event::Promoted);
    assert!(matches!(stage, Stage::Done));
    assert!(matches!(action, Action::Serve(_)));
}

#[test]
fn a_second_confirmation_collapses_to_not_found() {
    let (stage, action) = step(Stage::Refetch, Event::Fetched(Ok(FetchResult::NotModified)));
    assert!(matches!(stage, Stage::Done));
    assert!(matches!(action, Action::Fail(AppError::NotFound)));
}

#[test]
fn a_failure_of_the_second_fetch_fails_the_request() {
    let (stage, action) = step(
        Stage::Refetch,
        Event::Fetched(Err(AppError::UpstreamStatus(500))),
    );
    assert!(matches!(stage, Stage::Done));
    assert!(matches!(action, Action::Fail(AppError::UpstreamStatus(500))));
}

#[test]
fn a_failed_fetch_releases_the_key_before_it_fails_the_request() {
    let (stage, action) = step(
        Stage::Fetch,
        Event::Fetched(Err(AppError::Upstream("connection reset".to_string()))),
    );
    assert!(matches!(action, Action::Release));
    let (stage, action) = step(stage, Event::Released);
    assert!(matches!(stage, Stage::Done));
    match action {
        Action::Fail(AppError::Upstream(cause)) => assert_eq!(cause, "connection reset"),
        other => panic!("{other:?}"),
    }
}

#[test]
fn upstream_404_fails_the_request_as_not_found() {
    let (stage, _) = step(Stage::Fetch, Event::Fetched(Err(AppError::NotFound)));
    let (stage, action) = step(stage, Event::Released);
    assert!(matches!(stage, Stage::Done));
    assert!(matches!(action, Action::Fail(AppError::NotFound)));
}

#[test]
fn a_busy_key_waits_and_then_starts_over() {
    let (stage, action) = step(Stage::Claim, Event::Busy);
    assert!(matches!(stage, Stage::Wait));
    assert!(matches!(action, Action::AwaitSignal));
    let (stage, action) = step(stage, Event::Woken);
    assert!(matches!(stage, Stage::Memory));
    assert!(matches!(action, Action::LookupMemory));
}

#[test]
fn a_woken_request_that_finds_nothing_claims_the_key_itself() {
    let (stage, _) = step(Stage::Wait, Event::Woken);
    let (stage, _) = step(stage, Event::Memory(None));
    let (stage, action) = step(stage, Event::Disk(None));
    assert!(matches!(action, Action::TryAcquire));
    let (stage, action) = step(stage, Event::Acquired);
    assert!(matches!(stage, Stage::Validator));
    assert!(matches!(action, Action::ReadValidator));
}

#[test]
fn a_failed_disk_write_does_not_fail_the_request() {
    let fetched = Arc::new(tile(b"B", "\"v1\""));
    let (stage, action) = step(Stage::Store(fetched.clone()), Event::Stored);
    assert!(matches!(action, Action::Promote(_)));
    let (_, action) = step(stage, Event::Promoted);
    match action {
        Action::Serve(served) => assert_eq!(served, fetched),
        other => panic!("{other:?}"),
    }
}

#[test]
fn an_event_that_answers_nothing_is_refused() {
    assert!(Stage::Memory.advance(Event::Disk(None)).is_none());
    assert!(Stage::Memory.advance(Event::Acquired).is_none());
    assert!(Stage::Disk.advance(Event::Memory(None)).is_none());
    assert!(Stage::Claim.advance(Event::Released).is_none());
    assert!(Stage::Claim.advance(Event::Woken).is_none());
    assert!(Stage::Validator.advance(Event::Acquired).is_none());
    assert!(Stage::Fetch.advance(Event::Released).is_none());
    assert!(Stage::Fetch.advance(Event::Validator(None)).is_none());
    assert!(Stage::Release(Ok(FetchResult::NotModified)).advance(Event::Stored).is_none());
    assert!(Stage::Store(Arc::new(tile(b"B", "e"))).advance(Event::Promoted).is_none());
    assert!(Stage::Promote(Arc::new(tile(b"B", "e"))).advance(Event::Stored).is_none());
    assert!(Stage::Reread.advance(Event::Memory(None)).is_none());
    assert!(Stage::Refetch.advance(Event::Released).is_none());
    assert!(Stage::Wait.advance(Event::Busy).is_none());
    assert!(Stage::Wait.advance(Event::Acquired).is_none());
}

#[test]
fn an_answered_request_takes_no_more_events() {
    assert!(Stage::Done.advance(Event::Woken).is_none());
    assert!(Stage::Done.advance(Event::Memory(None)).is_none());
    assert!(Stage::Done.advance(Event::Released).is_none());
}
