use std::collections::HashMap;
use std::sync::Arc;

use maptile_cacher::cache::coalescing::{CoalesceGuard, CoalesceResult, RequestCoalescer};
use maptile_cacher::error::AppError;
use maptile_cacher::handlers::tile::{make_response, parse_request, Action, Event, Stage};
use maptile_cacher::types::{TileData, TileKey};
use maptile_cacher::upstream::osm::FetchResult;

/// A proxy with tiers that live in memory and an upstream that answers from a script.
struct World {
    memory: HashMap<TileKey, Arc<TileData>>,
    payloads: HashMap<TileKey, Vec<u8>>,
    sidecars: HashMap<TileKey, String>,
    coalescer: RequestCoalescer,
    upstream: Vec<Result<FetchResult, AppError>>,
    upstream_calls: Vec<(TileKey, Option<String>)>,
}

/// One request being served in a `World`.
struct Task {
    key: TileKey,
    stage: Option<Stage>,
    action: Option<Action>,
    guard: Option<CoalesceGuard>,
    answer: Option<Result<Arc<TileData>, AppError>>,
}

impl World {
    fn new(upstream: Vec<Result<FetchResult, AppError>>) -> Self {
        World {
            memory: HashMap::new(),
            payloads: HashMap::new(),
            sidecars: HashMap::new(),
            coalescer: RequestCoalescer::new(),
            upstream,
            upstream_calls: Vec::new(),
        }
    }

    fn disk_get(&self, key: &TileKey) -> Option<Arc<TileData>> {
        let data = self.payloads.get(key)?.clone();
        Some(Arc::new(TileData::new(data, self.sidecars.get(key).cloned())))
    }

    fn idle(&mut self, key: TileKey) -> bool {
        match self.coalescer.try_acquire(key) {
            CoalesceResult::Acquired(guard) => {
                guard.complete(&mut self.coalescer);
                true
            }
            CoalesceResult::Wait(_) => false,
        }
    }
}

impl Task {
    fn new(key: TileKey) -> Self {
        let (stage, action) = Stage::begin();
        Task { key, stage: Some(stage), action: Some(action), guard: None, answer: None }
    }

    fn waits_for_signal(&self) -> bool {
        matches!(self.action, Some(Action::AwaitSignal))
    }

    fn waits_for_upstream(&self) -> bool {
        matches!(self.action, Some(Action::Fetch(_)))
    }

    /// Performs the pending operation and hands its outcome to the pipeline.
    fn perform(&mut self, world: &mut World) {
        let action = self.action.take().expect("a pending operation");
        let event = match action {
            Action::LookupMemory => Event::Memory(world.memory.get(&self.key).cloned()),
            Action::LookupDisk => Event::Disk(world.disk_get(&self.key)),
            Action::TryAcquire => match world.coalescer.try_acquire(self.key) {
                CoalesceResult::Acquired(guard) => {
                    self.guard = Some(guard);
                    Event::Acquired
                }
                CoalesceResult::Wait(_) => Event::Busy,
            },
            Action::ReadValidator => Event::Validator(world.sidecars.get(&self.key).cloned()),
            Action::Fetch(validator) => {
                world.upstream_calls.push((self.key, validator));
                Event::Fetched(world.upstream.remove(0))
            }
            Action::Release => {
                self.guard.take().expect("the key is held").complete(&mut world.coalescer);
                Event::Released
            }
            Action::Store(tile) => {
                world.payloads.insert(self.key, tile.data.clone());
                if let Some(etag) = &tile.etag {
                    world.sidecars.insert(self.key, etag.clone());
                }
                Event::Stored
            }
            Action::Promote(tile) => {
                world.memory.insert(self.key, tile);
                Event::Promoted
            }
            Action::AwaitSignal => Event::Woken,
            Action::Serve(tile) => {
                self.answer = Some(Ok(tile));
                return;
            }
            Action::Fail(e) => {
                self.answer = Some(Err(e));
                return;
            }
        };
        let (stage, action) = self
            .stage
            .take()
            .expect("a request on its way")
            .advance(event)
            .expect("the event answers the operation");
        self.stage = Some(stage);
        self.action = Some(action);
    }

    /// Runs the request until it is answered.
    fn run(&mut self, world: &mut World) -> Result<Arc<TileData>, AppError> {
        while self.answer.is_none() {
            self.perform(world);
        }
        self.answer.take().unwrap()
    }

    /// Runs the request until it is answered or has to wait for a signal or for upstream.
    fn run_until_blocked(&mut self, world: &mut World) {
        while self.answer.is_none() && !self.waits_for_signal() && !self.waits_for_upstream() {
            self.perform(world);
        }
    }
}

fn data(body: &[u8], etag: &str) -> Result<FetchResult, AppError> {
    Ok(FetchResult::Data(TileData::new(body.to_vec(), Some(etag.to_string()))))
}

#[test]
fn cold_miss_then_warm_hit() {
    let key = parse_request(5, 10, "12.png").unwrap();
    let mut world = World::new(vec![data(b"B", "\"v1\"")]);

    let tile = Task::new(key).run(&mut world).expect("upstream has the tile");
    let response = make_response(&tile.data, tile.etag.as_deref(), None, 604_800);
    assert_eq!(response.status, 200);
    assert_eq!(response.etag.as_deref(), Some("\"v1\""));
    assert_eq!(response.body, b"B");
    assert_eq!(world.upstream_calls, vec![(key, None)]);

    let tile = Task::new(key).run(&mut world).expect("the tile is cached");
    let response = make_response(&tile.data, tile.etag.as_deref(), None, 604_800);
    assert_eq!(response.status, 200);
    assert_eq!(response.body, b"B");
    assert_eq!(world.upstream_calls.len(), 1);
    assert!(world.idle(key));
}

#[test]
fn conditional_client_hit() {
    let key = parse_request(5, 10, "12.png").unwrap();
    let mut world = World::new(Vec::new());
    world
        .memory
        .insert(key, Arc::new(TileData::new(b"B".to_vec(), Some("\"v1\"".to_string()))));

    let tile = Task::new(key).run(&mut world).expect("the tile is in memory");
    let response = make_response(&tile.data, tile.etag.as_deref(), Some("\"v1\""), 604_800);
    assert_eq!(response.status, 304);
    assert!(response.body.is_empty());
    assert!(world.upstream_calls.is_empty());
}

#[test]
fn coalesced_concurrent_fetch() {
    let key = parse_request(5, 10, "12.png").unwrap();
    let mut world = World::new(vec![data(b"B", "\"v1\"")]);
    let mut tasks: Vec<Task> = (0..100).map(|_| Task::new(key)).collect();

    for task in tasks.iter_mut() {
        task.run_until_blocked(&mut world);
    }
    assert_eq!(tasks.iter().filter(|t| t.waits_for_upstream()).count(), 1);
    assert_eq!(tasks.iter().filter(|t| t.waits_for_signal()).count(), 99);

    let fetcher = tasks.iter().position(|t| t.waits_for_upstream()).unwrap();
    let served = tasks[fetcher].run(&mut world).expect("upstream has the tile");
    assert_eq!(served.data, b"B");

    for task in tasks.iter_mut().filter(|t| t.waits_for_signal()) {
        let served = task.run(&mut world).expect("the tile is cached");
        let response = make_response(&served.data, served.etag.as_deref(), None, 604_800);
        assert_eq!(response.status, 200);
        assert_eq!(response.body, b"B");
    }
    assert_eq!(world.upstream_calls, vec![(key, None)]);
    assert!(world.idle(key));
}

#[test]
fn revalidation() {
    let key = parse_request(6, 20, "25.png").unwrap();
    let mut world = World::new(vec![Ok(FetchResult::NotModified)]);
    world.sidecars.insert(key, "\"v1\"".to_string());

    // The payload is hidden from the first disk lookup and back for the
    // second, as when the first read fails: the request then revalidates.
    let mut task = Task::new(key);
    task.run_until_blocked(&mut world);
    assert!(task.waits_for_upstream());
    world.payloads.insert(key, b"B1".to_vec());
    let tile = task.run(&mut world).expect("the payload is on disk");

    assert_eq!(world.upstream_calls, vec![(key, Some("\"v1\"".to_string()))]);
    let response = make_response(&tile.data, tile.etag.as_deref(), None, 604_800);
    assert_eq!(response.status, 200);
    assert_eq!(response.body, b"B1");
    assert_eq!(world.memory.get(&key).map(|t| t.data.clone()), Some(b"B1".to_vec()));
    assert!(world.idle(key));
}

#[test]
fn a_tile_on_disk_is_served_without_asking_upstream() {
    let key = parse_request(6, 20, "25.png").unwrap();
    let mut world = World::new(Vec::new());
    world.payloads.insert(key, b"B1".to_vec());
    world.sidecars.insert(key, "\"v1\"".to_string());

    let tile = Task::new(key).run(&mut world).expect("the tile is on disk");
    assert_eq!(tile.data, b"B1");
    assert_eq!(tile.etag.as_deref(), Some("\"v1\""));
    assert!(world.upstream_calls.is_empty());
    assert!(world.memory.contains_key(&key));
}

#[test]
fn coalesced_acquirer_failure() {
    let key = parse_request(7, 40, "50.png").unwrap();
    let mut world = World::new(vec![
        Err(AppError::Upstream("connection reset".to_string())),
        data(b"B", "\"v2\""),
    ]);
    let mut acquirer = Task::new(key);
    let mut waiter = Task::new(key);
    acquirer.run_until_blocked(&mut world);
    waiter.run_until_blocked(&mut world);
    assert!(acquirer.waits_for_upstream());
    assert!(waiter.waits_for_signal());

    let failure = acquirer.run(&mut world).expect_err("the transport failed");
    assert_eq!(failure.status_code(), 502);

    let tile = waiter.run(&mut world).expect("the second attempt succeeds");
    let response = make_response(&tile.data, tile.etag.as_deref(), None, 604_800);
    assert_eq!(response.status, 200);
    assert_eq!(response.body, b"B");
    assert_eq!(world.upstream_calls.len(), 2);
    assert!(world.idle(key));
}

#[test]
fn invalid_coordinates() {
    let failure = parse_request(3, 9, "0.png").expect_err("9 is off the plane of zoom 3");
    assert!(matches!(failure, AppError::InvalidCoordinates));
    assert_eq!(failure.status_code(), 400);
}

#[test]
fn upstream_not_found_is_answered_with_404() {
    let key = parse_request(18, 1, "1.png").unwrap();
    let mut world = World::new(vec![Err(AppError::NotFound)]);
    let failure = Task::new(key).run(&mut world).expect_err("upstream has no such tile");
    assert_eq!(failure.status_code(), 404);
    assert!(world.idle(key));
    assert!(world.memory.is_empty());
    assert!(world.payloads.is_empty());
}

#[test]
fn a_sidecar_without_payload_recovers_by_a_plain_fetch() {
    let key = parse_request(6, 20, "25.png").unwrap();
    let mut world = World::new(vec![Ok(FetchResult::NotModified), data(b"B3", "\"v3\"")]);
    world.sidecars.insert(key, "\"v1\"".to_string());

    let tile = Task::new(key).run(&mut world).expect("the plain fetch brings the tile");
    assert_eq!(tile.data, b"B3");
    assert_eq!(
        world.upstream_calls,
        vec![(key, Some("\"v1\"".to_string())), (key, None)]
    );
    assert_eq!(world.payloads.get(&key), Some(&b"B3".to_vec()));
    assert_eq!(world.sidecars.get(&key).map(String::as_str), Some("\"v3\""));
    assert!(world.idle(key));
}

#[test]
fn a_sidecar_without_payload_and_a_second_confirmation_is_not_found() {
    let key = parse_request(6, 20, "25.png").unwrap();
    let mut world =
        World::new(vec![Ok(FetchResult::NotModified), Ok(FetchResult::NotModified)]);
    world.sidecars.insert(key, "\"v1\"".to_string());

    let failure = Task::new(key).run(&mut world).expect_err("nothing to serve");
    assert!(matches!(failure, AppError::NotFound));
    assert_eq!(failure.status_code(), 404);
    assert!(world.idle(key));
}

#[test]
fn requests_for_different_keys_do_not_wait_for_each_other() {
    let first = parse_request(5, 10, "12.png").unwrap();
    let second = parse_request(5, 10, "13.png").unwrap();
    let mut world = World::new(vec![data(b"B13", "\"b\""), data(b"B12", "\"a\"")]);
    let mut a = Task::new(first);
    let mut b = Task::new(second);
    a.run_until_blocked(&mut world);
    b.run_until_blocked(&mut world);
    assert!(a.waits_for_upstream());
    assert!(b.waits_for_upstream());
    assert_eq!(b.run(&mut world).unwrap().data, b"B13");
    assert_eq!(a.run(&mut world).unwrap().data, b"B12");
    assert!(world.idle(first));
    assert!(world.idle(second));
}
