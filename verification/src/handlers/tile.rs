//! The acquisition pipeline: memory tier, disk tier, then upstream under coalescing.
//!
//! Serving a request alternates lookups, fetches and waits with decisions.
//! The decisions are here: `advance` takes the stage a request is in and the
//! outcome of the last operation, and gives the next stage with the next
//! operation to perform.

use vstd::prelude::*;
use vstd::slice::slice_to_vec;
use vstd::string::{is_ascii_spec_bytes, StrSliceExecFns, StringExecFns};
use std::sync::Arc;
use crate::error::AppError;
use crate::text::{
    decimal, lemma_decimal_reads_back, lemma_parsed_is_ascii, parse_u32, parsed_u32,
    push_decimal, same_text, slice_text_of, text_of,
};
use crate::types::{TileData, TileKey};
use crate::upstream::osm::FetchResult;

verus! {

/// The row that a file name of the form `{y}.png` names.
pub open spec fn row_of(filename: Seq<char>) -> Option<u32> {
    let n = filename.len() as int;
    if n >= 4 && filename.subrange(n - 4, n) == seq!['.', 'p', 'n', 'g'] {
        parsed_u32(filename.subrange(0, n - 4))
    } else {
        None
    }
}

/// The tile that `GET /{z}/{x}/{filename}` asks for.
pub open spec fn requested(z: u8, x: u32, filename: Seq<char>) -> Result<TileKey, AppError> {
    match row_of(filename) {
        Some(y) => TileKey::made(z, x, y),
        None => Err(AppError::InvalidCoordinates),
    }
}

/// Reads the row out of a file name of the form `{y}.png`.
pub fn parse_row(filename: &str) -> (row: Option<u32>)
    ensures
        row == row_of(filename@),
{
    broadcast use is_ascii_spec_bytes;

    let ghost len = filename@.len() as int;
    if !filename.is_ascii() {
        proof {
            if row_of(filename@) is Some {
                let stem = filename@.subrange(0, len - 4);
                let suffix = filename@.subrange(len - 4, len);
                lemma_parsed_is_ascii(stem, u32::MAX as nat);
                assert forall|i: int| 0 <= i < len implies '\0' <= #[trigger] filename@[i]
                    <= '\u{7f}' by {
                    if i < len - 4 {
                        assert(filename@[i] == stem[i]);
                    } else {
                        assert(filename@[i] == suffix[i - (len - 4)]);
                    }
                }
            }
        }
        return None;
    }
    let bytes = filename.as_bytes();
    let n = bytes.len();
    if n < 4 {
        return None;
    }
    if bytes[n - 4] != 46u8 || bytes[n - 3] != 112u8 || bytes[n - 2] != 110u8 || bytes[n - 1]
        != 103u8 {
        proof {
            let suffix = filename@.subrange(len - 4, len);
            assert(suffix[0] == filename@[len - 4] && suffix[1] == filename@[len - 3]);
            assert(suffix[2] == filename@[len - 2] && suffix[3] == filename@[len - 1]);
        }
        return None;
    }
    assert(filename@.subrange(len - 4, len) =~= seq!['.', 'p', 'n', 'g']);
    parse_u32(filename.substring_ascii(0, n - 4))
}

/// Names the tile that `GET /{z}/{x}/{filename}` asks for, or refuses the
/// request: a file name that names no row, or coordinates off the plane.
pub fn parse_request(z: u8, x: u32, filename: &str) -> (r: Result<TileKey, AppError>)
    ensures
        r == requested(z, x, filename@),
{
    match parse_row(filename) {
        Some(y) => TileKey::new(z, x, y),
        None => Err(AppError::InvalidCoordinates),
    }
}

/// The file name that names row `y` reads back as `y`: a request for the
/// path of a key is a request for that key.
pub proof fn lemma_file_name_reads_back(z: u8, x: u32, y: u32)
    ensures
        row_of(decimal(y as nat) + seq!['.', 'p', 'n', 'g']) == Some(y),
        requested(z, x, decimal(y as nat) + seq!['.', 'p', 'n', 'g']) == TileKey::made(z, x, y),
{
    let name = decimal(y as nat) + seq!['.', 'p', 'n', 'g'];
    let n = name.len() as int;
    lemma_decimal_reads_back(y as nat, u32::MAX as nat);
    assert(name.subrange(0, n - 4) =~= decimal(y as nat));
    assert(name.subrange(n - 4, n) =~= seq!['.', 'p', 'n', 'g']);
}

/// An answer to a tile request, as plain values.
#[derive(Debug, PartialEq, Eq)]
pub struct TileResponse {
    pub status: u16,
    pub content_type: Option<String>,
    pub cache_control: Option<String>,
    pub etag: Option<String>,
    pub body: Vec<u8>,
}

/// Whether the validator that the client sent is the tile's own.
pub open spec fn client_is_current(etag: Option<&str>, client_etag: Option<&str>) -> bool {
    etag matches Some(server) && client_etag matches Some(client) && server@ == client@
}

/// Whether `response` is a bare `304 Not Modified`: no header, no body.
pub open spec fn is_not_modified(response: TileResponse) -> bool {
    &&& response.status == 304
    &&& response.content_type is None
    &&& response.cache_control is None
    &&& response.etag is None
    &&& response.body@ == Seq::<u8>::empty()
}

/// Whether `response` is `200 OK` with `data` as its body, the PNG content
/// type, a public `max-age` of `max_age` seconds, and `etag` where there is one.
pub open spec fn carries_tile(
    response: TileResponse,
    data: Seq<u8>,
    etag: Option<Seq<char>>,
    max_age: u64,
) -> bool {
    &&& response.status == 200
    &&& text_of(response.content_type) == Some("image/png"@)
    &&& text_of(response.cache_control) == Some("public, max-age="@ + decimal(max_age as nat))
    &&& text_of(response.etag) == etag
    &&& response.body@ == data
}

/// Shapes the answer for a tile: `304 Not Modified` without headers or body
/// where the client already holds it, else `200 OK` with the payload.
pub fn make_response(
    data: &[u8],
    etag: Option<&str>,
    client_etag: Option<&str>,
    cache_max_age_secs: u64,
) -> (response: TileResponse)
    ensures
        client_is_current(etag, client_etag) ==> is_not_modified(response),
        !client_is_current(etag, client_etag) ==> carries_tile(
            response,
            data@,
            slice_text_of(etag),
            cache_max_age_secs,
        ),
{
    let current = match (etag, client_etag) {
        (Some(server), Some(client)) => same_text(server, client),
        _ => false,
    };
    if current {
        return TileResponse {
            status: 304,
            content_type: None,
            cache_control: None,
            etag: None,
            body: Vec::new(),
        };
    }
    let mut cache_control = String::from_str("public, max-age=");
    push_decimal(&mut cache_control, cache_max_age_secs);
    let etag = match etag {
        Some(server) => Some(String::from_str(server)),
        None => None,
    };
    TileResponse {
        status: 200,
        content_type: Some(String::from_str("image/png")),
        cache_control: Some(cache_control),
        etag,
        body: slice_to_vec(data),
    }
}

/// Where a request stands: which answer it is waiting for, and what it keeps meanwhile.
#[derive(Debug)]
pub enum Stage {
    /// Waiting for the memory tier.
    Memory,
    /// Waiting for the disk tier.
    Disk,
    /// Waiting for the coalescer to grant or refuse the key.
    Claim,
    /// Holding the key; waiting for the validator stored on disk.
    Validator,
    /// Holding the key; waiting for upstream.
    Fetch,
    /// Holding the key; waiting for the release, with upstream's answer kept.
    Release(Result<FetchResult, AppError>),
    /// Waiting for the disk tier to take the fetched tile.
    Store(Arc<TileData>),
    /// Waiting for the memory tier to take the tile.
    Promote(Arc<TileData>),
    /// Upstream confirmed the validator; waiting for the disk tier to give the payload again.
    Reread,
    /// The validator had no payload beside it; waiting for upstream, asked without one.
    Refetch,
    /// Another request holds the key; waiting for its signal.
    Wait,
    /// Answered.
    Done,
}

/// The outcome of the operation that a request was waiting for.
#[derive(Debug)]
pub enum Event {
    /// The memory tier answered.
    Memory(Option<Arc<TileData>>),
    /// The disk tier answered.
    Disk(Option<Arc<TileData>>),
    /// The coalescer granted the key.
    Acquired,
    /// The coalescer refused: another request holds the key.
    Busy,
    /// The disk tier gave the stored validator, if there is one.
    Validator(Option<String>),
    /// Upstream answered, or could not be reached.
    Fetched(Result<FetchResult, AppError>),
    /// The key was released and its waiters were woken.
    Released,
    /// The disk tier took the tile, or failed to.
    Stored,
    /// The memory tier took the tile.
    Promoted,
    /// The holder of the key released it.
    Woken,
}

/// The operation to perform next.
#[derive(Debug)]
pub enum Action {
    LookupMemory,
    LookupDisk,
    TryAcquire,
    ReadValidator,
    /// Ask upstream, with `If-None-Match` where a validator is given.
    Fetch(Option<String>),
    Release,
    /// Write the tile to disk; a failure is reported and otherwise ignored.
    Store(Arc<TileData>),
    /// Insert the tile into the memory tier.
    Promote(Arc<TileData>),
    AwaitSignal,
    /// Answer the request with the tile.
    Serve(Arc<TileData>),
    /// Answer the request with the failure.
    Fail(AppError),
}

/// The stage that follows `stage` on `event`, with the operation to perform;
/// `None` where `event` answers no operation that `stage` waits for.
pub open spec fn transition(stage: Stage, event: Event) -> Option<(Stage, Action)> {
    match (stage, event) {
        (Stage::Memory, Event::Memory(Some(tile))) => Some((Stage::Done, Action::Serve(tile))),
        (Stage::Memory, Event::Memory(None)) => Some((Stage::Disk, Action::LookupDisk)),
        (Stage::Disk, Event::Disk(Some(tile))) => Some(
            (Stage::Promote(tile), Action::Promote(tile)),
        ),
        (Stage::Disk, Event::Disk(None)) => Some((Stage::Claim, Action::TryAcquire)),
        (Stage::Claim, Event::Acquired) => Some((Stage::Validator, Action::ReadValidator)),
        (Stage::Claim, Event::Busy) => Some((Stage::Wait, Action::AwaitSignal)),
        (Stage::Wait, Event::Woken) => Some((Stage::Memory, Action::LookupMemory)),
        (Stage::Validator, Event::Validator(etag)) => Some((Stage::Fetch, Action::Fetch(etag))),
        (Stage::Fetch, Event::Fetched(outcome)) => Some(
            (Stage::Release(outcome), Action::Release),
        ),
        (Stage::Release(Ok(FetchResult::Data(tile))), Event::Released) => Some(
            (Stage::Store(Arc::new(tile)), Action::Store(Arc::new(tile))),
        ),
        (Stage::Release(Ok(FetchResult::NotModified)), Event::Released) => Some(
            (Stage::Reread, Action::LookupDisk),
        ),
        (Stage::Release(Err(e)), Event::Released) => Some((Stage::Done, Action::Fail(e))),
        (Stage::Store(tile), Event::Stored) => Some((Stage::Promote(tile), Action::Promote(tile))),
        (Stage::Promote(tile), Event::Promoted) => Some((Stage::Done, Action::Serve(tile))),
        (Stage::Reread, Event::Disk(Some(tile))) => Some(
            (Stage::Promote(tile), Action::Promote(tile)),
        ),
        (Stage::Reread, Event::Disk(None)) => Some((Stage::Refetch, Action::Fetch(None))),
        (Stage::Refetch, Event::Fetched(Ok(FetchResult::Data(tile)))) => Some(
            (Stage::Store(Arc::new(tile)), Action::Store(Arc::new(tile))),
        ),
        (Stage::Refetch, Event::Fetched(Ok(FetchResult::NotModified))) => Some(
            (Stage::Done, Action::Fail(AppError::NotFound)),
        ),
        (Stage::Refetch, Event::Fetched(Err(e))) => Some((Stage::Done, Action::Fail(e))),
        _ => None,
    }
}

/// The tile goes to the memory tier, and is served once it is there.
fn promote(tile: Arc<TileData>) -> (r: (Stage, Action))
    ensures
        r == (Stage::Promote(tile), Action::Promote(tile)),
{
    let kept = tile.clone();
    (Stage::Promote(kept), Action::Promote(tile))
}

/// A fetched tile goes to disk first.
fn persist(tile: TileData) -> (r: (Stage, Action))
    ensures
        r == (Stage::Store(Arc::new(tile)), Action::Store(Arc::new(tile))),
{
    let tile = Arc::new(tile);
    let kept = tile.clone();
    (Stage::Store(kept), Action::Store(tile))
}

impl Stage {
    /// The stage in which a request begins, with its first operation.
    pub fn begin() -> (r: (Stage, Action))
        ensures
            r == (Stage::Memory, Action::LookupMemory),
    {
        (Stage::Memory, Action::LookupMemory)
    }

    /// Takes the outcome of the operation that `self` was waiting for and
    /// decides what comes next.
    pub fn advance(self, event: Event) -> (r: Option<(Stage, Action)>)
        ensures
            r == transition(self, event),
    {
        match self {
            Stage::Memory => match event {
                Event::Memory(Some(tile)) => Some((Stage::Done, Action::Serve(tile))),
                Event::Memory(None) => Some((Stage::Disk, Action::LookupDisk)),
                _ => None,
            },
            Stage::Disk => match event {
                Event::Disk(Some(tile)) => Some(promote(tile)),
                Event::Disk(None) => Some((Stage::Claim, Action::TryAcquire)),
                _ => None,
            },
            Stage::Claim => match event {
                Event::Acquired => Some((Stage::Validator, Action::ReadValidator)),
                Event::Busy => Some((Stage::Wait, Action::AwaitSignal)),
                _ => None,
            },
            Stage::Wait => match event {
                Event::Woken => Some((Stage::Memory, Action::LookupMemory)),
                _ => None,
            },
            Stage::Validator => match event {
                Event::Validator(etag) => Some((Stage::Fetch, Action::Fetch(etag))),
                _ => None,
            },
            Stage::Fetch => match event {
                Event::Fetched(outcome) => Some((Stage::Release(outcome), Action::Release)),
                _ => None,
            },
            Stage::Release(outcome) => match event {
                Event::Released => match outcome {
                    Ok(FetchResult::Data(tile)) => Some(persist(tile)),
                    Ok(FetchResult::NotModified) => Some((Stage::Reread, Action::LookupDisk)),
                    Err(e) => Some((Stage::Done, Action::Fail(e))),
                },
                _ => None,
            },
            Stage::Store(tile) => match event {
                Event::Stored => Some(promote(tile)),
                _ => None,
            },
            Stage::Promote(tile) => match event {
                Event::Promoted => Some((Stage::Done, Action::Serve(tile))),
                _ => None,
            },
            Stage::Reread => match event {
                Event::Disk(Some(tile)) => Some(promote(tile)),
                Event::Disk(None) => Some((Stage::Refetch, Action::Fetch(None))),
                _ => None,
            },
            Stage::Refetch => match event {
                Event::Fetched(Ok(FetchResult::Data(tile))) => Some(persist(tile)),
                Event::Fetched(Ok(FetchResult::NotModified)) => Some(
                    (Stage::Done, Action::Fail(AppError::NotFound)),
                ),
                Event::Fetched(Err(e)) => Some((Stage::Done, Action::Fail(e))),
                _ => None,
            },
            Stage::Done => None,
        }
    }
}

} // verus!
