//! Many requests over one registry: what holds however their steps interleave.
//!
//! Each request follows the pipeline by itself. What ties them together is
//! the registry of keys in flight, which answers a claim by what it holds at
//! that moment. The model below lets the requests take their steps in any
//! order, lets any of them be dropped at any point, and shows that the
//! registry always says exactly who is fetching.

use vstd::prelude::*;
use crate::cache::coalescing::grants;
use crate::cache::disk::DiskCache;
use crate::cache::files::{tile_of, validator_of, Files};
use crate::handlers::tile::{transition, Action, Event, Stage};
use crate::types::TileKey;

verus! {

/// A request on its way: the tile it asks for and where it stands.
pub struct Request {
    pub key: TileKey,
    pub stage: Stage,
}

/// The proxy at one moment: the keys in flight and the requests being served.
pub struct Proxy {
    pub in_flight: Set<TileKey>,
    pub requests: Seq<Request>,
}

/// One step of one request.
pub enum Move {
    /// The operation that request `who` waited for ended with `event`.
    Deliver { who: int, event: Event },
    /// Request `who` was dropped where it stood, as when its client went
    /// away, and whoever dropped it gave back the key that it held, if any.
    Drop { who: int },
}

/// Whether a request in `stage` holds the right to fetch its key.
pub open spec fn holds_key(stage: Stage) -> bool {
    stage is Validator || stage is Fetch || stage is Release
}

/// The right to fetch changes hands at two events only: a request comes to
/// hold its key by the coalescer's grant and by nothing else, and it ceases
/// to hold it by its release and by nothing else. So a request that was
/// granted a key never waits and is never answered before it has released.
pub proof fn lemma_key_changes_hands(stage: Stage, event: Event)
    ensures
        transition(stage, event) matches Some((next, _)) ==> (!holds_key(stage) && holds_key(
            next,
        )) == (event is Acquired),
        transition(stage, event) matches Some((next, _)) ==> (holds_key(stage) && !holds_key(
            next,
        )) == (event is Released),
        transition(stage, event) matches Some((_, Action::Release)) ==> holds_key(stage),
{
}

/// A request that holds its key does nothing with it but read the stored
/// validator, fetch, and release: the caches are written, and the request
/// is answered, only after the release, so those who wait are woken as early
/// as can be.
pub proof fn lemma_holder_only_fetches(stage: Stage, event: Event)
    ensures
        transition(stage, event) matches Some((next, action)) ==> holds_key(next) ==> action
            is ReadValidator || action is Fetch || action is Release,
{
}

/// How many steps a request in `stage` is away from having released its key.
pub open spec fn steps_to_release(stage: Stage) -> nat {
    match stage {
        Stage::Validator => 3,
        Stage::Fetch => 2,
        Stage::Release(_) => 1,
        _ => 0,
    }
}

/// A request holds its key for three steps: each step of a holder, whatever
/// the disk and upstream answer, brings it one step nearer to the release.
pub proof fn lemma_holder_releases(stage: Stage, event: Event)
    ensures
        transition(stage, event) matches Some((next, _)) ==> holds_key(stage) ==> steps_to_release(
            next,
        ) + 1 == steps_to_release(stage),
        holds_key(stage) == (steps_to_release(stage) > 0),
{
}

/// Upstream is asked in two places only: by the request that holds the
/// key, which goes on holding it while it fetches, and, without a
/// validator, by a request whose confirmed validator had no payload beside
/// it on disk.
pub proof fn lemma_fetch_holds_key_or_is_plain(stage: Stage, event: Event)
    ensures
        transition(stage, event) matches Some((next, Action::Fetch(validator))) ==> (holds_key(
            stage,
        ) && holds_key(next)) || (stage is Reread && event == Event::Disk(None)
            && validator is None),
{
}

/// Where the disk gives a validator for a key, the tile that it gives for
/// the key carries that validator; and where it gives no tile, because the
/// payload is missing, a request that had the validator confirmed fetches
/// again without one.
pub proof fn lemma_confirmed_validator(
    files: Files,
    cache: DiskCache,
    key: TileKey,
    validator: Seq<char>,
)
    requires
        validator_of(files, cache, key) == Some(validator),
    ensures
        tile_of(files, cache, key) matches Some(tile) ==> tile.etag == Some(validator),
        tile_of(files, cache, key) is None ==> transition(Stage::Reread, Event::Disk(None))
            == Some((Stage::Refetch, Action::Fetch(None))),
{
}

/// The proxy after `step`, or `None` where the step cannot happen: there is
/// no such request, the event answers nothing that the request waits for, or
/// it is not what the registry answers to a claim. The registry answers as
/// `RequestCoalescer::try_acquire` does: a grant puts the key in flight, and a
/// release, or the drop of the holder, takes it out.
///
/// That a drop takes the key out is assumed here, not shown: in this
/// library a `CoalesceGuard` that is dropped releases nothing. The model
/// holds of a process that calls `CoalesceGuard::complete` whenever it drops
/// a request that holds a key, and the laws below hold of such a process
/// only.
pub open spec fn step(proxy: Proxy, step: Move) -> Option<Proxy> {
    match step {
        Move::Drop { who } => {
            if 0 <= who < proxy.requests.len() {
                let request = proxy.requests[who];
                Some(
                    Proxy {
                        in_flight: if holds_key(request.stage) {
                            proxy.in_flight.remove(request.key)
                        } else {
                            proxy.in_flight
                        },
                        requests: proxy.requests.update(
                            who,
                            Request { key: request.key, stage: Stage::Done },
                        ),
                    },
                )
            } else {
                None
            }
        },
        Move::Deliver { who, event } => {
            if 0 <= who < proxy.requests.len() {
                let request = proxy.requests[who];
                match transition(request.stage, event) {
                    Some((next, _)) => {
                        if request.stage is Claim && (event is Acquired) != grants(
                            proxy.in_flight,
                            request.key,
                        ) {
                            None
                        } else {
                            Some(
                                Proxy {
                                    in_flight: if event is Acquired {
                                        proxy.in_flight.insert(request.key)
                                    } else if event is Released {
                                        proxy.in_flight.remove(request.key)
                                    } else {
                                        proxy.in_flight
                                    },
                                    requests: proxy.requests.update(
                                        who,
                                        Request { key: request.key, stage: next },
                                    ),
                                },
                            )
                        }
                    },
                    None => None,
                }
            } else {
                None
            }
        },
    }
}

/// The proxy after `steps`, taken in order; `None` where one of them cannot happen.
pub open spec fn after_steps(proxy: Proxy, steps: Seq<Move>) -> Option<Proxy>
    decreases steps.len(),
{
    if steps.len() == 0 {
        Some(proxy)
    } else {
        match after_steps(proxy, steps.drop_last()) {
            Some(earlier) => step(earlier, steps.last()),
            None => None,
        }
    }
}

/// Whether request `i` holds the right to fetch its key.
pub open spec fn is_holder(proxy: Proxy, i: int) -> bool {
    0 <= i < proxy.requests.len() && holds_key(proxy.requests[i].stage)
}

/// Whether the registry says exactly who is fetching: every holder's key
/// is in flight, every key in flight has a holder, and no key has two.
pub open spec fn coherent(proxy: Proxy) -> bool {
    &&& forall|i: int| #[trigger] is_holder(proxy, i) ==> proxy.in_flight.contains(proxy.requests[i].key)
    &&& forall|key: TileKey| #[trigger]
        proxy.in_flight.contains(key) ==> exists|i: int| #[trigger]
            is_holder(proxy, i) && proxy.requests[i].key == key
    &&& forall|i: int, j: int|
        #[trigger] is_holder(proxy, i) && #[trigger] is_holder(proxy, j) && proxy.requests[i].key
            == proxy.requests[j].key ==> i == j
}

/// Whether nothing has happened yet: no key is in flight and no request holds one.
pub open spec fn fresh(proxy: Proxy) -> bool {
    &&& proxy.in_flight == Set::<TileKey>::empty()
    &&& forall|i: int| !#[trigger] is_holder(proxy, i)
}

/// Whether the proxy is quiescent: every request has been answered or dropped.
pub open spec fn quiescent(proxy: Proxy) -> bool {
    forall|i: int| 0 <= i < proxy.requests.len() ==> (#[trigger] proxy.requests[i]).stage is Done
}

/// A step keeps the registry telling exactly who is fetching.
pub proof fn lemma_step_keeps_coherent(proxy: Proxy, mv: Move)
    requires
        coherent(proxy),
        step(proxy, mv) is Some,
    ensures
        coherent(step(proxy, mv)->0),
{
    let next = step(proxy, mv)->0;
    let who = match mv {
        Move::Drop { who } => who,
        Move::Deliver { who, .. } => who,
    };
    let key = proxy.requests[who].key;
    let held = is_holder(proxy, who);
    let holds = is_holder(next, who);
    // No other request moves. The registry changes only at `key`: the key
    // enters with a grant, which needs it absent, and leaves with the
    // release or the drop of its holder.
    assert forall|i: int| i != who implies is_holder(next, i) == is_holder(proxy, i) && (0 <= i
        < proxy.requests.len() ==> next.requests[i] == proxy.requests[i]) by {}
    assert(holds && !held ==> !proxy.in_flight.contains(key) && next.in_flight
        == proxy.in_flight.insert(key));
    assert(held && !holds ==> next.in_flight == proxy.in_flight.remove(key));
    assert(held == holds ==> next.in_flight == proxy.in_flight);

    assert forall|i: int| #[trigger] is_holder(next, i) implies next.in_flight.contains(
        next.requests[i].key,
    ) by {
        // A holder other than `who` held its key before the step, and that
        // key is not `key` where `who` has just given `key` up.
        if i != who && proxy.requests[i].key == key {
            assert(is_holder(proxy, i));
        }
    }
    assert forall|k: TileKey| #[trigger] next.in_flight.contains(k) implies exists|i: int|
        #[trigger] is_holder(next, i) && next.requests[i].key == k by {
        if k == key && holds {
            assert(is_holder(next, who) && next.requests[who].key == k);
        } else {
            let i = choose|i: int| #[trigger] is_holder(proxy, i) && proxy.requests[i].key == k;
            assert(is_holder(next, i) && next.requests[i].key == k);
        }
    }
    assert forall|i: int, j: int|
        #[trigger] is_holder(next, i) && #[trigger] is_holder(next, j) && next.requests[i].key
            == next.requests[j].key implies i == j by {
        // Two holders of one key would have been two before the step, or
        // one of them is `who`, freshly granted a key that the other held.
        if i != j {
            let other = if i == who {
                j
            } else {
                i
            };
            assert(is_holder(proxy, other));
        }
    }
}

/// A proxy in which nothing has happened yet is coherent.
pub proof fn lemma_fresh_is_coherent(proxy: Proxy)
    requires
        fresh(proxy),
    ensures
        coherent(proxy),
{
}

/// However the steps of the requests interleave, and whichever requests
/// are dropped on the way, the registry says exactly who is fetching.
pub proof fn lemma_always_coherent(start: Proxy, steps: Seq<Move>)
    requires
        coherent(start),
        after_steps(start, steps) is Some,
    ensures
        coherent(after_steps(start, steps)->0),
    decreases steps.len(),
{
    if steps.len() > 0 {
        let earlier = after_steps(start, steps.drop_last());
        lemma_always_coherent(start, steps.drop_last());
        lemma_step_keeps_coherent(earlier->0, steps.last());
    }
}

/// At most one request at a time holds the right to fetch a key, so at
/// most one conditional fetch of a key is in flight: no acquirer fetches
/// before the one before it has released.
pub proof fn lemma_one_holder_per_key(start: Proxy, steps: Seq<Move>, i: int, j: int)
    requires
        fresh(start),
        after_steps(start, steps) is Some,
        is_holder(after_steps(start, steps)->0, i),
        is_holder(after_steps(start, steps)->0, j),
        (after_steps(start, steps)->0).requests[i].key == (after_steps(
            start,
            steps,
        )->0).requests[j].key,
    ensures
        i == j,
{
    lemma_fresh_is_coherent(start);
    lemma_always_coherent(start, steps);
}

/// When every request has been answered or dropped, no key is in flight.
pub proof fn lemma_quiescent_registry_is_empty(start: Proxy, steps: Seq<Move>)
    requires
        fresh(start),
        after_steps(start, steps) is Some,
        quiescent(after_steps(start, steps)->0),
    ensures
        (after_steps(start, steps)->0).in_flight == Set::<TileKey>::empty(),
{
    lemma_fresh_is_coherent(start);
    lemma_always_coherent(start, steps);
    let end = after_steps(start, steps)->0;
    assert forall|key: TileKey| !end.in_flight.contains(key) by {
        if end.in_flight.contains(key) {
            let i = choose|i: int| #[trigger] is_holder(end, i) && end.requests[i].key == key;
            assert(end.requests[i].stage is Done);
        }
    }
}

} // verus!
