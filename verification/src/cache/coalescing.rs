//! Request coalescing: at most one upstream fetch in flight for a key.
//!
//! The registry maps each key that is being fetched to the signal on which
//! the other requests for that key wait. It holds no result: a request that
//! was woken consults the caches again.

use vstd::prelude::*;
use std::sync::Arc;
use dashmap::DashMap;
use tokio::sync::Notify;
use crate::types::TileKey;

verus! {

/// dashmap's `DashMap`, as a value to hold; what it holds is told by `held_signals`.
#[verifier::external_type_specification]
#[verifier::external_body]
#[verifier::reject_recursive_types(K)]
#[verifier::reject_recursive_types(V)]
#[verifier::reject_recursive_types(S)]
pub struct ExDashMap<K, V, S>(DashMap<K, V, S>);

/// tokio's `Notify`, as a value to hold and hand on.
#[verifier::external_type_specification]
#[verifier::external_body]
pub struct ExNotify(Notify);

/// `Notify::new` of tokio makes a signal; nothing is claimed of it.
pub assume_specification[ Notify::new ]() -> Notify;

/// `Notify::notify_waiters` of tokio wakes the tasks that wait on the signal;
/// nothing is claimed of it.
pub assume_specification[ Notify::notify_waiters ](signal: &Notify);

/// What a registry map holds: the signal under each of its keys.
pub uninterp spec fn held_signals(map: DashMap<(u8, u32, u32), Arc<Notify>>) -> Map<
    (u8, u32, u32),
    Arc<Notify>,
>;

/// `DashMap::new`: a map that holds nothing.
#[verifier::external_body]
fn map_new() -> (map: DashMap<(u8, u32, u32), Arc<Notify>>)
    ensures
        held_signals(map).dom() == Set::<(u8, u32, u32)>::empty(),
{
    DashMap::new()
}

/// `DashMap::get`: the value under `key`, here a second handle to the
/// signal that the map holds there, exactly where the map holds `key`.
#[verifier::external_body]
fn map_get(map: &DashMap<(u8, u32, u32), Arc<Notify>>, key: (u8, u32, u32)) -> (signal: Option<
    Arc<Notify>,
>)
    ensures
        held_signals(*map).contains_key(key) ==> signal == Some(held_signals(*map)[key]),
        !held_signals(*map).contains_key(key) ==> signal is None,
{
    map.get(&key).map(|entry| entry.value().clone())
}

/// `DashMap::insert`: afterwards the map holds `signal` under `key`, and
/// besides that what it held. The map is borrowed exclusively, so nobody
/// else changes it meanwhile.
#[verifier::external_body]
fn map_insert(
    map: &mut DashMap<(u8, u32, u32), Arc<Notify>>,
    key: (u8, u32, u32),
    signal: Arc<Notify>,
)
    ensures
        held_signals(*final(map)) == held_signals(*old(map)).insert(key, signal),
{
    map.insert(key, signal);
}

/// `DashMap::remove`: afterwards the map holds what it held but `key`; the
/// signal that it held under `key` comes back, exactly where it held one.
#[verifier::external_body]
fn map_remove(map: &mut DashMap<(u8, u32, u32), Arc<Notify>>, key: (u8, u32, u32)) -> (signal:
    Option<Arc<Notify>>)
    ensures
        held_signals(*final(map)) == held_signals(*old(map)).remove(key),
        held_signals(*old(map)).contains_key(key) ==> signal == Some(held_signals(*old(map))[key]),
        !held_signals(*old(map)).contains_key(key) ==> signal is None,
{
    map.remove(&key).map(|(_, signal)| signal)
}

/// Whether a registry in which the keys `in_flight` are being fetched grants `key`.
pub open spec fn grants(in_flight: Set<TileKey>, key: TileKey) -> bool {
    !in_flight.contains(key)
}

/// The registry of fetches in flight.
pub struct RequestCoalescer {
    in_flight: DashMap<(u8, u32, u32), Arc<Notify>>,
}

/// The answer to a request that wants to fetch a key.
pub enum CoalesceResult {
    /// The caller is the one fetcher of the key until it gives the guard back.
    Acquired(CoalesceGuard),
    /// Another request fetches the key; its release notifies this signal.
    Wait(Arc<Notify>),
}

/// The right to fetch one key, handed out by `RequestCoalescer::try_acquire`.
///
/// The right is given back by `complete`, and by nothing else: a guard that
/// is dropped leaves its key in flight, and every later claim of the key
/// waits. The registry is changed through an exclusive borrow, which a guard
/// cannot keep while others claim, so the release cannot be bound to the
/// guard's end here. Whoever holds a guard owes the call of `complete` on
/// every way out, also when the work it stands for is given up.
pub struct CoalesceGuard {
    key: TileKey,
}

impl View for RequestCoalescer {
    type V = Set<TileKey>;

    /// The keys for which a fetch is in flight.
    open spec fn view(&self) -> Set<TileKey> {
        self.signals().dom()
    }
}

impl RequestCoalescer {
    /// The signal that the waiters of each key in flight wait on.
    pub closed spec fn signals(&self) -> Map<TileKey, Arc<Notify>> {
        Map::new(
            |key: TileKey| held_signals(self.in_flight).contains_key(key.triple()),
            |key: TileKey| held_signals(self.in_flight)[key.triple()],
        )
    }

    /// A registry with no fetch in flight.
    pub fn new() -> (coalescer: Self)
        ensures
            coalescer@ == Set::<TileKey>::empty(),
    {
        RequestCoalescer { in_flight: map_new() }
    }

    /// Asks for the right to fetch `key`. It is granted exactly where no
    /// fetch of `key` is in flight; `key` is in flight from then on, with a
    /// signal of its own, and the other keys keep theirs. Otherwise the
    /// registry stays as it is and the caller gets the signal that the
    /// registry holds for `key`, which the holder's release notifies.
    pub fn try_acquire(&mut self, key: TileKey) -> (result: CoalesceResult)
        ensures
            !grants(old(self)@, key) ==> result == CoalesceResult::Wait(old(self).signals()[key])
                && final(self).signals() == old(self).signals(),
            grants(old(self)@, key) ==> result is Acquired && final(self).signals() == old(
                self,
            ).signals().insert(key, final(self).signals()[key]),
            result matches CoalesceResult::Acquired(guard) ==> guard.key() == key,
    {
        match map_get(&self.in_flight, key.coords()) {
            Some(signal) => CoalesceResult::Wait(signal),
            None => {
                map_insert(&mut self.in_flight, key.coords(), Arc::new(Notify::new()));
                CoalesceResult::Acquired(CoalesceGuard { key })
            },
        }
    }
}

impl Default for RequestCoalescer {
    /// A registry with no fetch in flight.
    fn default() -> (coalescer: Self)
        ensures
            coalescer@ == Set::<TileKey>::empty(),
    {
        RequestCoalescer::new()
    }
}

impl CoalesceGuard {
    /// The key that the guard gives the right to fetch.
    pub closed spec fn key(&self) -> TileKey {
        self.key
    }

    /// Gives the right back: the key is in flight no longer, the other keys
    /// keep their signals, and the requests that wait for the key are woken.
    pub fn complete(self, coalescer: &mut RequestCoalescer)
        ensures
            final(coalescer).signals() == old(coalescer).signals().remove(self.key()),
    {
        if let Some(signal) = map_remove(&mut coalescer.in_flight, self.key.coords()) {
            signal.notify_waiters();
        }
    }
}

} // verus!
