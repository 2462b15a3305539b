//! What the disk tier's write protocol guarantees, on an idealised disk.
//!
//! The disk is taken to be a map from paths to file contents on which a
//! rename replaces its target at once, and on which a write that is given up
//! part-way may leave any bytes in the file it was writing. The laws below
//! hold of every such disk and of every point at which a store may stop.
//! Stores are taken one after the other: two stores of one key that run
//! at the same time write the same temporary file, and are not covered.

use vstd::prelude::*;
use vstd::utf8::{
    decode_utf8, encode_utf8, encode_utf8_decode_utf8, encode_utf8_valid_utf8, valid_utf8,
};
use crate::cache::disk::{under, DiskCache, FileOp};
use crate::types::{lemma_path_text_injective, path_text, TileDataView, TileKey};

verus! {

/// The files of a disk: what each path holds.
pub type Files = Map<Seq<char>, Seq<u8>>;

/// The files after `op` ran to its end, with `data` for the payload and `etag` for the validator.
pub open spec fn perform(files: Files, op: FileOp, data: Seq<u8>, etag: Seq<char>) -> Files {
    match op {
        FileOp::CreateDirAll(_) => files,
        FileOp::WritePayload(path) => files.insert(path, data),
        FileOp::Rename { from, to } => if files.contains_key(from) {
            files.remove(from).insert(to, files[from])
        } else {
            files
        },
        FileOp::WriteEtag(path) => files.insert(path, encode_utf8(etag)),
    }
}

/// The files after `op` was given up part-way: a write leaves `junk` in its
/// file, or leaves the file alone; the other steps change no file.
pub open spec fn give_up(files: Files, op: FileOp, junk: Option<Seq<u8>>) -> Files {
    match (op, junk) {
        (FileOp::WritePayload(path), Some(bytes)) => files.insert(path, bytes),
        (FileOp::WriteEtag(path), Some(bytes)) => files.insert(path, bytes),
        _ => files,
    }
}

/// The files after the first `done` steps of `plan` ran.
pub open spec fn perform_first(
    files: Files,
    plan: Seq<FileOp>,
    done: nat,
    data: Seq<u8>,
    etag: Seq<char>,
) -> Files
    decreases done,
{
    if done == 0 || done > plan.len() {
        files
    } else {
        perform(perform_first(files, plan, (done - 1) as nat, data, etag), plan[done - 1], data, etag)
    }
}

/// How far a store came: `done` steps ran, and the step after them, if
/// there is one, was given up and left `junk`.
pub struct Progress {
    pub done: nat,
    pub junk: Option<Seq<u8>>,
}

/// The files after a store of `data` and `etag` under `key` that came as far as `progress` says.
pub open spec fn after_store(
    files: Files,
    cache: DiskCache,
    key: TileKey,
    data: Seq<u8>,
    etag: Option<Seq<char>>,
    progress: Progress,
) -> Files {
    let plan = cache.store_plan(key, etag is Some);
    let text = match etag {
        Some(text) => text,
        None => Seq::<char>::empty(),
    };
    if progress.done >= plan.len() {
        perform_first(files, plan, plan.len(), data, text)
    } else {
        give_up(
            perform_first(files, plan, progress.done, data, text),
            plan[progress.done as int],
            progress.junk,
        )
    }
}

/// The files after a store that ran to its end.
pub open spec fn stored(
    files: Files,
    cache: DiskCache,
    key: TileKey,
    data: Seq<u8>,
    etag: Option<Seq<char>>,
) -> Files {
    after_store(files, cache, key, data, etag, Progress { done: 4, junk: None })
}

/// The payload that the disk holds for `key`.
pub open spec fn payload_of(files: Files, cache: DiskCache, key: TileKey) -> Option<Seq<u8>> {
    if files.contains_key(cache.payload_at(key)) {
        Some(files[cache.payload_at(key)])
    } else {
        None
    }
}

/// The validator that the disk holds for `key`: the sidecar's text, where
/// there is a sidecar that holds text.
pub open spec fn validator_of(files: Files, cache: DiskCache, key: TileKey) -> Option<Seq<char>> {
    let path = cache.etag_at(key);
    if files.contains_key(path) && valid_utf8(files[path]) {
        Some(decode_utf8(files[path]))
    } else {
        None
    }
}

/// The tile that the disk gives for `key`: the payload, where there is one,
/// with the validator beside it, where there is one.
pub open spec fn tile_of(files: Files, cache: DiskCache, key: TileKey) -> Option<TileDataView> {
    match payload_of(files, cache, key) {
        Some(data) => Some(TileDataView { data, etag: validator_of(files, cache, key) }),
        None => None,
    }
}

/// Whether every sidecar on the disk has its payload beside it.
pub open spec fn sidecars_have_payloads(files: Files, cache: DiskCache) -> bool {
    forall|key: TileKey| #[trigger]
        files.contains_key(cache.etag_at(key)) ==> files.contains_key(cache.payload_at(key))
}

/// Below one root, different relative paths are different files.
pub proof fn lemma_under_injective(root: Seq<char>, a: Seq<char>, b: Seq<char>)
    requires
        under(root, a) == under(root, b),
    ensures
        a == b,
{
    let skip = under(root, a).len() - a.len();
    assert(a =~= b) by {
        assert forall|i: int| 0 <= i < a.len() implies a[i] == b[i] by {
            assert(under(root, b)[skip + i] == b[i]);
        }
    }
}

/// The file names of a tier never collide: two of its paths that are equal
/// belong to the same key and have the same extension.
pub proof fn lemma_files_distinct(
    cache: DiskCache,
    k1: TileKey,
    ext1: Seq<char>,
    k2: TileKey,
    ext2: Seq<char>,
)
    requires
        under(cache.root(), path_text(k1.z, k1.x, k1.y, ext1)) == under(
            cache.root(),
            path_text(k2.z, k2.x, k2.y, ext2),
        ),
    ensures
        k1 == k2,
        ext1 == ext2,
{
    lemma_under_injective(
        cache.root(),
        path_text(k1.z, k1.x, k1.y, ext1),
        path_text(k2.z, k2.x, k2.y, ext2),
    );
    lemma_path_text_injective(k1.z, k1.x, k1.y, ext1, k2.z, k2.x, k2.y, ext2);
}

/// The three files of `key` are three different files, and none of them is
/// a file of another key.
proof fn lemma_own_files(cache: DiskCache, key: TileKey)
    ensures
        cache.temp_at(key) != cache.payload_at(key),
        cache.temp_at(key) != cache.etag_at(key),
        cache.payload_at(key) != cache.etag_at(key),
        forall|other: TileKey|
            other != key ==> #[trigger] cache.payload_at(other) != cache.payload_at(key)
                && cache.payload_at(other) != cache.temp_at(key) && cache.payload_at(other)
                != cache.etag_at(key),
        forall|other: TileKey|
            other != key ==> #[trigger] cache.etag_at(other) != cache.etag_at(key)
                && cache.etag_at(other) != cache.temp_at(key) && cache.etag_at(other)
                != cache.payload_at(key),
{
    let png = seq!['p', 'n', 'g'];
    let tmp = seq!['t', 'm', 'p'];
    let etag = seq!['e', 't', 'a', 'g'];
    if cache.temp_at(key) == cache.payload_at(key) {
        lemma_files_distinct(cache, key, tmp, key, png);
    }
    if cache.temp_at(key) == cache.etag_at(key) {
        lemma_files_distinct(cache, key, tmp, key, etag);
    }
    if cache.payload_at(key) == cache.etag_at(key) {
        lemma_files_distinct(cache, key, png, key, etag);
    }
    assert forall|other: TileKey| other != key implies #[trigger] cache.payload_at(other)
        != cache.payload_at(key) && cache.payload_at(other) != cache.temp_at(key)
        && cache.payload_at(other) != cache.etag_at(key) by {
        if cache.payload_at(other) == cache.payload_at(key) {
            lemma_files_distinct(cache, other, png, key, png);
        }
        if cache.payload_at(other) == cache.temp_at(key) {
            lemma_files_distinct(cache, other, png, key, tmp);
        }
        if cache.payload_at(other) == cache.etag_at(key) {
            lemma_files_distinct(cache, other, png, key, etag);
        }
    }
    assert forall|other: TileKey| other != key implies #[trigger] cache.etag_at(other)
        != cache.etag_at(key) && cache.etag_at(other) != cache.temp_at(key) && cache.etag_at(
        other,
    ) != cache.payload_at(key) by {
        if cache.etag_at(other) == cache.etag_at(key) {
            lemma_files_distinct(cache, other, etag, key, etag);
        }
        if cache.etag_at(other) == cache.temp_at(key) {
            lemma_files_distinct(cache, other, etag, key, tmp);
        }
        if cache.etag_at(other) == cache.payload_at(key) {
            lemma_files_distinct(cache, other, etag, key, png);
        }
    }
}

/// A reader never sees a torn payload. Wherever a store stops, the payload
/// file of its key holds what it held before or the new payload in full:
/// the new one exactly from the rename on. The payload of every other key
/// stays as it was.
pub proof fn lemma_payload_whole(
    files: Files,
    cache: DiskCache,
    key: TileKey,
    data: Seq<u8>,
    etag: Option<Seq<char>>,
    progress: Progress,
)
    ensures
        progress.done < 3 ==> payload_of(
            after_store(files, cache, key, data, etag, progress),
            cache,
            key,
        ) == payload_of(files, cache, key),
        progress.done >= 3 ==> payload_of(
            after_store(files, cache, key, data, etag, progress),
            cache,
            key,
        ) == Some(data),
        forall|other: TileKey|
            other != key ==> #[trigger] payload_of(
                after_store(files, cache, key, data, etag, progress),
                cache,
                other,
            ) == payload_of(files, cache, other),
{
    reveal_with_fuel(perform_first, 5);
    lemma_own_files(cache, key);
}

/// A sidecar never stands without its payload. If that holds of a disk, it
/// holds again wherever a store stops.
pub proof fn lemma_sidecar_keeps_payload(
    files: Files,
    cache: DiskCache,
    key: TileKey,
    data: Seq<u8>,
    etag: Option<Seq<char>>,
    progress: Progress,
)
    requires
        sidecars_have_payloads(files, cache),
    ensures
        sidecars_have_payloads(after_store(files, cache, key, data, etag, progress), cache),
{
    reveal_with_fuel(perform_first, 5);
    lemma_own_files(cache, key);
    let after = after_store(files, cache, key, data, etag, progress);
    assert forall|k: TileKey| #[trigger]
        after.contains_key(cache.etag_at(k)) implies after.contains_key(cache.payload_at(k)) by {
        if k != key {
            assert(files.contains_key(cache.etag_at(k)));
        }
    }
}

/// What was stored is what is read. After a store that ran to its end, the
/// disk gives for the key the payload and the validator that were stored,
/// and for every other key what it gave before. A store without a
/// validator leaves an older sidecar where it is, so this is stated of a
/// store with a validator, or onto a disk that has no validator for the key.
pub proof fn lemma_store_then_get(
    files: Files,
    cache: DiskCache,
    key: TileKey,
    data: Seq<u8>,
    etag: Option<Seq<char>>,
)
    requires
        etag is Some || validator_of(files, cache, key) is None,
    ensures
        tile_of(stored(files, cache, key, data, etag), cache, key) == Some(
            TileDataView { data, etag },
        ),
        forall|other: TileKey|
            other != key ==> #[trigger] tile_of(
                stored(files, cache, key, data, etag),
                cache,
                other,
            ) == tile_of(files, cache, other),
{
    reveal_with_fuel(perform_first, 5);
    lemma_own_files(cache, key);
    if let Some(text) = etag {
        encode_utf8_valid_utf8(text);
        encode_utf8_decode_utf8(text);
    }
}

/// One store in the life of a disk tier, with how far it came.
pub struct StoreCall {
    pub key: TileKey,
    pub data: Seq<u8>,
    pub etag: Option<Seq<char>>,
    pub progress: Progress,
}

/// The files after the stores of `calls` took place one after the other.
pub open spec fn after_stores(files: Files, cache: DiskCache, calls: Seq<StoreCall>) -> Files
    decreases calls.len(),
{
    if calls.len() == 0 {
        files
    } else {
        let call = calls.last();
        after_store(
            after_stores(files, cache, calls.drop_last()),
            cache,
            call.key,
            call.data,
            call.etag,
            call.progress,
        )
    }
}

/// Whatever stores took place, completed or given up, a payload that the
/// disk holds for a key is the payload that it held at the start or the
/// whole payload of one of the stores for that key that came as far as the
/// rename.
pub proof fn lemma_payload_from_one_store(
    files: Files,
    cache: DiskCache,
    calls: Seq<StoreCall>,
    key: TileKey,
)
    ensures
        payload_of(after_stores(files, cache, calls), cache, key) == payload_of(files, cache, key)
            || exists|i: int|
            0 <= i < calls.len() && (#[trigger] calls[i]).key == key && calls[i].progress.done >= 3
                && payload_of(after_stores(files, cache, calls), cache, key) == Some(
                calls[i].data,
            ),
    decreases calls.len(),
{
    if calls.len() > 0 {
        let call = calls.last();
        let earlier = calls.drop_last();
        let before = after_stores(files, cache, earlier);
        lemma_payload_from_one_store(files, cache, earlier, key);
        lemma_payload_whole(before, cache, call.key, call.data, call.etag, call.progress);
        let now = payload_of(after_stores(files, cache, calls), cache, key);
        if call.key == key && call.progress.done >= 3 {
            assert(calls[calls.len() - 1] == call);
        } else if now != payload_of(files, cache, key) {
            let i = choose|i: int|
                0 <= i < earlier.len() && (#[trigger] earlier[i]).key == key
                    && earlier[i].progress.done >= 3 && payload_of(before, cache, key) == Some(
                    earlier[i].data,
                );
            assert(calls[i] == earlier[i]);
        }
    }
}

/// Whatever stores took place, completed or given up, on a disk on which
/// every sidecar had its payload, every sidecar has its payload.
pub proof fn lemma_sidecars_always_have_payloads(
    files: Files,
    cache: DiskCache,
    calls: Seq<StoreCall>,
)
    requires
        sidecars_have_payloads(files, cache),
    ensures
        sidecars_have_payloads(after_stores(files, cache, calls), cache),
    decreases calls.len(),
{
    if calls.len() > 0 {
        let call = calls.last();
        lemma_sidecars_always_have_payloads(files, cache, calls.drop_last());
        lemma_sidecar_keeps_payload(
            after_stores(files, cache, calls.drop_last()),
            cache,
            call.key,
            call.data,
            call.etag,
            call.progress,
        );
    }
}

} // verus!
