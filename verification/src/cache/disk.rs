//! The disk tier: where a tile's files lie and in what order they are written.
//!
//! A tile has a payload file and, where upstream gave a validator, a sidecar
//! beside it. The payload is written to a temporary file and renamed into
//! place, so a reader sees the old payload or the new one, never a part of
//! either; the sidecar is written after the payload.

use vstd::prelude::*;
use vstd::string::{StrSliceExecFns, StringExecFns};
use crate::config::Config;
use crate::text::{decimal, push_decimal};
use crate::types::{path_text, TileKey};

verus! {

/// `rel` below the directory `root`.
pub open spec fn under(root: Seq<char>, rel: Seq<char>) -> Seq<char> {
    if root.len() == 0 || root.last() == '/' {
        root + rel
    } else {
        root + seq!['/'] + rel
    }
}

/// The directory of the tiles of zoom `z` and column `x`, relative to the root: `z/x`.
pub open spec fn dir_text(z: u8, x: u32) -> Seq<char> {
    decimal(z as nat) + seq!['/'] + decimal(x as nat)
}

/// One step of writing a tile to disk.
#[derive(Debug, PartialEq, Eq)]
pub enum StoreStep {
    /// Create the directory, and its parents, unless it exists.
    CreateDirAll(String),
    /// Create the file, write the payload into it and flush it to the disk.
    WritePayload(String),
    /// Rename `from` to `to`, in place of what `to` held.
    Rename { from: String, to: String },
    /// Write the validator into the file.
    WriteEtag(String),
}

/// A step of writing a tile to disk, with its paths as text.
pub enum FileOp {
    CreateDirAll(Seq<char>),
    WritePayload(Seq<char>),
    Rename { from: Seq<char>, to: Seq<char> },
    WriteEtag(Seq<char>),
}

impl View for StoreStep {
    type V = FileOp;

    open spec fn view(&self) -> FileOp {
        match self {
            StoreStep::CreateDirAll(dir) => FileOp::CreateDirAll(dir@),
            StoreStep::WritePayload(path) => FileOp::WritePayload(path@),
            StoreStep::Rename { from, to } => FileOp::Rename { from: from@, to: to@ },
            StoreStep::WriteEtag(path) => FileOp::WriteEtag(path@),
        }
    }
}

/// The disk tier: it has no state but the directory that it lies in.
pub struct DiskCache {
    base_dir: String,
    /// Whether a separator has to stand between `base_dir` and what lies below it.
    separate: bool,
}

impl DiskCache {
    #[verifier::type_invariant]
    spec fn separator_known(self) -> bool {
        self.separate == !(self.base_dir@.len() == 0 || self.base_dir@.last() == '/')
    }

    /// The directory that the tier lies in.
    pub closed spec fn root(&self) -> Seq<char> {
        self.base_dir@
    }

    /// Where the payload of `key` lies.
    pub open spec fn payload_at(&self, key: TileKey) -> Seq<char> {
        under(self.root(), path_text(key.z, key.x, key.y, seq!['p', 'n', 'g']))
    }

    /// Where the validator of `key` lies.
    pub open spec fn etag_at(&self, key: TileKey) -> Seq<char> {
        under(self.root(), path_text(key.z, key.x, key.y, seq!['e', 't', 'a', 'g']))
    }

    /// Where the payload of `key` is written before it is renamed into place.
    pub open spec fn temp_at(&self, key: TileKey) -> Seq<char> {
        under(self.root(), path_text(key.z, key.x, key.y, seq!['t', 'm', 'p']))
    }

    /// The directory that holds the files of `key`.
    pub open spec fn dir_at(&self, key: TileKey) -> Seq<char> {
        under(self.root(), dir_text(key.z, key.x))
    }

    /// The steps that write a tile of `key` to disk, in order; the validator
    /// is written only where there is one.
    pub open spec fn store_plan(&self, key: TileKey, with_etag: bool) -> Seq<FileOp> {
        let payload = seq![
            FileOp::CreateDirAll(self.dir_at(key)),
            FileOp::WritePayload(self.temp_at(key)),
            FileOp::Rename { from: self.temp_at(key), to: self.payload_at(key) },
        ];
        if with_etag {
            payload.push(FileOp::WriteEtag(self.etag_at(key)))
        } else {
            payload
        }
    }

    /// The disk tier in the cache directory that `config` names.
    pub fn new(config: &Config) -> (tier: Self)
        ensures
            tier.root() == config.cache_dir@,
    {
        let base_dir = config.cache_dir.clone();
        let n = base_dir.as_str().unicode_len();
        let separate = n > 0 && base_dir.as_str().get_char(n - 1) != '/';
        DiskCache { base_dir, separate }
    }

    /// The directory that the tier lies in.
    pub fn base_dir(&self) -> (dir: &str)
        ensures
            dir@ == self.root(),
    {
        self.base_dir.as_str()
    }

    /// `rel` below the tier's directory.
    fn below(&self, rel: &str) -> (path: String)
        ensures
            path@ == under(self.root(), rel@),
    {
        proof {
            use_type_invariant(self);
            reveal_strlit("/");
        }
        let mut path = self.base_dir.clone();
        if self.separate {
            path.append("/");
        }
        path.append(rel);
        path
    }

    /// The file that holds the payload of `key`: `<base_dir>/z/x/y.png`.
    pub fn tile_path(&self, key: &TileKey) -> (path: String)
        ensures
            path@ == self.payload_at(*key),
    {
        self.below(key.to_path().as_str())
    }

    /// The file that holds the validator of `key`: `<base_dir>/z/x/y.etag`.
    pub fn etag_path(&self, key: &TileKey) -> (path: String)
        ensures
            path@ == self.etag_at(*key),
    {
        self.below(key.to_etag_path().as_str())
    }

    /// The file that a payload of `key` is written to first: `<base_dir>/z/x/y.tmp`.
    pub fn temp_path(&self, key: &TileKey) -> (path: String)
        ensures
            path@ == self.temp_at(*key),
    {
        self.below(key.to_temp_path().as_str())
    }

    /// The directory that holds the files of `key`: `<base_dir>/z/x`.
    pub fn tile_dir(&self, key: &TileKey) -> (path: String)
        ensures
            path@ == self.dir_at(*key),
    {
        proof {
            reveal_strlit("/");
        }
        let mut rel = String::new();
        push_decimal(&mut rel, key.z as u64);
        rel.append("/");
        push_decimal(&mut rel, key.x as u64);
        self.below(rel.as_str())
    }

    /// The steps that write a tile of `key` to disk, to be performed in
    /// order and given up at the first that fails: make the directory, write
    /// the payload to the temporary file, rename it into place, and only
    /// then write the validator, if the tile has one.
    pub fn store_steps(&self, key: &TileKey, with_etag: bool) -> (steps: Vec<StoreStep>)
        ensures
            steps@.len() == self.store_plan(*key, with_etag).len(),
            forall|i: int|
                0 <= i < steps@.len() ==> (#[trigger] steps@[i])@ == self.store_plan(
                    *key,
                    with_etag,
                )[i],
    {
        let mut steps: Vec<StoreStep> = Vec::new();
        steps.push(StoreStep::CreateDirAll(self.tile_dir(key)));
        steps.push(StoreStep::WritePayload(self.temp_path(key)));
        steps.push(StoreStep::Rename { from: self.temp_path(key), to: self.tile_path(key) });
        if with_etag {
            steps.push(StoreStep::WriteEtag(self.etag_path(key)));
        }
        steps
    }
}

} // verus!
