//! Tile identity and tile payload.

use vstd::prelude::*;
use vstd::arithmetic::power2::{pow2, lemma_pow2_strictly_increases, lemma2_to64};
use vstd::bits::{lemma_u32_shl_is_mul, lemma_u32_pow2_no_overflow};
use vstd::string::StringExecFns;
use crate::text::{
    decimal, lemma_decimal_injective, lemma_decimal_value, lemma_split_at_stop, push_decimal,
    text_of,
};
use crate::error::AppError;

verus! {

/// The name of one tile: zoom level, column and row.
#[derive(Debug, Clone, Copy, PartialEq, Eq, Hash, Structural)]
pub struct TileKey {
    pub z: u8,
    pub x: u32,
    pub y: u32,
}

/// Whether column `x` and row `y` lie on the tile plane of zoom `z`, which is `2^z` tiles wide and high.
pub open spec fn in_range(z: u8, x: u32, y: u32) -> bool {
    x < pow2(z as nat) && y < pow2(z as nat)
}

/// The text `z/x/y` followed by a dot and `ext`.
pub open spec fn path_text(z: u8, x: u32, y: u32, ext: Seq<char>) -> Seq<char> {
    decimal(z as nat) + seq!['/'] + decimal(x as nat) + seq!['/'] + decimal(y as nat) + seq!['.']
        + ext
}

/// Whether `v` lies below `2^z`.
fn below_pow2(v: u32, z: u8) -> (b: bool)
    ensures
        b == (v < pow2(z as nat)),
{
    if z >= 32 {
        proof {
            lemma2_to64();
            if z > 32 {
                lemma_pow2_strictly_increases(32, z as nat);
            }
        }
        true
    } else {
        proof {
            lemma_u32_pow2_no_overflow(z as nat);
            lemma_u32_shl_is_mul(1u32, z as u32);
        }
        v < (1u32 << (z as u32))
    }
}

impl TileKey {
    /// Whether the key names a tile that exists at its zoom level.
    pub open spec fn wf(&self) -> bool {
        in_range(self.z, self.x, self.y)
    }

    /// The key as a triple of integers.
    pub open spec fn triple(&self) -> (u8, u32, u32) {
        (self.z, self.x, self.y)
    }

    /// Where the payload lies, relative to the cache root: `z/x/y.png`.
    pub open spec fn path(&self) -> Seq<char> {
        path_text(self.z, self.x, self.y, seq!['p', 'n', 'g'])
    }

    /// The key of the tile at `(z, x, y)` where the coordinates lie on the
    /// plane, and the refusal where they do not.
    pub open spec fn made(z: u8, x: u32, y: u32) -> Result<TileKey, AppError> {
        if in_range(z, x, y) {
            Ok(TileKey { z, x, y })
        } else {
            Err(AppError::InvalidCoordinates)
        }
    }

    /// Makes the key of the tile at `(z, x, y)`, or refuses coordinates off the plane.
    pub fn new(z: u8, x: u32, y: u32) -> (r: Result<TileKey, AppError>)
        ensures
            r == TileKey::made(z, x, y),
            r matches Ok(key) ==> key.wf(),
    {
        if below_pow2(x, z) && below_pow2(y, z) {
            Ok(TileKey { z, x, y })
        } else {
            Err(AppError::InvalidCoordinates)
        }
    }

    /// The key as a triple of integers.
    pub fn coords(&self) -> (t: (u8, u32, u32))
        ensures
            t == self.triple(),
    {
        (self.z, self.x, self.y)
    }

    /// The text `z/x/y`, a dot and `ext`.
    fn path_with(&self, ext: &str) -> (path: String)
        ensures
            path@ == path_text(self.z, self.x, self.y, ext@),
    {
        proof {
            reveal_strlit("/");
            reveal_strlit(".");
        }
        let mut path = String::new();
        push_decimal(&mut path, self.z as u64);
        path.append("/");
        push_decimal(&mut path, self.x as u64);
        path.append("/");
        push_decimal(&mut path, self.y as u64);
        path.append(".");
        path.append(ext);
        assert(path@ =~= path_text(self.z, self.x, self.y, ext@));
        path
    }

    /// Where the payload lies, relative to the cache root: `z/x/y.png`.
    pub fn to_path(&self) -> (path: String)
        ensures
            path@ == self.path(),
    {
        proof {
            reveal_strlit("png");
        }
        self.path_with("png")
    }

    /// Where the payload is written first, relative to the cache root: `z/x/y.tmp`.
    pub fn to_temp_path(&self) -> (path: String)
        ensures
            path@ == path_text(self.z, self.x, self.y, seq!['t', 'm', 'p']),
    {
        proof {
            reveal_strlit("tmp");
        }
        self.path_with("tmp")
    }

    /// Where the validator sidecar lies, relative to the cache root: `z/x/y.etag`.
    pub fn to_etag_path(&self) -> (path: String)
        ensures
            path@ == path_text(self.z, self.x, self.y, seq!['e', 't', 'a', 'g']),
    {
        proof {
            reveal_strlit("etag");
        }
        self.path_with("etag")
    }
}

/// The path of a key that was made from coordinates on the plane is the
/// three numbers in decimal, with a slash between them and `.png` behind.
pub proof fn lemma_path_of_made_key(z: u8, x: u32, y: u32)
    requires
        in_range(z, x, y),
    ensures
        TileKey::made(z, x, y) matches Ok(key) && key.path() == decimal(z as nat) + seq!['/']
            + decimal(x as nat) + seq!['/'] + decimal(y as nat) + seq!['.', 'p', 'n', 'g'],
{
    let key = TileKey { z, x, y };
    assert(key.path() =~= decimal(z as nat) + seq!['/'] + decimal(x as nat) + seq!['/'] + decimal(
        y as nat,
    ) + seq!['.', 'p', 'n', 'g']);
}

/// No two tiles share a file: paths that are equal have the same
/// coordinates and the same extension.
pub proof fn lemma_path_text_injective(
    z1: u8,
    x1: u32,
    y1: u32,
    ext1: Seq<char>,
    z2: u8,
    x2: u32,
    y2: u32,
    ext2: Seq<char>,
)
    requires
        path_text(z1, x1, y1, ext1) == path_text(z2, x2, y2, ext2),
    ensures
        z1 == z2,
        x1 == x2,
        y1 == y2,
        ext1 == ext2,
{
    lemma_decimal_value(z1 as nat);
    lemma_decimal_value(x1 as nat);
    lemma_decimal_value(y1 as nat);
    lemma_decimal_value(z2 as nat);
    lemma_decimal_value(x2 as nat);
    lemma_decimal_value(y2 as nat);
    let tail1 = decimal(x1 as nat) + seq!['/'] + decimal(y1 as nat) + seq!['.'] + ext1;
    let tail2 = decimal(x2 as nat) + seq!['/'] + decimal(y2 as nat) + seq!['.'] + ext2;
    assert(path_text(z1, x1, y1, ext1) =~= decimal(z1 as nat) + seq!['/'] + tail1);
    assert(path_text(z2, x2, y2, ext2) =~= decimal(z2 as nat) + seq!['/'] + tail2);
    lemma_split_at_stop(decimal(z1 as nat), tail1, decimal(z2 as nat), tail2, '/');
    let rest1 = decimal(y1 as nat) + seq!['.'] + ext1;
    let rest2 = decimal(y2 as nat) + seq!['.'] + ext2;
    assert(tail1 =~= decimal(x1 as nat) + seq!['/'] + rest1);
    assert(tail2 =~= decimal(x2 as nat) + seq!['/'] + rest2);
    lemma_split_at_stop(decimal(x1 as nat), rest1, decimal(x2 as nat), rest2, '/');
    lemma_split_at_stop(decimal(y1 as nat), ext1, decimal(y2 as nat), ext2, '.');
    lemma_decimal_injective(z1 as nat, z2 as nat);
    lemma_decimal_injective(x1 as nat, x2 as nat);
    lemma_decimal_injective(y1 as nat, y2 as nat);
}

/// A tile payload with the validator that upstream gave for it, if any.
#[derive(Debug, Clone, PartialEq, Eq)]
pub struct TileData {
    pub data: Vec<u8>,
    pub etag: Option<String>,
}

/// What a `TileData` holds: the payload bytes and the validator's text.
pub struct TileDataView {
    pub data: Seq<u8>,
    pub etag: Option<Seq<char>>,
}

impl View for TileData {
    type V = TileDataView;

    open spec fn view(&self) -> TileDataView {
        TileDataView { data: self.data@, etag: text_of(self.etag) }
    }
}

impl TileData {
    /// A tile with `data` as its payload and `etag` as its validator.
    pub fn new(data: Vec<u8>, etag: Option<String>) -> (tile: Self)
        ensures
            tile.data == data,
            tile.etag == etag,
    {
        TileData { data, etag }
    }
}

} // verus!
