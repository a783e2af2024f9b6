//! WebMercator (slippy-map) quadtree indexing: `z` is the zoom (0 = one world tile), `x`
//! grows east and `y` grows south.

use vstd::prelude::*;

verus! {

/// Identifies one tile of the WebMercator quadtree (slippy `z/x/y`).
#[derive(Clone, Copy, Debug, PartialEq, Eq, Hash, PartialOrd, Ord)]
pub struct TileId {
    pub z: u8,
    pub x: u32,
    pub y: u32,
}

/// `2^z` as a mathematical integer.
pub open spec fn pow2(z: nat) -> nat
    decreases z,
{
    if z == 0 {
        1
    } else {
        2 * pow2((z - 1) as nat)
    }
}

/// The tile one zoom coarser that contains `tile`, or `None` at zoom 0.
pub open spec fn spec_parent(tile: TileId) -> Option<TileId> {
    if tile.z > 0 {
        Some(TileId { z: (tile.z - 1) as u8, x: tile.x / 2, y: tile.y / 2 })
    } else {
        None
    }
}

/// The `index`-th child (0: north-west, 1: north-east, 2: south-west, 3: south-east).
pub open spec fn spec_child(tile: TileId, index: int) -> TileId {
    TileId {
        z: (tile.z + 1) as u8,
        x: (2 * tile.x + index % 2) as u32,
        y: (2 * tile.y + index / 2) as u32,
    }
}

/// A tile has children that can be indexed without overflow.
pub open spec fn can_refine(tile: TileId) -> bool {
    &&& tile.z < u8::MAX
    &&& 2 * tile.x + 1 <= u32::MAX
    &&& 2 * tile.y + 1 <= u32::MAX
}

/// `2^z` is at least 1.
pub proof fn lemma_pow2_positive(z: nat)
    ensures
        pow2(z) >= 1,
    decreases z,
{
    if z > 0 {
        lemma_pow2_positive((z - 1) as nat);
    }
}

/// `2^z` grows with `z`.
pub proof fn lemma_pow2_monotonic(a: nat, b: nat)
    requires
        a <= b,
    ensures
        pow2(a) <= pow2(b),
    decreases b,
{
    if a < b {
        lemma_pow2_monotonic(a, (b - 1) as nat);
        lemma_pow2_positive((b - 1) as nat);
    }
}

/// `2^z` fits in a `u32` below zoom 32.
pub proof fn lemma_pow2_bounded(z: nat)
    requires
        z <= 31,
    ensures
        pow2(z) <= 0x8000_0000,
{
    lemma_pow2_monotonic(z, 31);
    reveal_with_fuel(pow2, 32);
    assert(pow2(31) == 0x8000_0000);
}

impl TileId {
    /// Number of tiles along one axis at this zoom (`2^z`).
    pub fn tiles_per_axis(z: u8) -> (count: u32)
        requires
            z < 32,
        ensures
            count == pow2(z as nat),
    {
        let mut count: u32 = 1;
        let mut i: u8 = 0;
        while i < z
            invariant
                i <= z,
                z < 32,
                count == pow2(i as nat),
            decreases z - i,
        {
            proof {
                lemma_pow2_bounded((i + 1) as nat);
            }
            count = count * 2;
            i = i + 1;
        }
        count
    }

    /// The parent tile one zoom coarser, or `None` at z0.
    pub fn parent(self) -> (parent: Option<TileId>)
        ensures
            parent == spec_parent(self),
    {
        if self.z > 0 {
            Some(TileId { z: self.z - 1, x: self.x / 2, y: self.y / 2 })
        } else {
            None
        }
    }

    /// The four children one zoom finer, north-west, north-east, south-west, south-east.
    pub fn children(self) -> (children: [TileId; 4])
        requires
            can_refine(self),
        ensures
            forall|i: int| 0 <= i < 4 ==> #[trigger] children@[i] == spec_child(self, i),
    {
        let z = self.z + 1;
        let x = self.x * 2;
        let y = self.y * 2;
        [
            TileId { z, x, y },
            TileId { z, x: x + 1, y },
            TileId { z, x, y: y + 1 },
            TileId { z, x: x + 1, y: y + 1 },
        ]
    }
}

/// Every child of a tile has that tile as its parent.
pub proof fn lemma_child_parent_roundtrip(tile: TileId, index: int)
    requires
        can_refine(tile),
        0 <= index < 4,
    ensures
        spec_parent(spec_child(tile, index)) == Some(tile),
{
}

/// The children of a tile are four distinct tiles.
pub proof fn lemma_children_distinct(tile: TileId, i: int, j: int)
    requires
        can_refine(tile),
        0 <= i < 4,
        0 <= j < 4,
        i != j,
    ensures
        spec_child(tile, i) != spec_child(tile, j),
{
}

/// A tile is one of the four children of its parent.
pub proof fn lemma_parent_child_roundtrip(tile: TileId)
    requires
        tile.z > 0,
    ensures
        spec_parent(tile) matches Some(p) && can_refine(p) && spec_child(
            p,
            (tile.x % 2) + 2 * (tile.y % 2),
        ) == tile,
{
}

} // verus!
