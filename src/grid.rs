use vstd::prelude::*;
use crate::block::{Block, BlockType, GridIndex};

verus! {

pub open spec fn abs(x: int) -> int {
    if x < 0 { -x } else { x }
}

/// Whether the axial coordinate `(q, r)` lies on a hexagonal grid whose rings
/// run from the centre out to `radius - 1`.
pub open spec fn in_hexagon(q: int, r: int, radius: int) -> bool {
    &&& abs(q) < radius
    &&& abs(r) < radius
    &&& abs(q + r) < radius
}

/// The tier of the tile at `(q, r)`: immortal at the centre, then three, two
/// and one hits as the larger of `|q|` and `|r|` grows.
pub open spec fn tier(q: int, r: int) -> BlockType {
    let d = if abs(q) > abs(r) { abs(q) } else { abs(r) };
    if d > 2 {
        BlockType::Basic
    } else if d == 2 {
        BlockType::Basic2
    } else if d == 1 {
        BlockType::Basic3
    } else {
        BlockType::Immortal
    }
}

/// Axial coordinates in the order of `q` first, then `r`.
pub open spec fn lex_less(a: GridIndex, b: GridIndex) -> bool {
    a.q < b.q || (a.q == b.q && a.r < b.r)
}

pub open spec fn covers(tiles: Seq<Block>, q: int, r: int) -> bool {
    exists|i: int| 0 <= i < tiles.len() && #[trigger] tiles[i].index.q == q && tiles[i].index.r == r
}

/// The number of rings of tiles of a grid `grid_size` tiles across.
pub open spec fn grid_radius(grid_size: u16) -> int {
    (grid_size + 1) / 2
}

/// A hexagonal field of blocks, tiered by their distance from the centre.
pub struct HexagonalGrid {
    pub tiles: Vec<Block>,
}

fn tier_of(q: i32, r: i32) -> (t: BlockType)
    ensures
        t == tier(q as int, r as int),
{
    let aq: i64 = if q < 0 { -(q as i64) } else { q as i64 };
    let ar: i64 = if r < 0 { -(r as i64) } else { r as i64 };
    let d = if aq > ar { aq } else { ar };
    if d > 2 {
        BlockType::Basic
    } else if d == 2 {
        BlockType::Basic2
    } else if d == 1 {
        BlockType::Basic3
    } else {
        BlockType::Immortal
    }
}

impl HexagonalGrid {
    /// Fills a hexagon `grid_size` tiles across: every coordinate on it once,
    /// in the order of `q` then `r`, each at its tier.
    pub fn new(grid_size: u16) -> (g: HexagonalGrid)
        ensures
            forall|i: int|
                0 <= i < g.tiles@.len() ==> {
                    let b = #[trigger] g.tiles@[i];
                    &&& in_hexagon(b.index.q as int, b.index.r as int, grid_radius(grid_size))
                    &&& b.block_type == tier(b.index.q as int, b.index.r as int)
                },
            forall|i: int, j: int|
                0 <= i < j < g.tiles@.len() ==> lex_less(#[trigger] g.tiles@[i].index, #[trigger] g.tiles@[j].index),
            forall|q: int, r: int|
                in_hexagon(q, r, grid_radius(grid_size)) ==> #[trigger] covers(g.tiles@, q, r),
    {
        let radius: i32 = ((grid_size as i32) + 1) / 2;
        let ghost rad = grid_radius(grid_size);
        let mut tiles: Vec<Block> = Vec::new();
        if radius == 0 {
            return HexagonalGrid { tiles };
        }
        let mut q: i32 = 1 - radius;
        while q < radius
            invariant
                radius as int == rad,
                1 <= rad <= 32768,
                1 - radius <= q <= radius,
                forall|i: int|
                    0 <= i < tiles@.len() ==> {
                        let b = #[trigger] tiles@[i];
                        &&& in_hexagon(b.index.q as int, b.index.r as int, rad)
                        &&& b.block_type == tier(b.index.q as int, b.index.r as int)
                        &&& b.index.q < q
                    },
                forall|i: int, j: int|
                    0 <= i < j < tiles@.len() ==> lex_less(#[trigger] tiles@[i].index, #[trigger] tiles@[j].index),
                forall|a: int, c: int|
                    in_hexagon(a, c, rad) && a < q ==> #[trigger] covers(tiles@, a, c),
            decreases radius - q,
        {
            let lo: i32 = if q > 0 { 1 - radius } else { 1 - radius - q };
            let hi: i32 = if q > 0 { radius - 1 - q } else { radius - 1 };
            let mut r: i32 = lo;
            while r <= hi
                invariant
                    radius as int == rad,
                    1 <= rad <= 32768,
                    1 - radius <= q < radius,
                    lo == (if q > 0 { 1 - rad } else { 1 - rad - q }),
                    hi == (if q > 0 { rad - 1 - q } else { rad - 1 }),
                    lo <= r <= hi + 1,
                    forall|i: int|
                        0 <= i < tiles@.len() ==> {
                            let b = #[trigger] tiles@[i];
                            &&& in_hexagon(b.index.q as int, b.index.r as int, rad)
                            &&& b.block_type == tier(b.index.q as int, b.index.r as int)
                            &&& lex_less(b.index, GridIndex { q, r })
                        },
                    forall|i: int, j: int|
                        0 <= i < j < tiles@.len() ==> lex_less(#[trigger] tiles@[i].index, #[trigger] tiles@[j].index),
                    forall|a: int, c: int|
                        in_hexagon(a, c, rad) && (a < q || (a == q && c < r)) ==> #[trigger] covers(tiles@, a, c),
                decreases hi + 1 - r,
            {
                let ghost before = tiles@;
                let t = tier_of(q, r);
                tiles.push(Block { index: GridIndex { q, r }, block_type: t });
                proof {
                    let n = before.len() as int;
                    assert(tiles@[n].index.q == q && tiles@[n].index.r == r);
                    assert forall|a: int, c: int|
                        in_hexagon(a, c, rad) && (a < q || (a == q && c < r + 1)) implies #[trigger] covers(tiles@, a, c) by {
                        if a == q && c == r {
                            assert(tiles@[n].index.q == a && tiles@[n].index.r == c);
                        } else {
                            assert(covers(before, a, c));
                            let w = choose|i: int| 0 <= i < before.len() && #[trigger] before[i].index.q == a && before[i].index.r == c;
                            assert(tiles@[w] == before[w]);
                        }
                    }
                }
                r = r + 1;
            }
            proof {
                assert forall|a: int, c: int| in_hexagon(a, c, rad) && a < q + 1 implies #[trigger] covers(tiles@, a, c) by {
                    if a == q {
                        assert(c < r);
                    }
                }
            }
            q = q + 1;
        }
        HexagonalGrid { tiles }
    }
}

} // verus!
