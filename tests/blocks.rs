use hexpong::arena::{hit_blocks, Obstacle};
use hexpong::block::{Block, BlockType, GridIndex};
use hexpong::grid::HexagonalGrid;

fn block(q: i32, r: i32, t: BlockType) -> Block {
    Block::new(GridIndex { q, r }, t)
}

#[test]
fn basic3_block_falls_through_tiers_and_breaks_on_third_hit() {
    let mut b = block(0, 1, BlockType::Basic3);
    assert!(!b.hit());
    assert_eq!(b.block_type, BlockType::Basic2);
    assert!(!b.hit());
    assert_eq!(b.block_type, BlockType::Basic);
    assert!(b.hit());
}

#[test]
fn basic_block_breaks_on_first_hit() {
    let mut b = block(3, 0, BlockType::Basic);
    assert!(b.hit());
}

#[test]
fn immortal_block_never_breaks() {
    let mut b = block(0, 0, BlockType::Immortal);
    for _ in 0..10 {
        assert!(!b.hit());
        assert_eq!(b.block_type, BlockType::Immortal);
    }
    assert_eq!(b.index, GridIndex { q: 0, r: 0 });
}

#[test]
fn block_type_names_in_any_case() {
    assert_eq!(BlockType::from_str("basic"), Some(BlockType::Basic));
    assert_eq!(BlockType::from_str("Basic2"), Some(BlockType::Basic2));
    assert_eq!(BlockType::from_str("BASIC3"), Some(BlockType::Basic3));
    assert_eq!(BlockType::from_str("Immortal"), Some(BlockType::Immortal));
    assert_eq!(BlockType::from_str("basic4"), None);
    assert_eq!(BlockType::from_str(""), None);
    assert_eq!(BlockType::from_lowercase("Basic"), None);
}

#[test]
fn hits_of_one_tick_remove_destroyed_blocks_in_order() {
    let mut blocks = vec![
        block(0, 0, BlockType::Immortal),
        block(1, 0, BlockType::Basic),
        block(2, 0, BlockType::Basic2),
        block(3, 0, BlockType::Basic3),
        block(4, 0, BlockType::Basic2),
    ];
    let contacts = vec![
        Some(Obstacle::Block(1)),
        None,
        Some(Obstacle::Block(2)),
        Some(Obstacle::Block(3)),
        Some(Obstacle::Block(0)),
        Some(Obstacle::Wall(4)),
        Some(Obstacle::Block(4)),
        Some(Obstacle::Block(4)),
    ];
    hit_blocks(&mut blocks, &contacts);
    assert_eq!(
        blocks,
        vec![
            block(0, 0, BlockType::Immortal),
            block(2, 0, BlockType::Basic),
            block(3, 0, BlockType::Basic2),
        ]
    );
}

#[test]
fn no_contacts_leave_blocks_unchanged() {
    let mut blocks = vec![block(0, 0, BlockType::Basic), block(1, -1, BlockType::Basic3)];
    hit_blocks(&mut blocks, &vec![None, Some(Obstacle::Bar(0))]);
    assert_eq!(blocks, vec![block(0, 0, BlockType::Basic), block(1, -1, BlockType::Basic3)]);
}

#[test]
fn grid_of_five_has_nineteen_tiles_tiered_by_ring() {
    let grid = HexagonalGrid::new(5);
    assert_eq!(grid.tiles.len(), 19);
    assert_eq!(grid.tiles[0], block(-2, 0, BlockType::Basic2));
    assert_eq!(grid.tiles[2], block(-2, 2, BlockType::Basic2));
    assert_eq!(grid.tiles[3], block(-1, -1, BlockType::Basic3));
    let centre = grid.tiles.iter().find(|b| b.index == GridIndex { q: 0, r: 0 }).unwrap();
    assert_eq!(centre.block_type, BlockType::Immortal);
    for pair in grid.tiles.windows(2) {
        let (a, b) = (pair[0].index, pair[1].index);
        assert!(a.q < b.q || (a.q == b.q && a.r < b.r));
    }
}

#[test]
fn grid_outer_rings_are_single_hit() {
    let grid = HexagonalGrid::new(7);
    assert_eq!(grid.tiles.len(), 37);
    let outer = grid.tiles.iter().find(|b| b.index == GridIndex { q: 3, r: -3 }).unwrap();
    assert_eq!(outer.block_type, BlockType::Basic);
    let mid = grid.tiles.iter().find(|b| b.index == GridIndex { q: 1, r: 1 }).unwrap();
    assert_eq!(mid.block_type, BlockType::Basic3);
}

#[test]
fn grid_of_size_zero_or_one() {
    assert_eq!(HexagonalGrid::new(0).tiles.len(), 0);
    let one = HexagonalGrid::new(1);
    assert_eq!(one.tiles, vec![block(0, 0, BlockType::Immortal)]);
    assert_eq!(HexagonalGrid::new(2).tiles, vec![block(0, 0, BlockType::Immortal)]);
}
