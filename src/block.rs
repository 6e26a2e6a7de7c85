use vstd::prelude::*;
use crate::text::{lower_of, lowercase, same_text};

verus! {

/// Durability tier of a block.
#[derive(Clone, Copy, Debug, PartialEq, Eq, Hash, Structural)]
pub enum BlockType {
    Basic,
    Basic2,
    Basic3,
    Immortal,
}

/// The tier a block falls to when it is hit and survives; `None` when the hit
/// destroys it.
pub open spec fn after_hit(t: BlockType) -> Option<BlockType> {
    match t {
        BlockType::Basic => None,
        BlockType::Basic2 => Some(BlockType::Basic),
        BlockType::Basic3 => Some(BlockType::Basic2),
        BlockType::Immortal => Some(BlockType::Immortal),
    }
}

pub open spec fn block_type_named(s: Seq<char>) -> Option<BlockType> {
    if s == "basic"@ {
        Some(BlockType::Basic)
    } else if s == "basic2"@ {
        Some(BlockType::Basic2)
    } else if s == "basic3"@ {
        Some(BlockType::Basic3)
    } else if s == "immortal"@ {
        Some(BlockType::Immortal)
    } else {
        None
    }
}

impl BlockType {
    /// Reads a tier name, in any case.
    pub fn from_str(input: &str) -> (r: Option<BlockType>)
        ensures
            r == block_type_named(lower_of(input@)),
    {
        let lower = lowercase(input);
        BlockType::from_lowercase(lower.as_str())
    }

    /// Reads a tier name already in lowercase.
    pub fn from_lowercase(s: &str) -> (r: Option<BlockType>)
        ensures
            r == block_type_named(s@),
    {
        if same_text(s, "basic") {
            Some(BlockType::Basic)
        } else if same_text(s, "basic2") {
            Some(BlockType::Basic2)
        } else if same_text(s, "basic3") {
            Some(BlockType::Basic3)
        } else if same_text(s, "immortal") {
            Some(BlockType::Immortal)
        } else {
            None
        }
    }
}

/// Axial coordinate of a tile of the hexagonal grid.
#[derive(Clone, Copy, Debug, PartialEq, Eq, Hash, Structural)]
pub struct GridIndex {
    pub q: i32,
    pub r: i32,
}

/// A block of the arena: where it stands on the grid and how durable it is.
#[derive(Clone, Copy, Debug, PartialEq, Eq, Structural)]
pub struct Block {
    pub index: GridIndex,
    pub block_type: BlockType,
}

impl Block {
    pub fn new(index: GridIndex, block_type: BlockType) -> (r: Block)
        ensures
            r.index == index,
            r.block_type == block_type,
    {
        Block { index, block_type }
    }

    /// Registers one confirmed hit. Returns whether the block is destroyed;
    /// otherwise it falls one tier (an immortal block keeps its tier).
    pub fn hit(&mut self) -> (destroyed: bool)
        ensures
            destroyed == after_hit(old(self).block_type).is_none(),
            final(self).index == old(self).index,
            !destroyed ==> Some(final(self).block_type) == after_hit(old(self).block_type),
            destroyed ==> final(self).block_type == old(self).block_type,
    {
        match self.block_type {
            BlockType::Basic => true,
            BlockType::Basic2 => {
                self.block_type = BlockType::Basic;
                false
            },
            BlockType::Basic3 => {
                self.block_type = BlockType::Basic2;
                false
            },
            BlockType::Immortal => false,
        }
    }
}

} // verus!
