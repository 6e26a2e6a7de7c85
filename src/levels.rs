use vstd::prelude::*;
use crate::block::{block_type_named, Block, BlockType, GridIndex};
use crate::error::ConfigError;
use crate::text::{lower_of, same_text};

verus! {

/// The outline of a level's field of blocks.
#[derive(Clone, Copy, Debug, PartialEq, Eq, Structural)]
pub enum LevelShape {
    Hexagonal,
}

impl LevelShape {
    /// Reads a level shape name; the name is case-sensitive.
    pub fn from_str(input: &str) -> (r: Option<LevelShape>)
        ensures
            r == (if input@ == "Hexagonal"@ { Some(LevelShape::Hexagonal) } else { None }),
    {
        if same_text(input, "Hexagonal") {
            Some(LevelShape::Hexagonal)
        } else {
            None
        }
    }
}

/// One block as a level lists it: its axial coordinate and its tier's name.
pub struct BlockRecord {
    pub q: i64,
    pub r: i64,
    pub block: String,
}

pub open spec fn fits_i32(x: i64) -> bool {
    i32::MIN <= x <= i32::MAX
}

/// The block a record describes, or why it is rejected.
pub open spec fn record_block(rec: BlockRecord) -> Result<Block, ConfigError> {
    if !fits_i32(rec.q) || !fits_i32(rec.r) {
        Err(ConfigError::IndexOutOfRange)
    } else {
        match block_type_named(lower_of(rec.block@)) {
            None => Err(ConfigError::InvalidBlockType),
            Some(t) => Ok(Block { index: GridIndex { q: rec.q as i32, r: rec.r as i32 }, block_type: t }),
        }
    }
}

/// Turns a level's block records into blocks, in their order. The first
/// record that is rejected decides the error.
pub fn parse_blocks(records: &Vec<BlockRecord>) -> (r: Result<Vec<Block>, ConfigError>)
    ensures
        match r {
            Ok(blocks) => {
                &&& blocks@.len() == records@.len()
                &&& forall|i: int| 0 <= i < records@.len() ==> Ok::<Block, ConfigError>(#[trigger] blocks@[i]) == record_block(records@[i])
            },
            Err(e) => exists|i: int|
                0 <= i < records@.len() && #[trigger] record_block(records@[i]) == Err::<Block, ConfigError>(e)
                    && forall|j: int| 0 <= j < i ==> (#[trigger] record_block(records@[j])).is_ok(),
        },
{
    let mut blocks: Vec<Block> = Vec::new();
    let mut i: usize = 0;
    while i < records.len()
        invariant
            i <= records@.len(),
            blocks@.len() == i,
            forall|j: int| 0 <= j < i ==> Ok::<Block, ConfigError>(#[trigger] blocks@[j]) == record_block(records@[j]),
            forall|j: int| 0 <= j < i ==> (#[trigger] record_block(records@[j])).is_ok(),
        decreases records@.len() - i,
    {
        let rec = &records[i];
        if rec.q < i32::MIN as i64 || rec.q > i32::MAX as i64 || rec.r < i32::MIN as i64 || rec.r > i32::MAX as i64 {
            assert(record_block(records@[i as int]) == Err::<Block, ConfigError>(ConfigError::IndexOutOfRange));
            return Err(ConfigError::IndexOutOfRange);
        }
        let t = match BlockType::from_str(rec.block.as_str()) {
            Some(t) => t,
            None => {
                assert(record_block(records@[i as int]) == Err::<Block, ConfigError>(ConfigError::InvalidBlockType));
                return Err(ConfigError::InvalidBlockType);
            },
        };
        blocks.push(Block { index: GridIndex { q: rec.q as i32, r: rec.r as i32 }, block_type: t });
        i = i + 1;
    }
    Ok(blocks)
}

/// A level: its name, its shape and its blocks.
pub struct Level {
    pub name: String,
    pub shape: LevelShape,
    pub blocks: Vec<Block>,
}

impl Level {
    /// Builds a level from its settings; an unknown shape is reported before
    /// any rejected block.
    pub fn new(name: String, shape: &str, records: &Vec<BlockRecord>) -> (r: Result<Level, ConfigError>)
        ensures
            shape@ != "Hexagonal"@ ==> r == Err::<Level, ConfigError>(ConfigError::InvalidLevelShape),
            shape@ == "Hexagonal"@ ==> match r {
                Ok(level) => {
                    &&& level.name@ == name@
                    &&& level.shape == LevelShape::Hexagonal
                    &&& level.blocks@.len() == records@.len()
                    &&& forall|i: int| 0 <= i < records@.len() ==> Ok::<Block, ConfigError>(#[trigger] level.blocks@[i]) == record_block(records@[i])
                },
                Err(e) => exists|i: int|
                    0 <= i < records@.len() && #[trigger] record_block(records@[i]) == Err::<Block, ConfigError>(e)
                        && forall|j: int| 0 <= j < i ==> (#[trigger] record_block(records@[j])).is_ok(),
            },
    {
        let shape = match LevelShape::from_str(shape) {
            Some(s) => s,
            None => {
                return Err(ConfigError::InvalidLevelShape);
            },
        };
        match parse_blocks(records) {
            Ok(blocks) => Ok(Level { name, shape, blocks }),
            Err(e) => Err(e),
        }
    }
}

} // verus!
