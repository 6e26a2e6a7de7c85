use vstd::prelude::*;
use vstd::string::StrSliceExecFns;
use crate::block::{block_type_named, BlockType};
use crate::error::ConfigError;
use crate::text::lower_of;

verus! {

/// A colour as four 8-bit channels.
#[derive(Clone, Copy, Debug, PartialEq, Eq, Structural)]
pub struct Rgba {
    pub r: u8,
    pub g: u8,
    pub b: u8,
    pub a: u8,
}

/// The value of a hexadecimal digit, in either case.
pub open spec fn hex_value(c: char) -> Option<u8> {
    if '0' <= c && c <= '9' {
        Some((c as u32 - '0' as u32) as u8)
    } else if 'a' <= c && c <= 'f' {
        Some((c as u32 - 'a' as u32 + 10) as u8)
    } else if 'A' <= c && c <= 'F' {
        Some((c as u32 - 'A' as u32 + 10) as u8)
    } else {
        None
    }
}

pub open spec fn all_hex(s: Seq<char>) -> bool {
    forall|i: int| 0 <= i < s.len() ==> (#[trigger] hex_value(s[i])).is_some()
}

/// The byte written by the two digits at `i` and `i + 1`.
pub open spec fn byte_at(s: Seq<char>, i: int) -> u8 {
    (16 * hex_value(s[i]).unwrap() + hex_value(s[i + 1]).unwrap()) as u8
}

/// The colour that six (`rrggbb`, opaque) or eight (`rrggbbaa`) hexadecimal
/// digits write.
pub open spec fn color_of(s: Seq<char>) -> Option<Rgba> {
    if !all_hex(s) {
        None
    } else if s.len() == 6 {
        Some(Rgba { r: byte_at(s, 0), g: byte_at(s, 2), b: byte_at(s, 4), a: 255 })
    } else if s.len() == 8 {
        Some(Rgba { r: byte_at(s, 0), g: byte_at(s, 2), b: byte_at(s, 4), a: byte_at(s, 6) })
    } else {
        None
    }
}

fn hex_digit(c: char) -> (r: Option<u8>)
    ensures
        r == hex_value(c),
{
    if '0' <= c && c <= '9' {
        Some((c as u32 - '0' as u32) as u8)
    } else if 'a' <= c && c <= 'f' {
        Some((c as u32 - 'a' as u32 + 10) as u8)
    } else if 'A' <= c && c <= 'F' {
        Some((c as u32 - 'A' as u32 + 10) as u8)
    } else {
        None
    }
}

/// Reads a colour written as six or eight hexadecimal digits.
pub fn decode_color(s: &str) -> (r: Option<Rgba>)
    ensures
        r == color_of(s@),
{
    let n = s.unicode_len();
    if n != 6 && n != 8 {
        return None;
    }
    let mut bytes: Vec<u8> = Vec::new();
    let mut i: usize = 0;
    while i < n
        invariant
            n == s@.len(),
            n == 6 || n == 8,
            i <= n,
            i % 2 == 0,
            bytes@.len() == i / 2,
            forall|j: int| 0 <= j < i ==> (#[trigger] hex_value(s@[j])).is_some(),
            forall|k: int| 0 <= k < i / 2 ==> #[trigger] bytes@[k] == byte_at(s@, 2 * k),
        decreases n - i,
    {
        let hi = hex_digit(s.get_char(i));
        let lo = hex_digit(s.get_char(i + 1));
        match (hi, lo) {
            (Some(h), Some(l)) => {
                assert(h < 16 && l < 16);
                bytes.push(16 * h + l);
            },
            _ => {
                assert(!all_hex(s@));
                return None;
            },
        }
        i = i + 2;
    }
    assert(all_hex(s@));
    if n == 6 {
        Some(Rgba { r: bytes[0], g: bytes[1], b: bytes[2], a: 255 })
    } else {
        Some(Rgba { r: bytes[0], g: bytes[1], b: bytes[2], a: bytes[3] })
    }
}

/// The colour of each block tier, where one is set.
#[derive(Clone, Copy, Debug, PartialEq, Eq, Structural)]
pub struct BlockColors {
    pub basic: Option<Rgba>,
    pub basic2: Option<Rgba>,
    pub basic3: Option<Rgba>,
    pub immortal: Option<Rgba>,
}

impl BlockColors {
    pub open spec fn spec_get(self, t: BlockType) -> Option<Rgba> {
        match t {
            BlockType::Basic => self.basic,
            BlockType::Basic2 => self.basic2,
            BlockType::Basic3 => self.basic3,
            BlockType::Immortal => self.immortal,
        }
    }

    pub open spec fn spec_with(self, t: BlockType, c: Rgba) -> BlockColors {
        match t {
            BlockType::Basic => BlockColors { basic: Some(c), ..self },
            BlockType::Basic2 => BlockColors { basic2: Some(c), ..self },
            BlockType::Basic3 => BlockColors { basic3: Some(c), ..self },
            BlockType::Immortal => BlockColors { immortal: Some(c), ..self },
        }
    }

    pub fn new() -> (r: BlockColors)
        ensures
            r == (BlockColors { basic: None, basic2: None, basic3: None, immortal: None }),
    {
        BlockColors { basic: None, basic2: None, basic3: None, immortal: None }
    }

    pub fn get(&self, t: BlockType) -> (r: Option<Rgba>)
        ensures
            r == self.spec_get(t),
    {
        match t {
            BlockType::Basic => self.basic,
            BlockType::Basic2 => self.basic2,
            BlockType::Basic3 => self.basic3,
            BlockType::Immortal => self.immortal,
        }
    }

    /// Sets the colour of a tier, replacing any set before.
    pub fn set(&mut self, t: BlockType, c: Rgba)
        ensures
            *final(self) == old(self).spec_with(t, c),
    {
        match t {
            BlockType::Basic => self.basic = Some(c),
            BlockType::Basic2 => self.basic2 = Some(c),
            BlockType::Basic3 => self.basic3 = Some(c),
            BlockType::Immortal => self.immortal = Some(c),
        }
    }
}

/// One entry of a theme's block list: a tier's name and its colour's digits.
pub struct BlockColorRecord {
    pub block: String,
    pub color: String,
}

/// A theme as its settings write it.
pub struct ThemeRecord {
    pub background: String,
    pub wall: String,
    pub player1: String,
    pub player2: String,
    pub player3: String,
    pub blocks: Vec<BlockColorRecord>,
}

/// The colours of the arena.
#[derive(Clone, Copy, Debug, PartialEq, Eq, Structural)]
pub struct Theme {
    pub background: Rgba,
    pub wall: Rgba,
    pub player1: Rgba,
    pub player2: Rgba,
    pub player3: Rgba,
    pub blocks: BlockColors,
}

/// The block colours that a theme's entries set, a later entry for a tier
/// replacing an earlier one; the first rejected entry decides the error.
pub open spec fn block_colors_of(entries: Seq<BlockColorRecord>) -> Result<BlockColors, ConfigError>
    decreases entries.len(),
{
    if entries.len() == 0 {
        Ok(BlockColors { basic: None, basic2: None, basic3: None, immortal: None })
    } else {
        match block_colors_of(entries.drop_last()) {
            Err(e) => Err(e),
            Ok(colors) => match block_type_named(lower_of(entries.last().block@)) {
                None => Err(ConfigError::InvalidBlockType),
                Some(t) => match color_of(entries.last().color@) {
                    None => Err(ConfigError::InvalidColor),
                    Some(c) => Ok(colors.spec_with(t, c)),
                },
            },
        }
    }
}

pub open spec fn theme_of(rec: ThemeRecord) -> Result<Theme, ConfigError> {
    match (color_of(rec.background@), color_of(rec.wall@), color_of(rec.player1@), color_of(rec.player2@), color_of(rec.player3@)) {
        (Some(background), Some(wall), Some(player1), Some(player2), Some(player3)) => match block_colors_of(rec.blocks@) {
            Ok(blocks) => Ok(Theme { background, wall, player1, player2, player3, blocks }),
            Err(e) => Err(e),
        },
        _ => Err(ConfigError::InvalidColor),
    }
}

/// Reads the block colours of a theme's entries.
pub fn block_colors(entries: &Vec<BlockColorRecord>) -> (r: Result<BlockColors, ConfigError>)
    ensures
        r == block_colors_of(entries@),
{
    let mut blocks = BlockColors::new();
    let mut i: usize = 0;
    while i < entries.len()
        invariant
            i <= entries@.len(),
            block_colors_of(entries@.take(i as int)) == Ok::<BlockColors, ConfigError>(blocks),
        decreases entries@.len() - i,
    {
        let entry = &entries[i];
        assert(entries@.take(i + 1).drop_last() =~= entries@.take(i as int));
        assert(entries@.take(i + 1).last() == entries@[i as int]);
        let t = match BlockType::from_str(entry.block.as_str()) {
            Some(t) => t,
            None => {
                proof {
                    assert(block_colors_of(entries@.take(i + 1)) == Err::<BlockColors, ConfigError>(ConfigError::InvalidBlockType));
                    lemma_first_error_stays(entries@, i + 1);
                }
                return Err(ConfigError::InvalidBlockType);
            },
        };
        let c = match decode_color(entry.color.as_str()) {
            Some(c) => c,
            None => {
                proof {
                    assert(block_colors_of(entries@.take(i + 1)) == Err::<BlockColors, ConfigError>(ConfigError::InvalidColor));
                    lemma_first_error_stays(entries@, i + 1);
                }
                return Err(ConfigError::InvalidColor);
            },
        };
        blocks.set(t, c);
        i = i + 1;
    }
    assert(entries@.take(entries@.len() as int) =~= entries@);
    Ok(blocks)
}

impl Theme {
    /// Reads a theme's colours.
    pub fn new(rec: &ThemeRecord) -> (r: Result<Theme, ConfigError>)
        ensures
            r == theme_of(*rec),
    {
        let background = decode_color(rec.background.as_str());
        let wall = decode_color(rec.wall.as_str());
        let player1 = decode_color(rec.player1.as_str());
        let player2 = decode_color(rec.player2.as_str());
        let player3 = decode_color(rec.player3.as_str());
        let (background, wall, player1, player2, player3) = match (background, wall, player1, player2, player3) {
            (Some(a), Some(b), Some(c), Some(d), Some(e)) => (a, b, c, d, e),
            _ => {
                return Err(ConfigError::InvalidColor);
            },
        };
        let blocks = match block_colors(&rec.blocks) {
            Ok(b) => b,
            Err(e) => {
                return Err(e);
            },
        };
        Ok(Theme { background, wall, player1, player2, player3, blocks })
    }

    pub fn get_block_color(&self, t: BlockType) -> (r: Option<Rgba>)
        ensures
            r == self.blocks.spec_get(t),
    {
        self.blocks.get(t)
    }
}

/// Once a prefix of the entries is rejected, so are all the entries, with the
/// same error.
proof fn lemma_first_error_stays(entries: Seq<BlockColorRecord>, k: int)
    requires
        0 <= k <= entries.len(),
        block_colors_of(entries.take(k)).is_err(),
    ensures
        block_colors_of(entries) == block_colors_of(entries.take(k)),
    decreases entries.len() - k,
{
    if k < entries.len() {
        assert(entries.take(k + 1).drop_last() =~= entries.take(k));
        lemma_first_error_stays(entries, k + 1);
    } else {
        assert(entries.take(k) =~= entries);
    }
}

} // verus!
