use vstd::prelude::*;

verus! {

/// Why a configuration record was rejected.
#[derive(Clone, Copy, Debug, PartialEq, Eq, Structural)]
pub enum ConfigError {
    /// A block tier name that is none of basic, basic2, basic3, immortal.
    InvalidBlockType,
    /// A level shape name other than `Hexagonal`.
    InvalidLevelShape,
    /// A controller name that is none of player1, player2, player3, wall.
    InvalidControls,
    /// A paddle side without a direction.
    MissingDirection,
    /// A direction that is neither normal nor reversed.
    InvalidDirection,
    /// A side name that names none of the six sides.
    InvalidSide,
    /// A difficulty name that is none of easy, normal, hard.
    InvalidDifficulty,
    /// A grid coordinate outside the range of `i32`.
    IndexOutOfRange,
    /// A colour that is not six or eight hexadecimal digits.
    InvalidColor,
}

} // verus!
