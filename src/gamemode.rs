use vstd::prelude::*;
use crate::controller::{Bar, Controller, Player};
use crate::error::ConfigError;
use crate::text::{lower_of, lowercase, same_text};

verus! {

/// How hard a game is; it selects a section of the game-mode settings.
#[derive(Clone, Copy, Debug, PartialEq, Eq, Structural)]
pub enum Difficulty {
    Easy,
    Normal,
    Hard,
}

/// Who guards a side of the arena: one of the players' paddles, or a wall.
#[derive(Clone, Copy, Debug, PartialEq, Eq, Structural)]
pub enum Controls {
    Player1,
    Player2,
    Player3,
    Wall,
}

/// One of the six sides of the hexagonal arena.
#[derive(Clone, Copy, Debug, PartialEq, Eq, Structural)]
pub enum Side {
    Bottom,
    BottomLeft,
    BottomRight,
    Top,
    TopLeft,
    TopRight,
}

pub open spec fn difficulty_named(s: Seq<char>) -> Option<Difficulty> {
    if s == "easy"@ {
        Some(Difficulty::Easy)
    } else if s == "normal"@ {
        Some(Difficulty::Normal)
    } else if s == "hard"@ {
        Some(Difficulty::Hard)
    } else {
        None
    }
}

pub open spec fn difficulty_name(d: Difficulty) -> Seq<char> {
    match d {
        Difficulty::Easy => "easy"@,
        Difficulty::Normal => "normal"@,
        Difficulty::Hard => "hard"@,
    }
}

pub open spec fn controls_named(s: Seq<char>) -> Option<Controls> {
    if s == "player1"@ {
        Some(Controls::Player1)
    } else if s == "player2"@ {
        Some(Controls::Player2)
    } else if s == "player3"@ {
        Some(Controls::Player3)
    } else if s == "wall"@ {
        Some(Controls::Wall)
    } else {
        None
    }
}

/// `Some(true)` for a reversed paddle, `Some(false)` for a normal one.
pub open spec fn direction_named(s: Seq<char>) -> Option<bool> {
    if s == "normal"@ {
        Some(false)
    } else if s == "reversed"@ {
        Some(true)
    } else {
        None
    }
}

pub open spec fn side_name(side: Side) -> Seq<char> {
    match side {
        Side::Bottom => "bottom"@,
        Side::BottomLeft => "bottom-left"@,
        Side::BottomRight => "bottom-right"@,
        Side::Top => "top"@,
        Side::TopLeft => "top-left"@,
        Side::TopRight => "top-right"@,
    }
}

pub open spec fn side_named(s: Seq<char>) -> Option<Side> {
    if s == "bottom"@ {
        Some(Side::Bottom)
    } else if s == "bottom-left"@ {
        Some(Side::BottomLeft)
    } else if s == "bottom-right"@ {
        Some(Side::BottomRight)
    } else if s == "top"@ {
        Some(Side::Top)
    } else if s == "top-left"@ {
        Some(Side::TopLeft)
    } else if s == "top-right"@ {
        Some(Side::TopRight)
    } else {
        None
    }
}

/// The direction, in degrees, in which a side's paddle track runs.
pub open spec fn side_angle(side: Side) -> u32 {
    match side {
        Side::Bottom => 60,
        Side::BottomLeft => 120,
        Side::BottomRight => 0,
        Side::Top => 240,
        Side::TopLeft => 180,
        Side::TopRight => 300,
    }
}

impl Difficulty {
    /// Reads a difficulty name, in any case.
    pub fn from_str(input: &str) -> (r: Option<Difficulty>)
        ensures
            r == difficulty_named(lower_of(input@)),
    {
        let lower = lowercase(input);
        Difficulty::from_lowercase(lower.as_str())
    }

    /// Reads a difficulty name already in lowercase.
    pub fn from_lowercase(s: &str) -> (r: Option<Difficulty>)
        ensures
            r == difficulty_named(s@),
    {
        if same_text(s, "easy") {
            Some(Difficulty::Easy)
        } else if same_text(s, "normal") {
            Some(Difficulty::Normal)
        } else if same_text(s, "hard") {
            Some(Difficulty::Hard)
        } else {
            None
        }
    }

    pub fn to_str(&self) -> (r: &'static str)
        ensures
            r@ == difficulty_name(*self),
    {
        match self {
            Difficulty::Easy => "easy",
            Difficulty::Normal => "normal",
            Difficulty::Hard => "hard",
        }
    }
}

impl Controls {
    /// Reads a controller name, in any case.
    pub fn from_str(input: &str) -> (r: Option<Controls>)
        ensures
            r == controls_named(lower_of(input@)),
    {
        let lower = lowercase(input);
        Controls::from_lowercase(lower.as_str())
    }

    /// Reads a controller name already in lowercase.
    pub fn from_lowercase(s: &str) -> (r: Option<Controls>)
        ensures
            r == controls_named(s@),
    {
        if same_text(s, "player1") {
            Some(Controls::Player1)
        } else if same_text(s, "player2") {
            Some(Controls::Player2)
        } else if same_text(s, "player3") {
            Some(Controls::Player3)
        } else if same_text(s, "wall") {
            Some(Controls::Wall)
        } else {
            None
        }
    }
}

/// Reads a paddle direction, in any case: `Some(true)` when reversed.
pub fn parse_direction(input: &str) -> (r: Option<bool>)
    ensures
        r == direction_named(lower_of(input@)),
{
    let lower = lowercase(input);
    direction_from_lowercase(lower.as_str())
}

/// Reads a paddle direction already in lowercase.
pub fn direction_from_lowercase(s: &str) -> (r: Option<bool>)
    ensures
        r == direction_named(s@),
{
    if same_text(s, "normal") {
        Some(false)
    } else if same_text(s, "reversed") {
        Some(true)
    } else {
        None
    }
}

impl Side {
    /// Reads a side name, in any case.
    pub fn from_str(input: &str) -> (r: Option<Side>)
        ensures
            r == side_named(lower_of(input@)),
    {
        let lower = lowercase(input);
        Side::from_lowercase(lower.as_str())
    }

    /// Reads a side name already in lowercase.
    pub fn from_lowercase(s: &str) -> (r: Option<Side>)
        ensures
            r == side_named(s@),
    {
        if same_text(s, "bottom") {
            Some(Side::Bottom)
        } else if same_text(s, "bottom-left") {
            Some(Side::BottomLeft)
        } else if same_text(s, "bottom-right") {
            Some(Side::BottomRight)
        } else if same_text(s, "top") {
            Some(Side::Top)
        } else if same_text(s, "top-left") {
            Some(Side::TopLeft)
        } else if same_text(s, "top-right") {
            Some(Side::TopRight)
        } else {
            None
        }
    }

    pub fn to_str(&self) -> (r: &'static str)
        ensures
            r@ == side_name(*self),
    {
        match self {
            Side::Bottom => "bottom",
            Side::BottomLeft => "bottom-left",
            Side::BottomRight => "bottom-right",
            Side::Top => "top",
            Side::TopLeft => "top-left",
            Side::TopRight => "top-right",
        }
    }

    /// The direction of the side's paddle track, in whole degrees.
    pub fn to_ang(&self) -> (r: u32)
        ensures
            r == side_angle(*self),
    {
        match self {
            Side::Bottom => 60,
            Side::BottomLeft => 120,
            Side::BottomRight => 0,
            Side::Top => 240,
            Side::TopLeft => 180,
            Side::TopRight => 300,
        }
    }
}

/// What the game-mode settings say of one side: who guards it and, for a
/// paddle, in which direction its track runs.
pub struct SideControls {
    pub side: Side,
    pub input: String,
    pub direction: Option<String>,
}

/// The controllers and walls of a game mode.
///
/// `players` holds the controllers of the first, second and third player, in
/// that order; `walls` the sides guarded by a wall.
pub struct GameMode {
    pub players: Vec<Controller>,
    pub walls: Vec<Side>,
}

pub open spec fn owner_of(c: Controls) -> Player {
    match c {
        Controls::Player1 => Player::Player1,
        Controls::Player2 => Player::Player2,
        _ => Player::Player3,
    }
}

/// What a side's settings make of it: `Ok(None)` for a wall,
/// `Ok(Some((owner, reversed)))` for a paddle, or why they are rejected.
pub open spec fn assignment(e: SideControls) -> Result<Option<(Player, bool)>, ConfigError> {
    match controls_named(lower_of(e.input@)) {
        None => Err(ConfigError::InvalidControls),
        Some(Controls::Wall) => Ok(None),
        Some(c) => match e.direction {
            None => Err(ConfigError::MissingDirection),
            Some(d) => match direction_named(lower_of(d@)) {
                None => Err(ConfigError::InvalidDirection),
                Some(reversed) => Ok(Some((owner_of(c), reversed))),
            },
        },
    }
}

/// The paddles that the given sides assign to `p`, in the order of the sides.
pub open spec fn bars_of(sides: Seq<SideControls>, p: Player) -> Seq<Bar>
    decreases sides.len(),
{
    if sides.len() == 0 {
        seq![]
    } else {
        let last = sides.last();
        let earlier = bars_of(sides.drop_last(), p);
        match assignment(last) {
            Ok(Some((owner, reversed))) => if owner == p {
                earlier.push(Bar { side: last.side, owner, reversed })
            } else {
                earlier
            },
            _ => earlier,
        }
    }
}

/// The sides that the given settings close with a wall, in their order.
pub open spec fn walls_of(sides: Seq<SideControls>) -> Seq<Side>
    decreases sides.len(),
{
    if sides.len() == 0 {
        seq![]
    } else {
        let last = sides.last();
        let earlier = walls_of(sides.drop_last());
        match assignment(last) {
            Ok(None) => earlier.push(last.side),
            _ => earlier,
        }
    }
}

pub open spec fn player_at(i: int) -> Player {
    if i == 0 {
        Player::Player1
    } else if i == 1 {
        Player::Player2
    } else {
        Player::Player3
    }
}

impl GameMode {
    /// Sets up the controllers and walls that the settings of the sides ask
    /// for, each paddle `bar_size` thousandths of its side long. The first
    /// side whose settings are rejected decides the error.
    pub fn new(bar_size: u16, sides: &Vec<SideControls>) -> (r: Result<GameMode, ConfigError>)
        ensures
            match r {
                Ok(m) => {
                    &&& forall|i: int| 0 <= i < sides@.len() ==> (#[trigger] assignment(sides@[i])).is_ok()
                    &&& m.walls@ == walls_of(sides@)
                    &&& m.players@.len() == 3
                    &&& forall|i: int| 0 <= i < 3 ==> {
                        let c = #[trigger] m.players@[i];
                        &&& c.player == player_at(i)
                        &&& c.bars@ == bars_of(sides@, player_at(i))
                        &&& c.bar_size == bar_size
                        &&& c.barpos == crate::controller::START_POSITION
                        &&& !c.input.left && !c.input.right
                    }
                },
                Err(e) => exists|i: int|
                    0 <= i < sides@.len() && #[trigger] assignment(sides@[i]) == Err::<Option<(Player, bool)>, ConfigError>(e)
                        && forall|j: int| 0 <= j < i ==> (#[trigger] assignment(sides@[j])).is_ok(),
            },
    {
        let mut player1 = Controller::new(bar_size, Player::Player1);
        let mut player2 = Controller::new(bar_size, Player::Player2);
        let mut player3 = Controller::new(bar_size, Player::Player3);
        let mut walls: Vec<Side> = Vec::new();
        let mut i: usize = 0;
        while i < sides.len()
            invariant
                i <= sides@.len(),
                forall|j: int| 0 <= j < i ==> (#[trigger] assignment(sides@[j])).is_ok(),
                walls@ == walls_of(sides@.take(i as int)),
                player1.bars@ == bars_of(sides@.take(i as int), Player::Player1),
                player2.bars@ == bars_of(sides@.take(i as int), Player::Player2),
                player3.bars@ == bars_of(sides@.take(i as int), Player::Player3),
                player1.player == Player::Player1,
                player2.player == Player::Player2,
                player3.player == Player::Player3,
                player1.bar_size == bar_size && player2.bar_size == bar_size && player3.bar_size == bar_size,
                player1.barpos == crate::controller::START_POSITION,
                player2.barpos == crate::controller::START_POSITION,
                player3.barpos == crate::controller::START_POSITION,
                !player1.input.left && !player1.input.right,
                !player2.input.left && !player2.input.right,
                !player3.input.left && !player3.input.right,
            decreases sides@.len() - i,
        {
            let entry = &sides[i];
            let ghost prefix = sides@.take(i as int + 1);
            assert(prefix.drop_last() =~= sides@.take(i as int));
            assert(prefix.last() == sides@[i as int]);
            let controls = match Controls::from_str(entry.input.as_str()) {
                Some(c) => c,
                None => {
                    assert(assignment(sides@[i as int]) == Err::<Option<(Player, bool)>, ConfigError>(ConfigError::InvalidControls));
                    return Err(ConfigError::InvalidControls);
                },
            };
            match controls {
                Controls::Wall => {
                    walls.push(entry.side);
                },
                _ => {
                    let reversed = match &entry.direction {
                        None => {
                            assert(assignment(sides@[i as int]) == Err::<Option<(Player, bool)>, ConfigError>(ConfigError::MissingDirection));
                            return Err(ConfigError::MissingDirection);
                        },
                        Some(d) => match parse_direction(d.as_str()) {
                            None => {
                                assert(assignment(sides@[i as int]) == Err::<Option<(Player, bool)>, ConfigError>(ConfigError::InvalidDirection));
                                return Err(ConfigError::InvalidDirection);
                            },
                            Some(rev) => rev,
                        },
                    };
                    match controls {
                        Controls::Player1 => {
                            player1.bars.push(Bar::new(entry.side, Player::Player1, reversed));
                        },
                        Controls::Player2 => {
                            player2.bars.push(Bar::new(entry.side, Player::Player2, reversed));
                        },
                        _ => {
                            player3.bars.push(Bar::new(entry.side, Player::Player3, reversed));
                        },
                    }
                },
            }
            i = i + 1;
        }
        assert(sides@.take(sides@.len() as int) =~= sides@);
        let mut players: Vec<Controller> = Vec::new();
        players.push(player1);
        players.push(player2);
        players.push(player3);
        Ok(GameMode { players, walls })
    }
}

} // verus!
