use vstd::prelude::*;
use crate::gamemode::Side;

verus! {

/// Length of a paddle track, in thousandths of a side.
pub const TRACK_LENGTH: i32 = 1000;

/// How far a paddle moves along its track in one tick, in thousandths.
pub const STEP: i32 = 30;

/// Where a paddle starts: the middle of its track.
pub const START_POSITION: i32 = 500;

/// The controller a paddle or an input belongs to.
#[derive(Clone, Copy, Debug, PartialEq, Eq, Structural)]
pub enum Player {
    Player1,
    Player2,
    Player3,
}

/// The keys that steer a paddle held down at the moment.
#[derive(Clone, Copy, Debug, PartialEq, Eq, Structural)]
pub struct InputState {
    pub left: bool,
    pub right: bool,
}

impl Default for InputState {
    fn default() -> (r: InputState)
        ensures
            !r.left,
            !r.right,
    {
        InputState { left: false, right: false }
    }
}

/// A paddle: the side of the arena it guards, its owner, and whether it runs
/// along its track in the reversed direction.
#[derive(Clone, Copy, Debug, PartialEq, Eq, Structural)]
pub struct Bar {
    pub side: Side,
    pub owner: Player,
    pub reversed: bool,
}

impl Bar {
    pub fn new(side: Side, owner: Player, reversed: bool) -> (r: Bar)
        ensures
            r == (Bar { side, owner, reversed }),
    {
        Bar { side, owner, reversed }
    }
}

/// One player's paddles, all at one position along their tracks.
///
/// `barpos` is the position of the paddles' centres and `bar_size` their
/// length, both in thousandths of a track.
pub struct Controller {
    pub barpos: i32,
    pub bars: Vec<Bar>,
    pub bar_size: u16,
    pub input: InputState,
    pub player: Player,
}

/// The position after one tick of input: left wins over right.
pub open spec fn moved(pos: int, input: InputState) -> int {
    if input.left {
        pos - STEP
    } else if input.right {
        pos + STEP
    } else {
        pos
    }
}

/// Keeps a paddle of the given size whole on its track: first the lower
/// bound, then the upper one.
pub open spec fn clamped(pos: int, bar_size: int) -> int {
    let lo = bar_size / 2;
    let hi = TRACK_LENGTH - bar_size / 2;
    let p = if pos < lo { lo } else { pos };
    if p > hi { hi } else { p }
}

impl Controller {
    pub fn new(bar_size: u16, player: Player) -> (r: Controller)
        ensures
            r.barpos == START_POSITION,
            r.bars@.len() == 0,
            r.bar_size == bar_size,
            !r.input.left && !r.input.right,
            r.player == player,
    {
        Controller {
            barpos: START_POSITION,
            bars: Vec::new(),
            bar_size,
            input: InputState::default(),
            player,
        }
    }

    /// Moves the paddles one step in the direction held and keeps them on
    /// their track.
    pub fn update(&mut self)
        requires
            i32::MIN + STEP <= old(self).barpos <= i32::MAX - STEP,
        ensures
            final(self).barpos == clamped(moved(old(self).barpos as int, old(self).input), old(self).bar_size as int),
            final(self).bars == old(self).bars,
            final(self).bar_size == old(self).bar_size,
            final(self).input == old(self).input,
            final(self).player == old(self).player,
    {
        if self.input.left {
            self.barpos = self.barpos - STEP;
        } else if self.input.right {
            self.barpos = self.barpos + STEP;
        }
        let half = (self.bar_size / 2) as i32;
        if self.barpos < half {
            self.barpos = half;
        }
        if self.barpos > TRACK_LENGTH - half {
            self.barpos = TRACK_LENGTH - half;
        }
    }
}

/// A key that may steer a paddle; every other key is `Other`.
#[derive(Clone, Copy, Debug, PartialEq, Eq, Structural)]
pub enum Key {
    Left,
    Right,
    A,
    D,
    J,
    L,
    Other,
}

/// Which controller a key steers with `n_players` players, and whether it is
/// that controller's left key (`true`) or right key (`false`).
pub open spec fn binding(n_players: int, key: Key) -> Option<(int, bool)> {
    match key {
        Key::Left => Some((0, true)),
        Key::Right => Some((0, false)),
        Key::A => if n_players == 2 {
            Some((1, true))
        } else if n_players == 3 {
            Some((1, false))
        } else {
            None
        },
        Key::D => if n_players == 2 {
            Some((1, false))
        } else if n_players == 3 {
            Some((1, true))
        } else {
            None
        },
        Key::L => if n_players == 3 { Some((2, true)) } else { None },
        Key::J => if n_players == 3 { Some((2, false)) } else { None },
        Key::Other => None,
    }
}

/// Records that `key` went down (`pressed`) or up, in the input of the
/// controller it steers.
pub fn update_input(players: &mut Vec<Controller>, n_players: usize, key: Key, pressed: bool)
    requires
        1 <= n_players <= 3,
        n_players <= old(players)@.len(),
    ensures
        final(players)@.len() == old(players)@.len(),
        forall|i: int|
            0 <= i < old(players)@.len() ==> {
                let c = old(players)@[i];
                let d = #[trigger] final(players)@[i];
                &&& d.barpos == c.barpos
                &&& d.bars == c.bars
                &&& d.bar_size == c.bar_size
                &&& d.player == c.player
                &&& d.input == match binding(n_players as int, key) {
                    Some((j, true)) if j == i => InputState { left: pressed, ..c.input },
                    Some((j, false)) if j == i => InputState { right: pressed, ..c.input },
                    _ => c.input,
                }
            },
{
    let target: Option<(usize, bool)> = match key {
        Key::Left => Some((0, true)),
        Key::Right => Some((0, false)),
        Key::A => if n_players == 2 {
            Some((1, true))
        } else if n_players == 3 {
            Some((1, false))
        } else {
            None
        },
        Key::D => if n_players == 2 {
            Some((1, false))
        } else if n_players == 3 {
            Some((1, true))
        } else {
            None
        },
        Key::L => if n_players == 3 { Some((2, true)) } else { None },
        Key::J => if n_players == 3 { Some((2, false)) } else { None },
        Key::Other => None,
    };
    match target {
        Some((j, true)) => {
            players[j].input.left = pressed;
        },
        Some((j, false)) => {
            players[j].input.right = pressed;
        },
        None => {},
    }
}

} // verus!
