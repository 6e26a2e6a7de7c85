use hexpong::block::{Block, BlockType, GridIndex};
use hexpong::controller::{Bar, Player};
use hexpong::error::ConfigError;
use hexpong::gamemode::{parse_direction, Controls, Difficulty, GameMode, Side, SideControls};
use hexpong::levels::{parse_blocks, BlockRecord, Level, LevelShape};

fn side(side: Side, input: &str, direction: Option<&str>) -> SideControls {
    SideControls { side, input: input.to_string(), direction: direction.map(|d| d.to_string()) }
}

#[test]
fn difficulty_names_round_trip() {
    for d in [Difficulty::Easy, Difficulty::Normal, Difficulty::Hard] {
        assert_eq!(Difficulty::from_str(d.to_str()), Some(d));
    }
    assert_eq!(Difficulty::from_str("HARD"), Some(Difficulty::Hard));
    assert_eq!(Difficulty::from_str("medium"), None);
}

#[test]
fn side_names_round_trip() {
    for s in [Side::Bottom, Side::BottomLeft, Side::BottomRight, Side::Top, Side::TopLeft, Side::TopRight] {
        assert_eq!(Side::from_str(s.to_str()), Some(s));
    }
    assert_eq!(Side::from_str("Top-Left"), Some(Side::TopLeft));
    assert_eq!(Side::from_str("left"), None);
}

#[test]
fn side_track_angles() {
    assert_eq!(Side::Bottom.to_ang(), 60);
    assert_eq!(Side::BottomLeft.to_ang(), 120);
    assert_eq!(Side::BottomRight.to_ang(), 0);
    assert_eq!(Side::Top.to_ang(), 240);
    assert_eq!(Side::TopLeft.to_ang(), 180);
    assert_eq!(Side::TopRight.to_ang(), 300);
}

#[test]
fn controls_and_directions() {
    assert_eq!(Controls::from_str("Player1"), Some(Controls::Player1));
    assert_eq!(Controls::from_str("player3"), Some(Controls::Player3));
    assert_eq!(Controls::from_str("WALL"), Some(Controls::Wall));
    assert_eq!(Controls::from_str("player4"), None);
    assert_eq!(parse_direction("Normal"), Some(false));
    assert_eq!(parse_direction("reversed"), Some(true));
    assert_eq!(parse_direction("sideways"), None);
}

#[test]
fn game_mode_assigns_paddles_and_walls() {
    let sides = vec![
        side(Side::Bottom, "player1", Some("normal")),
        side(Side::BottomLeft, "wall", None),
        side(Side::BottomRight, "Player1", Some("Reversed")),
        side(Side::Top, "player2", Some("normal")),
        side(Side::TopLeft, "wall", Some("normal")),
        side(Side::TopRight, "wall", None),
    ];
    let mode = GameMode::new(300, &sides).unwrap();
    assert_eq!(mode.walls, vec![Side::BottomLeft, Side::TopLeft, Side::TopRight]);
    assert_eq!(mode.players.len(), 3);
    assert_eq!(mode.players[0].player, Player::Player1);
    assert_eq!(
        mode.players[0].bars,
        vec![
            Bar::new(Side::Bottom, Player::Player1, false),
            Bar::new(Side::BottomRight, Player::Player1, true),
        ]
    );
    assert_eq!(mode.players[1].bars, vec![Bar::new(Side::Top, Player::Player2, false)]);
    assert!(mode.players[2].bars.is_empty());
    assert_eq!(mode.players[0].bar_size, 300);
    assert_eq!(mode.players[0].barpos, 500);
}

#[test]
fn game_mode_reports_first_rejected_side() {
    let sides = vec![
        side(Side::Bottom, "player1", None),
        side(Side::Top, "goalkeeper", None),
    ];
    assert_eq!(GameMode::new(300, &sides).err(), Some(ConfigError::MissingDirection));
    let sides = vec![
        side(Side::Bottom, "wall", None),
        side(Side::Top, "goalkeeper", None),
        side(Side::TopLeft, "player1", None),
    ];
    assert_eq!(GameMode::new(300, &sides).err(), Some(ConfigError::InvalidControls));
    let sides = vec![side(Side::Top, "player2", Some("backwards"))];
    assert_eq!(GameMode::new(300, &sides).err(), Some(ConfigError::InvalidDirection));
}

fn record(q: i64, r: i64, block: &str) -> BlockRecord {
    BlockRecord { q, r, block: block.to_string() }
}

#[test]
fn level_blocks_from_records() {
    let blocks = parse_blocks(&vec![record(0, 0, "immortal"), record(-1, 2, "Basic2")]).unwrap();
    assert_eq!(
        blocks,
        vec![
            Block::new(GridIndex { q: 0, r: 0 }, BlockType::Immortal),
            Block::new(GridIndex { q: -1, r: 2 }, BlockType::Basic2),
        ]
    );
}

#[test]
fn level_rejects_bad_records() {
    assert_eq!(parse_blocks(&vec![record(0, 0, "glass")]).err(), Some(ConfigError::InvalidBlockType));
    assert_eq!(
        parse_blocks(&vec![record(0, 0, "basic"), record(1i64 << 40, 0, "glass")]).err(),
        Some(ConfigError::IndexOutOfRange)
    );
}

#[test]
fn level_checks_its_shape() {
    let recs = vec![record(1, 1, "basic3")];
    let level = Level::new("crowded".to_string(), "Hexagonal", &recs).unwrap();
    assert_eq!(level.name, "crowded");
    assert_eq!(level.shape, LevelShape::Hexagonal);
    assert_eq!(level.blocks.len(), 1);
    assert_eq!(Level::new("x".to_string(), "hexagonal", &recs).err(), Some(ConfigError::InvalidLevelShape));
    assert_eq!(LevelShape::from_str("Square"), None);
}
