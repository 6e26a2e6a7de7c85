use hexpong::block::BlockType;
use hexpong::error::ConfigError;
use hexpong::shape::circle_vertex_count;
use hexpong::text::same_text;
use hexpong::themes::{decode_color, BlockColorRecord, Rgba, Theme, ThemeRecord};

#[test]
fn six_digit_colour_is_opaque() {
    assert_eq!(decode_color("ff8000"), Some(Rgba { r: 255, g: 128, b: 0, a: 255 }));
    assert_eq!(decode_color("0A0b0C"), Some(Rgba { r: 10, g: 11, b: 12, a: 255 }));
}

#[test]
fn eight_digit_colour_has_alpha() {
    assert_eq!(decode_color("11223344"), Some(Rgba { r: 0x11, g: 0x22, b: 0x33, a: 0x44 }));
}

#[test]
fn malformed_colours_are_rejected() {
    assert_eq!(decode_color("fff"), None);
    assert_eq!(decode_color("gg0000"), None);
    assert_eq!(decode_color("+f0000"), None);
    assert_eq!(decode_color("1122334"), None);
    assert_eq!(decode_color(""), None);
}

fn theme_record(blocks: Vec<(&str, &str)>) -> ThemeRecord {
    ThemeRecord {
        background: "000000".to_string(),
        wall: "ffffff".to_string(),
        player1: "ff0000".to_string(),
        player2: "00ff00".to_string(),
        player3: "0000ff".to_string(),
        blocks: blocks
            .into_iter()
            .map(|(b, c)| BlockColorRecord { block: b.to_string(), color: c.to_string() })
            .collect(),
    }
}

#[test]
fn theme_maps_tiers_to_colours_later_entries_win() {
    let theme = Theme::new(&theme_record(vec![("basic", "101010"), ("Immortal", "202020"), ("BASIC", "303030")])).unwrap();
    assert_eq!(theme.wall, Rgba { r: 255, g: 255, b: 255, a: 255 });
    assert_eq!(theme.get_block_color(BlockType::Basic), Some(Rgba { r: 0x30, g: 0x30, b: 0x30, a: 255 }));
    assert_eq!(theme.get_block_color(BlockType::Immortal), Some(Rgba { r: 0x20, g: 0x20, b: 0x20, a: 255 }));
    assert_eq!(theme.get_block_color(BlockType::Basic2), None);
}

#[test]
fn theme_rejects_bad_entries() {
    assert_eq!(Theme::new(&theme_record(vec![("glass", "101010")])).err(), Some(ConfigError::InvalidBlockType));
    assert_eq!(Theme::new(&theme_record(vec![("basic", "10101")])).err(), Some(ConfigError::InvalidColor));
    let mut rec = theme_record(vec![]);
    rec.player3 = "blue".to_string();
    assert_eq!(Theme::new(&rec).err(), Some(ConfigError::InvalidColor));
}

#[test]
fn circle_vertex_count_grows_with_root_of_radius() {
    assert_eq!(circle_vertex_count(0), 4);
    assert_eq!(circle_vertex_count(3), 8);
    assert_eq!(circle_vertex_count(4), 12);
    assert_eq!(circle_vertex_count(10), 16);
    assert_eq!(circle_vertex_count(15), 16);
    assert_eq!(circle_vertex_count(16), 20);
    assert_eq!(circle_vertex_count(u32::MAX), 4 + 4 * 65535);
    for r in 0..200 {
        assert_eq!(circle_vertex_count(r) % 4, 0);
    }
}

#[test]
fn texts_compare_by_characters() {
    assert!(same_text("wall", "wall"));
    assert!(!same_text("wall", "walls"));
    assert!(!same_text("Wall", "wall"));
    assert!(same_text("", ""));
}
