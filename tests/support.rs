use macos_tweaks::app::get_app_version;
use macos_tweaks::config::{ColorScheme, Config};
use macos_tweaks::sokoban::{SokobanGame, Tile};
use macos_tweaks::text::{contains_str, eq_ignore_ascii_case_str, fill_template};

#[test]
fn version_is_package_version() {
    assert_eq!(get_app_version(), "0.1.0");
}

#[test]
fn hex_colours_parse() {
    assert_eq!(ColorScheme::hex_to_rgb("#fe640b"), Some((254, 100, 11)));
    assert_eq!(ColorScheme::hex_to_rgb("##00FF00"), Some((0, 255, 0)));
    assert_eq!(ColorScheme::hex_to_rgb("808080"), Some((128, 128, 128)));
    assert_eq!(ColorScheme::hex_to_rgb("+f+f+f"), Some((15, 15, 15)));
    assert_eq!(ColorScheme::hex_to_rgb("#fff"), None);
    assert_eq!(ColorScheme::hex_to_rgb("#zz0000"), None);
    assert_eq!(ColorScheme::hex_to_rgb("#-10000"), None);
    assert_eq!(ColorScheme::hex_to_rgb("#é00000"), None);
}

#[test]
fn colour_lookup_falls_back_to_primary() {
    let config = Config::default();
    assert_eq!(config.theme, "default");
    let scheme = config.get_color_scheme();
    assert_eq!(scheme.rgb_of("error"), Some((255, 0, 0)));
    assert_eq!(scheme.rgb_of("text_dim"), Some((128, 128, 128)));
    assert_eq!(scheme.rgb_of("nonsense"), Some((254, 100, 11)));
    assert_eq!(scheme.color_hex("warning"), "#ffa500");
    let mut broken = ColorScheme::default();
    broken.accent = "green".to_string();
    assert_eq!(broken.rgb_of("accent"), None);
}

#[test]
fn text_helpers() {
    assert_eq!(fill_template("a {} b {}", "x"), "a x b x");
    assert_eq!(fill_template("{{}}", "v"), "{v}");
    assert_eq!(fill_template("none", "v"), "none");
    assert!(contains_str("hello world", "o w"));
    assert!(!contains_str("hello", "hello!"));
    assert!(contains_str("abc", ""));
    assert!(eq_ignore_ascii_case_str("Small (32PX)", "small (32px)"));
    assert!(!eq_ignore_ascii_case_str("a", "b"));
}

#[test]
fn puzzle_layout() {
    let g = SokobanGame::new();
    assert_eq!(g.level.len(), 7);
    assert!(g.level.iter().all(|r| r.len() == 10));
    assert_eq!(g.player, (3, 2));
    assert_eq!(g.boxes, vec![(4, 2), (6, 4)]);
    assert_eq!(g.moves, 0);
    assert!(!g.is_complete);
    assert_eq!(g.level[1][3], Tile::Target);
    assert_eq!(g.level[0][2], Tile::Wall);
    assert_eq!(g.level[0][0], Tile::Floor);
}

#[test]
fn puzzle_moves_and_pushes() {
    let mut g = SokobanGame::new();
    g.move_player(-1, 0);
    assert_eq!(g.player, (3, 2));
    assert_eq!(g.moves, 0);
    g.move_player(1, 0);
    assert_eq!(g.player, (4, 2));
    assert_eq!(g.boxes[0], (5, 2));
    assert_eq!(g.moves, 1);
    g.move_player(0, -1);
    assert_eq!(g.player, (4, 1));
    g.reset();
    assert_eq!(g.player, (3, 2));
    assert_eq!(g.moves, 0);
}
