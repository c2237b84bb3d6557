use pixelsprayer::color::Color;
use pixelsprayer::position::Position;

#[test]
fn equal_channels_collapse_to_gray() {
    for v in 0..=255u8 {
        assert_eq!(Color::Rgb(v, v, v).normalize(false), Color::Grayscale(v));
    }
}

#[test]
fn unequal_channels_stay_rgb() {
    assert_eq!(Color::Rgb(1, 2, 3).normalize(false), Color::Rgb(1, 2, 3));
    assert_eq!(Color::Rgb(1, 1, 2).normalize(false), Color::Rgb(1, 1, 2));
    assert_eq!(Color::Rgb(1, 2, 1).normalize(false), Color::Rgb(1, 2, 1));
    assert_eq!(Color::Rgb(1, 2, 3).normalize(true), Color::Rgb(1, 2, 3));
}

#[test]
fn opaque_rgba_normalizes_like_rgb() {
    let samples: [(u8, u8, u8); 6] =
        [(0, 0, 0), (255, 255, 255), (7, 7, 7), (1, 2, 3), (9, 9, 8), (200, 100, 200)];
    for (r, g, b) in samples {
        assert_eq!(Color::Rgba(r, g, b, 255).normalize(false), Color::Rgb(r, g, b).normalize(false));
    }
    assert_eq!(Color::Rgba(7, 7, 7, 255).normalize(false), Color::Grayscale(7));
    assert_eq!(Color::Rgba(1, 2, 3, 255).normalize(false), Color::Rgb(1, 2, 3));
}

#[test]
fn transparent_rgba_is_not_drawn() {
    for v in 0..=255u8 {
        assert_eq!(Color::Rgba(v, 3, 200, 0).normalize(false), Color::Transparent);
        assert_eq!(Color::Rgba(v, v, v, 0).normalize(true), Color::Transparent);
    }
}

#[test]
fn disabled_gray_expands_to_rgb() {
    assert_eq!(Color::Grayscale(9).normalize(true), Color::Rgb(9, 9, 9));
    assert_eq!(Color::Grayscale(9).normalize(false), Color::Grayscale(9));
}

#[test]
fn disabled_gray_still_collapses_equal_channels() {
    // The expansion applies to a gray input only; the later rules are not
    // switched off.
    assert_eq!(Color::Rgb(5, 5, 5).normalize(true), Color::Grayscale(5));
    assert_eq!(Color::Rgba(5, 5, 5, 255).normalize(true), Color::Grayscale(5));
}

#[test]
fn translucent_rgba_is_unchanged() {
    assert_eq!(Color::Rgba(1, 2, 3, 128).normalize(false), Color::Rgba(1, 2, 3, 128));
    assert_eq!(Color::Rgba(4, 4, 4, 1).normalize(false), Color::Rgba(4, 4, 4, 1));
    assert_eq!(Color::Rgba(4, 4, 4, 254).normalize(true), Color::Rgba(4, 4, 4, 254));
}

#[test]
fn transparent_stays_transparent() {
    assert_eq!(Color::Transparent.normalize(false), Color::Transparent);
    assert_eq!(Color::Transparent.normalize(true), Color::Transparent);
}

#[test]
fn position_add_translates() {
    let moved = Position { x: 3, y: 4 }.add(Position { x: 10, y: 20 });
    assert_eq!(moved, Position { x: 13, y: 24 });
    let same = Position { x: 3, y: 4 }.add(Position { x: 0, y: 0 });
    assert_eq!(same, Position { x: 3, y: 4 });
}

#[test]
fn position_add_wraps_around() {
    let moved = Position { x: u32::MAX, y: u32::MAX - 1 }.add(Position { x: 2, y: 1 });
    assert_eq!(moved, Position { x: 1, y: u32::MAX });
}
