use hackceler8::ui::{bar_fill, bar_update, centered_x, char_tile, BarUpdate, HudUpdate, PlacedTile, UI};

#[test]
fn font_tiles() {
    assert_eq!(char_tile(b'A'), 36);
    assert_eq!(char_tile(b'a'), 10);
    assert_eq!(char_tile(b'0'), 0);
    assert_eq!(char_tile(b' '), 94);
    assert_eq!(char_tile(b'!'), 62);
    assert_eq!(char_tile(b':'), 77);
    assert_eq!(char_tile(b'~'), 93);
    assert_eq!(char_tile(200), 82);
    assert_eq!(char_tile(0), 82);
}

#[test]
fn text_is_drawn_left_to_right() {
    assert_eq!(
        UI::draw_text(b"C:1", 24, 1),
        vec![
            PlacedTile { tile: 38, x: 24, y: 1 },
            PlacedTile { tile: 77, x: 25, y: 1 },
            PlacedTile { tile: 1, x: 26, y: 1 },
        ]
    );
    assert_eq!(UI::clear_text(2, 4, 14), vec![(4, 14), (5, 14)]);
}

#[test]
fn bars_redraw_only_what_changed() {
    assert_eq!(bar_update(10, 7), Some(BarUpdate { from: 7, to: 10, filled: false }));
    assert_eq!(bar_update(3, 5), Some(BarUpdate { from: 3, to: 5, filled: true }));
    assert_eq!(bar_update(4, 4), None);
    assert_eq!(bar_fill(2, 3), 5);
    assert_eq!(bar_fill(3, 3), 8);
    assert_eq!(bar_fill(5, 0), 0);
    assert_eq!(centered_x(17), 11);
    assert_eq!(centered_x(45), 0);
}

#[test]
fn the_display_draws_changes_only() {
    let mut ui = UI::new();
    let first = ui.render(Some(10), None, 0, 5);
    assert_eq!(
        first,
        HudUpdate {
            first: true,
            health: Some(BarUpdate { from: 0, to: 10, filled: true }),
            boss_health: None,
            flags: None,
            cycles: Some(5),
        }
    );
    let second = ui.render(Some(8), Some(20), 1, 5);
    assert_eq!(
        second,
        HudUpdate {
            first: false,
            health: Some(BarUpdate { from: 8, to: 10, filled: false }),
            boss_health: Some(BarUpdate { from: 0, to: 20, filled: true }),
            flags: Some(1),
            cycles: None,
        }
    );
    let third = ui.render(None, None, 1, 6);
    assert_eq!(third.health, None);
    assert_eq!(third.boss_health, None);
    assert_eq!(third.cycles, Some(6));
    ui.clear();
    assert!(ui.render(None, None, 0, 6).first);
}
