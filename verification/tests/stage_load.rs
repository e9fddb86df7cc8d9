use hackceler8::big_sprite::{AnimState, Animation, BigSprite, Frame};
use hackceler8::door::{DoorProperties, Orientation};
use hackceler8::entity::Hitbox;
use hackceler8::enemy::{harmless_stats, EnemyProperties};
use hackceler8::map::{Bitmask, StageMap};
use hackceler8::map_data::{Array2d, MapData};
use hackceler8::player::{Player, PlayerType};
use hackceler8::res::{EnemyType, ItemType, MapType};
use hackceler8::switch::SwitchProperties;
use hackceler8::resource_state::State;
use hackceler8::vdp::{Palette, Tile, Vdp};

fn sprite(n: usize) -> BigSprite {
    let mut a = Vec::new();
    for _ in 0..n {
        a.push(Animation { loops: true, frames: vec![Frame { tile_offs: 0, duration: 4 }] });
    }
    BigSprite {
        vram_start_tile: 0,
        tiles_idx: 0,
        sprites: vec![],
        animation_state: AnimState::new(&a),
        anims: a,
        w: 2,
        h: 2,
        x: 0,
        y: 0,
        flip_v: false,
        flip_h: false,
        priority: false,
        singleton: false,
        singleton_tile_offs: 0,
        tileset_shift: 0,
    }
}

fn stage() -> StageMap {
    let mut p = Player::new(PlayerType::Shooter, sprite(15), None);
    let md = MapData::new(0, 100, 50, Array2d::new(vec![0u16; 5000], 100, 50), Array2d::new(vec![0u8; 5000], 100, 50), Palette::A, (400, 300));
    StageMap::new(MapType::Forest, md, &mut p)
}

fn door(id: u16, locked: bool) -> DoorProperties {
    DoorProperties { id, locked, orientation: Orientation::Horizontal }
}

#[test]
fn doors_near_the_screen_load_once() {
    let mut m = stage();
    m.doors_unlocked.set(2);
    let placements = vec![
        (100i16, 100i16, door(0, false)),
        (1000, 100, door(1, false)),
        (50, 50, door(0, false)),
        (200, 200, door(2, true)),
        (-60, 0, door(3, false)),
    ];
    let picked = m.doors_to_load(&placements, 0, 0);
    assert_eq!(picked, vec![0, 3]);
    m.load_doors(&placements, 0, 0, vec![sprite(4), sprite(4)]);
    assert_eq!(m.doors.len(), 2);
    assert_eq!((m.doors[0].id, m.doors[0].x, m.doors[0].y), (0, 100 + 128 - 24, 100 + 128 - 8));
    assert!(!m.doors[0].locked && !m.doors[0].open);
    assert_eq!(m.doors[1].id, 2);
    assert!(!m.doors[1].locked && m.doors[1].open);
    assert_eq!(m.doors_loaded.0, 0b101);
    // A second pass finds everything near the screen loaded already.
    assert_eq!(m.doors_to_load(&placements, 0, 0), Vec::<usize>::new());
    m.load_doors(&placements, 0, 0, vec![]);
    assert_eq!(m.doors.len(), 2);
    // Scrolling brings the far door in.
    assert_eq!(m.doors_to_load(&placements, -800, 0), vec![1]);
}

#[test]
fn a_door_locked_behind_the_player_stays_locked() {
    let mut m = stage();
    m.doors_locked.set(4);
    let placements = vec![(100i16, 100i16, door(4, false))];
    m.load_doors(&placements, 0, 0, vec![sprite(4)]);
    assert!(m.doors[0].locked && !m.doors[0].open);
}

#[test]
fn switches_show_whether_their_event_was_completed() {
    let mut m = stage();
    m.switches_completed.set(1);
    let placements = vec![
        (10i16, 10i16, SwitchProperties { id: 0, event_id: 0 }),
        (20, 20, SwitchProperties { id: 1, event_id: 1 }),
        (2000, 20, SwitchProperties { id: 2, event_id: 1 }),
    ];
    assert_eq!(m.switches_to_load(&placements, 0, 0), vec![0, 1]);
    m.load_switches(&placements, 0, 0, vec![sprite(2), sprite(2)]);
    assert_eq!(m.switches.len(), 2);
    assert_eq!((m.switches[0].x, m.switches[0].y), (10 + 128 - 8, 10 + 128 - 8));
    assert_eq!(m.switches[0].sprite.current_animation(), 0);
    assert_eq!(m.switches[1].sprite.current_animation(), 1);
    assert_eq!(m.switches[1].event_id, 1);
    assert_eq!(m.switches_loaded.0, 0b11);
}

fn props(id: u16, flags: Option<u16>) -> EnemyProperties {
    EnemyProperties { id, speed: None, health: None, strength: None, invulnerable: false, flags }
}

#[test]
fn defeated_enemies_and_minibosses_stay_away() {
    let mut m = stage();
    m.enemies_defeated.set(1);
    let placements = vec![
        (EnemyType::Angel, 100i16, 100i16, props(0, None)),
        (EnemyType::Angel, 120, 100, props(1, None)),
        (EnemyType::BlobMiniboss, 140, 100, props(2, Some(3))),
        (EnemyType::AngelMiniboss, 160, 100, props(3, Some(2))),
    ];
    // BlobMiniboss was beaten earlier in the game.
    let beaten = 1u32 << 3;
    assert_eq!(m.enemies_to_load(&placements, 0, 0, beaten), vec![0, 3]);
    m.load_enemies(&placements, 0, 0, beaten, vec![(sprite(5), harmless_stats()), (sprite(5), harmless_stats())]);
    assert_eq!(m.enemies.len(), 2);
    assert_eq!((m.enemies[0].id, m.enemies[0].x, m.enemies[0].y), (0, 100 + 128 - 12, 100 + 128 - 16));
    assert_eq!(m.enemies[1].enemy_type, EnemyType::AngelMiniboss);
    assert_eq!(m.enemies[1].flags, 2);
    assert_eq!(m.enemies_loaded.0, 0b1001);
    // Without the earlier win the miniboss shows up too.
    let mut fresh = stage();
    fresh.enemies_defeated.set(1);
    assert_eq!(fresh.enemies_to_load(&placements, 0, 0, 0), vec![0, 2, 3]);
}

fn tiled_map() -> MapData {
    let gfx: Vec<u16> = (0..2000).map(|i| (i % 5) as u16).collect();
    MapData::new(0, 50, 40, Array2d::new(gfx, 50, 40), Array2d::new(vec![0u8; 2000], 50, 40), Palette::B, (200, 160))
}

fn tiles() -> State {
    State::init(vec![vec![Tile([0u8; 32]); 5]])
}

#[test]
fn a_scroll_step_draws_the_tiles_it_exposes() {
    let mut p = Player::new(PlayerType::Shooter, sprite(15), None);
    let mut m = StageMap::new(MapType::Forest, tiled_map(), &mut p);
    let loads = m.scroll_tiles_step(-8, -8);
    assert!(loads.columns.0 < loads.columns.1);
    assert!(loads.rows.0 < loads.rows.1);
    let mut vdp = Vdp::new();
    let mut res = tiles();
    m.load_exposed_tiles(&loads, &mut vdp, &mut res);
    assert_eq!(m.map_data.start_tile, Some(1));
    assert!(vdp.plane_a.iter().any(|c| c.0 != 0));

    // The same tiles drawn one column and one row at a time.
    let mut md = tiled_map();
    let mut want = Vdp::new();
    let mut res2 = tiles();
    for x in loads.columns.0..loads.columns.1 {
        md.load_tile_column(x, m.scroll_offset.1 / 8, loads.column_addr, &mut want, &mut res2);
    }
    for y in loads.rows.0..loads.rows.1 {
        md.load_tile_row(m.scroll_offset.0 / 8, y, loads.row_addr, &mut want, &mut res2);
    }
    assert_eq!(vdp.plane_a, want.plane_a);
}

#[test]
fn redrawing_shows_the_view_again() {
    let mut p = Player::new(PlayerType::Shooter, sprite(15), None);
    let mut m = StageMap::new(MapType::Forest, tiled_map(), &mut p);
    let _ = m.scroll_tiles_step(-5, 3);
    let (ox, oy) = m.scroll_offset;
    let mut vdp = Vdp::new();
    let mut res = tiles();
    let (h, v) = m.redraw(&mut vdp, &mut res);
    let (wx, wy) = m.plane_window.current_scroll();
    assert_eq!(wx as i16, (ox % 8).rem_euclid(512));
    assert_eq!(wy as i16, (oy % 8).rem_euclid(512));
    assert_eq!((h, v), (-(wx as i16), wy as i16));
    assert_eq!(m.map_data.start_tile, Some(1));
    let mut md = tiled_map();
    let mut want = Vdp::new();
    let mut res2 = tiles();
    md.load_to_vram(ox / 8, oy / 8, &mut want, &mut res2);
    assert_eq!(vdp.plane_a, want.plane_a);
    assert!(vdp.plane_a.iter().any(|c| c.0 != 0));
}

#[test]
fn a_long_scroll_goes_a_tile_at_a_time() {
    let mut p = Player::new(PlayerType::Shooter, sprite(15), None);
    let mut m = StageMap::new(MapType::Forest, tiled_map(), &mut p);
    let mut p2 = Player::new(PlayerType::Shooter, sprite(15), None);
    let mut m2 = StageMap::new(MapType::Forest, tiled_map(), &mut p2);
    let (ox, oy) = m.scroll_offset;
    let mut vdp = Vdp::new();
    let mut res = tiles();
    let regs = m.scroll_tiles(-21, 10, &mut vdp, &mut res);
    assert_eq!(m.scroll_offset, (ox + 21, oy - 10));
    let (wx, wy) = m.plane_window.current_scroll();
    assert_eq!(regs, (-(wx as i16), wy as i16));

    let mut want = Vdp::new();
    let mut res2 = tiles();
    let steps = hackceler8::map::scroll_steps(-21, 10);
    assert_eq!(steps, vec![(-8, 8), (-8, 2), (-5, 0)]);
    for (sx, sy) in steps {
        let loads = m2.scroll_tiles_step(sx, sy);
        m2.load_exposed_tiles(&loads, &mut want, &mut res2);
    }
    assert_eq!(vdp.plane_a, want.plane_a);
    assert_eq!(m.plane_window.current_scroll(), m2.plane_window.current_scroll());
    assert!(vdp.plane_a.iter().any(|c| c.0 != 0));
}

#[test]
fn collected_items_do_not_come_back() {
    let mut m = stage();
    m.items_collected.set(1);
    let placements = vec![
        (ItemType::Key, 10i16, 10i16, 0u16),
        (ItemType::Battery, 20, 20, 1),
        (ItemType::Dash, 3000, 20, 2),
        (ItemType::Key, 30, 30, 3),
    ];
    assert_eq!(m.load_items(&placements, 0, 0), vec![0, 3]);
    assert_eq!(m.items_loaded.0, 0b1001);
    // Loaded items are not loaded again.
    assert_eq!(m.load_items(&placements, 0, 0), Vec::<usize>::new());
    assert_eq!(m.load_items(&placements, -2800, 0), vec![2]);
}

#[test]
fn characters_load_once() {
    let mut m = stage();
    let placements = vec![(0u16, 10i16, 10i16, 0u16), (1, 12, 10, 0), (1, 100, 100, 5)];
    assert_eq!(m.load_npcs(&placements, 0, 0), vec![0, 2]);
    assert_eq!(m.npcs_loaded.0, 0b100001);
}

#[test]
fn the_view_follows_the_player_to_the_map_edge() {
    let mut p = Player::new(PlayerType::Shooter, sprite(15), None);
    let mut m = StageMap::new(MapType::Forest, tiled_map(), &mut p);
    let mut vdp = Vdp::new();
    let mut res = tiles();
    // The player stands in the middle band: nothing moves.
    let (ox, oy) = m.scroll_offset;
    let (px, py) = (p.x, p.y);
    assert_eq!(m.maybe_scroll_map(&mut p, &mut vdp, &mut res), None);
    assert_eq!(m.scroll_offset, (ox, oy));
    assert_eq!((p.x, p.y), (px, py));
    // Far to the right: the view scrolls, but not past the map's right edge
    // (50 tiles, 400 pixels, of which the screen shows 320).
    p.x = 400;
    let regs = m.maybe_scroll_map(&mut p, &mut vdp, &mut res);
    assert!(regs.is_some());
    let d = ox - m.scroll_offset.0;
    assert_eq!(m.scroll_offset.0, 80);
    assert_eq!(p.x, 400 + d);
    assert_eq!(m.scroll_offset.1, oy);
}

#[test]
fn a_door_locked_behind_the_player_comes_back_locked() {
    let mut p = Player::new(PlayerType::Shooter, sprite(15), None);
    let mut m = StageMap::new(MapType::Forest, tiled_map(), &mut p);
    let placements = vec![(100i16, 100i16, door(0, false))];
    m.load_doors(&placements, 0, 0, vec![sprite(4)]);
    assert!(!m.doors[0].open && !m.doors[0].locked);
    // The door stands open; the player walks in from above ...
    m.doors[0].open = true;
    let above = Hitbox { x: 210, y: 200, w: 24, h: 32 };
    assert!(!m.update_door(0, above, true));
    assert_eq!(m.doors[0].entry_side, Some(false));
    // ... and out below, still close by: the door locks behind them.
    let below = Hitbox { x: 210, y: 240, w: 24, h: 32 };
    assert!(m.update_door(0, below, true));
    assert!(m.doors[0].locked && !m.doors[0].open);
    assert!(m.doors_locked.is_set(0));
    assert!(!m.doors_unlocked.is_set(0));
    // Far away, the door is unloaded ...
    m.scroll_entities(&mut p, -1000, 0);
    assert!(m.doors.is_empty());
    assert!(!m.doors_loaded.is_set(0));
    // ... and comes back locked.
    m.load_doors(&placements, 0, 0, vec![sprite(4)]);
    assert!(m.doors[0].locked && !m.doors[0].open);
}

#[test]
fn only_an_active_player_pushes_a_door_open() {
    let mut p = Player::new(PlayerType::Shooter, sprite(15), None);
    let mut m = StageMap::new(MapType::Forest, tiled_map(), &mut p);
    m.load_doors(&vec![(100i16, 100i16, door(0, false))], 0, 0, vec![sprite(4)]);
    // Touching the door from above.
    let touching = Hitbox { x: 210, y: 189, w: 24, h: 32 };
    assert!(!m.update_door(0, touching, false));
    assert_eq!(m.doors[0].sprite.current_animation(), 0);
    assert!(!m.update_door(0, touching, true));
    assert_eq!(m.doors[0].sprite.current_animation(), 2);
}

#[test]
fn a_door_opened_with_a_key_never_locks_again() {
    let mut p = Player::new(PlayerType::Shooter, sprite(15), None);
    let mut m = StageMap::new(MapType::Forest, tiled_map(), &mut p);
    m.doors_unlocked.set(0);
    m.load_doors(&vec![(100i16, 100i16, door(0, true))], 0, 0, vec![sprite(4)]);
    assert!(m.doors[0].open && !m.doors[0].locked);
    assert!(!m.update_door(0, Hitbox { x: 210, y: 200, w: 24, h: 32 }, true));
    assert!(!m.update_door(0, Hitbox { x: 210, y: 240, w: 24, h: 32 }, true));
    assert!(m.doors[0].open && !m.doors[0].locked);
}

#[test]
fn switches_run_their_events_once() {
    let mut p = Player::new(PlayerType::Shooter, sprite(15), None);
    let mut m = StageMap::new(MapType::Forest, tiled_map(), &mut p);
    let enemies = vec![
        (EnemyType::Angel, 100i16, 100i16, props(0, None)),
        (EnemyType::Angel, 120, 100, props(1, None)),
    ];
    m.load_enemies(&enemies, 0, 0, 0, vec![(sprite(5), harmless_stats()), (sprite(5), harmless_stats())]);
    m.doors_locked.set(0);
    m.load_doors(&vec![(100i16, 100i16, door(0, false)), (200, 100, door(1, false))], 0, 0, vec![sprite(4), sprite(4)]);
    assert!(m.doors[0].locked);
    let switches = vec![
        (10i16, 10i16, SwitchProperties { id: 0, event_id: 0 }),
        (20, 10, SwitchProperties { id: 1, event_id: 1 }),
        (30, 10, SwitchProperties { id: 2, event_id: 1 }),
    ];
    m.load_switches(&switches, 0, 0, vec![sprite(2), sprite(2), sprite(2)]);
    // Nothing pending: nothing happens.
    m.update_switches();
    assert_eq!(m.switches_completed.0, 0);
    assert!(m.enemies.iter().all(|e| e.is_alive()));
    // Switches 1 and 2 were hit: door 0 opens, and only it.
    m.press_switches(0b110);
    m.update_switches();
    assert_eq!(m.switches_completed.0, 0b110);
    assert!(m.switches.iter().all(|s| !s.pending));
    assert_eq!(m.switches[1].sprite.current_animation(), 1);
    assert_eq!(m.switches[0].sprite.current_animation(), 0);
    assert!(!m.doors[0].locked);
    assert_eq!(m.doors[0].sprite.current_animation(), 2);
    assert_eq!(m.doors[1].sprite.current_animation(), 0);
    assert!(m.doors_unlocked.is_set(0) && !m.doors_locked.is_set(0));
    assert!(m.enemies.iter().all(|e| e.is_alive()));
    // Switch 0 removes the enemies.
    m.press_switches(0b1);
    m.update_switches();
    assert_eq!(m.switches_completed.0, 0b111);
    assert!(m.enemies.iter().all(|e| !e.is_alive()));
    // A switch fires once: the next tick runs nothing.
    m.doors_locked.set(0);
    m.update_switches();
    assert!(m.doors_locked.is_set(0));
    assert!(m.switches.iter().all(|s| !s.pending));
}

fn door_sprite() -> BigSprite {
    let mut s = sprite(4);
    s.anims[2] = Animation { loops: false, frames: vec![Frame { tile_offs: 0, duration: 2 }, Frame { tile_offs: 4, duration: 2 }] };
    s
}

#[test]
fn a_pushed_door_finishes_opening() {
    let mut p = Player::new(PlayerType::Shooter, sprite(15), None);
    let mut m = StageMap::new(MapType::Forest, tiled_map(), &mut p);
    m.load_doors(&vec![(100i16, 100i16, door(0, false))], 0, 0, vec![door_sprite()]);
    let touching = Hitbox { x: 210, y: 189, w: 24, h: 32 };
    let away = Hitbox { x: 0, y: 0, w: 24, h: 32 };
    assert!(!m.update_door(0, touching, true));
    assert_eq!(m.doors[0].sprite.current_animation(), 2);
    let mut ticks = 0;
    while !m.doors[0].open && ticks < 20 {
        assert!(!m.update_door(0, away, true));
        ticks += 1;
    }
    assert!(m.doors[0].open);
    assert!(ticks > 1 && ticks < 10);
}

#[test]
fn items_and_characters_that_left_the_screen_can_load_again() {
    let mut m = stage();
    m.items_loaded = Bitmask(0b110);
    m.npcs_loaded = Bitmask(0b1);
    m.unload_items(&vec![(1u16, 1000i16, 200i16), (2u16, 200i16, 200i16)]);
    assert_eq!(m.items_loaded, Bitmask(0b100));
    m.unload_npcs(&vec![(0u16, 200i16, 20i16)]);
    assert_eq!(m.npcs_loaded, Bitmask(0));
}

#[test]
fn a_frame_of_doors_ticks_each_door() {
    let mut p = Player::new(PlayerType::Shooter, sprite(15), None);
    let mut m = StageMap::new(MapType::Forest, tiled_map(), &mut p);
    m.load_doors(&vec![(100i16, 100i16, door(0, false)), (100i16, 150i16, door(1, false))], 0, 0, vec![door_sprite(), door_sprite()]);
    let touching = Hitbox { x: 210, y: 189, w: 24, h: 32 };
    let locks = m.update_doors(touching, true);
    assert_eq!(locks, vec![false, false]);
    assert_eq!(m.doors.len(), 2);
    assert_eq!(m.doors[0].sprite.current_animation(), 2);
    assert!(!m.doors[0].open && !m.doors[1].open);
}
