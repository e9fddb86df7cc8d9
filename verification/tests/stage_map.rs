use hackceler8::big_sprite::{AnimState, Animation, BigSprite, Frame};
use hackceler8::door::{DoorProperties, Orientation};
use hackceler8::entity::Hitbox;
use hackceler8::map::{
    flag_count, get_scroll, is_off_screen, scroll_steps, Bitmask, StageMap,
};
use hackceler8::vdp::Palette;
use hackceler8::map_data::{Array2d, MapData};
use hackceler8::player::{Player, PlayerType, Status};
use hackceler8::res::{ItemType, MapType};

fn sprite(n: usize) -> BigSprite {
    let mut a = Vec::new();
    for _ in 0..n {
        a.push(Animation { loops: true, frames: vec![Frame { tile_offs: 0, duration: 4 }] });
    }
    BigSprite {
        vram_start_tile: 0,
        tiles_idx: 0,
        sprites: vec![],
        animation_state: AnimState::new(&a),
        anims: a,
        w: 2,
        h: 2,
        x: 0,
        y: 0,
        flip_v: false,
        flip_h: false,
        priority: false,
        singleton: false,
        singleton_tile_offs: 0,
        tileset_shift: 0,
    }
}

fn map_data() -> MapData {
    MapData::new(
        0,
        100,
        50,
        Array2d::new(vec![0u16; 5000], 100, 50),
        Array2d::new(vec![0u8; 5000], 100, 50),
        Palette::A,
        (400, 300),
    )
}

fn player() -> Player {
    Player::new(PlayerType::Shooter, sprite(15), None)
}

#[test]
fn off_screen_has_fifty_pixels_of_leeway() {
    assert!(is_off_screen(0, 200));
    assert!(!is_off_screen(128, 128));
    assert!(!is_off_screen(78, 200));
    assert!(is_off_screen(77, 200));
    assert!(!is_off_screen(498, 200));
    assert!(is_off_screen(499, 200));
    assert!(is_off_screen(200, 403));
}

#[test]
fn scroll_keeps_the_player_in_the_middle_band() {
    let mut p = player();
    p.x = 300;
    p.y = 200;
    assert_eq!(get_scroll(&p), (-12, 4));
    p.x = 260;
    p.y = 210;
    assert_eq!(get_scroll(&p), (0, 0));
}

#[test]
fn a_new_stage_centers_the_spawn_within_the_map() {
    let mut p = player();
    let map = StageMap::new(MapType::Forest, map_data(), &mut p);
    assert_eq!(p.x, 268);
    assert_eq!(p.y, 228);
    assert_eq!(p.status, Status::BeamingIn { sprite_y: 0 });
    assert_eq!(map.scroll_offset, (240, 176));
    assert_eq!(map.plane_window.current_scroll(), (0, 0));
    assert_eq!(map.doors.len(), 0);
    assert_eq!(map.inventory.weapons.len(), 3);
}

#[test]
fn normalize_stops_at_the_map_edges() {
    let mut p = player();
    let map = StageMap::new(MapType::Forest, map_data(), &mut p);
    assert_eq!(map.normalize((-1000, 1000)), (-480 + 240, 176));
    assert_eq!(map.normalize((10, -5)), (10, 0));
}

#[test]
fn doors_load_once_and_a_key_unlocks_them() {
    let mut p = player();
    let mut map = StageMap::new(MapType::Forest, map_data(), &mut p);
    let props = DoorProperties { id: 2, locked: true, orientation: Orientation::Horizontal };
    assert!(map.should_load_door(300, 250, 2, -240, -176));
    map.add_door(300, 250, &props, -240, -176, sprite(6));
    assert!(!map.should_load_door(300, 250, 2, -240, -176));
    assert_eq!(map.doors.len(), 1);
    assert!(map.doors[0].locked);
    assert!(!map.doors[0].open);
    map.inventory.add(ItemType::Key);
    let reach = map.doors[0].hitbox();
    let far = Hitbox { x: reach.x + 200, y: reach.y, w: 10, h: 10 };
    assert!(!map.unlock_nearby_door(far, &vec![props]));
    assert!(map.unlock_nearby_door(reach, &vec![props]));
    assert!(!map.doors[0].locked);
    assert!(map.doors_unlocked.is_set(2));
    assert!(!map.inventory.contains(ItemType::Key));
}

#[test]
fn a_door_without_keyhole_stays_locked() {
    let mut p = player();
    let mut map = StageMap::new(MapType::Forest, map_data(), &mut p);
    let props = DoorProperties { id: 1, locked: false, orientation: Orientation::Vertical };
    map.doors_locked.set(1);
    map.add_door(300, 250, &props, -240, -176, sprite(6));
    assert!(map.doors[0].locked);
    let reach = map.doors[0].hitbox();
    assert!(!map.unlock_nearby_door(reach, &vec![props]));
}

#[test]
fn scrolling_drops_what_leaves_the_screen() {
    let mut p = player();
    let mut map = StageMap::new(MapType::Forest, map_data(), &mut p);
    let props = DoorProperties { id: 2, locked: false, orientation: Orientation::Horizontal };
    map.add_door(300, 250, &props, -240, -176, sprite(6));
    let x0 = map.doors[0].x;
    map.scroll_entities(&mut p, -10, 0);
    assert_eq!(map.doors[0].x, x0 - 10);
    assert_eq!(p.x, 258);
    map.scroll_entities(&mut p, -1000, 0);
    assert_eq!(map.doors.len(), 0);
    assert!(!map.doors_loaded.is_set(2));
    assert_eq!(p.x, -742);
}

#[test]
fn flags_come_from_the_solved_stages() {
    let tables = vec![vec![None, Some(0), Some(2)], vec![Some(5)], vec![], vec![], vec![Some(1), Some(9)]];
    assert_eq!(flag_count(&tables[0]), 2);
    assert_eq!(StageMap::get_flags_for_maps(true, false, false, false, false, &tables), 2);
    assert_eq!(StageMap::get_flags_for_maps(true, true, false, false, true, &tables), 8);
    assert_eq!(StageMap::get_flags_for_maps(false, false, true, true, false, &tables), 0);
}

#[test]
fn scrolls_go_a_tile_at_a_time() {
    assert_eq!(scroll_steps(20, -3), vec![(8, -3), (8, 0), (4, 0)]);
    assert_eq!(scroll_steps(0, 0), vec![]);
}

#[test]
fn a_scroll_step_exposes_a_tile_column() {
    let mut p = player();
    let mut map = StageMap::new(MapType::Forest, map_data(), &mut p);
    let t = map.scroll_tiles_step(8, 0);
    assert_eq!(map.scroll_offset, (232, 176));
    assert_eq!(t.h_scroll, -504);
    assert_eq!(t.columns, (29, 30));
    assert_eq!(t.column_addr.0, 63);
    assert_eq!(t.rows, (22, 22));
    let t2 = map.scroll_tiles_step(-8, 0);
    assert_eq!(map.scroll_offset, (240, 176));
    assert_eq!(t2.columns, (40 + 29 + 1, 40 + 30 + 1));
}

#[test]
fn bitmask_marks_and_unmarks() {
    let mut m = Bitmask::new();
    m.set(3);
    m.set(5);
    assert!(m.is_set(3));
    m.clear(3);
    assert!(!m.is_set(3));
    assert!(m.is_set(5));
    assert_eq!(Bitmask::all_set().0, 0xFFFFFFF);
}

#[test]
fn no_boss_no_boss_health() {
    let mut p = player();
    let map = StageMap::new(MapType::Forest, map_data(), &mut p);
    assert_eq!(map.boss_health(), None);
}
