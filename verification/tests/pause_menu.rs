use hackceler8::big_sprite::{AnimState, Animation, BigSprite, Frame};
use hackceler8::inventory::{Inventory, InventoryScene};
use hackceler8::pause_menu::{
    bar_text, count_text, decimal_text, frame_text, icon_area_cells, item_box_area, item_box_positions,
    item_content, item_icon_cells, map_name, weapon_labels, Label,
};
use hackceler8::player::{Player, PlayerType, Status};
use hackceler8::res::{ItemType, MapType};
use hackceler8::vdp::{TileFlags, Vdp};
use hackceler8::weapon::WeaponType;

fn sprite(n: usize) -> BigSprite {
    let mut a = Vec::new();
    for _ in 0..n {
        a.push(Animation { loops: true, frames: vec![Frame { tile_offs: 0, duration: 4 }] });
    }
    BigSprite {
        vram_start_tile: 0,
        tiles_idx: 0,
        sprites: vec![],
        animation_state: AnimState::new(&a),
        anims: a,
        w: 2,
        h: 2,
        x: 0,
        y: 0,
        flip_v: false,
        flip_h: false,
        priority: false,
        singleton: true,
        singleton_tile_offs: 0,
        tileset_shift: 0,
    }
}

fn shooter() -> Player {
    let mut p = Player::new(PlayerType::Shooter, sprite(15), None);
    p.status = Status::Idle;
    p
}

fn text(l: &Label) -> String {
    String::from_utf8(l.text.clone()).unwrap()
}

fn at(l: &Label) -> (String, u16, u16) {
    (text(l), l.x, l.y)
}

fn s(t: &str, x: u16, y: u16) -> (String, u16, u16) {
    (t.to_string(), x, y)
}

#[test]
fn decimal_digits() {
    assert_eq!(decimal_text(0), b"0".to_vec());
    assert_eq!(decimal_text(7), b"7".to_vec());
    assert_eq!(decimal_text(108000), b"108000".to_vec());
    assert_eq!(decimal_text(u32::MAX), b"4294967295".to_vec());
}

#[test]
fn bars_show_the_share_left() {
    assert_eq!(bar_text(1, 3), b"[##------] 1/3".to_vec());
    assert_eq!(bar_text(3, 3), b"[########] 3/3".to_vec());
    assert_eq!(bar_text(0, 3), b"[--------] 0/3".to_vec());
    assert_eq!(bar_text(3, 5), b"[####----] 3/5".to_vec());
    // A bar over its maximum stays full; a maximum of zero fills nothing.
    assert_eq!(bar_text(9, 3), b"[########] 9/3".to_vec());
    assert_eq!(bar_text(5, 0), b"[--------] 5/0".to_vec());
    // Twenty characters at most: the maximum is left out when it does not fit.
    assert_eq!(bar_text(8000, 65535), b"[--------] 8000/".to_vec());
    assert_eq!(bar_text(8000, 9000), b"[#######-] 8000/9000".to_vec());
}

#[test]
fn item_counts_are_three_wide() {
    assert_eq!(count_text(0), b"   ".to_vec());
    assert_eq!(count_text(1), b"   ".to_vec());
    assert_eq!(count_text(2), b"x2 ".to_vec());
    assert_eq!(count_text(12), b"x12".to_vec());
    assert_eq!(count_text(100), b"x100".to_vec());
    assert_eq!(count_text(1000), b"x  ".to_vec());
}

#[test]
fn flag_times() {
    assert_eq!(frame_text(0), b"-".to_vec());
    assert_eq!(frame_text(1234), b"1234".to_vec());
    assert_eq!(frame_text(99_999_999), b"99999999".to_vec());
    assert_eq!(frame_text(100_000_000), Vec::<u8>::new());
}

#[test]
fn stage_names() {
    assert_eq!(map_name(MapType::Forest), "Forest");
    assert_eq!(map_name(MapType::Volcano), "Volcano");
    assert_eq!(map_name(MapType::Spaceship), "SpShip");
    assert_eq!(map_name(MapType::Arctic), "Arctic");
    assert_eq!(map_name(MapType::BossStage), "Boss");
}

#[test]
fn weapon_list_marks_the_equipped_weapon() {
    let inv = Inventory::new(&shooter());
    let ls: Vec<(String, u16, u16)> = weapon_labels(&inv, WeaponType::ThreeGun).iter().map(at).collect();
    assert_eq!(
        ls,
        vec![
            s(" ", 4, 12),
            s("Gun", 6, 12),
            s(">", 4, 13),
            s("3-Gun", 6, 13),
            s(" ", 4, 14),
            s("StrngGun", 6, 14),
            s("[########] 3/3", 20, 14),
        ]
    );
}

#[test]
fn item_slots_show_counts_icons_and_the_selection() {
    let mut inv = Inventory::new(&shooter());
    inv.add(ItemType::Battery);
    inv.add(ItemType::Battery);
    inv.add(ItemType::Dash);
    inv.scene = Some(InventoryScene { selection: Some(1), needs_refresh: false });
    let c = item_content(&inv);
    assert_eq!(c.labels.len(), 16);
    assert_eq!(at(&c.labels[0]), s(" ", 6, 17));
    assert_eq!(at(&c.labels[1]), s("x2 ", 5, 22));
    assert_eq!(at(&c.labels[2]), s("v", 10, 17));
    assert_eq!(at(&c.labels[3]), s("   ", 9, 22));
    assert_eq!(at(&c.labels[15]), s("   ", 33, 22));
    let mut icons = vec![Some(ItemType::Battery), Some(ItemType::Dash)];
    icons.extend(vec![None; 6]);
    assert_eq!(c.icons, icons);
}

#[test]
fn item_icon_sits_in_the_middle_of_its_slot() {
    let cells = item_icon_cells(ItemType::Battery, 4, 18, 100);
    assert_eq!(
        cells,
        vec![
            (19 * 64 + 5, TileFlags(0xA000 | 104)),
            (20 * 64 + 5, TileFlags(0xA000 | 105)),
            (19 * 64 + 6, TileFlags(0xA000 | 106)),
            (20 * 64 + 6, TileFlags(0xA000 | 107)),
        ]
    );
    let area = icon_area_cells(4, 18);
    assert_eq!(area.len(), 16);
    assert_eq!(area[0], (4, 18));
    assert_eq!(area[3], (7, 18));
    assert_eq!(area[4], (4, 19));
    assert_eq!(area[15], (7, 21));
}

#[test]
fn item_boxes_on_the_scrolled_plane() {
    let p = item_box_positions();
    assert_eq!(p, vec![(4, 30), (8, 30), (12, 30), (16, 30), (20, 30), (24, 30), (28, 30), (32, 30)]);
    let a = item_box_area();
    assert_eq!(a.len(), 128);
    assert_eq!(a[0], (4, 30));
    assert_eq!(a[31], (35, 30));
    assert_eq!(a[32], (4, 31));
    assert_eq!(a[127], (35, 33));
}

#[test]
fn opening_the_menu_draws_frame_and_texts() {
    let mut inv = Inventory::new(&shooter());
    inv.add(ItemType::Key);
    let mut vdp = Vdp::new();
    vdp.plane_a[64 * 5 + 7] = TileFlags(0x1234);
    vdp.plane_a[64 * 5 + 50] = TileFlags(0x1234);
    let frames = vec![0u32, 120, 0, 0, 0];
    let c = InventoryScene::on_enter(&mut inv, MapType::Volcano, 3, 5, &frames, WeaponType::Gun, &mut vdp);
    let scene = inv.scene.unwrap();
    assert_eq!(scene.selection, None);
    assert!(!scene.needs_refresh);
    // The frame: border rows 0 and 27, border columns 0 and 39, the inside cleared.
    assert_eq!(vdp.plane_a[0], TileFlags(0xC001));
    assert_eq!(vdp.plane_a[39], TileFlags(0xC001));
    assert_eq!(vdp.plane_a[64 * 5], TileFlags(0xC001));
    assert_eq!(vdp.plane_a[64 * 5 + 39], TileFlags(0xC001));
    assert_eq!(vdp.plane_a[64 * 27 + 20], TileFlags(0xC001));
    assert_eq!(vdp.plane_a[64 * 5 + 7], TileFlags(0));
    assert_eq!(vdp.plane_a[64 * 28 + 3], TileFlags(0));
    // Columns past the screen keep what they held.
    assert_eq!(vdp.plane_a[64 * 5 + 50], TileFlags(0x1234));

    let ls: Vec<(String, u16, u16)> = c.labels.iter().map(at).collect();
    assert_eq!(ls.len(), 6 + 10 + 2 + 7 + 16 + 2);
    assert_eq!(ls[0], s("== GAME PAUSED ==", 11, 2));
    assert_eq!(ls[1], s("Stage:", 5, 4));
    assert_eq!(ls[2], s("Volcano", 16, 4));
    assert_eq!(ls[3], s("Health:", 5, 5));
    assert_eq!(ls[4], s("[####----] 3/5", 16, 5));
    assert_eq!(ls[5], s("Flag score speed:", 2, 7));
    assert_eq!(ls[6], s("Forest", 2, 8));
    assert_eq!(ls[7], s("-", 2, 9));
    assert_eq!(ls[8], s("Volcano", 9, 8));
    assert_eq!(ls[9], s("120", 9, 9));
    assert_eq!(ls[10], s("SpShip", 17, 8));
    assert_eq!(ls[12], s("Arctic", 24, 8));
    assert_eq!(ls[14], s("Boss", 31, 8));
    assert_eq!(ls[15], s("-", 31, 9));
    assert_eq!(ls[16], s("Weapons:", 5, 11));
    assert_eq!(ls[17], s("Items:", 5, 16));
    assert_eq!(ls[18], s(">", 4, 12));
    assert_eq!(ls[19], s("Gun", 6, 12));
    assert_eq!(ls[24], s("[########] 3/3", 20, 14));
    assert_eq!(ls[25], s(" ", 6, 17));
    assert_eq!(ls[26], s("   ", 5, 22));
    assert_eq!(ls[41], s("L/R: item      U/D: weapon      B: use", 1, 23));
    assert_eq!(ls[42], s("Press START to resume", 9, 25));
    assert_eq!(c.icons[0], Some(ItemType::Key));
    assert_eq!(c.icons[1], None);
}

#[test]
fn the_menu_redraws_only_after_a_change() {
    let mut inv = Inventory::new(&shooter());
    let mut vdp = Vdp::new();
    let frames = vec![0u32; 5];
    let _ = InventoryScene::on_enter(&mut inv, MapType::Forest, 1, 1, &frames, WeaponType::Gun, &mut vdp);
    assert!(InventoryScene::render(&mut inv, WeaponType::Gun).is_none());
    inv.scene = Some(InventoryScene { selection: Some(0), needs_refresh: true });
    let c = InventoryScene::render(&mut inv, WeaponType::Gun).unwrap();
    assert!(!inv.scene.unwrap().needs_refresh);
    assert_eq!(c.labels.len(), 7 + 16);
    assert_eq!(at(&c.labels[7]), s("v", 6, 17));
    assert!(InventoryScene::render(&mut inv, WeaponType::Gun).is_none());
    InventoryScene::on_exit(&mut inv);
    assert!(inv.scene.is_none());
    // With no menu open, everything is drawn.
    assert!(InventoryScene::render(&mut inv, WeaponType::Gun).is_some());
}
