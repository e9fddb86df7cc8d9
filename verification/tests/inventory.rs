use hackceler8::big_sprite::{AnimState, Animation, BigSprite, Frame};
use hackceler8::inventory::{Inventory, InventoryScene, MenuUpdate};
use hackceler8::player::{Player, PlayerType, Status};
use hackceler8::res::ItemType;
use hackceler8::resource_state::State;
use hackceler8::vdp::{ControllerState, Tile, Vdp};
use hackceler8::weapon::WeaponType;

fn sprite(n: usize, singleton: bool) -> BigSprite {
    let mut a = Vec::new();
    for _ in 0..n {
        a.push(Animation { loops: true, frames: vec![Frame { tile_offs: 0, duration: 4 }] });
    }
    BigSprite {
        vram_start_tile: 0,
        tiles_idx: 0,
        sprites: vec![],
        animation_state: AnimState::new(&a),
        anims: a,
        w: 2,
        h: 2,
        x: 0,
        y: 0,
        flip_v: false,
        flip_h: false,
        priority: false,
        singleton,
        singleton_tile_offs: 0,
        tileset_shift: 0,
    }
}

fn res_state() -> State {
    let mut sets = Vec::new();
    for _ in 0..6 {
        sets.push(vec![Tile([0u8; 32]); 4]);
    }
    State::init(sets)
}

fn input(pressed: u16, just_pressed: u16) -> ControllerState {
    ControllerState { pressed, just_pressed, pending_just_pressed: 0, is_6button: true }
}

const UP: u16 = 1;
const DOWN: u16 = 2;
const LEFT: u16 = 4;
const RIGHT: u16 = 8;
const B: u16 = 32;

fn shooter() -> Player {
    let mut p = Player::new(PlayerType::Shooter, sprite(15, true), None);
    p.status = Status::Idle;
    p
}

#[test]
fn each_character_starts_with_its_own_weapons() {
    let s = Inventory::new(&shooter());
    let ws: Vec<WeaponType> = s.weapons.iter().map(|w| w.weapon_type).collect();
    assert_eq!(ws, vec![WeaponType::Gun, WeaponType::ThreeGun, WeaponType::StrongGun]);
    assert_eq!(s.weapons[2].uses_left, Some(3));
    assert_eq!(s.weapons[0].uses_left, None);
    let m = Inventory::new(&Player::new(PlayerType::Melee, sprite(15, true), Some(sprite(2, true))));
    assert_eq!(m.weapons.len(), 4);
    assert_eq!(m.weapons[0].weapon_type, WeaponType::Sword);
    assert_eq!(m.weapons[3].uses_left, Some(3));
    assert!(s.items.is_empty());
}

#[test]
fn items_stack_and_a_removal_undoes_an_addition() {
    let mut inv = Inventory::new(&shooter());
    inv.add(ItemType::Battery);
    inv.add(ItemType::Key);
    inv.add(ItemType::Battery);
    assert_eq!(inv.items.len(), 2);
    assert_eq!(inv.items[0].amount, 2);
    inv.remove(ItemType::Battery);
    assert_eq!(inv.items[0].amount, 1);
    inv.remove(ItemType::Battery);
    assert_eq!(inv.items.len(), 1);
    assert!(inv.contains(ItemType::Key));
    assert!(!inv.contains(ItemType::Battery));
}

#[test]
fn weapon_uses_run_down_and_recharge() {
    let mut inv = Inventory::new(&shooter());
    assert_eq!(inv.get_weapon_uses_left(WeaponType::StrongGun), Some(3));
    inv.decrease_weapon_uses(WeaponType::StrongGun);
    inv.decrease_weapon_uses(WeaponType::StrongGun);
    inv.decrease_weapon_uses(WeaponType::StrongGun);
    assert!(!inv.weapon_has_uses_left(WeaponType::StrongGun));
    inv.increase_weapon_uses(WeaponType::StrongGun);
    assert_eq!(inv.get_weapon_uses_left(WeaponType::StrongGun), Some(1));
    inv.decrease_weapon_uses(WeaponType::Gun);
    assert_eq!(inv.get_weapon_uses_left(WeaponType::Gun), None);
}

#[test]
fn the_menu_selection_wraps_around() {
    let mut inv = Inventory::new(&shooter());
    inv.scene = Some(InventoryScene::new());
    let mut p = shooter();
    let mut rs = res_state();
    let r = InventoryScene::update(&mut inv, &mut p, &mut rs, Some(&input(0, LEFT)), None);
    assert_eq!(r, MenuUpdate { switched_to: None, drop_player_projectiles: false });
    assert_eq!(inv.scene.unwrap().selection, Some(7));
    assert!(inv.scene.unwrap().needs_refresh);
    InventoryScene::update(&mut inv, &mut p, &mut rs, Some(&input(0, RIGHT)), None);
    assert_eq!(inv.scene.unwrap().selection, Some(0));
    InventoryScene::update(&mut inv, &mut p, &mut rs, Some(&input(0, RIGHT)), None);
    assert_eq!(inv.scene.unwrap().selection, Some(1));
}

#[test]
fn down_and_up_cycle_the_weapons() {
    let mut inv = Inventory::new(&shooter());
    inv.scene = Some(InventoryScene::new());
    let mut p = shooter();
    let mut rs = res_state();
    let r = InventoryScene::update(&mut inv, &mut p, &mut rs, Some(&input(0, DOWN)), None);
    assert_eq!(r, MenuUpdate { switched_to: Some(WeaponType::ThreeGun), drop_player_projectiles: true });
    assert_eq!(p.weapon, WeaponType::ThreeGun);
    InventoryScene::update(&mut inv, &mut p, &mut rs, Some(&input(0, UP)), None);
    assert_eq!(p.weapon, WeaponType::Gun);
    InventoryScene::update(&mut inv, &mut p, &mut rs, Some(&input(0, UP)), None);
    assert_eq!(p.weapon, WeaponType::StrongGun);
}

#[test]
fn a_battery_recharges_a_used_weapon() {
    let mut inv = Inventory::new(&shooter());
    inv.scene = Some(InventoryScene { selection: Some(0), needs_refresh: false });
    inv.add(ItemType::Battery);
    let mut p = shooter();
    p.weapon = WeaponType::StrongGun;
    let mut rs = res_state();
    InventoryScene::update(&mut inv, &mut p, &mut rs, Some(&input(0, B)), None);
    assert!(inv.contains(ItemType::Battery));
    assert!(!inv.scene.unwrap().needs_refresh);
    inv.decrease_weapon_uses(WeaponType::StrongGun);
    InventoryScene::update(&mut inv, &mut p, &mut rs, Some(&input(0, B)), None);
    assert!(!inv.contains(ItemType::Battery));
    assert_eq!(inv.get_weapon_uses_left(WeaponType::StrongGun), Some(3));
    assert!(inv.scene.unwrap().needs_refresh);
}

#[test]
fn the_menu_ignores_a_dead_player() {
    let mut inv = Inventory::new(&shooter());
    inv.scene = Some(InventoryScene::new());
    let mut p = shooter();
    p.status = Status::Dead;
    let mut rs = res_state();
    InventoryScene::update(&mut inv, &mut p, &mut rs, Some(&input(0, LEFT)), None);
    assert_eq!(inv.scene.unwrap().selection, None);
}

#[test]
fn switched_tiles_take_over_the_old_tiles_usage() {
    let mut rs = res_state();
    let mut vdp = Vdp::new();
    assert_eq!(rs.load_tiles_to_vram(&mut vdp, 0, true, None), 1);
    assert_eq!(rs.load_tiles_to_vram(&mut vdp, 1, false, None), 5);
    let mut s = sprite(2, true);
    s.tiles_idx = 1;
    rs.switch_sprite_tiles(&mut s, 3);
    assert_eq!(s.tiles_idx, 3);
    // Already in place: no new slot.
    assert_eq!(rs.load_tiles_to_vram(&mut vdp, 3, false, None), 5);
    // The reset unloads the new tiles as it would have unloaded the old ones.
    rs.reset();
    assert_eq!(rs.load_tiles_to_vram(&mut vdp, 2, false, None), 5);
    assert_eq!(rs.load_tiles_to_vram(&mut vdp, 3, false, None), 9);
}
