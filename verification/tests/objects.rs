use hackceler8::big_sprite::{AnimState, Animation, BigSprite, Frame};
use hackceler8::door::{sprite_sheet, Door, DoorProperties, DoorSheet, Orientation};
use hackceler8::enemy::{harmless_stats, Enemy, EnemyProperties, Status as EnemyStatus};
use hackceler8::entity::Hitbox;
use hackceler8::map::StageMap;
use hackceler8::vdp::Palette;
use hackceler8::map_data::{Array2d, MapData, TILE_SPIKE, TILE_WALL};
use hackceler8::player::{Player, PlayerType};
use hackceler8::projectile::{projectile_target, Projectile, ProjectileHit, Status};
use hackceler8::res::{EnemyType, MapType};
use hackceler8::switch::{Switch, SwitchEvent, SwitchProperties};
use hackceler8::weapon::{gun_shot_damage, melee_hit_damage, MeleeHitEffect, WeaponType};
use hackceler8::Direction;

fn sprite(n: usize, loops: bool, duration: u32) -> BigSprite {
    let mut a = Vec::new();
    for _ in 0..n {
        a.push(Animation { loops, frames: vec![Frame { tile_offs: 0, duration }] });
    }
    BigSprite {
        vram_start_tile: 0,
        tiles_idx: 0,
        sprites: vec![],
        animation_state: AnimState::new(&a),
        anims: a,
        w: 2,
        h: 2,
        x: 0,
        y: 0,
        flip_v: false,
        flip_h: false,
        priority: false,
        singleton: false,
        singleton_tile_offs: 0,
        tileset_shift: 0,
    }
}

#[test]
fn a_projectile_flies_along_its_trajectory() {
    let mut p = Projectile::new(200, 200, 100, 0, 10, 1, sprite(4, false, 1), true);
    assert_eq!(p.trajectory.frames_to_dest, 10);
    let swept = p.advance();
    assert_eq!(swept, Some(Hitbox { x: 204, y: 204, w: 18, h: 8 }));
    assert_eq!((p.x, p.y), (210, 200));
    p.finish_flight(false, false);
    assert_eq!(p.status, Status::Flying);
    p.finish_flight(false, true);
    assert_eq!(p.status, Status::Explosion);
    assert_eq!(p.advance(), None);
    assert_eq!(p.status, Status::Dead);
    assert!(p.should_unload());
}

#[test]
fn a_projectile_leaving_the_screen_is_gone() {
    let mut p = Projectile::new(20, 200, -100, 0, 10, 1, sprite(4, false, 1), false);
    p.finish_flight(false, false);
    assert_eq!(p.status, Status::Dead);
}

#[test]
fn projectiles_hit_the_first_target() {
    let h = Hitbox { x: 100, y: 100, w: 10, h: 10 };
    let far = Hitbox { x: 300, y: 300, w: 10, h: 10 };
    let enemies = vec![(false, h), (true, h), (true, h)];
    assert_eq!(projectile_target(true, h, &enemies, &vec![], None, 1), ProjectileHit::Enemy(1));
    let switches = vec![(false, far), (true, h)];
    assert_eq!(projectile_target(true, h, &vec![(true, far)], &switches, None, 1), ProjectileHit::Switch(1));
    assert_eq!(projectile_target(false, h, &enemies, &switches, Some(h), -3), ProjectileHit::Player(Direction::Left));
    assert_eq!(projectile_target(false, h, &enemies, &switches, None, -3), ProjectileHit::Nothing);
}

#[test]
fn weapon_damages() {
    assert_eq!(gun_shot_damage(0), 1);
    assert_eq!(gun_shot_damage(30), 2);
    assert_eq!(gun_shot_damage(75), 3);
    assert_eq!(melee_hit_damage(MeleeHitEffect::Basic), 2);
    assert_eq!(WeaponType::StrongSword.max_uses(), Some(3));
    assert_eq!(WeaponType::Sword.melee_hurtbox(2, false), None);
    assert_eq!(WeaponType::Sword.melee_hurtbox(4, true), Some(Hitbox { x: -59, y: -36, w: 36, h: 48 }));
    assert_eq!(WeaponType::Sword.melee_offset(0, false), (-32, -51));
    assert_eq!(WeaponType::Sword.melee_offset(0, true), (-32, -51));
}

#[test]
fn doors_of_the_arctic_are_blue() {
    assert_eq!(sprite_sheet(MapType::Arctic, Orientation::Horizontal), DoorSheet::BlueH);
}

#[test]
fn an_unlocked_door_opens() {
    let props = DoorProperties { id: 0, locked: true, orientation: Orientation::Vertical };
    let mut d = Door::new(100, 100, &props, false, true, sprite(6, false, 3));
    assert!(d.locked);
    d.unlock();
    assert!(!d.locked);
    assert_eq!(d.id, 0);
}

#[test]
fn a_pressed_switch_runs_its_event_once() {
    let props = SwitchProperties { id: 4, event_id: 1 };
    let mut s = Switch::new(50, 60, &props, false, sprite(2, true, 3));
    assert_eq!((s.x, s.y), (50 + 128 - 8, 60 + 128 - 8));
    assert_eq!(s.trigger(), None);
    s.pending = true;
    assert_eq!(s.trigger(), Some(SwitchEvent::OpenDoor0));
    assert!(!s.pending);
    assert_eq!(s.trigger(), None);
}

fn rabbit() -> Enemy {
    let props = EnemyProperties { id: 7, speed: None, health: Some(3), strength: None, invulnerable: false, flags: None };
    Enemy::new(EnemyType::Rabbit, 100, 100, &props, harmless_stats(), sprite(5, true, 3))
}

#[test]
fn enemies_take_damage_then_die() {
    let mut e = rabbit();
    assert_eq!(e.health(), 3);
    e.on_hit(2);
    assert_eq!(e.health(), 1);
    assert_eq!(e.status, EnemyStatus::Damaged { cooldown: hackceler8::enemy::DAMAGE_COOLDOWN });
    e.on_hit(2);
    assert_eq!(e.health(), 0);
    assert!(!e.is_alive());
    e.on_hit(2);
    assert_eq!(e.health(), 0);
}

#[test]
fn invulnerable_enemies_ignore_hits() {
    let mut e = rabbit();
    e.invulnerable = true;
    e.on_hit(5);
    assert_eq!(e.health(), 3);
    assert!(e.is_alive());
}

#[test]
fn hit_tiles_report_walls_and_spikes() {
    let mut data = vec![0u8; 100];
    data[0] = TILE_WALL;
    data[1] = TILE_SPIKE;
    let md = MapData::new(0, 10, 10, Array2d::new(vec![0u16; 100], 10, 10), Array2d::new(data, 10, 10), Palette::A, (0, 0));
    let h = md.get_hit_tiles(&Hitbox { x: 128, y: 128, w: 16, h: 8 }, (0, 0));
    assert!(h.touches_tile(TILE_WALL));
    assert!(h.touches_tile(TILE_SPIKE));
    assert!(!h.immersed_in_tile(TILE_WALL));
    let g = md.get_hit_tiles(&Hitbox { x: 128 + 40, y: 128 + 40, w: 8, h: 8 }, (0, 0));
    assert!(!g.touches_tile(TILE_WALL));
}

#[test]
fn closed_doors_block_shots() {
    let mut p = Player::new(PlayerType::Shooter, sprite(15, true, 3), None);
    let md = MapData::new(0, 100, 50, Array2d::new(vec![0u16; 5000], 100, 50), Array2d::new(vec![0u8; 5000], 100, 50), Palette::A, (400, 300));
    let mut map = StageMap::new(MapType::Forest, md, &mut p);
    let props = DoorProperties { id: 1, locked: false, orientation: Orientation::Horizontal };
    map.add_door(300, 250, &props, -240, -176, sprite(6, false, 3));
    let b = map.doors[0].hitbox();
    assert!(map.door_blocks(b));
    assert!(!map.door_blocks(Hitbox { x: b.x + 100, y: b.y, w: 4, h: 4 }));
}
