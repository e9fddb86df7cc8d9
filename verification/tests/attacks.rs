use hackceler8::attacks::{apply_melee_hits, attack_shots, has_charged_bullet, spawn_projectile, Shot, ShotSprite};
use hackceler8::big_sprite::{AnimState, Animation, BigSprite, Frame};
use hackceler8::enemy::{harmless_stats, Enemy, EnemyProperties};
use hackceler8::map::StageMap;
use hackceler8::vdp::Palette;
use hackceler8::map_data::{Array2d, MapData};
use hackceler8::player::{Player, PlayerType, Status};
use hackceler8::projectile::{Projectile, Status as ShotStatus};
use hackceler8::switch::SwitchProperties;
use hackceler8::res::{EnemyType, MapType};
use hackceler8::weapon::{AttackEffect, MeleeHitEffect};

fn sprite(n: usize) -> BigSprite {
    let mut a = Vec::new();
    for _ in 0..n {
        a.push(Animation { loops: true, frames: vec![Frame { tile_offs: 0, duration: 4 }] });
    }
    BigSprite {
        vram_start_tile: 0,
        tiles_idx: 0,
        sprites: vec![],
        animation_state: AnimState::new(&a),
        anims: a,
        w: 2,
        h: 2,
        x: 0,
        y: 0,
        flip_v: false,
        flip_h: false,
        priority: false,
        singleton: false,
        singleton_tile_offs: 0,
        tileset_shift: 0,
    }
}

fn stage() -> (StageMap, Player) {
    let mut p = Player::new(PlayerType::Shooter, sprite(15), None);
    let md = MapData::new(0, 100, 50, Array2d::new(vec![0u16; 5000], 100, 50), Array2d::new(vec![0u8; 5000], 100, 50), Palette::A, (400, 300));
    let m = StageMap::new(MapType::Forest, md, &mut p);
    (m, p)
}

fn rabbit(id: u16) -> Enemy {
    let props = EnemyProperties { id, speed: None, health: Some(3), strength: None, invulnerable: false, flags: None };
    Enemy::new(EnemyType::Rabbit, 200, 200, &props, harmless_stats(), sprite(5))
}

fn shot(dy: i16, speed: i16, damage: u16, sprite: ShotSprite) -> Shot {
    Shot { rel_dx: 10, dy, speed, damage, sprite }
}

#[test]
fn each_attack_fires_its_shots() {
    assert_eq!(attack_shots(AttackEffect::Nothing, 100, false), vec![]);
    assert_eq!(attack_shots(AttackEffect::Shot, 0, false), vec![shot(0, 10, 1, ShotSprite::Simple)]);
    assert_eq!(attack_shots(AttackEffect::Shot, 30, false), vec![shot(0, 10, 2, ShotSprite::Charged)]);
    assert_eq!(attack_shots(AttackEffect::Shot, 75, false), vec![shot(0, 10, 3, ShotSprite::Charged)]);
    assert_eq!(attack_shots(AttackEffect::Fireball, 0, true), vec![shot(0, 10, 1, ShotSprite::Fireball)]);
    assert_eq!(attack_shots(AttackEffect::StrongShot, 0, false), vec![shot(0, 10, 2, ShotSprite::Charged)]);
    assert_eq!(
        attack_shots(AttackEffect::TripleShot, 0, false),
        vec![shot(-10, 4, 1, ShotSprite::Simple), shot(0, 4, 1, ShotSprite::Simple), shot(10, 4, 1, ShotSprite::Simple)]
    );
}

#[test]
fn only_one_charged_shot_flies_at_a_time() {
    assert_eq!(attack_shots(AttackEffect::Shot, 80, true), vec![]);
    assert_eq!(attack_shots(AttackEffect::StrongShot, 0, true), vec![]);
    assert_eq!(attack_shots(AttackEffect::Shot, 10, true), vec![shot(0, 10, 1, ShotSprite::Simple)]);
    let (mut m, _) = stage();
    assert!(!has_charged_bullet(&m));
    let mut s = sprite(4);
    s.tiles_idx = hackceler8::res::CHARGED_SHOT_TILES;
    let _ = m.projectiles.push(Projectile::new(200, 200, 10, 0, 10, 2, s, true));
    assert!(has_charged_bullet(&m));
}

#[test]
fn shots_leave_the_hand_the_sprite_faces() {
    let (mut m, mut p) = stage();
    p.x = 100;
    p.y = 100;
    assert!(spawn_projectile(&mut m, &p, shot(0, 10, 1, ShotSprite::Simple), sprite(4)));
    assert_eq!((m.projectiles[0].x, m.projectiles[0].y), (126, 114));
    assert_eq!(m.projectiles[0].trajectory.dx, 10);
    assert!(m.projectiles[0].is_player);
    p.sprite.flip_h = true;
    assert!(spawn_projectile(&mut m, &p, shot(0, 10, 1, ShotSprite::Simple), sprite(4)));
    assert_eq!((m.projectiles[1].x, m.projectiles[1].y), (98, 114));
    assert_eq!(m.projectiles[1].trajectory.dx, -10);
}

#[test]
fn melee_hits_damage_the_enemies_hit() {
    let (mut m, mut p) = stage();
    let _ = m.enemies.push(rabbit(0));
    let _ = m.enemies.push(rabbit(1));
    apply_melee_hits(&mut m, &mut p, MeleeHitEffect::Basic, 0b10);
    assert_eq!(m.enemies[0].health(), 3);
    assert_eq!(m.enemies[1].health(), 1);
    assert_eq!(p.health, 10);
}

#[test]
fn the_double_edged_sword_cuts_both_ways() {
    let (mut m, mut p) = stage();
    let _ = m.enemies.push(rabbit(0));
    let _ = m.enemies.push(rabbit(1));
    apply_melee_hits(&mut m, &mut p, MeleeHitEffect::DoubleEdged, 0b11);
    assert!(!m.enemies[0].is_alive());
    assert!(!m.enemies[1].is_alive());
    assert_eq!(p.health, 7);
    assert!(matches!(p.status, Status::KnockedBack { .. }));
}

#[test]
fn switching_guns_drops_only_the_players_shots() {
    let (mut m, _) = stage();
    let _ = m.projectiles.push(Projectile::new(10, 10, 10, 0, 10, 1, sprite(4), true));
    let _ = m.projectiles.push(Projectile::new(20, 20, 10, 0, 10, 1, sprite(4), false));
    let _ = m.projectiles.push(Projectile::new(30, 30, 10, 0, 10, 1, sprite(4), true));
    let _ = m.projectiles.push(Projectile::new(40, 40, 10, 0, 10, 1, sprite(4), false));
    m.drop_player_projectiles();
    assert_eq!(m.projectiles.len(), 2);
    assert_eq!((m.projectiles[0].x, m.projectiles[0].is_player), (20, false));
    assert_eq!((m.projectiles[1].x, m.projectiles[1].is_player), (40, false));
}

fn walled_stage() -> (StageMap, Player) {
    let mut p = Player::new(PlayerType::Shooter, sprite(15), None);
    let md = MapData::new(0, 100, 50, Array2d::new(vec![0u16; 5000], 100, 50), Array2d::new(vec![1u8; 5000], 100, 50), Palette::A, (400, 300));
    let m = StageMap::new(MapType::Forest, md, &mut p);
    (m, p)
}

#[test]
fn a_players_shot_hits_the_first_living_enemy() {
    let (mut m, mut p) = stage();
    let _ = m.enemies.push(rabbit(0));
    let _ = m.projectiles.push(Projectile::new(305, 315, 10, 0, 10, 2, sprite(4), true));
    m.update_projectile(0, &mut p, 0);
    assert_eq!(m.projectiles[0].x, 315);
    assert_eq!(m.projectiles[0].status, ShotStatus::Explosion);
    assert_eq!(m.enemies[0].health(), 1);
    // A dead shot stays dead and touches nothing.
    m.projectiles[0].status = ShotStatus::Dead;
    m.update_projectile(0, &mut p, 0);
    assert_eq!(m.projectiles[0].status, ShotStatus::Dead);
    assert_eq!(m.enemies[0].health(), 1);
}

#[test]
fn a_players_shot_triggers_a_switch() {
    let (mut m, mut p) = stage();
    m.load_switches(&vec![(180i16, 180i16, SwitchProperties { id: 0, event_id: 0 })], 0, 0, vec![sprite(2)]);
    let _ = m.projectiles.push(Projectile::new(290, 300, 10, 0, 10, 1, sprite(4), true));
    m.update_projectile(0, &mut p, 0);
    assert!(m.switches[0].pending);
    assert_eq!(m.projectiles[0].status, ShotStatus::Explosion);
    // A pending switch is not hit again.
    let _ = m.projectiles.push(Projectile::new(290, 300, 10, 0, 10, 1, sprite(4), true));
    m.update_projectile(1, &mut p, 0);
    assert_eq!(m.projectiles[1].status, ShotStatus::Flying);
}

#[test]
fn an_enemy_shot_hurts_the_player() {
    let (mut m, mut p) = stage();
    p.status = Status::Idle;
    let _ = m.projectiles.push(Projectile::new(p.x, p.y + 16, 10, 0, 10, 2, sprite(4), false));
    m.update_projectile(0, &mut p, 0);
    assert_eq!(p.health, 8);
    assert!(matches!(p.status, Status::KnockedBack { .. }));
    assert_eq!(m.projectiles[0].status, ShotStatus::Explosion);
}

#[test]
fn shots_stop_at_closed_doors_walls_and_the_screen_edge() {
    let (mut m, mut p) = stage();
    m.load_doors(&vec![(100i16, 100i16, hackceler8::door::DoorProperties { id: 0, locked: false, orientation: hackceler8::door::Orientation::Horizontal })], 0, 0, vec![sprite(4)]);
    let _ = m.projectiles.push(Projectile::new(190, 220, 10, 0, 10, 1, sprite(4), true));
    m.update_projectile(0, &mut p, 0);
    assert_eq!(m.projectiles[0].status, ShotStatus::Explosion);
    // Off the screen the shot is simply gone.
    let _ = m.projectiles.push(Projectile::new(1000, 300, 10, 0, 10, 1, sprite(4), true));
    m.update_projectile(1, &mut p, 0);
    assert_eq!(m.projectiles[1].status, ShotStatus::Dead);

    let (mut w, mut p2) = walled_stage();
    let _ = w.projectiles.push(Projectile::new(300, 300, 10, 0, 10, 1, sprite(4), true));
    let _ = w.projectiles.push(Projectile::new(300, 300, 10, 0, 10, 1, sprite(4), true));
    // Every tile carries attribute bit 0: a wall when bit 0 means wall.
    w.update_projectile(0, &mut p2, 0);
    assert_eq!(w.projectiles[0].status, ShotStatus::Explosion);
    w.update_projectile(1, &mut p2, 3);
    assert_eq!(w.projectiles[1].status, ShotStatus::Flying);
}

#[test]
fn an_enemy_tick_hurts_the_player_and_records_defeats() {
    let (mut m, mut p) = stage();
    p.status = Status::Idle;
    let stats = hackceler8::enemy::Stats { melee: true, strength: 2, ..harmless_stats() };
    let props = EnemyProperties { id: 3, speed: None, health: Some(3), strength: None, invulnerable: false, flags: None };
    let e = Enemy::new(EnemyType::Orc, p.x - 106, p.y - 102, &props, stats, sprite(5));
    let _ = m.enemies.push(e);
    let t = m.update_enemy(0, (0, 0), 1, &mut p);
    assert!(t.hit_player.is_some());
    assert_eq!(p.health, 8);
    assert!(!t.defeated);
    assert!(!m.enemies_defeated.is_set(3));
    // A dying enemy is recorded as defeated on the stage.
    m.enemies[0].kill();
    let t = m.update_enemy(0, (0, 0), 2, &mut p);
    assert!(t.defeated && t.hit_player.is_none());
    assert!(m.enemies_defeated.is_set(3));
}

#[test]
fn a_shot_with_a_negative_speed_flies_backwards() {
    let (mut m, mut p) = stage();
    let shot = Projectile::new(200, 200, 20, 0, -3, 1, sprite(4), true);
    // 20 / -3 rounds toward zero.
    assert_eq!(shot.trajectory.frames_to_dest, -6);
    assert!(shot.sprite.flip_h);
    let _ = m.projectiles.push(shot);
    m.update_projectile(0, &mut p, 0);
    assert_eq!((m.projectiles[0].x, m.projectiles[0].y), (197, 200));
}

#[test]
fn a_frame_of_enemies_ticks_each_in_turn() {
    let (mut m, mut p) = stage();
    p.status = Status::Idle;
    let stats = hackceler8::enemy::Stats { melee: true, strength: 2, ..harmless_stats() };
    let props = EnemyProperties { id: 3, speed: None, health: Some(3), strength: None, invulnerable: false, flags: None };
    let _ = m.enemies.push(Enemy::new(EnemyType::Orc, p.x - 106, p.y - 102, &props, stats, sprite(5)));
    let mut dying = rabbit(5);
    dying.kill();
    let _ = m.enemies.push(dying);
    let ticks = m.update_enemies(&vec![(0i16, 0i16), (0i16, 0i16)], 1, &mut p);
    assert_eq!(ticks.len(), 2);
    assert!(ticks[0].hit_player.is_some() && !ticks[0].defeated);
    assert!(ticks[1].defeated && ticks[1].hit_player.is_none());
    assert_eq!(p.health, 8);
    assert!(m.enemies_defeated.is_set(5) && !m.enemies_defeated.is_set(3));
    assert_eq!(m.enemies.len(), 2);
}

#[test]
fn a_frame_of_projectiles_moves_each_in_turn() {
    let (mut m, mut p) = stage();
    let _ = m.enemies.push(rabbit(0));
    let _ = m.projectiles.push(Projectile::new(305, 315, 10, 0, 10, 2, sprite(4), true));
    let _ = m.projectiles.push(Projectile::new(300, 400, 10, 0, 10, 1, sprite(4), true));
    m.update_projectiles(&mut p, 0);
    assert_eq!(m.projectiles[0].status, ShotStatus::Explosion);
    assert_eq!(m.enemies[0].health(), 1);
    assert_eq!(m.projectiles[1].x, 310);
    assert_eq!(m.projectiles[1].status, ShotStatus::Flying);
}

#[test]
fn the_rest_of_a_stage_frame_runs_switches_doors_and_projectiles() {
    let (mut m, mut p) = stage();
    let _ = m.enemies.push(rabbit(0));
    let _ = m.projectiles.push(Projectile::new(305, 315, 10, 0, 10, 2, sprite(4), true));
    let mut dead = Projectile::new(300, 400, 10, 0, 10, 1, sprite(4), true);
    dead.status = ShotStatus::Dead;
    let _ = m.projectiles.push(dead);
    let locks = m.update_rest(&mut p, 0);
    assert!(locks.is_empty());
    assert_eq!(m.projectiles.len(), 1);
    assert_eq!(m.projectiles[0].status, ShotStatus::Explosion);
    assert_eq!(m.enemies[0].health(), 1);
}

#[test]
fn the_stage_counts_its_objects() {
    let (mut m, _) = stage();
    assert_eq!((m.enemy_count(), m.door_count(), m.switch_count(), m.projectile_count()), (0, 0, 0, 0));
    let _ = m.enemies.push(rabbit(0));
    let _ = m.projectiles.push(Projectile::new(10, 10, 10, 0, 10, 1, sprite(4), true));
    assert_eq!((m.enemy_count(), m.projectile_count()), (1, 1));
}
