use hackceler8::big_sprite::{AnimState, Animation, BigSprite, Frame};
use hackceler8::entity::Hitbox;
use hackceler8::inventory::Inventory;
use hackceler8::player::{reset_pressed, scale_abs_speed, scale_speed, Player, PlayerType, Status};
use hackceler8::player_update::{slip_step, IdlePlan};
use hackceler8::vdp::ControllerState;
use hackceler8::weapon::WeaponType;
use hackceler8::Direction;

fn anims(n: usize, frames: usize) -> Vec<Animation> {
    let mut v = Vec::new();
    for _ in 0..n {
        let mut f = Vec::new();
        for k in 0..frames {
            f.push(Frame { tile_offs: (k * 4) as u16, duration: 5 });
        }
        v.push(Animation { loops: false, frames: f });
    }
    v
}

fn sprite(n: usize, frames: usize) -> BigSprite {
    let a = anims(n, frames);
    BigSprite {
        vram_start_tile: 0,
        tiles_idx: 0,
        sprites: vec![],
        animation_state: AnimState::new(&a),
        anims: a,
        w: 5,
        h: 5,
        x: 0,
        y: 0,
        flip_v: false,
        flip_h: false,
        priority: false,
        singleton: true,
        singleton_tile_offs: 0,
        tileset_shift: 0,
    }
}

fn input(pressed: u16, just_pressed: u16) -> ControllerState {
    ControllerState { pressed, just_pressed, pending_just_pressed: 0, is_6button: true }
}

const UP: u16 = 1;
const RIGHT: u16 = 8;
const A: u16 = 16;
const B: u16 = 32;
const C: u16 = 64;

fn standing_player(t: PlayerType) -> Player {
    let ws = if t == PlayerType::Melee { Some(sprite(2, 8)) } else { None };
    let mut p = Player::new(t, sprite(15, 2), ws);
    p.status = Status::Idle;
    p.x = 100;
    p.y = 100;
    p.prev_x = 100;
    p.prev_y = 100;
    p
}

#[test]
fn new_player_beams_in_with_full_health() {
    let p = Player::new(PlayerType::Shooter, sprite(15, 2), None);
    assert_eq!(p.status, Status::BeamingIn { sprite_y: 0 });
    assert_eq!(p.health, 10);
    assert_eq!(p.weapon, WeaponType::Gun);
    assert!(p.on_ground);
    let m = Player::new(PlayerType::Melee, sprite(15, 2), Some(sprite(2, 8)));
    assert_eq!(m.weapon, WeaponType::Sword);
}

#[test]
fn scaled_speeds_catch_up_fractions() {
    assert_eq!(scale_abs_speed(64, 7), 1);
    assert_eq!(scale_abs_speed(96, 0), 2);
    assert_eq!(scale_abs_speed(96, 1), 1);
    assert_eq!(scale_speed(-96, 0), -2);
    assert_eq!(scale_speed(256, 3), 4);
    assert_eq!(scale_speed(0, 3), 0);
}

#[test]
fn a_hit_knocks_back_and_protects_for_a_while() {
    let mut p = standing_player(PlayerType::Shooter);
    p.on_hit(Direction::Left, 3);
    assert_eq!(p.health, 7);
    assert_eq!(p.status, Status::KnockedBack { direction: Direction::Left, cooldown: 30 });
    assert_eq!(p.invulnerability_timer, 75);
    p.on_hit(Direction::Right, 3);
    assert_eq!(p.health, 7);
}

#[test]
fn a_hit_taking_all_health_starts_dying() {
    let mut p = standing_player(PlayerType::Shooter);
    p.on_hit(Direction::Left, 10);
    assert_eq!(p.health, 0);
    assert_eq!(p.status, Status::Dying { cooldown: 120 });
    assert!(!p.is_alive());
    assert!(p.is_active());
}

#[test]
fn jumping_from_the_ground() {
    let mut p = standing_player(PlayerType::Shooter);
    let mut inv = Inventory::new(&p);
    let i = input(UP, UP);
    let plan = p.plan_idle(Some(&i), &mut inv, 0, false);
    assert_eq!(p.h_speed, -248);
    assert_eq!(plan.move_y, -4);
    assert_eq!(plan.move_x, 0);
    assert!(!plan.walking);
    assert!(!plan.trigger_attack);
    assert!(!plan.unlock_door);
}

#[test]
fn walking_right_moves_a_pixel_and_falls() {
    let mut p = standing_player(PlayerType::Shooter);
    p.facing = Direction::Left;
    let mut inv = Inventory::new(&p);
    let i = input(RIGHT, 0);
    let plan = p.plan_idle(Some(&i), &mut inv, 0, false);
    assert_eq!(plan.move_x, 1);
    assert_eq!(plan.move_y, 1);
    assert!(plan.walking);
    assert!(plan.keep_dashing);
    assert_eq!(p.facing, Direction::Right);
    assert_eq!(plan.prev_facing, Direction::Left);
}

#[test]
fn landing_restores_the_air_moves() {
    let mut p = standing_player(PlayerType::Shooter);
    p.on_ground = false;
    p.h_speed = 8;
    p.double_jump_available = false;
    p.air_dash_available = false;
    let plan = IdlePlan {
        move_x: 0,
        move_y: 1,
        walking: false,
        keep_dashing: false,
        prev_facing: Direction::Right,
        prev_sliding_down_wall: false,
        trigger_attack: false,
        unlock_door: false,
    };
    p.finish_idle(plan, false);
    assert!(p.on_ground);
    assert_eq!(p.h_speed, 0);
    assert!(p.double_jump_available);
    assert!(p.air_dash_available);
    assert_eq!(p.sprite.current_animation(), 4);
}

#[test]
fn falling_into_a_pit_kills() {
    let mut p = standing_player(PlayerType::Shooter);
    p.y = 400;
    p.prev_y = 390;
    p.on_ground = false;
    let plan = IdlePlan {
        move_x: 0,
        move_y: 10,
        walking: false,
        keep_dashing: false,
        prev_facing: Direction::Right,
        prev_sliding_down_wall: false,
        trigger_attack: false,
        unlock_door: false,
    };
    p.finish_idle(plan, false);
    assert_eq!(p.status, Status::Dying { cooldown: 120 });
}

#[test]
fn the_gun_fires_on_a_press_and_cools_down() {
    let mut p = standing_player(PlayerType::Shooter);
    let mut inv = Inventory::new(&p);
    let i = input(A, A);
    let plan = p.plan_idle(Some(&i), &mut inv, 0, false);
    assert!(plan.trigger_attack);
    assert_eq!(p.shoot_cooldown, 10);
    assert_eq!(p.charge_timer, 1);
}

#[test]
fn a_key_press_asks_to_unlock_only_with_a_key() {
    let mut p = standing_player(PlayerType::Shooter);
    let mut inv = Inventory::new(&p);
    let i = input(B, B);
    let plan = p.plan_idle(Some(&i), &mut inv, 0, false);
    assert!(!plan.unlock_door);
    let mut p2 = standing_player(PlayerType::Shooter);
    inv.add(hackceler8::res::ItemType::Key);
    let plan2 = p2.plan_idle(Some(&i), &mut inv, 0, false);
    assert!(plan2.unlock_door);
}

#[test]
fn dashing_needs_the_dash_item() {
    let mut p = standing_player(PlayerType::Shooter);
    let mut inv = Inventory::new(&p);
    let i = input(C, C);
    p.plan_idle(Some(&i), &mut inv, 0, false);
    assert_eq!(p.dash_timer, 0);
    let mut p2 = standing_player(PlayerType::Shooter);
    inv.add(hackceler8::res::ItemType::Dash);
    let plan = p2.plan_idle(Some(&i), &mut inv, 0, false);
    assert_eq!(p2.dash_timer, 40);
    assert_eq!(plan.move_x, 3);
}

#[test]
fn a_slash_hits_an_enemy_once_per_attack() {
    let mut p = standing_player(PlayerType::Melee);
    if let Some(ws) = &mut p.weapon_sprite {
        ws.animation_state.current_animation_id = 1;
        ws.animation_state.frame_index = 5;
        ws.animation_state.frame_duration_remaining = 3;
    }
    p.status = Status::Attacking { cooldown: 28 };
    let enemies = vec![(3u16, Hitbox { x: 150, y: 125, w: 10, h: 10 })];
    let t = p.update_attacking(&enemies, &vec![]);
    assert!(!t.trigger_attack);
    assert_eq!(t.enemies_to_hit, 1);
    assert_eq!(p.enemies_hit, 8);
    assert_eq!(p.status, Status::Attacking { cooldown: 27 });
    let t2 = p.update_attacking(&enemies, &vec![]);
    assert_eq!(t2.enemies_to_hit, 0);
}

#[test]
fn the_slash_effect_triggers_on_the_tenth_frame() {
    let mut p = standing_player(PlayerType::Melee);
    p.status = Status::Attacking { cooldown: 18 };
    let t = p.update_attacking(&vec![], &vec![]);
    assert!(t.trigger_attack);
}

#[test]
fn walking_against_the_slide_slows_it() {
    assert_eq!(slip_step(64, -64, true), (63, 63));
    assert_eq!(slip_step(64, 192, true), (192, 192));
    assert_eq!(slip_step(0, 64, true), (64, 64));
    assert_eq!(slip_step(-100, 0, true), (-100, -100));
    assert_eq!(slip_step(64, -64, false), (0, -64));
}

#[test]
fn reset_combination() {
    let p = standing_player(PlayerType::Shooter);
    let i = input(A | B | C, A);
    assert!(reset_pressed(&p, Some(&i)));
    let j = input(A | B, A);
    assert!(!reset_pressed(&p, Some(&j)));
    assert!(!reset_pressed(&p, None));
}

#[test]
fn dying_counts_down_to_death_with_explosions() {
    let mut p = standing_player(PlayerType::Shooter);
    p.status = Status::Dying { cooldown: 110 };
    assert_eq!(p.update_dying(), 1);
    assert_eq!(p.status, Status::Dying { cooldown: 109 });
    p.status = Status::Dying { cooldown: 90 };
    assert_eq!(p.update_dying(), 2);
    p.status = Status::Dying { cooldown: 0 };
    assert_eq!(p.update_dying(), 0);
    assert_eq!(p.status, Status::Dead);
}

#[test]
fn beaming_in_drops_to_the_ground_first() {
    let mut p = standing_player(PlayerType::Shooter);
    p.status = Status::BeamingIn { sprite_y: 0 };
    p.update_beaming(150);
    assert_eq!(p.y, 150);
    assert_eq!(p.status, Status::BeamingIn { sprite_y: 4 });
}

#[test]
fn knockback_pushes_for_ten_frames() {
    let mut p = standing_player(PlayerType::Shooter);
    p.status = Status::KnockedBack { direction: Direction::Left, cooldown: 21 };
    assert_eq!(p.knockback_offset(), Some((-1, 0)));
    p.finish_knockback();
    assert_eq!(p.status, Status::KnockedBack { direction: Direction::Left, cooldown: 20 });
    assert_eq!(p.knockback_offset(), None);
}

#[test]
fn the_gun_glows_with_its_charge() {
    let mut p = standing_player(PlayerType::Shooter);
    p.charge_timer = 100;
    assert_eq!(p.charge_fade(0), Some(8));
    assert_eq!(p.charge_fade(8), Some(10));
    p.charge_timer = 12;
    assert_eq!(p.charge_fade(8), Some(3));
}
