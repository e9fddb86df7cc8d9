//! One frame of the player's update. The frame is split at the points where
//! the player is moved through the level geometry, which the caller does
//! between the steps: each step is a decision on plain state.
use vstd::prelude::*;

use crate::big_sprite::BigSprite;
use crate::entity::{coord_small, div_trunc, fits_i16, spec_overlaps, Hitbox};
use crate::inventory::{
    spec_change_uses, spec_has_item, spec_uses_left, Inventory, InventoryItem, InventoryWeapon,
};
use crate::map_data::{div_i16, HitTiles, TILE_SPIKE};
use crate::player::{
    explosion_ok, scale_speed, spec_scale_speed, spec_set_position, Player, PlayerType, Status,
    AIR_DASH_DURATION_FRAMES, DASH_DURATION_FRAMES, DASH_SPEED, DEATH_DURATION_FRAMES,
    DEATH_EXPLOSION_FRAME, GRAVITY, JUMP_SPEED, SLIDE_SPEED, SPEED_SCALE_FACTOR,
};
use crate::res::{self, ItemType};
use crate::resource_state::State;
use crate::vdp::{has_button, Button, ControllerState};
use crate::weapon::{spec_melee_hurtbox, spec_melee_offset, spec_tiles_idx, WeaponType};
use crate::{spec_direction_offset, Direction};

verus! {

/// Cooldown of a timed status (0 for the others).
pub open spec fn status_cooldown(s: Status) -> u8 {
    match s {
        Status::Attacking { cooldown } => cooldown,
        Status::KnockedBack { cooldown, .. } => cooldown,
        Status::Dying { cooldown } => cooldown,
        _ => 0,
    }
}

/// The player after the start of a frame.
pub open spec fn spec_begin_update(p: Player) -> Player {
    Player {
        invulnerability_timer: if p.invulnerability_timer > 0 { (p.invulnerability_timer - 1) as u16 } else { 0 },
        prev_x: if p.spec_alive() { p.x } else { p.prev_x },
        prev_y: if p.spec_alive() { p.y } else { p.prev_y },
        ..p
    }
}

/// The explosion batch of a death-sequence frame: 1 for the first four
/// explosions, 2 for the other four, 0 for none.
pub open spec fn spec_explosion_batch(cooldown: u8) -> u8 {
    if cooldown == DEATH_DURATION_FRAMES - DEATH_EXPLOSION_FRAME {
        1
    } else if cooldown == DEATH_DURATION_FRAMES - DEATH_EXPLOSION_FRAME - 20 {
        2
    } else {
        0
    }
}

/// The player after one frame of the death sequence.
pub open spec fn spec_update_dying(p: Player) -> Player {
    let c = status_cooldown(p.status);
    Player {
        status: if c > 0 { Status::Dying { cooldown: (c - 1) as u8 } } else { Status::Dead },
        sprite: p.sprite.spec_maybe_set_animation(res::PLAYER_ANIM_DIE),
        ..p
    }
}

/// An explosion sprite started at the player's center.
pub open spec fn spec_explosion_at(s: BigSprite, p: Player) -> BigSprite {
    s.spec_set_position((p.x + 12) as i16, (p.y + 16) as i16).spec_set_animation(res::EXPLOSION_ANIM_EXPLODE)
}

/// The beam height of a player beaming in.
pub open spec fn beam_y(s: Status) -> i16 {
    match s {
        Status::BeamingIn { sprite_y } => sprite_y,
        _ => 0,
    }
}

/// The player after one frame of beaming in; `grounded_y` is where it stands
/// once dropped onto the ground below the spawn point.
pub open spec fn spec_update_beaming(p: Player, grounded_y: i16) -> Player {
    let sy = beam_y(p.status);
    if sy < p.y {
        let y = if sy == 0 { grounded_y } else { p.y };
        let ny = if sy + 4 < y { (sy + 4) as i16 } else { y };
        let q = Player {
            y,
            sprite: p.sprite.spec_maybe_set_animation(res::PLAYER_ANIM_BEAM),
            status: Status::BeamingIn { sprite_y: ny },
            ..p
        };
        spec_set_position(q, q.x, q.y)
    } else {
        let sprite = p.sprite.spec_maybe_set_animation(res::PLAYER_ANIM_BEAM_STOP);
        let q = Player {
            sprite,
            status: if sprite.spec_animation_finished() { Status::Idle } else { p.status },
            ..p
        };
        spec_set_position(q, q.x, q.y)
    }
}

/// The step a knocked-back player is pushed on a frame.
pub open spec fn spec_knockback_offset(s: Status) -> Option<(i16, i16)> {
    match s {
        Status::KnockedBack { direction, cooldown } => if cooldown > 20 {
            Some(spec_direction_offset(direction))
        } else {
            None
        },
        _ => None,
    }
}

/// The player at the end of a knock-back frame.
pub open spec fn spec_finish_knockback(p: Player) -> Player {
    Player {
        sprite: BigSprite { x: p.x as u16, y: p.y as u16, ..p.sprite },
        status: match p.status {
            Status::KnockedBack { direction, cooldown } => if cooldown > 0 {
                Status::KnockedBack { direction, cooldown: (cooldown - 1) as u8 }
            } else {
                Status::Idle
            },
            _ => p.status,
        },
        ..p
    }
}

/// Direction in which explosion `i` flies.
pub open spec fn explosion_dir(i: int) -> (int, int) {
    if i == 0 { (1, 0) }
    else if i == 1 { (0, 1) }
    else if i == 2 { (-1, 0) }
    else if i == 3 { (0, -1) }
    else if i == 4 { (1, 1) }
    else if i == 5 { (-1, 1) }
    else if i == 6 { (1, -1) }
    else { (-1, -1) }
}

/// Whether explosion `i`, at (x, y), has left the screen in its direction.
pub open spec fn explosion_gone(i: int, x: u16, y: u16) -> bool {
    let r = x > 448;
    let l = x < 128;
    let d = y > 352;
    let u = y < 128;
    if i == 0 { r }
    else if i == 1 { d }
    else if i == 2 { l }
    else if i == 3 { u }
    else if i == 4 { r && d }
    else if i == 5 { l && d }
    else if i == 6 { r && u }
    else { l && u }
}

/// Explosion `i` after one frame: animated, moved one pixel outward, and
/// gone once off screen.
pub open spec fn spec_explosion_step(i: int, s: BigSprite) -> Option<BigSprite> {
    let u = s.spec_update();
    let d = explosion_dir(i);
    if explosion_gone(i, u.x, u.y) {
        None
    } else {
        Some(u.spec_set_position((u.x + d.0) as i16, (u.y + d.1) as i16))
    }
}

/// The explosions after one frame of the death sequence.
pub open spec fn spec_explosions_step(e: Seq<Option<BigSprite>>) -> Seq<Option<BigSprite>> {
    Seq::new(e.len(), |i: int| match e[i] {
        Some(s) => spec_explosion_step(i, s),
        None => None,
    })
}

/// The frame a sprite shows after its next update (before wrapping).
pub open spec fn spec_next_frame(s: BigSprite) -> int {
    if s.animation_state.frame_duration_remaining == 1 {
        s.animation_state.frame_index + 1
    } else {
        s.animation_state.frame_index as int
    }
}

/// The melee weapon sprite after one frame: off unless attacking, else
/// slashing beside the player.
pub open spec fn spec_weapon_sprite_step(p: Player) -> Player {
    if p.player_type != PlayerType::Melee {
        p
    } else {
        match p.weapon_sprite {
            None => p,
            Some(s) => if !(p.status is Attacking) {
                Player { weapon_sprite: Some(s.spec_set_animation(res::SWORD_ANIM_OFF)), ..p }
            } else {
                let s1 = s.spec_maybe_set_animation(res::SWORD_ANIM_SLASH);
                let d = spec_melee_offset(p.weapon, spec_next_frame(s1), p.sprite.flip_h);
                let s2 = s1.spec_set_position((p.x + 20 + d.0) as i16, (p.y + 24 + d.1) as i16).spec_update();
                Player { weapon_sprite: Some(BigSprite { flip_h: p.sprite.flip_h, ..s2 }), ..p }
            },
        }
    }
}

/// The player after the timers of a frame ran down and spikes were checked.
pub open spec fn spec_end_timers(p: Player, hits: Option<HitTiles>) -> Player {
    let t = Player {
        double_tap_timer: if p.double_tap_timer > 0 { (p.double_tap_timer - 1) as u16 } else { 0 },
        shoot_cooldown: if p.shoot_cooldown > 0 { (p.shoot_cooldown - 1) as u8 } else { 0 },
        ..p
    };
    let spiked = !(t.status is Dead) && match hits {
        Some(h) => h.any_hit_bitmask & TILE_SPIKE != 0,
        None => false,
    };
    if spiked && t.spec_alive() {
        Player { health: 0, status: Status::Dying { cooldown: DEATH_DURATION_FRAMES }, ..t }
    } else {
        t
    }
}

/// The player after the end of a frame (explosions aside, see `end_update`).
pub open spec fn spec_end_update(p: Player, hits: Option<HitTiles>) -> Player {
    let k = spec_end_timers(p, hits);
    spec_weapon_sprite_step(Player { sprite: k.sprite.spec_update(), ..k })
}

/// Whether button `b` went down this frame.
pub open spec fn tapped(s: ControllerState, b: Button) -> bool {
    has_button(s.just_pressed, b)
}

/// Whether button `b` is held.
pub open spec fn held(s: ControllerState, b: Button) -> bool {
    has_button(s.pressed, b)
}

/// The glow of the gun's charge this frame: grows with the charge, flickering
/// two steps brighter every other eight frames.
pub open spec fn spec_charge_fade(charge_timer: u16, frame: u32) -> u16 {
    let flicker = ((frame % 65536) / 8) % 2 * 2;
    let charge = charge_timer / 4;
    if charge < 8 + flicker { charge } else { (8 + flicker) as u16 }
}

/// The player after the jump button was looked at: a jump from the ground or
/// a wall, or a double jump in the air when the double jump item is held.
pub open spec fn spec_jump(p: Player, s: ControllerState, has_double_jump: bool) -> Player {
    if !tapped(s, Button::Up) {
        p
    } else if p.on_ground || p.spec_sliding_down_wall() {
        Player { h_speed: -256i16, ..p }
    } else if p.double_jump_available && has_double_jump {
        Player {
            h_speed: -256i16,
            double_jump_available: false,
            air_dash_available: false,
            dash_timer: 0,
            is_air_dashing: false,
            sprite: p.sprite.spec_set_animation(res::PLAYER_ANIM_JUMP_UP),
            ..p
        }
    } else {
        p
    }
}

/// In the air (neither on the ground nor sliding down a wall), a jump spends
/// the double jump: the player either stays as it was, or tapped Up with the
/// double jump available and the double-jump item, and then jumps
/// (`h_speed` of -256) with the double jump no longer available.
pub proof fn law_air_jump_spends_double_jump(p: Player, s: ControllerState, has_double_jump: bool)
    requires
        !p.on_ground,
        !p.spec_sliding_down_wall(),
    ensures
        ({
            let q = spec_jump(p, s, has_double_jump);
            ||| q == p
            ||| {
                &&& tapped(s, Button::Up)
                &&& p.double_jump_available
                &&& has_double_jump
                &&& q.h_speed == -256
                &&& !q.double_jump_available
                &&& q.on_ground == p.on_ground
            }
        }),
{
}

/// Two jumps in the air need a landing or a wall slide in between: after a
/// jump in the air, however the vertical speed changed since (`h`), a later
/// frame's jump controls (any input) change nothing while the player is
/// still in the air and not sliding down a wall.
pub proof fn law_no_second_air_jump(p: Player, s1: ControllerState, s2: ControllerState, h: i16, has_double_jump: bool)
    requires
        !p.on_ground,
        !p.spec_sliding_down_wall(),
        spec_jump(p, s1, has_double_jump) != p,
        !(Player { h_speed: h, ..spec_jump(p, s1, has_double_jump) }).spec_sliding_down_wall(),
    ensures
        ({
            let later = Player { h_speed: h, ..spec_jump(p, s1, has_double_jump) };
            spec_jump(later, s2, has_double_jump) == later
        }),
{
}

/// The move button that went down this frame, if any (left first).
pub open spec fn tapped_dir(s: ControllerState) -> Option<Direction> {
    if tapped(s, Button::Left) {
        Some(Direction::Left)
    } else if tapped(s, Button::Right) {
        Some(Direction::Right)
    } else {
        None
    }
}

/// The player after the dash controls were looked at: the dash button, or a
/// second tap of the move button in the facing direction within the
/// double-tap window, starts a ground dash (with the dash item) or an air
/// dash (with the air dash item, once per jump); a first tap opens the
/// double-tap window.
pub open spec fn spec_dash(p: Player, s: ControllerState, has_dash: bool, has_air_dash: bool) -> Player {
    let dir = tapped_dir(s);
    let double_tap = p.double_tap_timer > 0 && dir == Some(p.facing);
    if tapped(s, Button::C) || double_tap {
        if p.dash_timer > 0 {
            p
        } else if (p.on_ground || p.spec_sliding_down_wall()) && has_dash {
            Player { dash_timer: DASH_DURATION_FRAMES, double_tap_timer: 0, ..p }
        } else if !p.on_ground && p.air_dash_available && has_air_dash {
            Player {
                dash_timer: AIR_DASH_DURATION_FRAMES,
                double_tap_timer: 0,
                air_dash_available: false,
                double_jump_available: false,
                is_air_dashing: true,
                h_speed: 0,
                ..p
            }
        } else {
            p
        }
    } else if dir is Some {
        Player { double_tap_timer: 30, ..p }
    } else {
        p
    }
}

/// The facing after the move buttons were looked at (right wins).
pub open spec fn spec_walk_facing(p: Player, s: ControllerState) -> Direction {
    if held(s, Button::Right) {
        Direction::Right
    } else if held(s, Button::Left) {
        Direction::Left
    } else {
        p.facing
    }
}

/// The horizontal speed chosen by the move buttons, or the dash speed while
/// dashing (on the ground, air dashing, or pushing a move button).
pub open spec fn spec_walk_speed(p: Player, s: ControllerState) -> int {
    let walking = held(s, Button::Left) || held(s, Button::Right);
    let facing = spec_walk_facing(p, s);
    if p.dash_timer > 0 && (p.on_ground || p.is_air_dashing || walking) {
        if facing == Direction::Left { -DASH_SPEED } else { DASH_SPEED as int }
    } else if held(s, Button::Right) {
        p.speed as int
    } else if held(s, Button::Left) {
        -p.speed
    } else {
        0
    }
}

pub open spec fn signum(v: int) -> int {
    if v > 0 { 1 } else if v < 0 { -1 } else { 0 }
}

pub open spec fn abs_int(v: int) -> int {
    if v < 0 { -v } else { v }
}

/// `v` with the sign of `like` (`v` times the sign of `like`).
pub open spec fn with_sign(v: int, like: int) -> int {
    if like < 0 { -v } else if like > 0 { v } else { 0 }
}

/// The slip speed on the ice of the Arctic stage after a frame of walking at
/// `speed_x`: it starts at the walking speed, grows to it when walking along,
/// and shrinks by the walking speed in whole pixels when walking against it.
/// Off the ice (or in the air) the player does not slip.
pub open spec fn spec_slip(slip: i16, speed_x: int, on_ice: bool) -> int {
    if !on_ice {
        0
    } else if slip == 0 {
        speed_x
    } else if signum(slip as int) == signum(speed_x) {
        with_sign(if abs_int(slip as int) < abs_int(speed_x) { abs_int(speed_x) } else { abs_int(slip as int) }, slip as int)
    } else {
        let left = abs_int(slip as int) - abs_int(div_trunc(speed_x, SPEED_SCALE_FACTOR as int));
        with_sign(if left < 0 { 0 } else { left }, slip as int)
    }
}

/// The speed actually moved: the slip speed when slipping on ice.
pub open spec fn spec_slip_move(slip: i16, speed_x: int, on_ice: bool) -> int {
    if on_ice && slip != 0 { spec_slip(slip, speed_x, on_ice) } else { speed_x }
}

/// Whether a weapon has uses left (no entry of it is at zero uses).
pub open spec fn spec_weapon_usable(ws: Seq<InventoryWeapon>, w: WeaponType) -> bool {
    !(exists|i: int| 0 <= i < ws.len() && (#[trigger] ws[i]).weapon_type == w && ws[i].uses_left == Some(0i16))
}

/// The player after the attack button was looked at, and whether a shot was
/// fired. The shooter fires on a press or on releasing a charged shot (at
/// least 30 frames of charge) when the cooldown allows, and charges while
/// the button is held; the melee player starts a slash on a press.
pub open spec fn spec_attack(p: Player, s: ControllerState, usable: bool) -> (Player, bool) {
    if !usable {
        (p, false)
    } else if p.player_type == PlayerType::Shooter {
        let btn = held(s, Button::A);
        let fire = (tapped(s, Button::A) || (!btn && p.charge_timer >= 30)) && p.shoot_cooldown == 0;
        let cooldown = if fire { 10u8 } else { p.shoot_cooldown };
        let charge = if !btn && !fire {
            0u16
        } else if btn {
            if p.charge_timer == u16::MAX { u16::MAX } else { (p.charge_timer + 1) as u16 }
        } else {
            p.charge_timer
        };
        (Player { shoot_cooldown: cooldown, charge_timer: charge, ..p }, fire)
    } else if tapped(s, Button::A) {
        (Player {
            status: Status::Attacking { cooldown: 28 },
            enemies_hit: 0,
            sprite: p.sprite.spec_set_animation(if p.on_ground { res::PLAYER_MELEE_ANIM_ATTACK } else { res::PLAYER_MELEE_ANIM_JUMP_ATTACK }),
            is_air_dashing: false,
            dash_timer: 0,
            ..p
        }, false)
    } else {
        (p, false)
    }
}

/// Whether the attack step uses up one use of the weapon.
pub open spec fn spec_attack_uses(p: Player, s: ControllerState, usable: bool) -> bool {
    usable && (if p.player_type == PlayerType::Shooter { spec_attack(p, s, usable).1 } else { tapped(s, Button::A) })
}

/// The vertical speed after gravity: air dashing holds it at zero, releasing
/// the jump button early makes the jump lower, sliding down a wall is slow.
pub open spec fn spec_fall_speed(p: Player, jump_pressed: bool) -> int {
    let h1 = if p.is_air_dashing {
        0
    } else if !jump_pressed && p.h_speed + GRAVITY < 0 {
        p.h_speed + 3 * GRAVITY
    } else {
        p.h_speed + GRAVITY
    };
    if p.wall_jump_direction is Some && h1 > 0 { SLIDE_SPEED as int } else { h1 }
}

/// The player after gravity; a wall jump ends when the player turns away
/// from the wall.
pub open spec fn spec_fall(p: Player, jump_pressed: bool) -> Player {
    let h = spec_fall_speed(p, jump_pressed) as i16;
    let q = Player { h_speed: h, ..p };
    match q.wall_jump_direction {
        Some(d) => if h < 0 && d != q.facing { Player { wall_jump_direction: None, ..q } } else { q },
        None => q,
    }
}

/// The horizontal move of a wall jump: pushed away from the wall while the
/// wall jump animation plays.
pub open spec fn spec_wall_push(p: Player, move_x: i16) -> i16 {
    match p.wall_jump_direction {
        Some(d) => if p.h_speed < 0 && d == p.facing
            && p.sprite.animation_state.current_animation_id == res::PLAYER_ANIM_WALL_JUMP
            && !p.sprite.spec_animation_finished() {
            if d == Direction::Left { 1i16 } else { -1i16 }
        } else {
            move_x
        },
        None => move_x,
    }
}

/// What the idle step decided before the player is moved.
#[derive(Clone, Copy, Debug, PartialEq, Eq, Structural)]
pub struct IdlePlan {
    /// Pixels to move right (negative: left).
    pub move_x: i16,
    /// Pixels to move down (negative: up).
    pub move_y: i16,
    /// Whether a move button is held.
    pub walking: bool,
    /// Whether the dash or a move button is held.
    pub keep_dashing: bool,
    pub prev_facing: Direction,
    pub prev_sliding_down_wall: bool,
    /// Whether the weapon's attack effect fires this frame.
    pub trigger_attack: bool,
    /// Whether the player tries to unlock a nearby door with a key.
    pub unlock_door: bool,
}

/// The player after the input of an idle frame (jump, dash, walk, attack),
/// the pixels to move right, and whether the weapon fires.
pub open spec fn spec_idle_input(
    p: Player,
    s: ControllerState,
    items: Seq<InventoryItem>,
    usable: bool,
    frame: u32,
    arctic: bool,
) -> (Player, int, bool) {
    let p1 = spec_jump(p, s, spec_has_item(items, ItemType::Doublejump));
    let p2 = spec_dash(p1, s, spec_has_item(items, ItemType::Dash), spec_has_item(items, ItemType::Airdash));
    let sx = spec_walk_speed(p2, s);
    let on_ice = p2.on_ground && arctic;
    let p3 = Player { facing: spec_walk_facing(p2, s), slip_speed: spec_slip(p2.slip_speed, sx, on_ice) as i16, ..p2 };
    let mx = spec_scale_speed(spec_slip_move(p2.slip_speed, sx, on_ice) as i16, frame);
    let a = spec_attack(p3, s, usable);
    (a.0, mx, a.1)
}

/// The player state before the attack step of an idle frame.
pub open spec fn spec_pre_attack(p: Player, s: ControllerState, items: Seq<InventoryItem>, arctic: bool) -> Player {
    let p1 = spec_jump(p, s, spec_has_item(items, ItemType::Doublejump));
    let p2 = spec_dash(p1, s, spec_has_item(items, ItemType::Dash), spec_has_item(items, ItemType::Airdash));
    let sx = spec_walk_speed(p2, s);
    Player { facing: spec_walk_facing(p2, s), slip_speed: spec_slip(p2.slip_speed, sx, p2.on_ground && arctic) as i16, ..p2 }
}

/// The player and the plan of an idle frame, before the move.
pub open spec fn spec_plan_idle(
    p: Player,
    input: Option<ControllerState>,
    items: Seq<InventoryItem>,
    weapons: Seq<InventoryWeapon>,
    frame: u32,
    arctic: bool,
) -> (Player, IdlePlan) {
    let usable = spec_weapon_usable(weapons, p.weapon);
    let r = match input {
        Some(s) => spec_idle_input(p, s, items, usable, frame, arctic),
        None => (p, 0int, false),
    };
    let jump_pressed = input matches Some(s) && held(s, Button::Up);
    let p5 = spec_fall(r.0, jump_pressed);
    (p5, IdlePlan {
        move_x: spec_wall_push(Player { h_speed: spec_fall_speed(r.0, jump_pressed) as i16, ..r.0 }, r.1 as i16),
        move_y: spec_scale_speed(p5.h_speed, frame) as i16,
        walking: input matches Some(s) && (held(s, Button::Left) || held(s, Button::Right)),
        keep_dashing: input matches Some(s) && (held(s, Button::C) || held(s, Button::Left) || held(s, Button::Right)),
        prev_facing: p.facing,
        prev_sliding_down_wall: p.spec_sliding_down_wall(),
        trigger_attack: r.2,
        unlock_door: input matches Some(s) && tapped(s, Button::B) && spec_has_item(items, ItemType::Key),
    })
}

/// The weapons after an idle frame: one use less when an attack started.
pub open spec fn spec_plan_weapons(
    p: Player,
    input: Option<ControllerState>,
    items: Seq<InventoryItem>,
    weapons: Seq<InventoryWeapon>,
    arctic: bool,
) -> Seq<InventoryWeapon> {
    let usable = spec_weapon_usable(weapons, p.weapon);
    match input {
        Some(s) => if spec_attack_uses(spec_pre_attack(p, s, items, arctic), s, usable) {
            spec_change_uses(weapons, p.weapon, -1)
        } else {
            weapons
        },
        None => weapons,
    }
}

/// The player after the move of an idle frame: wall sliding starts when
/// walking into a wall while falling (with the wall jump item); moving up
/// without rising means a ceiling was hit, moving down without falling means
/// the player stands on ground (landing restores the double jump and air
/// dash); walking into a wall stops slipping. Also returns whether the player
/// just landed.
pub open spec fn spec_land(p: Player, plan: IdlePlan, has_wall_jump: bool) -> (Player, bool) {
    let p1 = if p.h_speed >= 0 {
        if plan.walking && p.x == p.prev_x && has_wall_jump {
            Player { wall_jump_direction: Some(p.facing), double_jump_available: true, air_dash_available: true, ..p }
        } else {
            Player { wall_jump_direction: None, ..p }
        }
    } else {
        p
    };
    let p2 = if p1.y != p1.prev_y { Player { on_ground: false, ..p1 } } else { p1 };
    let ceiling = plan.move_y < 0 && p2.y >= p2.prev_y;
    let floor = !ceiling && plan.move_y > 0 && p2.y <= p2.prev_y;
    let just_landed = floor && !p2.on_ground;
    let p3 = if ceiling {
        Player { h_speed: SPEED_SCALE_FACTOR, ..p2 }
    } else if just_landed {
        Player {
            on_ground: true,
            wall_jump_direction: None,
            dash_timer: 0,
            is_air_dashing: false,
            double_jump_available: true,
            air_dash_available: true,
            h_speed: 0,
            ..p2
        }
    } else if floor {
        Player { h_speed: 0, ..p2 }
    } else {
        p2
    };
    (if plan.move_x != 0 && p3.x == p3.prev_x { Player { slip_speed: 0, ..p3 } } else { p3 }, just_landed)
}

/// The dash after a frame: it runs down; in the air (not air dashing) it
/// lasts until the ground is reached; it ends when the dash and move buttons
/// are released, when an air dash ran out, or when the player starts sliding
/// down a wall; turning around ends an air dash.
pub open spec fn spec_dash_tick(p: Player, plan: IdlePlan) -> Player {
    if p.dash_timer == 0 {
        p
    } else {
        let d = (p.dash_timer - 1) as u16;
        let (d1, a1) = if !p.on_ground && !p.is_air_dashing {
            (if d < 1 { 1u16 } else { d }, p.is_air_dashing)
        } else if !plan.keep_dashing || (p.is_air_dashing && d == 0) {
            (0u16, false)
        } else {
            (d, p.is_air_dashing)
        };
        let (d2, a2) = if !plan.prev_sliding_down_wall && p.spec_sliding_down_wall() { (0u16, false) } else { (d1, a1) };
        Player { dash_timer: d2, is_air_dashing: if plan.prev_facing != p.facing { false } else { a2 }, ..p }
    }
}

/// Whether the current animation is `id` and still playing.
pub open spec fn playing(p: Player, id: usize) -> bool {
    p.sprite.animation_state.current_animation_id == id && !p.sprite.spec_animation_finished()
}

/// The animation of an idle frame.
pub open spec fn spec_idle_anim(p: Player, walking: bool, just_landed: bool) -> usize {
    let cur = p.sprite.animation_state.current_animation_id;
    if !p.on_ground {
        if p.is_air_dashing {
            res::PLAYER_ANIM_DASH
        } else if p.h_speed < 0 {
            if cur == res::PLAYER_ANIM_WALL_SLIDE || cur == res::PLAYER_ANIM_WALL_JUMP {
                res::PLAYER_ANIM_WALL_JUMP
            } else {
                res::PLAYER_ANIM_JUMP_UP
            }
        } else if p.spec_sliding_down_wall() {
            res::PLAYER_ANIM_WALL_SLIDE
        } else {
            res::PLAYER_ANIM_JUMP_DOWN
        }
    } else if just_landed || playing(p, res::PLAYER_ANIM_LAND) {
        res::PLAYER_ANIM_LAND
    } else if p.dash_timer > 0 {
        res::PLAYER_ANIM_DASH
    } else if walking {
        res::PLAYER_ANIM_WALK
    } else if cur == res::PLAYER_ANIM_DASH || playing(p, res::PLAYER_ANIM_DASH_STOP) {
        res::PLAYER_ANIM_DASH_STOP
    } else if p.status is Attacking || playing(p, res::PLAYER_ANIM_ATTACK) {
        res::PLAYER_ANIM_ATTACK
    } else {
        res::PLAYER_ANIM_IDLE
    }
}

/// The player after the rest of an idle frame: landing, dash, animation, and
/// death by falling into a bottomless pit.
pub open spec fn spec_finish_idle(p: Player, plan: IdlePlan, has_wall_jump: bool) -> Player {
    let l = spec_land(p, plan, has_wall_jump);
    let q = spec_dash_tick(l.0, plan);
    let anim = spec_idle_anim(q, plan.walking, l.1);
    let r = Player {
        sprite: BigSprite { flip_h: q.facing == Direction::Left, ..q.sprite.spec_maybe_set_animation(anim) },
        ..q
    };
    if r.y + 8 > 352 && r.spec_alive() {
        Player { health: 0, status: Status::Dying { cooldown: DEATH_DURATION_FRAMES }, ..r }
    } else {
        r
    }
}

/// The area the melee weapon hurts this frame, in screen coordinates.
pub open spec fn spec_hurtbox(p: Player) -> Option<Hitbox> {
    if p.player_type == PlayerType::Shooter {
        None
    } else {
        match p.weapon_sprite {
            Some(s) => match spec_melee_hurtbox(p.weapon, spec_next_frame(s), p.sprite.flip_h) {
                Some(h) => Some(Hitbox { x: (h.x + p.x + 20) as i16, y: (h.y + p.y + 24) as i16, ..h }),
                None => None,
            },
            None => None,
        }
    }
}

/// Whether the far edges of a box fit into `i16`.
pub open spec fn fits_box(h: Hitbox) -> bool {
    fits_i16(h.x + h.w) && fits_i16(h.y + h.h)
}

/// The melee hits on a list of enemies given as (id, hitbox), in order:
/// each enemy not yet hit during this attack (by id, in `hit`) that the
/// hurtbox touches is hit. Returns the positions hit (one bit each) and the
/// ids hit so far.
pub open spec fn spec_enemy_scan(h: Hitbox, es: Seq<(u16, Hitbox)>, hit: u32) -> (u32, u32)
    decreases es.len(),
{
    if es.len() == 0 {
        (0u32, hit)
    } else {
        let r = spec_enemy_scan(h, es.drop_last(), hit);
        let i = es.len() - 1;
        let e = es.last();
        if r.1 & (1u32 << (e.0 as u32)) != 0 {
            r
        } else if spec_overlaps(h, e.1) {
            (r.0 | (1u32 << (i as u32)), r.1 | (1u32 << (e.0 as u32)))
        } else {
            r
        }
    }
}

/// The switches, given as (skip, hitbox), that the hurtbox touches (one bit
/// per position); skipped are those already completed or pending.
pub open spec fn spec_switch_scan(h: Hitbox, ss: Seq<(bool, Hitbox)>) -> u32
    decreases ss.len(),
{
    if ss.len() == 0 {
        0u32
    } else {
        let r = spec_switch_scan(h, ss.drop_last());
        let i = ss.len() - 1;
        if !ss.last().0 && spec_overlaps(h, ss.last().1) { r | (1u32 << (i as u32)) } else { r }
    }
}

proof fn lemma_bit_or_other(a: u32, i: u32, j: u32)
    requires
        i < 32,
        j < 32,
        i != j,
    ensures
        (a | (1u32 << i)) & (1u32 << j) == a & (1u32 << j),
{
    assert((a | (1u32 << i)) & (1u32 << j) == a & (1u32 << j)) by (bit_vector)
        requires
            i < 32,
            j < 32,
            i != j,
    ;
}

proof fn lemma_bit_or_keeps(a: u32, b: u32, j: u32)
    requires
        j < 32,
        a & (1u32 << j) != 0,
    ensures
        (a | b) & (1u32 << j) != 0,
{
    assert((a | b) & (1u32 << j) != 0) by (bit_vector)
        requires
            j < 32,
            a & (1u32 << j) != 0,
    ;
}

/// During one melee attack each enemy is hit at most once: an enemy whose id
/// was already hit is not hit again, the ids hit so far are never
/// forgotten, and only positions of the list are marked as hit.
pub proof fn law_melee_hits_once(h: Hitbox, es: Seq<(u16, Hitbox)>, hit: u32)
    requires
        es.len() <= 32,
        forall|i: int| 0 <= i < es.len() ==> (#[trigger] es[i]).0 < 32,
    ensures
        forall|i: int| 0 <= i < es.len() && hit & (1u32 << (es[i].0 as u32)) != 0
            ==> #[trigger] (spec_enemy_scan(h, es, hit).0 & (1u32 << (i as u32))) == 0,
        forall|id: u32| id < 32 && hit & (1u32 << id) != 0 ==> #[trigger] (spec_enemy_scan(h, es, hit).1 & (1u32 << id)) != 0,
        forall|j: u32| es.len() <= j < 32 ==> #[trigger] (spec_enemy_scan(h, es, hit).0 & (1u32 << j)) == 0,
    decreases es.len(),
{
    if es.len() == 0 {
        assert forall|j: u32| es.len() <= j < 32 implies #[trigger] (spec_enemy_scan(h, es, hit).0 & (1u32 << j)) == 0 by {
            assert(0u32 & (1u32 << j) == 0) by (bit_vector);
        }
    } else {
        let p = es.drop_last();
        law_melee_hits_once(h, p, hit);
        let r = spec_enemy_scan(h, p, hit);
        let n = (es.len() - 1) as u32;
        let e = es.last();
        assert(e == es[es.len() - 1]);
        let res = spec_enemy_scan(h, es, hit);
        assert forall|i: int| 0 <= i < es.len() && hit & (1u32 << (es[i].0 as u32)) != 0
            implies #[trigger] (res.0 & (1u32 << (i as u32))) == 0 by {
            if i < es.len() - 1 {
                assert(p[i] == es[i]);
                assert(r.0 & (1u32 << (i as u32)) == 0);
                if res.0 != r.0 {
                    lemma_bit_or_other(r.0, n, i as u32);
                }
            } else {
                assert(r.1 & (1u32 << (e.0 as u32)) != 0);
                assert(res == r);
                assert(r.0 & (1u32 << n) == 0);
            }
        }
        assert forall|id: u32| id < 32 && hit & (1u32 << id) != 0 implies #[trigger] (res.1 & (1u32 << id)) != 0 by {
            assert(r.1 & (1u32 << id) != 0);
            if res.1 != r.1 {
                lemma_bit_or_keeps(r.1, 1u32 << (e.0 as u32), id);
            }
        }
        assert forall|j: u32| es.len() <= j < 32 implies #[trigger] (res.0 & (1u32 << j)) == 0 by {
            assert(r.0 & (1u32 << j) == 0);
            if res.0 != r.0 {
                lemma_bit_or_other(r.0, n, j);
            }
        }
    }
}

/// Slipping on the ice never speeds the slide up when walking against it,
/// and without walking the slide keeps its speed.
pub proof fn law_slip_against_slows(slip: i16, speed_x: int)
    requires
        slip != 0,
        signum(slip as int) != signum(speed_x),
    ensures
        abs_int(spec_slip(slip, speed_x, true)) <= abs_int(slip as int),
        speed_x == 0 ==> spec_slip(slip, speed_x, true) == slip,
{
}

/// What an attack frame hit.
#[derive(Clone, Copy, Debug, PartialEq, Eq, Structural)]
pub struct AttackTick {
    /// Whether the weapon's attack effect fires (on the frame the slash starts).
    pub trigger_attack: bool,
    /// Enemies newly hit, one bit per position in the enemy list.
    pub enemies_to_hit: u32,
    /// Switches hit, one bit per position in the switch list.
    pub switches_hit: u32,
}

/// The weapon sprite after switching to `weapon`: the sprite on screen takes
/// the weapon's tiles when the weapon has its own, else `fresh` takes over.
/// Whether `fresh` is the sprite that switching to `weapon` needs when no
/// weapon sprite can take over the new tiles: the weapon's own singleton
/// sprite for a sword, nothing for a gun.
pub open spec fn spec_fresh_sprite_fits(ws: Option<BigSprite>, weapon: WeaponType, fresh: Option<BigSprite>) -> bool {
    match (ws, spec_tiles_idx(weapon)) {
        (Some(_), Some(_)) => true,
        (_, Some(t)) => fresh matches Some(s) && s.tiles_idx == t && s.singleton,
        (_, None) => fresh is None,
    }
}

pub open spec fn spec_weapon_sprite_after(ws: Option<BigSprite>, weapon: WeaponType, fresh: Option<BigSprite>) -> Option<BigSprite> {
    match (ws, spec_tiles_idx(weapon)) {
        (Some(s), Some(t)) => Some(BigSprite { tiles_idx: t, ..s }),
        _ => fresh,
    }
}

/// One frame of slipping on the ice: the new slip speed and the speed
/// actually moved (see `spec_slip`).
pub fn slip_step(slip: i16, speed_x: i16, on_ice: bool) -> (r: (i16, i16))
    requires
        slip > i16::MIN,
        speed_x > i16::MIN,
    ensures
        r.0 == spec_slip(slip, speed_x as int, on_ice),
        r.1 == spec_slip_move(slip, speed_x as int, on_ice),
        r.0 > i16::MIN,
{
    if !on_ice {
        return (0, speed_x);
    }
    if slip == 0 {
        return (speed_x, speed_x);
    }
    let slip_sign: i16 = if slip > 0 { 1 } else { -1 };
    let speed_sign: i16 = if speed_x > 0 { 1 } else if speed_x < 0 { -1 } else { 0 };
    let slip_abs: i16 = if slip < 0 { -slip } else { slip };
    let speed_abs: i16 = if speed_x < 0 { -speed_x } else { speed_x };
    let new_slip = if slip_sign == speed_sign {
        let m = if slip_abs < speed_abs { speed_abs } else { slip_abs };
        if slip_sign < 0 { -m } else { m }
    } else {
        let q = div_i16(speed_x, SPEED_SCALE_FACTOR);
        let dec: i16 = if q < 0 { -q } else { q };
        let left: i16 = if slip_abs - dec < 0 { 0 } else { slip_abs - dec };
        if slip_sign < 0 { -left } else { left }
    };
    (new_slip, new_slip)
}

impl Player {
    /// Start of a frame: one frame less of invulnerability, and a living
    /// player remembers where it stood.
    pub fn begin_update(&mut self)
        ensures
            *final(self) == spec_begin_update(*old(self)),
    {
        if self.invulnerability_timer > 0 {
            self.invulnerability_timer = self.invulnerability_timer - 1;
        }
        if self.is_alive() {
            self.prev_x = self.x;
            self.prev_y = self.y;
        }
    }

    /// The glow of the gun's charge this frame (see `spec_charge_fade`);
    /// `None` unless the player holds the gun.
    pub fn charge_fade(&self, frame: u32) -> (r: Option<u16>)
        ensures
            r == (if self.weapon == WeaponType::Gun { Some(spec_charge_fade(self.charge_timer, frame)) } else { None }),
    {
        if self.weapon != WeaponType::Gun {
            return None;
        }
        let flicker: u16 = ((frame % 65536) / 8 % 2 * 2) as u16;
        let charge: u16 = self.charge_timer / 4;
        Some(if charge < 8 + flicker { charge } else { 8 + flicker })
    }

    fn idle_jump(&mut self, s: &ControllerState, has_double_jump: bool)
        requires
            old(self).wf(),
        ensures
            final(self).wf(),
            *final(self) == spec_jump(*old(self), *s, has_double_jump),
    {
        if s.just_pressed(Button::Up) {
            if self.on_ground || self.is_sliding_down_wall() {
                self.h_speed = -JUMP_SPEED;
            } else if self.double_jump_available && has_double_jump {
                self.h_speed = -JUMP_SPEED;
                self.double_jump_available = false;
                self.air_dash_available = false;
                self.dash_timer = 0;
                self.is_air_dashing = false;
                self.sprite.set_animation(res::PLAYER_ANIM_JUMP_UP);
            }
        }
    }

    fn idle_dash(&mut self, s: &ControllerState, has_dash: bool, has_air_dash: bool)
        ensures
            *final(self) == spec_dash(*old(self), *s, has_dash, has_air_dash),
    {
        let dir = if s.just_pressed(Button::Left) {
            Some(Direction::Left)
        } else if s.just_pressed(Button::Right) {
            Some(Direction::Right)
        } else {
            None
        };
        let double_tap = self.double_tap_timer > 0 && match dir {
            Some(d) => d == self.facing,
            None => false,
        };
        if s.just_pressed(Button::C) || double_tap {
            if !self.is_dashing() {
                if (self.on_ground || self.is_sliding_down_wall()) && has_dash {
                    self.dash_timer = DASH_DURATION_FRAMES;
                    self.double_tap_timer = 0;
                } else if !self.on_ground && self.air_dash_available && has_air_dash {
                    self.dash_timer = AIR_DASH_DURATION_FRAMES;
                    self.double_tap_timer = 0;
                    self.air_dash_available = false;
                    self.double_jump_available = false;
                    self.is_air_dashing = true;
                    self.h_speed = 0;
                }
            }
        } else if dir.is_some() {
            self.double_tap_timer = 30;
        }
    }

    fn walk_speed(&self, s: &ControllerState) -> (r: (i16, bool, Direction))
        requires
            self.wf(),
        ensures
            r.0 == spec_walk_speed(*self, *s),
            r.1 == (held(*s, Button::Left) || held(*s, Button::Right)),
            r.2 == spec_walk_facing(*self, *s),
    {
        let mut speed_x: i16 = 0;
        let mut walking = false;
        let mut facing = self.facing;
        if s.is_pressed(Button::Left) {
            speed_x = -self.speed;
            walking = true;
            facing = Direction::Left;
        }
        if s.is_pressed(Button::Right) {
            speed_x = self.speed;
            walking = true;
            facing = Direction::Right;
        }
        if self.is_dashing() && (self.on_ground || self.is_air_dashing || walking) {
            speed_x = DASH_SPEED;
            if facing == Direction::Left {
                speed_x = -speed_x;
            }
        }
        (speed_x, walking, facing)
    }

    fn idle_walk(&mut self, s: &ControllerState, arctic: bool, frame: u32) -> (r: (i16, bool))
        requires
            old(self).wf(),
        ensures
            final(self).wf(),
            *final(self) == (Player {
                facing: spec_walk_facing(*old(self), *s),
                slip_speed: spec_slip(old(self).slip_speed, spec_walk_speed(*old(self), *s), old(self).on_ground && arctic) as i16,
                ..*old(self)
            }),
            r.0 == spec_scale_speed(spec_slip_move(old(self).slip_speed, spec_walk_speed(*old(self), *s), old(self).on_ground && arctic) as i16, frame),
            r.1 == (held(*s, Button::Left) || held(*s, Button::Right)),
    {
        let (speed_x, walking, facing) = self.walk_speed(s);
        let (slip, moved) = slip_step(self.slip_speed, speed_x, self.on_ground && arctic);
        self.facing = facing;
        self.slip_speed = slip;
        (scale_speed(moved, frame), walking)
    }

    fn idle_attack(&mut self, s: &ControllerState, inventory: &mut Inventory) -> (fire: bool)
        requires
            old(self).wf(),
            spec_uses_left(old(inventory).spec_weapons(), old(self).weapon) matches Some(u) ==> u > i16::MIN,
        ensures
            final(self).wf(),
            (*final(self), fire) == spec_attack(*old(self), *s, spec_weapon_usable(old(inventory).spec_weapons(), old(self).weapon)),
            final(inventory).spec_items() == old(inventory).spec_items(),
            final(inventory).scene == old(inventory).scene,
            final(inventory).spec_weapons() == (if spec_attack_uses(*old(self), *s, spec_weapon_usable(old(inventory).spec_weapons(), old(self).weapon)) {
                spec_change_uses(old(inventory).spec_weapons(), old(self).weapon, -1)
            } else {
                old(inventory).spec_weapons()
            }),
    {
        if !inventory.weapon_has_uses_left(self.weapon) {
            return false;
        }
        if self.player_type == PlayerType::Shooter {
            let btn = s.is_pressed(Button::A);
            let simple = s.just_pressed(Button::A);
            let charged = !btn && self.charge_timer >= 30;
            let mut fire = false;
            if (simple || charged) && self.shoot_cooldown == 0 {
                inventory.decrease_weapon_uses(self.weapon);
                self.shoot_cooldown = self.get_attack_cooldown();
                fire = true;
            }
            if !btn && !fire {
                self.charge_timer = 0;
            } else if btn {
                self.charge_timer = self.charge_timer.saturating_add(1);
            }
            fire
        } else {
            if s.just_pressed(Button::A) {
                inventory.decrease_weapon_uses(self.weapon);
                self.status = Status::Attacking { cooldown: self.get_attack_cooldown() };
                self.enemies_hit = 0;
                let anim = self.get_attack_animation();
                self.sprite.set_animation(anim);
                self.is_air_dashing = false;
                self.dash_timer = 0;
            }
            false
        }
    }

    fn idle_fall(&mut self, jump_pressed: bool, move_x: i16, frame: u32) -> (r: (i16, i16))
        requires
            old(self).wf(),
            !old(self).is_air_dashing ==> old(self).h_speed + GRAVITY <= i16::MAX,
        ensures
            final(self).wf(),
            *final(self) == spec_fall(*old(self), jump_pressed),
            r.0 == spec_wall_push(Player { h_speed: spec_fall_speed(*old(self), jump_pressed) as i16, ..*old(self) }, move_x),
            r.1 == spec_scale_speed(final(self).h_speed, frame),
    {
        if !self.is_air_dashing {
            self.h_speed = self.h_speed + GRAVITY;
            if !jump_pressed && self.h_speed < 0 {
                self.h_speed = self.h_speed + 2 * GRAVITY;
            }
        } else {
            self.h_speed = 0;
        }
        if self.is_sliding_down_wall() {
            self.h_speed = SLIDE_SPEED;
        }
        let mut mx = move_x;
        if let Some(d) = self.wall_jump_direction {
            if self.h_speed < 0 {
                if d != self.facing {
                    self.wall_jump_direction = None;
                } else if self.sprite.current_animation() == res::PLAYER_ANIM_WALL_JUMP
                    && !self.sprite.is_animation_finished()
                {
                    mx = if d == Direction::Left { 1 } else { -1 };
                }
            }
        }
        (mx, scale_speed(self.h_speed, frame))
    }

    #[verifier::rlimit(60)]
    fn idle_input(&mut self, s: &ControllerState, inventory: &mut Inventory, frame: u32, arctic: bool) -> (r: (i16, bool, bool))
        requires
            old(self).wf(),
            spec_uses_left(old(inventory).spec_weapons(), old(self).weapon) matches Some(u) ==> u > i16::MIN,
        ensures
            final(self).wf(),
            *final(self) == spec_idle_input(*old(self), *s, old(inventory).spec_items(),
                spec_weapon_usable(old(inventory).spec_weapons(), old(self).weapon), frame, arctic).0,
            r.0 == spec_idle_input(*old(self), *s, old(inventory).spec_items(),
                spec_weapon_usable(old(inventory).spec_weapons(), old(self).weapon), frame, arctic).1,
            r.1 == (held(*s, Button::Left) || held(*s, Button::Right)),
            r.2 == spec_idle_input(*old(self), *s, old(inventory).spec_items(),
                spec_weapon_usable(old(inventory).spec_weapons(), old(self).weapon), frame, arctic).2,
            final(inventory).spec_items() == old(inventory).spec_items(),
            final(inventory).scene == old(inventory).scene,
            final(inventory).spec_weapons() == (if spec_attack_uses(spec_pre_attack(*old(self), *s, old(inventory).spec_items(), arctic), *s,
                spec_weapon_usable(old(inventory).spec_weapons(), old(self).weapon)) {
                spec_change_uses(old(inventory).spec_weapons(), old(self).weapon, -1)
            } else {
                old(inventory).spec_weapons()
            }),
    {
        let has_double_jump = inventory.contains(ItemType::Doublejump);
        self.idle_jump(s, has_double_jump);
        let has_dash = inventory.contains(ItemType::Dash);
        let has_air_dash = inventory.contains(ItemType::Airdash);
        self.idle_dash(s, has_dash, has_air_dash);
        let (mx, w) = self.idle_walk(s, arctic, frame);
        let fire = self.idle_attack(s, inventory);
        (mx, w, fire)
    }

    /// The part of an idle frame before the player moves: jumping, dashing,
    /// walking (and slipping on the ice of the Arctic stage), attacking, and
    /// gravity. Returns the plan for the move and for the rest of the frame;
    /// the inventory loses a weapon use when an attack starts.
    pub fn plan_idle(
        &mut self,
        input: Option<&ControllerState>,
        inventory: &mut Inventory,
        frame: u32,
        arctic: bool,
    ) -> (plan: IdlePlan)
        requires
            old(self).wf(),
            old(self).h_speed + GRAVITY <= i16::MAX,
            spec_uses_left(old(inventory).spec_weapons(), old(self).weapon) matches Some(u) ==> u > i16::MIN,
        ensures
            final(self).wf(),
            (*final(self), plan) == spec_plan_idle(*old(self), match input { Some(s) => Some(*s), None => None },
                old(inventory).spec_items(), old(inventory).spec_weapons(), frame, arctic),
            final(inventory).spec_items() == old(inventory).spec_items(),
            final(inventory).scene == old(inventory).scene,
            final(inventory).spec_weapons() == spec_plan_weapons(*old(self), match input { Some(s) => Some(*s), None => None },
                old(inventory).spec_items(), old(inventory).spec_weapons(), arctic),
    {
        let prev_facing = self.facing;
        let prev_sliding_down_wall = self.is_sliding_down_wall();
        let mut move_x: i16 = 0;
        let mut walking = false;
        let mut jump_pressed = false;
        let mut keep_dashing = false;
        let mut trigger_attack = false;
        let mut unlock_door = false;
        if let Some(s) = input {
            jump_pressed = s.is_pressed(Button::Up);
            keep_dashing = s.is_pressed(Button::C) || s.is_pressed(Button::Left) || s.is_pressed(Button::Right);
            let (mx, w, fire) = self.idle_input(s, inventory, frame, arctic);
            move_x = mx;
            walking = w;
            trigger_attack = fire;
            unlock_door = s.just_pressed(Button::B) && inventory.contains(ItemType::Key);
        }
        let (mx, move_y) = self.idle_fall(jump_pressed, move_x, frame);
        IdlePlan {
            move_x: mx,
            move_y,
            walking,
            keep_dashing,
            prev_facing,
            prev_sliding_down_wall,
            trigger_attack,
            unlock_door,
        }
    }

    fn land(&mut self, plan: IdlePlan, has_wall_jump: bool) -> (just_landed: bool)
        ensures
            (*final(self), just_landed) == spec_land(*old(self), plan, has_wall_jump),
    {
        if self.h_speed >= 0 {
            if plan.walking && self.x == self.prev_x && has_wall_jump {
                self.wall_jump_direction = Some(self.facing);
                self.double_jump_available = true;
                self.air_dash_available = true;
            } else {
                self.wall_jump_direction = None;
            }
        }
        if self.y != self.prev_y {
            self.on_ground = false;
        }
        let mut just_landed = false;
        if plan.move_y < 0 && self.y >= self.prev_y {
            self.h_speed = SPEED_SCALE_FACTOR;
        } else if plan.move_y > 0 && self.y <= self.prev_y {
            if !self.on_ground {
                just_landed = true;
                self.on_ground = true;
                self.wall_jump_direction = None;
                self.dash_timer = 0;
                self.is_air_dashing = false;
                self.double_jump_available = true;
                self.air_dash_available = true;
            }
            self.h_speed = 0;
        }
        if plan.move_x != 0 && self.x == self.prev_x {
            self.slip_speed = 0;
        }
        just_landed
    }

    fn dash_tick(&mut self, plan: IdlePlan)
        ensures
            *final(self) == spec_dash_tick(*old(self), plan),
    {
        if self.is_dashing() {
            self.dash_timer = self.dash_timer - 1;
            if !self.on_ground && !self.is_air_dashing {
                if self.dash_timer < 1 {
                    self.dash_timer = 1;
                }
            } else if !plan.keep_dashing || (self.is_air_dashing && self.dash_timer == 0) {
                self.dash_timer = 0;
                self.is_air_dashing = false;
            }
            if !plan.prev_sliding_down_wall && self.is_sliding_down_wall() {
                self.dash_timer = 0;
                self.is_air_dashing = false;
            }
            if plan.prev_facing != self.facing {
                self.is_air_dashing = false;
            }
        }
    }

    /// The animation of an idle frame (see `spec_idle_anim`).
    pub fn idle_animation(&self, walking: bool, just_landed: bool) -> (r: usize)
        requires
            self.wf(),
        ensures
            r == spec_idle_anim(*self, walking, just_landed),
    {
        let cur = self.sprite.current_animation();
        let finished = self.sprite.is_animation_finished();
        if !self.on_ground {
            if self.is_air_dashing {
                res::PLAYER_ANIM_DASH
            } else if self.h_speed < 0 {
                if cur == res::PLAYER_ANIM_WALL_SLIDE || cur == res::PLAYER_ANIM_WALL_JUMP {
                    res::PLAYER_ANIM_WALL_JUMP
                } else {
                    res::PLAYER_ANIM_JUMP_UP
                }
            } else if self.is_sliding_down_wall() {
                res::PLAYER_ANIM_WALL_SLIDE
            } else {
                res::PLAYER_ANIM_JUMP_DOWN
            }
        } else if just_landed || (cur == res::PLAYER_ANIM_LAND && !finished) {
            res::PLAYER_ANIM_LAND
        } else if self.is_dashing() {
            res::PLAYER_ANIM_DASH
        } else if walking {
            res::PLAYER_ANIM_WALK
        } else if cur == res::PLAYER_ANIM_DASH || (cur == res::PLAYER_ANIM_DASH_STOP && !finished) {
            res::PLAYER_ANIM_DASH_STOP
        } else if matches!(self.status, Status::Attacking { .. }) || (cur == res::PLAYER_ANIM_ATTACK && !finished) {
            res::PLAYER_ANIM_ATTACK
        } else {
            res::PLAYER_ANIM_IDLE
        }
    }

    /// The part of an idle frame after the player moved (its position now
    /// holds the result of the move): wall sliding, landing and ceilings, the
    /// dash, the animation and facing, and death in a bottomless pit.
    fn show_idle_animation(&mut self, walking: bool, just_landed: bool)
        requires
            old(self).wf(),
        ensures
            final(self).wf(),
            *final(self) == (Player {
                sprite: BigSprite {
                    flip_h: old(self).facing == Direction::Left,
                    ..old(self).sprite.spec_maybe_set_animation(spec_idle_anim(*old(self), walking, just_landed))
                },
                ..*old(self)
            }),
    {
        let anim = self.idle_animation(walking, just_landed);
        self.sprite.maybe_set_animation(anim);
        self.sprite.flip_h = self.facing == Direction::Left;
    }

    /// A player whose hitbox dropped below the screen fell into a pit and dies.
    fn fall_into_pit(&mut self)
        requires
            old(self).y + 8 <= i16::MAX,
        ensures
            *final(self) == (if old(self).y + 8 > 352 && old(self).spec_alive() {
                Player { health: 0, status: Status::Dying { cooldown: DEATH_DURATION_FRAMES }, ..*old(self) }
            } else {
                *old(self)
            }),
    {
        if self.y + 8 > 128 + 224 {
            self.kill();
        }
    }

    #[verifier::rlimit(60)]
    pub fn finish_idle(&mut self, plan: IdlePlan, has_wall_jump: bool)
        requires
            old(self).wf(),
            old(self).y + 8 <= i16::MAX,
        ensures
            final(self).wf(),
            *final(self) == spec_finish_idle(*old(self), plan, has_wall_jump),
    {
        let ghost p = *self;
        let just_landed = self.land(plan, has_wall_jump);
        self.dash_tick(plan);
        let ghost q = *self;
        assert(q == spec_dash_tick(spec_land(p, plan, has_wall_jump).0, plan));
        self.show_idle_animation(plan.walking, just_landed);
        self.fall_into_pit();
    }

    /// One frame of a melee attack: the attack runs down (ending in the idle
    /// state), the weapon's effect triggers on the frame the slash starts,
    /// and the hurtbox hits each enemy at most once per attack and hits the
    /// switches that are not completed or pending. Enemies are given as
    /// (id, hitbox) and switches as (skip, hitbox), in list order.
    pub fn update_attacking(&mut self, enemies: &Vec<(u16, Hitbox)>, switches: &Vec<(bool, Hitbox)>) -> (r: AttackTick)
        requires
            old(self).wf(),
            old(self).status is Attacking,
            coord_small(old(self).x as int),
            coord_small(old(self).y as int),
            enemies@.len() <= 32,
            switches@.len() <= 32,
            forall|i: int| 0 <= i < enemies@.len() ==> (#[trigger] enemies@[i]).0 < 32 && fits_box(enemies@[i].1),
            forall|i: int| 0 <= i < switches@.len() ==> fits_box((#[trigger] switches@[i]).1),
        ensures
            final(self).wf(),
            *final(self) == (Player {
                status: if status_cooldown(old(self).status) > 0 {
                    Status::Attacking { cooldown: (status_cooldown(old(self).status) - 1) as u8 }
                } else {
                    Status::Idle
                },
                enemies_hit: final(self).enemies_hit,
                ..*old(self)
            }),
            r.trigger_attack == (status_cooldown(old(self).status)
                == (if old(self).player_type == PlayerType::Shooter { 0u8 } else { 18u8 })),
            (r.enemies_to_hit, final(self).enemies_hit) == match spec_hurtbox(*old(self)) {
                Some(h) => spec_enemy_scan(h, enemies@, old(self).enemies_hit),
                None => (0u32, old(self).enemies_hit),
            },
            r.switches_hit == match spec_hurtbox(*old(self)) {
                Some(h) => spec_switch_scan(h, switches@),
                None => 0u32,
            },
    {
        let cooldown = match self.status {
            Status::Attacking { cooldown } => cooldown,
            _ => 0,
        };
        self.status = if cooldown > 0 {
            Status::Attacking { cooldown: cooldown - 1 }
        } else {
            Status::Idle
        };
        let trigger_attack = cooldown == self.get_attack_cooldown() - crate::player::MELEE_TRIGGER_FRAME;
        if let Some(s) = &self.weapon_sprite {
            let n = s.anims[s.animation_state.current_animation_id].frames.len();
            assert(s.animation_state.frame_index < n);
        }
        let hurtbox = self.get_hurtbox();
        let mut enemies_to_hit: u32 = 0;
        let mut switches_hit: u32 = 0;
        if let Some(h) = hurtbox {
            let ghost hit0 = self.enemies_hit;
            let ghost st = *self;
            let mut i: usize = 0;
            while i < enemies.len()
                invariant
                    *self == (Player { enemies_hit: self.enemies_hit, ..st }),
                    i <= enemies@.len(),
                    enemies@.len() <= 32,
                    forall|k: int| 0 <= k < enemies@.len() ==> (#[trigger] enemies@[k]).0 < 32 && fits_box(enemies@[k].1),
                    fits_box(h),
                    (enemies_to_hit, self.enemies_hit) == spec_enemy_scan(h, enemies@.take(i as int), hit0),
                decreases enemies@.len() - i,
            {
                let (id, hb) = enemies[i];
                assert(enemies@.take(i + 1).drop_last() =~= enemies@.take(i as int));
                if self.enemies_hit & (1u32 << (id as u32)) == 0 {
                    if h.collides(&hb) {
                        enemies_to_hit = enemies_to_hit | (1u32 << (i as u32));
                        self.enemies_hit = self.enemies_hit | (1u32 << (id as u32));
                    }
                }
                i = i + 1;
            }
            assert(enemies@.take(i as int) =~= enemies@);
            let mut j: usize = 0;
            while j < switches.len()
                invariant
                    j <= switches@.len(),
                    switches@.len() <= 32,
                    forall|k: int| 0 <= k < switches@.len() ==> fits_box((#[trigger] switches@[k]).1),
                    fits_box(h),
                    switches_hit == spec_switch_scan(h, switches@.take(j as int)),
                decreases switches@.len() - j,
            {
                let (skip, hb) = switches[j];
                assert(switches@.take(j + 1).drop_last() =~= switches@.take(j as int));
                if !skip && h.collides(&hb) {
                    switches_hit = switches_hit | (1u32 << (j as u32));
                }
                j = j + 1;
            }
            assert(switches@.take(j as int) =~= switches@);
        }
        AttackTick { trigger_attack, enemies_to_hit, switches_hit }
    }

    /// The move of an attacking player slipping on the ice of the Arctic
    /// stage, if any.
    pub fn attack_slip(&self, arctic: bool, frame: u32) -> (r: Option<i16>)
        ensures
            r == (if self.on_ground && arctic && self.slip_speed != 0 {
                Some(spec_scale_speed(self.slip_speed, frame) as i16)
            } else {
                None
            }),
    {
        if self.on_ground && arctic && self.slip_speed != 0 {
            Some(scale_speed(self.slip_speed, frame))
        } else {
            None
        }
    }

    /// End of an attack frame: a player that slipped off a cliff stops
    /// attacking; the attack animation plays, facing the right way.
    pub fn finish_attacking(&mut self, slipped: bool)
        requires
            old(self).wf(),
            old(self).player_type == PlayerType::Melee,
        ensures
            final(self).wf(),
            *final(self) == (Player {
                status: if slipped && old(self).prev_y != old(self).y { Status::Idle } else { old(self).status },
                sprite: BigSprite {
                    flip_h: old(self).facing == Direction::Left,
                    ..old(self).sprite.spec_maybe_set_animation(
                        if old(self).on_ground { res::PLAYER_MELEE_ANIM_ATTACK } else { res::PLAYER_MELEE_ANIM_JUMP_ATTACK })
                },
                ..*old(self)
            }),
    {
        if slipped && self.prev_y != self.y {
            self.status = Status::Idle;
        }
        let anim = self.get_attack_animation();
        self.sprite.maybe_set_animation(anim);
        self.sprite.flip_h = self.facing == Direction::Left;
    }

    /// Switches to `weapon`. A weapon sprite already on screen takes over the
    /// new weapon's tiles when the weapon has its own; otherwise the weapon
    /// sprite becomes `fresh_sprite`, the new weapon's sprite (none for guns).
    pub fn set_weapon(&mut self, weapon: WeaponType, res_state: &mut State, fresh_sprite: Option<BigSprite>)
        requires
            old(self).wf(),
            fresh_sprite matches Some(s) ==> s.wf() && s.anims@.len() > res::SWORD_ANIM_SLASH,
            old(self).weapon_sprite matches Some(s) ==> s.singleton && s.tiles_idx < old(res_state).spec_count(),
            spec_tiles_idx(weapon) matches Some(t) ==> t < old(res_state).spec_count(),
            spec_fresh_sprite_fits(old(self).weapon_sprite, weapon, fresh_sprite),
        ensures
            final(self).wf(),
            *final(self) == (Player { weapon, weapon_sprite: final(self).weapon_sprite, ..*old(self) }),
            final(self).weapon_sprite == spec_weapon_sprite_after(old(self).weapon_sprite, weapon, fresh_sprite),
            match final(self).weapon_sprite {
                Some(s) => spec_tiles_idx(weapon) == Some(s.tiles_idx) && s.singleton,
                None => spec_tiles_idx(weapon) is None,
            },
            final(res_state).spec_count() == old(res_state).spec_count(),
            match (old(self).weapon_sprite, spec_tiles_idx(weapon)) {
                (Some(s), Some(t)) => {
                    &&& final(res_state).spec_start(t as int) == old(res_state).spec_start(s.tiles_idx as int)
                    &&& final(res_state).spec_evictable(t as int) == old(res_state).spec_evictable(s.tiles_idx as int)
                },
                _ => *final(res_state) == *old(res_state),
            },
    {
        self.weapon = weapon;
        let tiles = weapon.tiles_idx();
        let mut slot: Option<BigSprite> = None;
        std::mem::swap(&mut slot, &mut self.weapon_sprite);
        match (slot, tiles) {
            (Some(mut s), Some(t)) => {
                res_state.switch_sprite_tiles(&mut s, t);
                self.weapon_sprite = Some(s);
            },
            _ => {
                self.weapon_sprite = fresh_sprite;
            },
        }
    }

    /// One frame of the death sequence: counts down to death and shows the
    /// dying animation. Returns the batch of explosions that appears on this
    /// frame (see `spec_explosion_batch`).
    pub fn update_dying(&mut self) -> (batch: u8)
        requires
            old(self).wf(),
            old(self).status is Dying,
        ensures
            final(self).wf(),
            batch == spec_explosion_batch(status_cooldown(old(self).status)),
            *final(self) == spec_update_dying(*old(self)),
    {
        let cooldown = match self.status {
            Status::Dying { cooldown } => cooldown,
            _ => 0,
        };
        let batch: u8 = if cooldown == DEATH_DURATION_FRAMES - DEATH_EXPLOSION_FRAME {
            1
        } else if cooldown == DEATH_DURATION_FRAMES - DEATH_EXPLOSION_FRAME - 20 {
            2
        } else {
            0
        };
        self.status = if cooldown > 0 {
            Status::Dying { cooldown: cooldown - 1 }
        } else {
            Status::Dead
        };
        self.sprite.maybe_set_animation(res::PLAYER_ANIM_DIE);
        batch
    }

    /// Starts a batch of four explosions at the player's center: batch 1
    /// fills explosion slots 0 to 3, batch 2 slots 4 to 7.
    pub fn place_explosions(&mut self, batch: u8, sprites: Vec<BigSprite>)
        requires
            old(self).wf(),
            batch == 1 || batch == 2,
            sprites@.len() == 4,
            forall|i: int| 0 <= i < 4 ==> (#[trigger] sprites@[i]).wf() && sprites@[i].anims@.len() > res::EXPLOSION_ANIM_EXPLODE,
            coord_small(old(self).x as int),
            coord_small(old(self).y as int),
        ensures
            final(self).wf(),
            *final(self) == (Player { explosion_sprites: final(self).explosion_sprites, ..*old(self) }),
            final(self).explosion_sprites@.len() == 8,
            forall|i: int| 0 <= i < 8 ==> #[trigger] final(self).explosion_sprites@[i] == (
                if (batch == 1 && i < 4) || (batch == 2 && i >= 4) {
                    Some(spec_explosion_at(sprites@[i % 4], *old(self)))
                } else {
                    old(self).explosion_sprites@[i]
                }),
    {
        let start: usize = if batch == 1 { 0 } else { 4 };
        let cx = self.x + 12;
        let cy = self.y + 16;
        let ghost me = *self;
        let ghost orig = sprites@;
        let mut sprites = sprites;
        let mut k: usize = 4;
        while k > 0
            invariant
                k <= 4,
                start == 0 || start == 4,
                (batch == 1) == (start == 0),
                sprites@.len() == k,
                forall|i: int| 0 <= i < k ==> sprites@[i] == orig[i],
                forall|i: int| 0 <= i < 4 ==> (#[trigger] orig[i]).wf() && orig[i].anims@.len() > res::EXPLOSION_ANIM_EXPLODE,
                cx == me.x + 12,
                cy == me.y + 16,
                coord_small(me.x as int),
                coord_small(me.y as int),
                me.wf(),
                *self == (Player { explosion_sprites: self.explosion_sprites, ..me }),
                self.explosion_sprites@.len() == 8,
                forall|i: int| 0 <= i < 8 ==> #[trigger] self.explosion_sprites@[i] == (
                    if start <= i < start + 4 && i - start >= k {
                        Some(spec_explosion_at(orig[i - start], me))
                    } else {
                        me.explosion_sprites@[i]
                    }),
            decreases k,
        {
            let mut s = sprites.pop().unwrap();
            k = k - 1;
            assert(s == orig[k as int]);
            assert(orig[k as int].wf());
            s.set_position(cx, cy);
            s.set_animation(res::EXPLOSION_ANIM_EXPLODE);
            self.explosion_sprites.set(start + k, Some(s));
        }
        assert forall|i: int| 0 <= i < 8 implies #[trigger] self.explosion_sprites@[i] == (
            if (batch == 1 && i < 4) || (batch == 2 && i >= 4) {
                Some(spec_explosion_at(orig[i % 4], me))
            } else {
                me.explosion_sprites@[i]
            }) by {
            if start <= i < start + 4 {
                assert(i - start == i % 4);
            }
        }
    }

    /// One frame of beaming in. On the first frame the player drops to
    /// `grounded_y`, the ground below the spawn point; the beam moves down
    /// four pixels a frame until it reaches the player, then the player
    /// becomes idle once the landing animation has played.
    #[verifier::rlimit(60)]
    pub fn update_beaming(&mut self, grounded_y: i16)
        requires
            old(self).wf(),
            old(self).status is BeamingIn,
            beam_y(old(self).status) < old(self).y ==> beam_y(old(self).status) + 4 <= i16::MAX,
        ensures
            final(self).wf(),
            *final(self) == spec_update_beaming(*old(self), grounded_y),
    {
        let sprite_y = match self.status {
            Status::BeamingIn { sprite_y } => sprite_y,
            _ => 0,
        };
        let ghost p = *self;
        if sprite_y < self.y {
            if sprite_y == 0 {
                self.y = grounded_y;
            }
            self.sprite.maybe_set_animation(res::PLAYER_ANIM_BEAM);
            let ny = if sprite_y + 4 < self.y { sprite_y + 4 } else { self.y };
            self.status = Status::BeamingIn { sprite_y: ny };
            assert(*self == Player {
                y: if sprite_y == 0 { grounded_y } else { p.y },
                sprite: p.sprite.spec_maybe_set_animation(res::PLAYER_ANIM_BEAM),
                status: Status::BeamingIn { sprite_y: ny },
                ..p
            });
        } else {
            self.sprite.maybe_set_animation(res::PLAYER_ANIM_BEAM_STOP);
            if self.sprite.is_animation_finished() {
                self.status = Status::Idle;
            }
            assert(*self == Player {
                sprite: p.sprite.spec_maybe_set_animation(res::PLAYER_ANIM_BEAM_STOP),
                status: if self.sprite.spec_animation_finished() { Status::Idle } else { p.status },
                ..p
            });
        }
        let ghost q = *self;
        self.set_position(self.x, self.y);
        assert(*self == spec_set_position(q, q.x, q.y));
    }

    /// The step a knocked-back player is pushed this frame (during the first
    /// ten frames of the knock-back).
    pub fn knockback_offset(&self) -> (r: Option<(i16, i16)>)
        ensures
            r == spec_knockback_offset(self.status),
    {
        match self.status {
            Status::KnockedBack { direction, cooldown } => if cooldown > 20 {
                Some(direction.to_offset())
            } else {
                None
            },
            _ => None,
        }
    }

    /// End of a knock-back frame: the sprite follows the player and the
    /// knock-back runs down, ending in the idle state.
    pub fn finish_knockback(&mut self)
        ensures
            *final(self) == spec_finish_knockback(*old(self)),
    {
        self.sprite.x = self.x as u16;
        self.sprite.y = self.y as u16;
        if let Status::KnockedBack { direction, cooldown } = self.status {
            self.status = if cooldown > 0 {
                Status::KnockedBack { direction, cooldown: cooldown - 1 }
            } else {
                Status::Idle
            };
        }
    }

    /// Positions and animates the melee weapon sprite: hidden unless
    /// attacking, else slashing beside the player.
    #[verifier::rlimit(60)]
    pub fn update_weapon_sprite(&mut self)
        requires
            old(self).wf(),
            coord_small(old(self).x as int),
            coord_small(old(self).y as int),
        ensures
            final(self).wf(),
            *final(self) == spec_weapon_sprite_step(*old(self)),
    {
        if self.player_type != PlayerType::Melee {
            return;
        }
        let cx = self.x + 20;
        let cy = self.y + 24;
        let flip_h = self.sprite.flip_h;
        let attacking = match self.status {
            Status::Attacking { .. } => true,
            _ => false,
        };
        let weapon = self.weapon;
        let ghost me = *self;
        let mut slot: Option<BigSprite> = None;
        std::mem::swap(&mut slot, &mut self.weapon_sprite);
        let next = match slot {
            Some(mut s) => {
                if !attacking {
                    s.set_animation(res::SWORD_ANIM_OFF);
                } else {
                    s.maybe_set_animation(res::SWORD_ANIM_SLASH);
                    let n = s.anims[s.animation_state.current_animation_id].frames.len();
                    assert(s.animation_state.frame_index < n);
                    let (dx, dy) = weapon.melee_offset(s.next_frame(), flip_h);
                    s.set_position(cx + dx, cy + dy);
                    s.update();
                    s.flip_h = flip_h;
                }
                Some(s)
            },
            None => None,
        };
        self.weapon_sprite = next;
        assert(*self == spec_weapon_sprite_step(me));
    }

    /// Moves the death explosions one pixel outward and drops those that
    /// left the screen (only while dying).
    #[verifier::rlimit(60)]
    pub fn update_explosion_sprites(&mut self)
        requires
            old(self).wf(),
        ensures
            final(self).wf(),
            *final(self) == (if old(self).status is Dying {
                Player { explosion_sprites: final(self).explosion_sprites, ..*old(self) }
            } else {
                *old(self)
            }),
            old(self).status is Dying ==> final(self).explosion_sprites@ == spec_explosions_step(old(self).explosion_sprites@),
    {
        if let Status::Dying { .. } = self.status {
        } else {
            return;
        }
        let ghost me = *self;
        let mut i: usize = 0;
        while i < 8
            invariant
                i <= 8,
                me.wf(),
                *self == (Player { explosion_sprites: self.explosion_sprites, ..me }),
                self.explosion_sprites@.len() == 8,
                forall|k: int| 0 <= k < 8 ==> (#[trigger] self.explosion_sprites@[k] matches Some(s) ==> explosion_ok(s)),
                forall|k: int| 0 <= k < 8 ==> #[trigger] self.explosion_sprites@[k] == (
                    if k < i { spec_explosions_step(me.explosion_sprites@)[k] } else { me.explosion_sprites@[k] }),
            decreases 8 - i,
        {
            let mut slot: Option<BigSprite> = None;
            self.explosion_sprites.set_and_swap(i, &mut slot);
            let next = match slot {
                Some(mut s) => {
                    s.update();
                    let r = s.x > 448;
                    let l = s.x < 128;
                    let d = s.y > 352;
                    let u = s.y < 128;
                    let (dx, dy, gone): (i16, i16, bool) = match i {
                        0 => (1, 0, r),
                        1 => (0, 1, d),
                        2 => (-1, 0, l),
                        3 => (0, -1, u),
                        4 => (1, 1, r && d),
                        5 => (-1, 1, l && d),
                        6 => (1, -1, r && u),
                        _ => (-1, -1, l && u),
                    };
                    if gone {
                        None
                    } else {
                        s.set_position(s.x as i16 + dx, s.y as i16 + dy);
                        Some(s)
                    }
                },
                None => None,
            };
            self.explosion_sprites.set(i, next);
            i = i + 1;
        }
        assert(self.explosion_sprites@ =~= spec_explosions_step(me.explosion_sprites@));
    }

    /// The timers of a frame run down; an active player touching spikes dies.
    fn end_timers(&mut self, hits: Option<HitTiles>)
        requires
            old(self).wf(),
        ensures
            final(self).wf(),
            *final(self) == spec_end_timers(*old(self), hits),
    {
        if self.double_tap_timer > 0 {
            self.double_tap_timer = self.double_tap_timer - 1;
        }
        if self.shoot_cooldown > 0 {
            self.shoot_cooldown = self.shoot_cooldown - 1;
        }
        if self.is_active() {
            if let Some(h) = hits {
                if h.touches_tile(TILE_SPIKE) {
                    self.kill();
                }
            }
        }
    }

    /// End of every frame: the double-tap window and the shot cooldown run
    /// down, an active player touching spikes dies, and the player, weapon
    /// and explosion sprites animate.
    #[verifier::rlimit(60)]
    pub fn end_update(&mut self, hits: Option<HitTiles>)
        requires
            old(self).wf(),
            coord_small(old(self).x as int),
            coord_small(old(self).y as int),
        ensures
            final(self).wf(),
            *final(self) == (Player { explosion_sprites: final(self).explosion_sprites, ..spec_end_update(*old(self), hits) }),
            final(self).explosion_sprites@ == (if spec_end_update(*old(self), hits).status is Dying {
                spec_explosions_step(old(self).explosion_sprites@)
            } else {
                old(self).explosion_sprites@
            }),
    {
        self.end_timers(hits);
        self.sprite.update();
        self.update_weapon_sprite();
        self.update_explosion_sprites();
    }
}

} // verus!
