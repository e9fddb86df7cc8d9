//! The player character: health and damage, movement physics decisions
//! (jumping, dashing, wall sliding, slipping on ice), attacks and animation.
use vstd::prelude::*;

use crate::big_sprite::{clamp_coord, spec_anim_start, BigSprite};
use crate::entity::{coord_small, Hitbox};
use crate::res::{self, PaletteContext};
use crate::vdp::{has_button, Button, ControllerState};
use crate::weapon::{spec_melee_hurtbox, WeaponType};
use crate::Direction;

verus! {

/// Health of a fresh player.
pub const DEFAULT_MAX_HEALTH: u16 = 10;
/// Speeds are in 1/64 pixels per frame.
pub const SPEED_SCALE_FACTOR: i16 = 64;
/// Jump speed: 4 pixels per frame.
pub const JUMP_SPEED: i16 = 256;
/// Downward acceleration per frame.
pub const GRAVITY: i16 = 8;
/// Wall sliding speed: half a pixel per frame.
pub const SLIDE_SPEED: i16 = 32;
/// Dash speed: 3 pixels per frame.
pub const DASH_SPEED: i16 = 192;
pub const DASH_DURATION_FRAMES: u16 = 40;
pub const AIR_DASH_DURATION_FRAMES: u16 = 40;
/// Length of the death sequence.
pub const DEATH_DURATION_FRAMES: u8 = 120;
/// Frame of the death sequence at which explosions appear.
pub const DEATH_EXPLOSION_FRAME: u8 = 10;
/// Frame of a melee attack at which the weapon's ability triggers.
pub const MELEE_TRIGGER_FRAME: u8 = 10;
pub const INVULNERABILITY_DURATION_FRAMES: u16 = 75;
/// Frames of knock-back after a hit.
pub const KNOCKBACK_FRAMES: u8 = 30;

/// The two playable characters.
#[derive(Clone, Copy, Debug, PartialEq, Eq, Structural)]
pub enum PlayerType {
    /// Can only shoot.
    Shooter,
    /// Can only perform melee attacks.
    Melee,
}

#[derive(Clone, Copy, Debug, PartialEq, Eq, Structural)]
#[allow(inconsistent_fields)]
pub enum Status {
    /// Moving or standing.
    Idle,
    /// Beaming down into the stage: the sprite starts at the top of the screen
    /// and moves down to the spawn point.
    BeamingIn { sprite_y: i16 },
    /// Melee attack in progress.
    Attacking { cooldown: u8 },
    /// Pushed back after a hit.
    KnockedBack { direction: Direction, cooldown: u8 },
    Dying { cooldown: u8 },
    Dead,
}

pub struct Player {
    pub x: i16,
    pub y: i16,
    pub prev_x: i16,
    pub prev_y: i16,
    pub player_type: PlayerType,
    pub weapon: WeaponType,
    /// Vertical speed (positive downward), in 1/64 pixels per frame.
    pub h_speed: i16,
    pub health: u16,
    pub max_health: u16,
    pub speed: i16,
    /// Whether an air dash is still available in this jump.
    pub air_dash_available: bool,
    /// Whether an air dash is in progress (gravity paused).
    pub is_air_dashing: bool,
    /// Whether the player stands on solid ground.
    pub on_ground: bool,
    /// Direction of a wall jump: set while sliding down a wall.
    pub wall_jump_direction: Option<Direction>,
    /// Frames left of a dash; 0 when not dashing.
    pub dash_timer: u16,
    /// Frames left to tap the move button again to dash.
    pub double_tap_timer: u16,
    pub shoot_cooldown: u8,
    /// Whether a double jump is still available in this jump.
    pub double_jump_available: bool,
    pub charge_timer: u16,
    pub facing: Direction,
    pub sprite: BigSprite,
    pub weapon_sprite: Option<BigSprite>,
    /// Explosion sprites of the death sequence.
    pub explosion_sprites: Vec<Option<BigSprite>>,
    /// Enemies hit by the current melee attack (bit per enemy id).
    pub enemies_hit: u32,
    pub status: Status,
    /// Frames of invulnerability left after taking damage.
    pub invulnerability_timer: u16,
    /// Sliding speed on the ice of the Arctic stage.
    pub slip_speed: i16,
}

/// An explosion sprite of the death sequence: animated and on screen.
pub open spec fn explosion_ok(s: BigSprite) -> bool {
    s.wf() && s.anims@.len() > res::EXPLOSION_ANIM_EXPLODE && s.x <= 448 && s.y <= 352
}

/// The player after `set_position(x, y)`: while beaming in, the sprite keeps its beam height.
pub open spec fn spec_set_position(p: Player, x: i16, y: i16) -> Player {
    Player {
        x,
        y,
        sprite: p.sprite.spec_set_position(x, match p.status { Status::BeamingIn { sprite_y } => sprite_y, _ => y }),
        ..p
    }
}

/// The player after `reset`.
pub open spec fn spec_reset(p: Player) -> Player {
    Player {
        status: Status::BeamingIn { sprite_y: 0 },
        h_speed: 0,
        on_ground: true,
        dash_timer: 0,
        double_jump_available: true,
        air_dash_available: true,
        is_air_dashing: false,
        health: DEFAULT_MAX_HEALTH,
        max_health: DEFAULT_MAX_HEALTH,
        speed: SPEED_SCALE_FACTOR,
        facing: Direction::Right,
        sprite: spec_reset_sprite(p.sprite),
        shoot_cooldown: 0,
        charge_timer: 0,
        invulnerability_timer: 0,
        slip_speed: 0,
        ..p
    }
}

/// The player sprite in the state `reset` leaves it.
pub open spec fn spec_reset_sprite(s: BigSprite) -> BigSprite {
    BigSprite {
        animation_state: if res::PLAYER_ANIM_BEAM < s.anims@.len() {
            spec_anim_start(s.anims@, res::PLAYER_ANIM_BEAM as int)
        } else {
            s.animation_state
        },
        flip_h: false,
        ..s
    }
}

/// The player after a hit of `damage` from `direction`: a living player
/// who is neither knocked back nor invulnerable stops dashing and sliding
/// and either dies (the hit takes all health) or loses the health and is
/// knocked back and briefly invulnerable.
pub open spec fn spec_player_hit(p: Player, direction: Direction, damage: u16) -> Player {
    if !p.spec_alive() || p.status is KnockedBack || p.invulnerability_timer > 0 {
        p
    } else if p.health <= damage {
        Player {
            health: 0,
            status: Status::Dying { cooldown: DEATH_DURATION_FRAMES },
            is_air_dashing: false,
            dash_timer: 0,
            slip_speed: 0,
            ..p
        }
    } else {
        Player {
            health: (p.health - damage) as u16,
            status: Status::KnockedBack { direction, cooldown: KNOCKBACK_FRAMES },
            is_air_dashing: false,
            dash_timer: 0,
            slip_speed: 0,
            invulnerability_timer: INVULNERABILITY_DURATION_FRAMES,
            sprite: p.sprite.spec_set_animation(res::PLAYER_ANIM_DAMAGE),
            ..p
        }
    }
}

impl Player {
    pub open spec fn wf(self) -> bool {
        &&& self.sprite.wf()
        &&& self.sprite.anims@.len() > res::PLAYER_MELEE_ANIM_JUMP_ATTACK
        &&& self.explosion_sprites@.len() == 8
        &&& forall|i: int| 0 <= i < 8 ==> (#[trigger] self.explosion_sprites@[i] matches Some(s) ==> explosion_ok(s))
        &&& self.weapon_sprite matches Some(s) ==> s.wf() && s.anims@.len() > res::SWORD_ANIM_SLASH
        &&& self.speed > i16::MIN
        &&& self.slip_speed > i16::MIN
    }

    pub open spec fn spec_alive(self) -> bool {
        !(self.status is Dead || self.status is Dying)
    }

    /// The player's collision box.
    pub open spec fn spec_hitbox(self) -> Hitbox {
        Hitbox { x: (self.x + 8) as i16, y: (self.y + 8) as i16, w: 24, h: 32 }
    }

    pub open spec fn spec_sliding_down_wall(self) -> bool {
        self.wall_jump_direction is Some && self.h_speed > 0
    }

    /// A fresh player beaming in at (0, 0) with full health, wielding the gun
    /// (shooter) or the sword (melee).
    pub fn new(player_type: PlayerType, sprite: BigSprite, weapon_sprite: Option<BigSprite>) -> (r: Self)
        requires
            sprite.wf(),
            sprite.anims@.len() > res::PLAYER_MELEE_ANIM_JUMP_ATTACK,
            weapon_sprite matches Some(s) ==> s.wf() && s.anims@.len() > res::SWORD_ANIM_SLASH,
        ensures
            r.wf(),
            r.player_type == player_type,
            r.weapon == (if player_type == PlayerType::Shooter { WeaponType::Gun } else { WeaponType::Sword }),
            r.x == 0 && r.y == 0 && r.prev_x == 0 && r.prev_y == 0,
            r.h_speed == 0,
            r.on_ground,
            r.wall_jump_direction is None,
            r.dash_timer == 0 && r.double_tap_timer == 0,
            r.double_jump_available && r.air_dash_available && !r.is_air_dashing,
            r.facing == Direction::Right,
            r.sprite == sprite,
            r.weapon_sprite == weapon_sprite,
            forall|i: int| 0 <= i < 8 ==> #[trigger] r.explosion_sprites@[i] is None,
            r.health == DEFAULT_MAX_HEALTH && r.max_health == DEFAULT_MAX_HEALTH,
            r.speed == SPEED_SCALE_FACTOR,
            r.enemies_hit == 0,
            r.status == (Status::BeamingIn { sprite_y: 0 }),
            r.shoot_cooldown == 0 && r.charge_timer == 0,
            r.invulnerability_timer == 0 && r.slip_speed == 0,
    {
        let weapon = if player_type == PlayerType::Shooter {
            WeaponType::Gun
        } else {
            WeaponType::Sword
        };
        let mut explosion_sprites: Vec<Option<BigSprite>> = Vec::new();
        let mut i: usize = 0;
        while i < 8
            invariant
                i <= 8,
                explosion_sprites@.len() == i,
                forall|k: int| 0 <= k < i ==> #[trigger] explosion_sprites@[k] is None,
            decreases 8 - i,
        {
            explosion_sprites.push(None);
            i = i + 1;
        }
        Player {
            player_type,
            weapon,
            x: 0,
            y: 0,
            prev_x: 0,
            prev_y: 0,
            h_speed: 0,
            on_ground: true,
            wall_jump_direction: None,
            dash_timer: 0,
            double_tap_timer: 0,
            double_jump_available: true,
            air_dash_available: true,
            is_air_dashing: false,
            facing: Direction::Right,
            sprite,
            weapon_sprite,
            explosion_sprites,
            health: DEFAULT_MAX_HEALTH,
            max_health: DEFAULT_MAX_HEALTH,
            speed: SPEED_SCALE_FACTOR,
            enemies_hit: 0,
            status: Status::BeamingIn { sprite_y: 0 },
            shoot_cooldown: 0,
            charge_timer: 0,
            invulnerability_timer: 0,
            slip_speed: 0,
        }
    }

    /// Whether the player is neither dying nor dead.
    pub fn is_alive(&self) -> (r: bool)
        ensures
            r == self.spec_alive(),
    {
        match self.status {
            Status::Dead | Status::Dying { .. } => false,
            _ => true,
        }
    }

    /// Whether the death sequence is over.
    pub fn is_dead(&self) -> (r: bool)
        ensures
            r == (self.status is Dead),
    {
        match self.status {
            Status::Dead => true,
            _ => false,
        }
    }

    /// Whether the player still takes part in the game (not dead yet).
    pub fn is_active(&self) -> (r: bool)
        ensures
            r == !(self.status is Dead),
    {
        !self.is_dead()
    }

    /// Whether the player slides down a wall.
    pub fn is_sliding_down_wall(&self) -> (r: bool)
        ensures
            r == self.spec_sliding_down_wall(),
    {
        self.wall_jump_direction.is_some() && self.h_speed > 0
    }

    /// Whether a dash is in progress.
    pub fn is_dashing(&self) -> (r: bool)
        ensures
            r == (self.dash_timer > 0),
    {
        self.dash_timer > 0
    }

    /// Starts the death sequence of a living player.
    pub fn kill(&mut self)
        ensures
            *final(self) == (if old(self).spec_alive() {
                Player { health: 0, status: Status::Dying { cooldown: DEATH_DURATION_FRAMES }, ..*old(self) }
            } else {
                *old(self)
            }),
    {
        if self.is_alive() {
            self.health = 0;
            self.status = Status::Dying { cooldown: DEATH_DURATION_FRAMES };
        }
    }

    /// Restores the player for a fresh start on a stage: beaming in, full
    /// health, no dash, jumps available, facing right.
    pub fn reset(&mut self)
        requires
            old(self).wf(),
        ensures
            final(self).wf(),
            *final(self) == spec_reset(*old(self)),
    {
        self.status = Status::BeamingIn { sprite_y: 0 };
        self.h_speed = 0;
        self.on_ground = true;
        self.dash_timer = 0;
        self.double_jump_available = true;
        self.air_dash_available = true;
        self.is_air_dashing = false;
        self.health = DEFAULT_MAX_HEALTH;
        self.max_health = DEFAULT_MAX_HEALTH;
        self.speed = SPEED_SCALE_FACTOR;
        self.facing = Direction::Right;
        self.sprite.set_animation(res::PLAYER_ANIM_BEAM);
        self.sprite.flip_h = false;
        self.shoot_cooldown = 0;
        self.charge_timer = 0;
        self.invulnerability_timer = 0;
        self.slip_speed = 0;
    }

    /// Takes a hit from `direction`: a living player who is neither knocked
    /// back nor invulnerable loses `damage` health, stops dashing and slipping,
    /// and is knocked back and briefly invulnerable; a hit that takes all
    /// remaining health starts the death sequence.
    pub fn on_hit(&mut self, direction: Direction, damage: u16)
        requires
            old(self).wf(),
        ensures
            final(self).wf(),
            !old(self).spec_alive() || old(self).status is KnockedBack || old(self).invulnerability_timer > 0 ==> *final(self) == *old(self),
            *final(self) == spec_player_hit(*old(self), direction, damage),
            old(self).spec_alive() && !(old(self).status is KnockedBack) && old(self).invulnerability_timer == 0 ==> {
                &&& !final(self).is_air_dashing
                &&& final(self).dash_timer == 0
                &&& final(self).slip_speed == 0
                &&& (old(self).health <= damage ==> final(self).health == 0 && final(self).status == Status::Dying { cooldown: DEATH_DURATION_FRAMES })
                &&& (old(self).health <= damage ==> final(self).sprite == old(self).sprite && final(self).invulnerability_timer == 0)
                &&& (old(self).health > damage ==> {
                    &&& final(self).health == old(self).health - damage
                    &&& final(self).status == Status::KnockedBack { direction, cooldown: KNOCKBACK_FRAMES }
                    &&& final(self).invulnerability_timer == INVULNERABILITY_DURATION_FRAMES
                    &&& final(self).sprite.animation_state == spec_anim_start(old(self).sprite.anims@, res::PLAYER_ANIM_DAMAGE as int)
                })
                &&& final(self).x == old(self).x && final(self).y == old(self).y
                &&& final(self).facing == old(self).facing
                &&& final(self).h_speed == old(self).h_speed
                &&& final(self).on_ground == old(self).on_ground
                &&& final(self).sprite.anims == old(self).sprite.anims
            },
    {
        if !self.is_alive() {
            return;
        }
        if let Status::KnockedBack { .. } = self.status {
            return;
        }
        if self.invulnerability_timer > 0 {
            return;
        }
        self.is_air_dashing = false;
        self.dash_timer = 0;
        self.slip_speed = 0;
        if self.health <= damage {
            self.health = 0;
            self.kill();
        } else {
            self.health = self.health - damage;
            self.status = Status::KnockedBack { direction, cooldown: KNOCKBACK_FRAMES };
            self.dash_timer = 0;
            self.invulnerability_timer = INVULNERABILITY_DURATION_FRAMES;
            self.sprite.set_animation(res::PLAYER_ANIM_DAMAGE);
        }
    }

    /// The palette set of the character.
    pub fn palette_type(&self) -> (r: PaletteContext)
        ensures
            r == (if self.player_type == PlayerType::Shooter { PaletteContext::PlayerShooter } else { PaletteContext::PlayerMelee }),
    {
        match self.player_type {
            PlayerType::Shooter => PaletteContext::PlayerShooter,
            PlayerType::Melee => PaletteContext::PlayerMelee,
        }
    }

    /// The player's collision box.
    pub fn hitbox(&self) -> (r: Hitbox)
        requires
            self.x + 8 <= i16::MAX,
            self.y + 8 <= i16::MAX,
        ensures
            r == self.spec_hitbox(),
    {
        Hitbox { x: self.x + 8, y: self.y + 8, w: 24, h: 32 }
    }

    /// Frames an attack takes.
    pub fn get_attack_cooldown(&self) -> (r: u8)
        ensures
            r == (if self.player_type == PlayerType::Shooter { 10u8 } else { 28u8 }),
    {
        match self.player_type {
            PlayerType::Shooter => 10,
            PlayerType::Melee => 28,
        }
    }

    /// The melee attack animation: on the ground or in the air.
    pub fn get_attack_animation(&self) -> (r: usize)
        requires
            self.player_type == PlayerType::Melee,
        ensures
            r == (if self.on_ground { res::PLAYER_MELEE_ANIM_ATTACK } else { res::PLAYER_MELEE_ANIM_JUMP_ATTACK }),
    {
        if self.on_ground {
            res::PLAYER_MELEE_ANIM_ATTACK
        } else {
            res::PLAYER_MELEE_ANIM_JUMP_ATTACK
        }
    }

    /// The area the melee weapon hurts on the current slash frame, in screen
    /// coordinates; `None` for the shooter or on frames that do not hurt.
    pub fn get_hurtbox(&self) -> (r: Option<Hitbox>)
        requires
            coord_small(self.x as int),
            coord_small(self.y as int),
            self.weapon_sprite matches Some(s) ==> s.animation_state.frame_index < usize::MAX,
        ensures
            self.player_type == PlayerType::Shooter ==> r is None,
            self.player_type == PlayerType::Melee ==> r == match self.weapon_sprite {
                Some(s) => {
                    let frame = if s.animation_state.frame_duration_remaining == 1 { s.animation_state.frame_index + 1 } else { s.animation_state.frame_index as int };
                    match spec_melee_hurtbox(self.weapon, frame, self.sprite.flip_h) {
                        Some(h) => Some(Hitbox { x: (h.x + self.x + 20) as i16, y: (h.y + self.y + 24) as i16, ..h }),
                        None => None,
                    }
                },
                None => None,
            },
    {
        if self.player_type != PlayerType::Melee {
            return None;
        }
        let hitbox = self.hitbox();
        match &self.weapon_sprite {
            Some(s) => {
                let hurtbox = self.weapon.melee_hurtbox(s.next_frame(), self.sprite.flip_h);
                match hurtbox {
                    Some(h) => {
                        let center = hitbox.center();
                        Some(h.offset(center.0, center.1))
                    },
                    None => None,
                }
            },
            None => None,
        }
    }

    /// Whether the dash picture is showing.
    pub fn is_playing_dash_animation(&self) -> (r: bool)
        ensures
            r == (self.sprite.animation_state.current_animation_id == res::PLAYER_ANIM_DASH),
    {
        self.sprite.current_animation() == res::PLAYER_ANIM_DASH
    }

    pub fn is_air_dashing(&self) -> (r: bool)
        ensures
            r == self.is_air_dashing,
    {
        self.is_air_dashing
    }

    pub fn dash_timer(&self) -> (r: u16)
        ensures
            r == self.dash_timer,
    {
        self.dash_timer
    }

    pub fn double_jump_available(&self) -> (r: bool)
        ensures
            r == self.double_jump_available,
    {
        self.double_jump_available
    }

    /// Moves the player to (x, y); while beaming in, the sprite keeps its beam height.
    pub fn set_position(&mut self, x: i16, y: i16)
        ensures
            *final(self) == (Player {
                x,
                y,
                sprite: BigSprite {
                    x: clamp_coord(x, 448) as u16,
                    y: clamp_coord(match old(self).status { Status::BeamingIn { sprite_y } => sprite_y, _ => y }, 352) as u16,
                    ..old(self).sprite
                },
                ..*old(self)
            }),
    {
        self.x = x;
        self.y = y;
        if let Status::BeamingIn { sprite_y } = self.status {
            self.sprite.set_position(x, sprite_y);
        } else {
            self.sprite.set_position(x, y);
        }
    }

    /// Moves the player by (dx, dy).
    pub fn move_relative(&mut self, dx: i16, dy: i16)
        requires
            i16::MIN <= old(self).x + dx <= i16::MAX,
            i16::MIN <= old(self).y + dy <= i16::MAX,
        ensures
            *final(self) == (Player {
                x: (old(self).x + dx) as i16,
                y: (old(self).y + dy) as i16,
                sprite: BigSprite {
                    x: clamp_coord((old(self).x + dx) as i16, 448) as u16,
                    y: clamp_coord(match old(self).status { Status::BeamingIn { sprite_y } => sprite_y, _ => (old(self).y + dy) as i16 }, 352) as u16,
                    ..old(self).sprite
                },
                ..*old(self)
            }),
    {
        self.set_position(self.x + dx, self.y + dy);
    }
}

/// Whole pixels to move this frame at `speed` (1/64 pixels per frame, not
/// negative): the whole part every frame, plus one more pixel on the frames
/// where the accumulated fraction crosses a whole pixel.
pub open spec fn spec_scale_abs_speed(speed: u16, frame: u32) -> u16 {
    let whole = speed / 64;
    let fract = speed % 64;
    if fract != 0 && ((frame as nat * fract as nat) % 0x1_0000_0000) % 64 < fract {
        (whole + 1) as u16
    } else {
        whole
    }
}

/// Scales an absolute speed (see `spec_scale_abs_speed`).
pub fn scale_abs_speed(speed: u16, frame: u32) -> (r: u16)
    ensures
        r == spec_scale_abs_speed(speed, frame),
        r <= 1024,
{
    let scaled_speed = speed / 64;
    let fract_speed = speed % 64;
    if fract_speed != 0 {
        if frame.wrapping_mul(fract_speed as u32) % 64 < fract_speed as u32 {
            return scaled_speed + 1;
        }
    }
    scaled_speed
}

/// Pixels to move this frame at a signed speed.
pub open spec fn spec_scale_speed(speed: i16, frame: u32) -> int {
    let a = spec_scale_abs_speed((if speed < 0 { -speed } else { speed as int }) as u16, frame) as int;
    if speed < 0 { -a } else { a }
}

/// Scales a signed speed: the distance in pixels to move this frame.
pub fn scale_speed(speed: i16, frame: u32) -> (r: i16)
    ensures
        r == spec_scale_speed(speed, frame),
        -1024 <= r <= 1024,
{
    let abs: u16 = if speed < 0 { (-(speed as i32)) as u16 } else { speed as u16 };
    let a = scale_abs_speed(abs, frame) as i16;
    if speed < 0 {
        -a
    } else {
        a
    }
}

/// A scaled speed is the whole number of pixels of the speed, or one more on
/// the frames that catch up the fraction; whole speeds move exactly that many
/// pixels every frame.
pub proof fn law_scale_abs_speed_bounds(speed: u16, frame: u32)
    ensures
        speed / 64 <= spec_scale_abs_speed(speed, frame) <= speed / 64 + 1,
        speed % 64 == 0 ==> spec_scale_abs_speed(speed, frame) == speed / 64,
{
}

/// Whether the A+B+C reset combination was just completed.
pub open spec fn spec_reset_pressed(s: ControllerState) -> bool {
    (has_button(s.just_pressed, Button::A) || has_button(s.just_pressed, Button::B) || has_button(s.just_pressed, Button::C))
        && has_button(s.pressed, Button::A) && has_button(s.pressed, Button::B) && has_button(s.pressed, Button::C)
}

/// Whether an active player completed the stage reset combination (A+B+C).
pub fn reset_pressed(player: &Player, input: Option<&ControllerState>) -> (r: bool)
    ensures
        r == (!(player.status is Dead) && match input {
            Some(s) => spec_reset_pressed(*s),
            None => false,
        }),
{
    if !player.is_active() {
        return false;
    }
    if let Some(input) = input {
        if (input.just_pressed(Button::A) || input.just_pressed(Button::B) || input.just_pressed(Button::C))
            && input.is_pressed(Button::A) && input.is_pressed(Button::B) && input.is_pressed(Button::C)
        {
            return true;
        }
    }
    false
}

} // verus!
