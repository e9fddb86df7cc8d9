//! Enemies: stats, damage and death, facing, and the per-frame behavior of
//! walking, melee contact and shooting.
use vstd::prelude::*;

use crate::big_sprite::{clamp_coord, spec_anim_start, spec_anim_step, BigSprite};
use crate::entity::{coord_small, div_trunc, fits_i16, spec_overlaps, Hitbox};
use crate::res::{self, EnemyType};
use crate::Direction;

verus! {

/// Frames an enemy stays stunned after taking damage.
pub const DAMAGE_COOLDOWN: u8 = 30;
/// Frames of a regular enemy's death sequence.
pub const REGULAR_DEATH_COOLDOWN: u16 = 50;
/// Frames of the boss's death sequence.
pub const BOSS_DEATH_COOLDOWN: u16 = 210;
/// Shooting enemies shoot every 120 frames.
pub const SHOOT_FREQUENCY: u16 = 120;
/// Frames a shot takes.
pub const SHOOT_COOLDOWN: u8 = 60;
/// The projectile appears this many frames into a shot.
pub const PROJECTILE_DELAY: u8 = 15;

/// Combat statistics.
#[derive(Clone, Copy, Debug, PartialEq, Eq, Structural)]
pub struct Stats {
    /// Speed in 1/64 pixels per frame.
    pub speed: i16,
    pub health: u16,
    pub strength: u16,
    pub melee: bool,
    pub shoots: bool,
    /// Hitbox relative to the sprite's corner.
    pub hitbox: Hitbox,
}

/// Enemy properties read from the stage, overriding the default stats.
#[derive(Clone, Copy, Debug, PartialEq, Eq, Structural)]
pub struct EnemyProperties {
    pub id: u16,
    pub speed: Option<i16>,
    pub health: Option<u16>,
    pub strength: Option<u16>,
    pub invulnerable: bool,
    /// Flags a miniboss gives when defeated; only minibosses have them.
    pub flags: Option<u16>,
}

/// Stats with the stage's overrides applied.
pub open spec fn spec_apply_properties(s: Stats, p: EnemyProperties) -> Stats {
    Stats {
        speed: match p.speed { Some(v) => v, None => s.speed },
        health: match p.health { Some(v) => v, None => s.health },
        strength: match p.strength { Some(v) => v, None => s.strength },
        ..s
    }
}

impl Stats {
    /// Overrides the default stats with those set on the stage.
    pub fn apply_properties(self, properties: &EnemyProperties) -> (r: Stats)
        ensures
            r == spec_apply_properties(self, *properties),
    {
        let mut s = self;
        if let Some(speed) = properties.speed {
            s.speed = speed;
        }
        if let Some(health) = properties.health {
            s.health = health;
        }
        if let Some(strength) = properties.strength {
            s.strength = strength;
        }
        s
    }
}

/// The behaviour family of an enemy kind.
#[derive(Clone, Copy, Debug, PartialEq, Eq, Structural)]
pub enum EnemyBehavior {
    Melee,
    Shooter,
    Harmless,
    Boss,
}

pub open spec fn spec_behavior(t: EnemyType) -> EnemyBehavior {
    match t {
        EnemyType::Angel | EnemyType::AngelMiniboss | EnemyType::Blob | EnemyType::BlobMiniboss
        | EnemyType::Octopus | EnemyType::OctopusMiniboss | EnemyType::Orc | EnemyType::OrcMiniboss
        | EnemyType::OrcMinion => EnemyBehavior::Melee,
        EnemyType::Archer | EnemyType::ArcherMiniboss | EnemyType::BossHand | EnemyType::Goblin
        | EnemyType::GoblinMiniboss | EnemyType::Flameboi | EnemyType::FlameboiMiniboss => EnemyBehavior::Shooter,
        EnemyType::Rabbit | EnemyType::RabbitMiniboss => EnemyBehavior::Harmless,
        EnemyType::Boss => EnemyBehavior::Boss,
    }
}

/// The behaviour family of an enemy kind.
pub fn behavior_for(t: EnemyType) -> (r: EnemyBehavior)
    ensures
        r == spec_behavior(t),
{
    match t {
        EnemyType::Angel | EnemyType::AngelMiniboss | EnemyType::Blob | EnemyType::BlobMiniboss
        | EnemyType::Octopus | EnemyType::OctopusMiniboss | EnemyType::Orc | EnemyType::OrcMiniboss
        | EnemyType::OrcMinion => EnemyBehavior::Melee,
        EnemyType::Archer | EnemyType::ArcherMiniboss | EnemyType::BossHand | EnemyType::Goblin
        | EnemyType::GoblinMiniboss | EnemyType::Flameboi | EnemyType::FlameboiMiniboss => EnemyBehavior::Shooter,
        EnemyType::Rabbit | EnemyType::RabbitMiniboss => EnemyBehavior::Harmless,
        EnemyType::Boss => EnemyBehavior::Boss,
    }
}

/// Default stats of shooting enemies.
pub fn shooter_stats(t: EnemyType) -> (r: Stats)
    ensures
        r == (Stats {
            speed: 16,
            health: 3,
            strength: 3,
            melee: false,
            shoots: true,
            hitbox: if t == EnemyType::Flameboi { Hitbox { x: 5, y: 0, w: 14, h: 32 } } else { Hitbox { x: 6, y: 0, w: 20, h: 32 } },
        }),
{
    let hitbox = match t {
        EnemyType::Flameboi => Hitbox { x: 5, y: 0, w: 14, h: 32 },
        _ => Hitbox { x: 6, y: 0, w: 20, h: 32 },
    };
    Stats { speed: 16, health: 3, strength: 3, melee: false, shoots: true, hitbox }
}

/// Default stats of harmless enemies.
pub fn harmless_stats() -> (r: Stats)
    ensures
        r == (Stats { speed: 32, health: 2, strength: 0, melee: false, shoots: false, hitbox: Hitbox { x: 5, y: 0, w: 14, h: 32 } }),
{
    Stats { speed: 32, health: 2, strength: 0, melee: false, shoots: false, hitbox: Hitbox { x: 5, y: 0, w: 14, h: 32 } }
}

/// Where a shot leaves a shooting enemy's sprite.
pub fn get_projectile_start_offset(enemy_type: EnemyType, direction: Direction) -> (r: (i16, i16))
    ensures
        r == (match enemy_type {
            EnemyType::Archer | EnemyType::ArcherMiniboss => if direction == Direction::Left { (11i16, 12i16) } else { (7i16, 12i16) },
            EnemyType::Flameboi => (4i16, 17i16),
            _ => (0i16, 0i16),
        }),
{
    match enemy_type {
        EnemyType::Archer | EnemyType::ArcherMiniboss => match direction {
            Direction::Left => (11, 12),
            _ => (7, 12),
        },
        EnemyType::Flameboi => (4, 17),
        _ => (0, 0),
    }
}

/// Whether an enemy kind shoots arrows (rather than fireballs).
pub fn shoots_arrows(enemy_type: EnemyType) -> (r: bool)
    ensures
        r == (enemy_type == EnemyType::Archer || enemy_type == EnemyType::ArcherMiniboss),
{
    match enemy_type {
        EnemyType::Archer | EnemyType::ArcherMiniboss => true,
        _ => false,
    }
}

#[derive(Clone, Copy, Debug, PartialEq, Eq, Structural)]
#[allow(inconsistent_fields)]
pub enum Status {
    Damaged { cooldown: u8 },
    Idle,
    Shooting { cooldown: u8 },
    Dying { cooldown: u16 },
}

/// A projectile an enemy fires.
#[derive(Clone, Copy, Debug, PartialEq, Eq, Structural)]
pub struct EnemyShot {
    pub x: i16,
    pub y: i16,
    pub dx: i16,
    pub dy: i16,
    pub damage: u16,
    pub arrow: bool,
}

/// A hit on the player: knock-back direction and damage.
#[derive(Clone, Copy, Debug, PartialEq, Eq, Structural)]
pub struct PlayerHit {
    pub direction: Direction,
    pub damage: u16,
}

/// What an enemy tick did besides changing the enemy.
#[derive(Clone, Copy, Debug, PartialEq, Eq, Structural)]
pub struct EnemyTick {
    /// The enemy touched the player: knock-back direction and damage.
    pub hit_player: Option<PlayerHit>,
    /// A projectile to spawn.
    pub shot: Option<EnemyShot>,
    /// The death sequence reached its end on this tick.
    pub death_finished: bool,
    /// The enemy is dying or dead.
    pub defeated: bool,
}

/// An enemy after a hit of `damage`: a living, vulnerable enemy dies when
/// the hit takes all its health and is stunned otherwise.
pub open spec fn spec_enemy_hit(e: Enemy, damage: u16) -> Enemy {
    if e.spec_dying() || e.invulnerable {
        e
    } else if e.stats.health <= damage {
        Enemy { stats: Stats { health: 0, ..e.stats }, status: Status::Dying { cooldown: 0 }, ..e }
    } else {
        Enemy { stats: Stats { health: (e.stats.health - damage) as u16, ..e.stats }, status: Status::Damaged { cooldown: DAMAGE_COOLDOWN }, ..e }
    }
}

pub struct Enemy {
    pub x: i16,
    pub y: i16,
    pub id: u16,
    pub facing: Direction,
    pub status: Status,
    pub stats: Stats,
    /// Flags the enemy gives when defeated; non-zero only for minibosses.
    pub flags: u16,
    pub enemy_type: EnemyType,
    pub sprite: BigSprite,
    pub invulnerable: bool,
    pub behavior: EnemyBehavior,
}

/// Clamps a walking step to the speed.
pub open spec fn spec_clamp_step(d: int, limit: int) -> int {
    if d > limit { limit } else if d < -limit { -limit } else { d }
}

/// Pixels moved this frame at `speed` / 64 pixels per frame: slow enemies
/// move one pixel every `64 / speed` frames.
pub open spec fn spec_step_limit(speed: i16, frame: u32) -> int {
    let per_frame = div_trunc(speed as int, 64);
    if per_frame == 0 {
        if (frame as int) % (64int / (speed as int)) == 0 { 1 } else { 0 }
    } else {
        per_frame
    }
}

/// Facing after looking along dx (unchanged when dx is 0).
pub open spec fn spec_face(facing: Direction, dx: int) -> Direction {
    if dx < 0 { Direction::Left } else if dx > 0 { Direction::Right } else { facing }
}

/// The projectile an enemy fires at the player at (px, py).
pub open spec fn spec_shot(e: Enemy, px: i16, py: i16) -> EnemyShot {
    let offs = match e.enemy_type {
        EnemyType::Archer | EnemyType::ArcherMiniboss => if e.facing == Direction::Left { (11i16, 12i16) } else { (7i16, 12i16) },
        EnemyType::Flameboi => (4i16, 17i16),
        _ => (0i16, 0i16),
    };
    EnemyShot {
        x: (e.x + offs.0) as i16,
        y: (e.y + offs.1) as i16,
        dx: (px - e.x) as i16,
        dy: (py - e.y) as i16,
        damage: e.stats.strength,
        arrow: e.enemy_type == EnemyType::Archer || e.enemy_type == EnemyType::ArcherMiniboss,
    }
}

/// Pixels an enemy may move this frame (see `spec_step_limit`).
fn step_limit(speed: i16, frame: u32) -> (r: i16)
    requires
        speed > 0,
    ensures
        r == spec_step_limit(speed, frame),
        0 <= r <= 512,
{
    let per_frame = speed / 64;
    if per_frame == 0 {
        assert(speed < 64);
        let sp = speed as u32;
        assert(64u32 / sp >= 1) by (nonlinear_arith)
            requires
                0 < sp < 64,
        ;
        let frames_per_pixel = 64u32 / sp;
        if frame % frames_per_pixel == 0 {
            1
        } else {
            0
        }
    } else {
        per_frame
    }
}

/// Clamps a step to `[-limit, limit]`.
fn clamp_step(d: i16, limit: i16) -> (r: i16)
    requires
        0 <= limit <= 512,
    ensures
        r == spec_clamp_step(d as int, limit as int),
{
    if d > limit {
        limit
    } else if d < -limit {
        -limit
    } else {
        d
    }
}

/// Whether a tick of `e` stays within the coordinates the game works in: a
/// walking enemy's step keeps it a valid enemy (its position a small
/// coordinate), the player's box it may touch fits the 16-bit range, and a
/// shot fired this tick aims over a 16-bit distance.
pub open spec fn enemy_tick_ok(e: Enemy, walk: (i16, i16), frame: u32, player_x: i16, player_y: i16, player_hitbox: Hitbox) -> bool {
    let limit = spec_step_limit(e.stats.speed, frame);
    &&& e.status == Status::Idle ==> {
        &&& coord_small(e.x + spec_clamp_step(walk.0 as int, limit))
        &&& coord_small(e.y + spec_clamp_step(walk.1 as int, limit))
        &&& e.stats.melee ==> fits_i16(player_hitbox.x + player_hitbox.w) && fits_i16(player_hitbox.y + player_hitbox.h)
    }
    &&& e.status == (Status::Shooting { cooldown: (SHOOT_COOLDOWN - PROJECTILE_DELAY) as u8 }) ==> {
        &&& fits_i16(player_x - e.x)
        &&& fits_i16(player_y - e.y)
    }
}

/// One enemy tick from `e0` to `e1` with the walk step `walk`, on frame
/// `frame`, the player at (`player_x`, `player_y`) with box `player_hitbox`;
/// `r` is what the tick did besides changing the enemy (see `Enemy::update`).
pub open spec fn enemy_tick(e0: Enemy, e1: Enemy, walk: (i16, i16), frame: u32, player_x: i16, player_y: i16, player_hitbox: Hitbox, r: EnemyTick) -> bool {
    &&& e1.wf()
    &&& r.defeated == e1.spec_dying()
    &&& e1.id == e0.id
    &&& e1.stats == e0.stats
    &&& e1.enemy_type == e0.enemy_type
    &&& e1.flags == e0.flags
    &&& e1.behavior == e0.behavior
    &&& e1.invulnerable == e0.invulnerable
    &&& e1.sprite.animation_state == (Enemy { status: e1.status, facing: e1.facing, ..e0 }).spec_anim_after(
        e0.status == Status::Idle && walk.0 != 0
    )
    &&& e1.sprite == (BigSprite {
        x: if e0.status == Status::Idle { clamp_coord(e1.x, 448) as u16 } else { e0.sprite.x },
        y: if e0.status == Status::Idle { clamp_coord(e1.y, 352) as u16 } else { e0.sprite.y },
        animation_state: e1.sprite.animation_state,
        flip_h: (Enemy { status: e1.status, facing: e1.facing, ..e0 }).spec_flip_after(),
        ..e0.sprite
    })
    &&& e0.status matches Status::Dying { cooldown } ==> {
        &&& e1.status == Status::Dying { cooldown: (cooldown + 1) as u16 }
        &&& r.death_finished == (cooldown + 1 >= e0.spec_death_cooldown())
        &&& r.hit_player is None && r.shot is None
        &&& e1.x == e0.x && e1.y == e0.y
        &&& e1.facing == e0.facing
    }
    &&& e0.status matches Status::Damaged { cooldown } ==> {
        &&& e1.status == (if cooldown > 0 { Status::Damaged { cooldown: (cooldown - 1) as u8 } } else { Status::Idle })
        &&& !r.death_finished && r.hit_player is None && r.shot is None
        &&& e1.x == e0.x && e1.y == e0.y
        &&& e1.facing == e0.facing
    }
    &&& e0.status matches Status::Shooting { cooldown } ==> {
        &&& e1.status == (if cooldown > 0 { Status::Shooting { cooldown: (cooldown - 1) as u8 } } else { Status::Idle })
        &&& !r.death_finished && r.hit_player is None
        &&& e1.x == e0.x && e1.y == e0.y
        &&& e1.facing == e0.facing
        &&& r.shot == (if cooldown == SHOOT_COOLDOWN - PROJECTILE_DELAY {
            Some(spec_shot(e0, player_x, player_y))
        } else {
            None
        })
    }
    &&& e0.status == Status::Idle ==> {
        let limit = spec_step_limit(e0.stats.speed, frame);
        let f1 = if walk.0 != 0 { spec_face(e0.facing, walk.0 as int) } else { spec_face(e0.facing, player_x - e0.x) };
        let shoots_now = e0.stats.shoots && frame % (SHOOT_FREQUENCY as u32) == 0;
        &&& e1.x == e0.x + spec_clamp_step(walk.0 as int, limit)
        &&& e1.y == e0.y + spec_clamp_step(walk.1 as int, limit)
        &&& e1.facing == (if shoots_now { spec_face(f1, player_x - e1.x) } else { f1 })
        &&& e1.status == (if shoots_now { Status::Shooting { cooldown: SHOOT_COOLDOWN } } else { Status::Idle })
        &&& r.hit_player == (if e0.stats.melee && spec_overlaps(e1.spec_hitbox(), player_hitbox) {
            Some(PlayerHit { direction: f1, damage: e0.stats.strength })
        } else {
            None
        })
        &&& !r.death_finished && r.shot is None
    }
}

impl Enemy {
    pub open spec fn wf(self) -> bool {
        &&& self.sprite.wf()
        &&& self.sprite.anims@.len() > res::ENEMY_ANIM_SHOOT
        &&& coord_small(self.x as int)
        &&& coord_small(self.y as int)
        &&& -256 <= self.stats.hitbox.x <= 256
        &&& -256 <= self.stats.hitbox.y <= 256
        &&& 0 <= self.stats.hitbox.w <= 256
        &&& 0 <= self.stats.hitbox.h <= 256
        &&& self.stats.speed > 0
    }

    /// The death sequence length for this enemy.
    pub open spec fn spec_death_cooldown(self) -> u16 {
        if self.enemy_type == EnemyType::Boss { BOSS_DEATH_COOLDOWN } else { REGULAR_DEATH_COOLDOWN }
    }

    /// Whether the enemy is dying (or dead).
    pub open spec fn spec_dying(self) -> bool {
        self.status is Dying
    }

    /// The enemy's area on screen.
    /// Whether the enemy's death sequence has ended.
    pub open spec fn spec_should_unload(self) -> bool {
        match self.status {
            Status::Dying { cooldown } => cooldown == self.spec_death_cooldown(),
            _ => false,
        }
    }

    pub open spec fn spec_hitbox(self) -> Hitbox {
        Hitbox {
            x: (self.x + self.stats.hitbox.x) as i16,
            y: (self.y + self.stats.hitbox.y) as i16,
            w: self.stats.hitbox.w,
            h: self.stats.hitbox.h,
        }
    }

    /// An enemy centered on stage position (`map_x`, `map_y`) with the given
    /// default stats overridden by the stage's properties.
    pub fn new(
        enemy_type: EnemyType,
        map_x: i16,
        map_y: i16,
        properties: &EnemyProperties,
        base_stats: Stats,
        sprite: BigSprite,
    ) -> (r: Enemy)
        requires
            coord_small(map_x + 128 - (base_stats.hitbox.x + div_trunc(base_stats.hitbox.w as int, 2))),
            coord_small(map_y + 128 - (base_stats.hitbox.y + div_trunc(base_stats.hitbox.h as int, 2))),
            -256 <= base_stats.hitbox.x <= 256,
            -256 <= base_stats.hitbox.y <= 256,
            0 <= base_stats.hitbox.w <= 256,
            0 <= base_stats.hitbox.h <= 256,
            spec_apply_properties(base_stats, *properties).speed > 0,
            sprite.wf(),
            sprite.anims@.len() > res::ENEMY_ANIM_SHOOT,
        ensures
            r.wf(),
            r.stats == spec_apply_properties(base_stats, *properties),
            r.x == map_x + 128 - (base_stats.hitbox.x + div_trunc(base_stats.hitbox.w as int, 2)),
            r.y == map_y + 128 - (base_stats.hitbox.y + div_trunc(base_stats.hitbox.h as int, 2)),
            r.id == properties.id,
            r.facing == Direction::Right,
            r.status == Status::Idle,
            r.invulnerable == properties.invulnerable,
            r.flags == (match properties.flags { Some(f) => f, None => 0 }),
            r.enemy_type == enemy_type,
            r.behavior == spec_behavior(enemy_type),
            ({
                let placed = Enemy { sprite: BigSprite { x: clamp_coord(r.x, 448) as u16, y: clamp_coord(r.y, 352) as u16, ..sprite }, ..r };
                r.sprite == (BigSprite { animation_state: placed.spec_anim_after(false), flip_h: placed.spec_flip_after(), ..placed.sprite })
            }),
    {
        let stats = base_stats.apply_properties(properties);
        let center = stats.hitbox.center();
        let sprite_x = map_x + 128 - center.0;
        let sprite_y = map_y + 128 - center.1;
        let mut sprite = sprite;
        sprite.set_position(sprite_x, sprite_y);
        let flags = match properties.flags {
            Some(f) => f,
            None => 0,
        };
        let mut enemy = Enemy {
            facing: Direction::Right,
            x: sprite_x,
            y: sprite_y,
            id: properties.id,
            sprite,
            status: Status::Idle,
            stats,
            invulnerable: properties.invulnerable,
            flags,
            enemy_type,
            behavior: behavior_for(enemy_type),
        };
        enemy.update_animation(false);
        enemy
    }

    /// Starts the death sequence (unless already dying).
    pub fn kill(&mut self)
        ensures
            *final(self) == (if old(self).spec_dying() { *old(self) } else { Enemy { status: Status::Dying { cooldown: 0 }, ..*old(self) } }),
    {
        if !self.is_dying() {
            self.status = Status::Dying { cooldown: 0 };
        }
    }

    fn is_dying(&self) -> (r: bool)
        ensures
            r == self.spec_dying(),
    {
        match self.status {
            Status::Dying { .. } => true,
            _ => false,
        }
    }

    /// Takes damage: dies when it runs out of health, else is stunned.
    /// Dying and invulnerable enemies are not affected.
    pub fn on_hit(&mut self, damage: u16)
        ensures
            *final(self) == spec_enemy_hit(*old(self), damage),
            old(self).spec_dying() || old(self).invulnerable ==> *final(self) == *old(self),
            !old(self).spec_dying() && !old(self).invulnerable && old(self).stats.health <= damage ==> *final(self) == (Enemy {
                stats: Stats { health: 0, ..old(self).stats },
                status: Status::Dying { cooldown: 0 },
                ..*old(self)
            }),
            !old(self).spec_dying() && !old(self).invulnerable && old(self).stats.health > damage ==> *final(self) == (Enemy {
                stats: Stats { health: (old(self).stats.health - damage) as u16, ..old(self).stats },
                status: Status::Damaged { cooldown: DAMAGE_COOLDOWN },
                ..*old(self)
            }),
    {
        if !self.is_alive() || self.invulnerable {
            return;
        }
        if self.stats.health <= damage {
            self.stats.health = 0;
            self.status = Status::Dying { cooldown: 0 };
            return;
        }
        self.stats.health = self.stats.health - damage;
        self.status = Status::Damaged { cooldown: DAMAGE_COOLDOWN };
    }

    /// Whether the enemy is not dying.
    pub fn is_alive(&self) -> (r: bool)
        ensures
            r == !self.spec_dying(),
    {
        !self.is_dying()
    }

    /// Whether the death sequence is over and the enemy can be dropped.
    pub fn should_unload(&self) -> (r: bool)
        ensures
            r == self.spec_should_unload(),
    {
        match self.status {
            Status::Dying { cooldown } => cooldown == self.death_cooldown(),
            _ => false,
        }
    }

    /// Frames until the death sequence is over.
    pub fn death_cooldown(&self) -> (r: u16)
        ensures
            r == self.spec_death_cooldown(),
    {
        if self.is_boss() {
            BOSS_DEATH_COOLDOWN
        } else {
            REGULAR_DEATH_COOLDOWN
        }
    }

    /// Enemies that give flags are minibosses.
    pub fn is_miniboss(&self) -> (r: bool)
        ensures
            r == (self.flags > 0),
    {
        self.flags > 0
    }

    pub fn is_boss(&self) -> (r: bool)
        ensures
            r == (self.enemy_type == EnemyType::Boss),
    {
        self.enemy_type == EnemyType::Boss
    }

    /// Turns toward the player at horizontal position `player_x`.
    pub fn face_player(&mut self, player_x: i16)
        ensures
            *final(self) == (Enemy { facing: spec_face(old(self).facing, player_x - old(self).x), ..*old(self) }),
    {
        let d = player_x as i32 - self.x as i32;
        if d < 0 {
            self.facing = Direction::Left;
        } else if d > 0 {
            self.facing = Direction::Right;
        }
    }

    /// Turns toward the side of `dx`.
    pub fn face_dir(&mut self, dx: i16)
        ensures
            *final(self) == (Enemy { facing: spec_face(old(self).facing, dx as int), ..*old(self) }),
    {
        if dx < 0 {
            self.facing = Direction::Left;
        } else if dx > 0 {
            self.facing = Direction::Right;
        }
    }

    /// Remaining health.
    pub fn health(&self) -> (r: u16)
        ensures
            r == self.stats.health,
    {
        self.stats.health
    }

    /// The enemy's area on screen.
    pub fn hitbox(&self) -> (r: Hitbox)
        requires
            self.wf(),
        ensures
            r == self.spec_hitbox(),
    {
        Hitbox {
            x: self.x + self.stats.hitbox.x,
            y: self.y + self.stats.hitbox.y,
            w: self.stats.hitbox.w,
            h: self.stats.hitbox.h,
        }
    }

    /// Moves the enemy (and its sprite) to (x, y).
    pub fn set_position(&mut self, x: i16, y: i16)
        ensures
            *final(self) == (Enemy {
                x,
                y,
                sprite: BigSprite { x: clamp_coord(x, 448) as u16, y: clamp_coord(y, 352) as u16, ..old(self).sprite },
                ..*old(self)
            }),
    {
        self.x = x;
        self.y = y;
        self.sprite.set_position(x, y);
    }

    /// Moves the enemy by (dx, dy).
    pub fn move_relative(&mut self, dx: i16, dy: i16)
        requires
            i16::MIN <= old(self).x + dx <= i16::MAX,
            i16::MIN <= old(self).y + dy <= i16::MAX,
        ensures
            *final(self) == (Enemy {
                x: (old(self).x + dx) as i16,
                y: (old(self).y + dy) as i16,
                sprite: BigSprite {
                    x: clamp_coord((old(self).x + dx) as i16, 448) as u16,
                    y: clamp_coord((old(self).y + dy) as i16, 352) as u16,
                    ..old(self).sprite
                },
                ..*old(self)
            }),
    {
        self.set_position(self.x + dx, self.y + dy);
    }

    /// Runs an enemy tick: advances the death sequence or the stun, walks
    /// along the stage's walk data (`walk`, clamped to the enemy's speed),
    /// turns toward its walking direction or the player, hurts the player on
    /// contact (melee enemies), starts a shot every `SHOOT_FREQUENCY` frames
    /// and fires the projectile `PROJECTILE_DELAY` frames into the shot.
    pub fn update(&mut self, walk: (i16, i16), frame: u32, player_x: i16, player_y: i16, player_hitbox: Hitbox) -> (r: EnemyTick)
        requires
            old(self).wf(),
            old(self).status matches Status::Dying { cooldown } ==> cooldown < u16::MAX,
            enemy_tick_ok(*old(self), walk, frame, player_x, player_y, player_hitbox),
        ensures
            enemy_tick(*old(self), *final(self), walk, frame, player_x, player_y, player_hitbox, r),
    {
        let mut walking = false;
        let mut hit_player: Option<PlayerHit> = None;
        let mut shot: Option<EnemyShot> = None;
        let mut death_finished = false;
        match self.status {
            Status::Dying { cooldown } => {
                let c = cooldown + 1;
                if c >= self.death_cooldown() {
                    death_finished = true;
                }
                self.status = Status::Dying { cooldown: c };
            },
            Status::Idle => {
                let (mut dx, mut dy) = walk;
                if dx != 0 {
                    walking = true;
                    self.face_dir(dx);
                } else {
                    self.face_player(player_x);
                }
                let limit = step_limit(self.stats.speed, frame);
                dx = clamp_step(dx, limit);
                dy = clamp_step(dy, limit);
                self.move_relative(dx, dy);
                if self.stats.melee && self.hitbox().collides(&player_hitbox) {
                    hit_player = Some(PlayerHit { direction: self.facing, damage: self.stats.strength });
                }
                if self.stats.shoots && frame % (SHOOT_FREQUENCY as u32) == 0 {
                    self.face_player(player_x);
                    self.status = Status::Shooting { cooldown: SHOOT_COOLDOWN };
                }
            },
            Status::Shooting { cooldown } => {
                if cooldown == SHOOT_COOLDOWN - PROJECTILE_DELAY {
                    let (offs_x, offs_y) = get_projectile_start_offset(self.enemy_type, self.facing);
                    shot = Some(EnemyShot {
                        x: self.x + offs_x,
                        y: self.y + offs_y,
                        dx: player_x - self.x,
                        dy: player_y - self.y,
                        damage: self.stats.strength,
                        arrow: shoots_arrows(self.enemy_type),
                    });
                }
                self.status = if cooldown > 0 {
                    Status::Shooting { cooldown: cooldown - 1 }
                } else {
                    Status::Idle
                };
            },
            Status::Damaged { cooldown } => {
                self.status = if cooldown > 0 {
                    Status::Damaged { cooldown: cooldown - 1 }
                } else {
                    Status::Idle
                };
            },
        }
        self.update_animation(walking);
        let defeated = self.is_dying();
        EnemyTick { hit_player, shot, death_finished, defeated }
    }

    /// The animation state after choosing the picture for the current status
    /// and advancing one refresh.
    pub open spec fn spec_anim_after(self, walking: bool) -> crate::big_sprite::AnimState {
        let anims = self.sprite.anims@;
        let cur = self.sprite.animation_state;
        let maybe = |id: usize| if cur.current_animation_id != id { spec_anim_start(anims, id as int) } else { cur };
        let chosen = if self.behavior == EnemyBehavior::Shooter || self.behavior == EnemyBehavior::Harmless {
            match self.status {
                Status::Dying { .. } => maybe(res::ENEMY_ANIM_DIE),
                Status::Idle => maybe(if walking { res::ENEMY_ANIM_WALK } else { res::ENEMY_ANIM_IDLE }),
                Status::Shooting { .. } => if self.behavior == EnemyBehavior::Shooter { maybe(res::ENEMY_ANIM_SHOOT) } else { cur },
                Status::Damaged { cooldown } => if cooldown == DAMAGE_COOLDOWN - 1 { spec_anim_start(anims, res::ENEMY_ANIM_DAMAGE as int) } else { cur },
            }
        } else {
            cur
        };
        spec_anim_step(anims, chosen)
    }

    /// Whether the sprite faces left after choosing the picture for the current status.
    pub open spec fn spec_flip_after(self) -> bool {
        let turns = (self.behavior == EnemyBehavior::Shooter || self.behavior == EnemyBehavior::Harmless) && match self.status {
            Status::Idle => true,
            Status::Shooting { .. } => self.behavior == EnemyBehavior::Shooter,
            Status::Damaged { cooldown } => cooldown == DAMAGE_COOLDOWN - 1,
            _ => false,
        };
        if turns { self.facing == Direction::Left } else { self.sprite.flip_h }
    }

    /// Chooses the picture for the current status (walking or idle, shooting,
    /// hurt, dying), turns the sprite toward the facing side and advances the
    /// animation. Shooting and harmless enemies have their own pictures; the
    /// other families only advance their animation.
    pub fn update_animation(&mut self, walking: bool)
        requires
            old(self).wf(),
        ensures
            final(self).wf(),
            final(self).sprite.animation_state == old(self).spec_anim_after(walking),
            final(self).sprite.flip_h == old(self).spec_flip_after(),
            final(self).sprite.anims == old(self).sprite.anims,
            final(self).sprite == (BigSprite {
                animation_state: old(self).spec_anim_after(walking),
                flip_h: old(self).spec_flip_after(),
                ..old(self).sprite
            }),
            *final(self) == (Enemy { sprite: final(self).sprite, ..*old(self) }),
            final(self).sprite.x == old(self).sprite.x,
            final(self).sprite.y == old(self).sprite.y,
            final(self).x == old(self).x,
            final(self).y == old(self).y,
            final(self).id == old(self).id,
            final(self).facing == old(self).facing,
            final(self).status == old(self).status,
            final(self).stats == old(self).stats,
            final(self).flags == old(self).flags,
            final(self).enemy_type == old(self).enemy_type,
            final(self).invulnerable == old(self).invulnerable,
            final(self).behavior == old(self).behavior,
    {
        let left = match self.facing {
            Direction::Left => true,
            _ => false,
        };
        if self.behavior == EnemyBehavior::Shooter || self.behavior == EnemyBehavior::Harmless {
            match self.status {
                Status::Dying { .. } => {
                    self.sprite.maybe_set_animation(res::ENEMY_ANIM_DIE);
                },
                Status::Idle => {
                    let anim = if walking { res::ENEMY_ANIM_WALK } else { res::ENEMY_ANIM_IDLE };
                    self.sprite.maybe_set_animation(anim);
                    self.sprite.flip_h = left;
                },
                Status::Shooting { .. } => {
                    if self.behavior == EnemyBehavior::Shooter {
                        self.sprite.maybe_set_animation(res::ENEMY_ANIM_SHOOT);
                        self.sprite.flip_h = left;
                    }
                },
                Status::Damaged { cooldown } => {
                    if cooldown == DAMAGE_COOLDOWN - 1 {
                        self.sprite.set_animation(res::ENEMY_ANIM_DAMAGE);
                        self.sprite.flip_h = left;
                    }
                },
            }
        }
        self.sprite.update();
    }
}

} // verus!
