//! Projectiles: they fly along a straight line from their start point and
//! explode on what they hit.
use vstd::prelude::*;

use crate::big_sprite::{spec_anim_start, BigSprite};
use crate::entity::{coord_inner, div_trunc, spec_extend, spec_overlaps, fits_i16, Hitbox};
use crate::Direction;
use crate::res;

verus! {

/// Progress of a projectile.
#[derive(Clone, Copy, Debug, PartialEq, Eq, Structural)]
pub enum Status {
    Flying,
    Explosion,
    Dead,
}

/// A straight flight: `(dx, dy)` is covered in `frames_to_dest` frames.
#[derive(Clone, Copy, Debug, PartialEq, Eq, Structural)]
pub struct Trajectory {
    pub start_x: i16,
    pub start_y: i16,
    pub dx: i16,
    pub dy: i16,
    pub frames_to_dest: i16,
    pub curr_frame: i16,
}

pub open spec fn abs(v: int) -> int {
    if v < 0 { -v } else { v }
}

/// Position on a trajectory at a frame.
pub open spec fn spec_trajectory_pos(t: Trajectory, frame: int) -> (int, int) {
    (
        t.start_x + div_trunc(t.dx * frame, t.frames_to_dest as int),
        t.start_y + div_trunc(t.dy * frame, t.frames_to_dest as int),
    )
}

/// Rust's `/` on `i32` values (rounds toward zero).
fn div_i32(a: i32, b: i32) -> (r: i32)
    requires
        b != 0,
        b > i32::MIN,
        a > i32::MIN,
    ensures
        r == div_trunc(a as int, b as int),
{
    let nb = if b < 0 { -b } else { b };
    let q = if a >= 0 { a / nb } else { -((-a) / nb) };
    if b < 0 { -q } else { q }
}

/// The area a projectile sweeps: its box stretched along a straight
/// (horizontal or vertical) move; a diagonal move keeps the box.
pub open spec fn spec_sweep(h: Hitbox, dx: int, dy: int) -> Hitbox {
    if dx == 0 || dy == 0 { spec_extend(h, dx, dy) } else { h }
}

/// What a flying projectile hit.
#[derive(Clone, Copy, Debug, PartialEq, Eq, Structural)]
pub enum ProjectileHit {
    /// The enemy at this position of the enemy list.
    Enemy(usize),
    /// The switch at this position of the switch list.
    Switch(usize),
    /// The player, pushed toward this direction.
    Player(Direction),
    Nothing,
}

/// A target picked from the lists is a position of its list.
pub proof fn lemma_target_in_range(
    is_player: bool,
    h: Hitbox,
    enemies: Seq<(bool, Hitbox)>,
    switches: Seq<(bool, Hitbox)>,
    player: Option<Hitbox>,
    dx: i16,
)
    ensures
        spec_projectile_target(is_player, h, enemies, switches, player, dx) matches ProjectileHit::Enemy(k) ==> k < enemies.len(),
        spec_projectile_target(is_player, h, enemies, switches, player, dx) matches ProjectileHit::Switch(k) ==> k < switches.len(),
{
    lemma_first_target(h, enemies);
    lemma_first_target(h, switches);
}

/// The first target (in list order) whose flag allows it and whose box the
/// area overlaps.
pub open spec fn spec_first_target(h: Hitbox, ts: Seq<(bool, Hitbox)>) -> int
    decreases ts.len(),
{
    if ts.len() == 0 {
        -1
    } else if ts[0].0 && spec_overlaps(h, ts[0].1) {
        0
    } else {
        let r = spec_first_target(h, ts.drop_first());
        if r < 0 { -1 } else { r + 1 }
    }
}

proof fn lemma_first_target(h: Hitbox, ts: Seq<(bool, Hitbox)>)
    ensures
        -1 <= spec_first_target(h, ts) < ts.len(),
    decreases ts.len(),
{
    if ts.len() > 0 {
        lemma_first_target(h, ts.drop_first());
    }
}

/// What a flying projectile that swept `h` hits: a player's projectile hits
/// the first living enemy (given as (alive, hitbox)) it touches, else the
/// first switch (given as (hittable, hitbox)); an enemy projectile hits the
/// active player (`player` is `None` otherwise), pushing it the way the
/// projectile flies.
pub open spec fn spec_projectile_target(
    is_player: bool,
    h: Hitbox,
    enemies: Seq<(bool, Hitbox)>,
    switches: Seq<(bool, Hitbox)>,
    player: Option<Hitbox>,
    dx: i16,
) -> ProjectileHit {
    if is_player {
        let e = spec_first_target(h, enemies);
        let s = spec_first_target(h, switches);
        if e >= 0 {
            ProjectileHit::Enemy(e as usize)
        } else if s >= 0 {
            ProjectileHit::Switch(s as usize)
        } else {
            ProjectileHit::Nothing
        }
    } else {
        match player {
            Some(p) => if spec_overlaps(h, p) {
                ProjectileHit::Player(if dx < 0 { Direction::Left } else { Direction::Right })
            } else {
                ProjectileHit::Nothing
            },
            None => ProjectileHit::Nothing,
        }
    }
}

/// Whether both far edges of a box fit into `i16`.
pub open spec fn box_fits(h: Hitbox) -> bool {
    fits_i16(h.x + h.w) && fits_i16(h.y + h.h)
}

fn first_target(h: Hitbox, ts: &Vec<(bool, Hitbox)>) -> (r: Option<usize>)
    requires
        box_fits(h),
        forall|i: int| 0 <= i < ts@.len() ==> box_fits((#[trigger] ts@[i]).1),
    ensures
        r matches Some(i) ==> i == spec_first_target(h, ts@),
        r is None ==> spec_first_target(h, ts@) == -1,
{
    proof {
        lemma_first_target(h, ts@);
    }
    let mut i: usize = 0;
    assert(ts@.skip(0) =~= ts@);
    while i < ts.len()
        invariant
            i <= ts@.len(),
            box_fits(h),
            forall|k: int| 0 <= k < ts@.len() ==> box_fits((#[trigger] ts@[k]).1),
            spec_first_target(h, ts@) == (if spec_first_target(h, ts@.skip(i as int)) < 0 { -1 } else { spec_first_target(h, ts@.skip(i as int)) + i }),
        decreases ts@.len() - i,
    {
        proof {
            lemma_first_target(h, ts@.skip(i + 1));
        }
        assert(ts@.skip(i as int)[0] == ts@[i as int]);
        assert(ts@.skip(i as int).drop_first() =~= ts@.skip(i + 1));
        let (ok, b) = ts[i];
        if ok && h.collides(&b) {
            return Some(i);
        }
        i = i + 1;
    }
    None
}

/// What a flying projectile that swept `h` hits (see `spec_projectile_target`).
pub fn projectile_target(
    is_player: bool,
    h: Hitbox,
    enemies: &Vec<(bool, Hitbox)>,
    switches: &Vec<(bool, Hitbox)>,
    player: Option<Hitbox>,
    dx: i16,
) -> (r: ProjectileHit)
    requires
        box_fits(h),
        forall|i: int| 0 <= i < enemies@.len() ==> box_fits((#[trigger] enemies@[i]).1),
        forall|i: int| 0 <= i < switches@.len() ==> box_fits((#[trigger] switches@[i]).1),
        player matches Some(p) ==> box_fits(p),
    ensures
        r == spec_projectile_target(is_player, h, enemies@, switches@, player, dx),
{
    if is_player {
        if let Some(i) = first_target(h, enemies) {
            return ProjectileHit::Enemy(i);
        }
        if let Some(i) = first_target(h, switches) {
            return ProjectileHit::Switch(i);
        }
        ProjectileHit::Nothing
    } else {
        match player {
            Some(p) => if h.collides(&p) {
                ProjectileHit::Player(if dx < 0 { Direction::Left } else { Direction::Right })
            } else {
                ProjectileHit::Nothing
            },
            None => ProjectileHit::Nothing,
        }
    }
}

impl Trajectory {
    /// A trajectory from (x, y) over (dx, dy) at `speed` pixels per frame along
    /// the longer axis.
    pub fn new(x: i16, y: i16, dx: i16, dy: i16, speed: i16) -> (r: Self)
        requires
            speed != 0,
            dx != i16::MIN,
            dy != i16::MIN,
        ensures
            r == (Trajectory {
                start_x: x,
                start_y: y,
                dx,
                dy,
                frames_to_dest: div_trunc(if abs(dx as int) > abs(dy as int) { abs(dx as int) } else { abs(dy as int) }, speed as int) as i16,
                curr_frame: 0,
            }),
    {
        let ax = if dx < 0 { -dx } else { dx };
        let ay = if dy < 0 { -dy } else { dy };
        let m = if ax > ay { ax } else { ay };
        let frames_to_dest = if speed > 0 {
            m / speed
        } else if speed == i16::MIN {
            0
        } else {
            -(m / (-speed))
        };
        Trajectory { start_x: x, start_y: y, dx, dy, frames_to_dest, curr_frame: 0 }
    }

    /// Advances one frame and returns the new position.
    pub fn update(&mut self) -> (r: (i16, i16))
        requires
            old(self).frames_to_dest != 0,
            old(self).curr_frame < i16::MAX,
            i16::MIN <= spec_trajectory_pos(*old(self), old(self).curr_frame + 1).0 <= i16::MAX,
            i16::MIN <= spec_trajectory_pos(*old(self), old(self).curr_frame + 1).1 <= i16::MAX,
            i16::MIN <= old(self).dx * (old(self).curr_frame + 1) <= i16::MAX,
            i16::MIN <= old(self).dy * (old(self).curr_frame + 1) <= i16::MAX,
        ensures
            *final(self) == (Trajectory { curr_frame: (old(self).curr_frame + 1) as i16, ..*old(self) }),
            r.0 == spec_trajectory_pos(*old(self), old(self).curr_frame + 1).0,
            r.1 == spec_trajectory_pos(*old(self), old(self).curr_frame + 1).1,
    {
        self.curr_frame = self.curr_frame + 1;
        let f = self.frames_to_dest as i32;
        let px = self.dx as i32 * self.curr_frame as i32;
        let py = self.dy as i32 * self.curr_frame as i32;
        let qx = div_i32(px, f);
        let qy = div_i32(py, f);
        ((self.start_x as i32 + qx) as i16, (self.start_y as i32 + qy) as i16)
    }
}

/// A flying projectile at the end of its frame: it explodes when it `hit`
/// something; still flying, it is gone once off screen and explodes when
/// `blocked`.
pub open spec fn spec_finish_flight(q: Projectile, hit: bool, blocked: bool) -> Projectile {
    let e = Projectile { status: Status::Explosion, sprite: q.sprite.spec_set_animation(res::PROJECTILE_ANIM_EXPLOSION), ..q };
    let p = if hit { e } else { q };
    if p.status == Status::Flying {
        if crate::map::spec_off_screen(p.x as int, p.y as int) {
            Projectile { status: Status::Dead, ..p }
        } else if blocked {
            e
        } else {
            p
        }
    } else {
        p
    }
}

/// A flying projectile after its step along the trajectory (see `advance`).
pub open spec fn spec_flown(p: Projectile) -> Projectile {
    let t = p.trajectory;
    let q = spec_trajectory_pos(t, t.curr_frame + 1);
    Projectile {
        x: q.0 as i16,
        y: q.1 as i16,
        sprite: p.sprite.spec_update().spec_set_position(q.0 as i16, q.1 as i16),
        trajectory: Trajectory { curr_frame: (t.curr_frame + 1) as i16, ..t },
        ..p
    }
}

/// The area a flying projectile sweeps on its step (see `advance`).
pub open spec fn spec_flight_area(p: Projectile) -> Hitbox {
    let t = p.trajectory;
    let q = spec_trajectory_pos(t, t.curr_frame + 1);
    spec_sweep(p.spec_hitbox(), q.0 - p.x, q.1 - p.y)
}

/// Whether a flying projectile can take its step: the trajectory goes on
/// and its positions stay well inside the coordinate range.
pub open spec fn flight_ok(p: Projectile) -> bool {
    let t = p.trajectory;
    let q = spec_trajectory_pos(t, t.curr_frame + 1);
    &&& t.frames_to_dest != 0
    &&& t.curr_frame < i16::MAX
    &&& coord_inner(q.0) && coord_inner(q.1)
    &&& i16::MIN <= t.dx * (t.curr_frame + 1) <= i16::MAX
    &&& i16::MIN <= t.dy * (t.curr_frame + 1) <= i16::MAX
    &&& coord_inner(p.x as int) && coord_inner(p.y as int)
}

pub struct Projectile {
    pub x: i16,
    pub y: i16,
    pub damage: u16,
    pub trajectory: Trajectory,
    pub sprite: BigSprite,
    pub status: Status,
    pub is_player: bool,
}

/// The animation a projectile flying along (dx, dy) shows.
pub open spec fn spec_projectile_anim(dx: int, dy: int) -> usize {
    if abs(dx) / 2 < abs(dy) && abs(dy) / 2 < abs(dx) {
        res::PROJECTILE_ANIM_DIAG
    } else if abs(dx) > abs(dy) {
        res::PROJECTILE_ANIM_RIGHT
    } else {
        res::PROJECTILE_ANIM_DOWN
    }
}

/// A new projectile at (x, y) flying over (dx, dy) at `speed` pixels per
/// frame, its sprite turned toward the flight direction (see `Projectile::new`).
pub open spec fn spec_new_projectile(
    x: i16,
    y: i16,
    dx: i16,
    dy: i16,
    speed: i16,
    damage: u16,
    sprite: BigSprite,
    is_player: bool,
) -> Projectile {
    Projectile {
        x,
        y,
        damage,
        trajectory: Trajectory {
            start_x: x,
            start_y: y,
            dx,
            dy,
            frames_to_dest: div_trunc(if abs(dx as int) > abs(dy as int) { abs(dx as int) } else { abs(dy as int) }, speed as int) as i16,
            curr_frame: 0,
        },
        sprite: BigSprite {
            flip_h: dx > 0,
            flip_v: dy < 0,
            ..sprite.spec_set_animation(spec_projectile_anim(dx as int, dy as int))
        },
        status: Status::Flying,
        is_player,
    }
}

impl Projectile {
    pub open spec fn wf(self) -> bool {
        &&& self.sprite.wf()
        &&& self.sprite.anims@.len() > res::PROJECTILE_ANIM_EXPLOSION
        &&& self.sprite.w <= 64
        &&& self.sprite.h <= 64
    }

    /// A projectile at (x, y) flying over (dx, dy) at `speed` pixels per frame,
    /// its sprite turned toward the flight direction.
    pub fn new(
        x: i16,
        y: i16,
        dx: i16,
        dy: i16,
        speed: i16,
        damage: u16,
        sprite: BigSprite,
        is_player: bool,
    ) -> (r: Projectile)
        requires
            speed != 0,
            dx != i16::MIN,
            dy != i16::MIN,
            sprite.wf(),
            sprite.anims@.len() > res::PROJECTILE_ANIM_EXPLOSION,
            sprite.w <= 64,
            sprite.h <= 64,
        ensures
            r.wf(),
            r == spec_new_projectile(x, y, dx, dy, speed, damage, sprite, is_player),
            r.x == x,
            r.y == y,
            r.damage == damage,
            r.is_player == is_player,
            r.status == Status::Flying,
            r.trajectory.start_x == x && r.trajectory.start_y == y,
            r.trajectory.dx == dx && r.trajectory.dy == dy,
            r.trajectory.curr_frame == 0,
            r.sprite.flip_h == (dx > 0),
            r.sprite.flip_v == (dy < 0),
            r.sprite.animation_state == spec_anim_start(sprite.anims@, spec_projectile_anim(dx as int, dy as int) as int),
    {
        let flip_h = dx > 0;
        let flip_v = dy < 0;
        let ax = if dx < 0 { -dx } else { dx };
        let ay = if dy < 0 { -dy } else { dy };
        let anim = if ax / 2 < ay && ay / 2 < ax {
            res::PROJECTILE_ANIM_DIAG
        } else if ax > ay {
            res::PROJECTILE_ANIM_RIGHT
        } else {
            res::PROJECTILE_ANIM_DOWN
        };
        let mut sprite = sprite;
        sprite.set_animation(anim);
        sprite.flip_h = flip_h;
        sprite.flip_v = flip_v;
        Projectile {
            x,
            y,
            damage,
            trajectory: Trajectory::new(x, y, dx, dy, speed),
            sprite,
            status: Status::Flying,
            is_player,
        }
    }

    /// Starts the explosion.
    pub fn explode(&mut self)
        requires
            old(self).wf(),
        ensures
            final(self).wf(),
            *final(self) == (Projectile {
                status: Status::Explosion,
                sprite: old(self).sprite.spec_set_animation(res::PROJECTILE_ANIM_EXPLOSION),
                ..*old(self)
            }),
    {
        self.status = Status::Explosion;
        self.sprite.set_animation(res::PROJECTILE_ANIM_EXPLOSION);
    }

    /// The damaging area: half the sprite (at least 4x4), centered on it.
    pub open spec fn spec_hitbox(self) -> Hitbox {
        let sw = self.sprite.w * 8;
        let sh = self.sprite.h * 8;
        let hw = if sw / 2 > 4 { sw / 2 } else { 4 };
        let hh = if sh / 2 > 4 { sh / 2 } else { 4 };
        Hitbox { x: (self.x + sw / 2 - hw / 2) as i16, y: (self.y + sh / 2 - hh / 2) as i16, w: hw as i16, h: hh as i16 }
    }

    /// The damaging area.
    pub fn hitbox(&self) -> (r: Hitbox)
        requires
            self.sprite.w <= 64,
            self.sprite.h <= 64,
            i16::MIN <= self.x - 256,
            self.x + 256 <= i16::MAX,
            i16::MIN <= self.y - 256,
            self.y + 256 <= i16::MAX,
        ensures
            r == self.spec_hitbox(),
    {
        let sprite_w = self.sprite.w as i16 * 8;
        let sprite_h = self.sprite.h as i16 * 8;
        let hitbox_w = if sprite_w / 2 > 4 { sprite_w / 2 } else { 4 };
        let hitbox_h = if sprite_h / 2 > 4 { sprite_h / 2 } else { 4 };
        Hitbox {
            x: self.x + sprite_w / 2 - hitbox_w / 2,
            y: self.y + sprite_h / 2 - hitbox_h / 2,
            w: hitbox_w,
            h: hitbox_h,
        }
    }

    /// Moves the projectile (and its sprite) to (x, y).
    pub fn set_position(&mut self, x: i16, y: i16)
        ensures
            *final(self) == (Projectile { x, y, sprite: old(self).sprite.spec_set_position(x, y), ..*old(self) }),
    {
        self.x = x;
        self.y = y;
        self.sprite.set_position(x, y);
    }

    /// Moves the projectile by (dx, dy).
    pub fn move_relative(&mut self, dx: i16, dy: i16)
        requires
            i16::MIN <= old(self).x + dx <= i16::MAX,
            i16::MIN <= old(self).y + dy <= i16::MAX,
        ensures
            *final(self) == (Projectile {
                x: (old(self).x + dx) as i16,
                y: (old(self).y + dy) as i16,
                sprite: old(self).sprite.spec_set_position((old(self).x + dx) as i16, (old(self).y + dy) as i16),
                ..*old(self)
            }),
    {
        self.set_position(self.x + dx, self.y + dy);
    }

    /// Moves the projectile as part of a map scroll, keeping it on the same
    /// trajectory.
    pub fn scroll(&mut self, dx: i16, dy: i16)
        requires
            i16::MIN <= old(self).x + dx <= i16::MAX,
            i16::MIN <= old(self).y + dy <= i16::MAX,
            i16::MIN <= old(self).trajectory.start_x + dx <= i16::MAX,
            i16::MIN <= old(self).trajectory.start_y + dy <= i16::MAX,
        ensures
            *final(self) == (Projectile {
                x: (old(self).x + dx) as i16,
                y: (old(self).y + dy) as i16,
                sprite: old(self).sprite.spec_set_position((old(self).x + dx) as i16, (old(self).y + dy) as i16),
                trajectory: Trajectory {
                    start_x: (old(self).trajectory.start_x + dx) as i16,
                    start_y: (old(self).trajectory.start_y + dy) as i16,
                    ..old(self).trajectory
                },
                ..*old(self)
            }),
    {
        self.move_relative(dx, dy);
        self.trajectory.start_x = self.trajectory.start_x + dx;
        self.trajectory.start_y = self.trajectory.start_y + dy;
    }

    /// One frame of the projectile before it hits anything: the sprite
    /// animates, an explosion ends once its animation has played, and a
    /// flying projectile moves along its trajectory. Returns, for a flying
    /// projectile, the area it swept this frame.
    pub fn advance(&mut self) -> (r: Option<Hitbox>)
        requires
            old(self).wf(),
            old(self).status == Status::Flying ==> flight_ok(*old(self)),
        ensures
            final(self).wf(),
            ({
                let u = old(self).sprite.spec_update();
                match old(self).status {
                    Status::Dead => r is None && *final(self) == (Projectile { sprite: u, ..*old(self) }),
                    Status::Explosion => r is None && *final(self) == (Projectile {
                        sprite: u,
                        status: if u.spec_animation_finished() { Status::Dead } else { Status::Explosion },
                        ..*old(self)
                    }),
                    Status::Flying => r == Some(spec_flight_area(*old(self))) && *final(self) == spec_flown(*old(self)),
                }
            }),
    {
        self.sprite.update();
        match self.status {
            Status::Dead => None,
            Status::Explosion => {
                if self.sprite.is_animation_finished() {
                    self.status = Status::Dead;
                }
                None
            },
            Status::Flying => {
                let (new_x, new_y) = self.trajectory.update();
                let dx = new_x - self.x;
                let dy = new_y - self.y;
                let mut hitbox = self.hitbox();
                if dx == 0 || dy == 0 {
                    hitbox = hitbox.extend_by(dx, dy);
                }
                self.set_position(new_x, new_y);
                Some(hitbox)
            },
        }
    }

    /// The end of a flying projectile's frame: it explodes when it hit
    /// something; still flying, it is gone once off screen and explodes when
    /// `blocked` (by a closed door or a wall).
    pub fn finish_flight(&mut self, hit: bool, blocked: bool)
        requires
            old(self).wf(),
            i16::MIN + 50 <= old(self).x <= i16::MAX - 50,
            i16::MIN + 50 <= old(self).y <= i16::MAX - 50,
        ensures
            final(self).wf(),
            *final(self) == spec_finish_flight(*old(self), hit, blocked),
    {
        if hit {
            self.explode();
        }
        if self.status == Status::Flying {
            if crate::map::is_off_screen(self.x, self.y) {
                self.status = Status::Dead;
            } else if blocked {
                self.explode();
            }
        }
    }

    /// Whether the projectile is gone and can be dropped.
    pub fn should_unload(&self) -> (r: bool)
        ensures
            r == (self.status == Status::Dead),
    {
        match self.status {
            Status::Dead => true,
            _ => false,
        }
    }
}

} // verus!
