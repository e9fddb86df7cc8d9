//! The player's weapon attacks on a stage: the shots a gun fires and the
//! damage a melee weapon deals to the enemies it hit.
use vstd::prelude::*;

use crate::big_sprite::BigSprite;
use crate::enemy::{spec_enemy_hit, Enemy};
use crate::entity::coord_small;
use crate::map::{
    enemies_len, enemies_new, enemies_push, enemies_remove, enemy_list, projectile_list,
    projectiles_get, projectiles_len, StageMap, ENTITY_SLOTS,
};
use crate::player::{spec_player_hit, Player};
use crate::projectile::{spec_new_projectile, Projectile, Status as ShotStatus};
use crate::res;
use crate::weapon::{gun_shot_damage, melee_hit_damage, projectile_weapon_offset, AttackEffect, MeleeHitEffect};

verus! {

/// The sprite a shot is drawn with.
#[derive(Clone, Copy, Debug, PartialEq, Eq, Structural)]
pub enum ShotSprite {
    Simple,
    /// The charged shot; only one can be on screen at a time.
    Charged,
    Fireball,
}

/// A projectile an attack fires: its horizontal step away from the player
/// (`rel_dx`, mirrored when the player faces left), vertical step, speed
/// and damage.
#[derive(Clone, Copy, Debug, PartialEq, Eq, Structural)]
pub struct Shot {
    pub rel_dx: i16,
    pub dy: i16,
    pub speed: i16,
    pub damage: u16,
    pub sprite: ShotSprite,
}

/// The shots of an attack effect. A gun shot is charged (damage 2 or 3)
/// after 30 frames of charge; a charged shot is not fired while another is
/// on screen (`charged_on_screen`). The triple gun fans out three slow shots.
pub open spec fn spec_attack_shots(effect: AttackEffect, charge: u16, charged_on_screen: bool) -> Seq<Shot> {
    let damage: u16 = if charge >= 75 { 3 } else if charge >= 30 { 2 } else { 1 };
    match effect {
        AttackEffect::Nothing => seq![],
        AttackEffect::Shot => if damage > 1 {
            if charged_on_screen {
                seq![]
            } else {
                seq![Shot { rel_dx: 10, dy: 0, speed: 10, damage, sprite: ShotSprite::Charged }]
            }
        } else {
            seq![Shot { rel_dx: 10, dy: 0, speed: 10, damage, sprite: ShotSprite::Simple }]
        },
        AttackEffect::Fireball => seq![Shot { rel_dx: 10, dy: 0, speed: 10, damage: 1, sprite: ShotSprite::Fireball }],
        AttackEffect::StrongShot => if charged_on_screen {
            seq![]
        } else {
            seq![Shot { rel_dx: 10, dy: 0, speed: 10, damage: 2, sprite: ShotSprite::Charged }]
        },
        AttackEffect::TripleShot => seq![
            Shot { rel_dx: 10, dy: -10i16, speed: 4, damage: 1, sprite: ShotSprite::Simple },
            Shot { rel_dx: 10, dy: 0, speed: 4, damage: 1, sprite: ShotSprite::Simple },
            Shot { rel_dx: 10, dy: 10, speed: 4, damage: 1, sprite: ShotSprite::Simple },
        ],
    }
}

/// The shots an attack fires (see `spec_attack_shots`).
pub fn attack_shots(effect: AttackEffect, charge: u16, charged_on_screen: bool) -> (r: Vec<Shot>)
    ensures
        r@ == spec_attack_shots(effect, charge, charged_on_screen),
{
    let mut r: Vec<Shot> = Vec::new();
    match effect {
        AttackEffect::Nothing => {},
        AttackEffect::Shot => {
            let damage = gun_shot_damage(charge);
            if damage > 1 {
                if !charged_on_screen {
                    r.push(Shot { rel_dx: 10, dy: 0, speed: 10, damage, sprite: ShotSprite::Charged });
                }
            } else {
                r.push(Shot { rel_dx: 10, dy: 0, speed: 10, damage, sprite: ShotSprite::Simple });
            }
        },
        AttackEffect::Fireball => {
            r.push(Shot { rel_dx: 10, dy: 0, speed: 10, damage: 1, sprite: ShotSprite::Fireball });
        },
        AttackEffect::StrongShot => {
            if !charged_on_screen {
                r.push(Shot { rel_dx: 10, dy: 0, speed: 10, damage: 2, sprite: ShotSprite::Charged });
            }
        },
        AttackEffect::TripleShot => {
            let mut i: i16 = -1;
            while i <= 1
                invariant
                    -1 <= i <= 2,
                    r@.len() == i + 1,
                    forall|k: int|
                        0 <= k < r@.len() ==> #[trigger] r@[k] == (Shot {
                            rel_dx: 10,
                            dy: ((k - 1) * 10) as i16,
                            speed: 4,
                            damage: 1,
                            sprite: ShotSprite::Simple,
                        }),
                decreases 2 - i,
            {
                r.push(Shot { rel_dx: 10, dy: i * 10, speed: 4, damage: 1, sprite: ShotSprite::Simple });
                i = i + 1;
            }
        },
    }
    assert(r@ =~= spec_attack_shots(effect, charge, charged_on_screen));
    r
}

/// Whether a charged shot is still flying or exploding on the stage.
pub open spec fn spec_charged_on_screen(ps: Seq<Projectile>) -> bool {
    exists|i: int|
        0 <= i < ps.len() && (#[trigger] ps[i]).sprite.tiles_idx == res::CHARGED_SHOT_TILES && ps[i].status != ShotStatus::Dead
}

/// Whether a charged shot is still on the stage.
pub fn has_charged_bullet(map: &StageMap) -> (r: bool)
    ensures
        r == spec_charged_on_screen(projectile_list(map.projectiles)),
{
    let ghost ps = projectile_list(map.projectiles);
    let n = projectiles_len(&map.projectiles);
    let mut i: usize = 0;
    while i < n
        invariant
            n == ps.len(),
            ps == projectile_list(map.projectiles),
            i <= n,
            forall|k: int|
                0 <= k < i ==> !((#[trigger] ps[k]).sprite.tiles_idx == res::CHARGED_SHOT_TILES && ps[k].status
                    != ShotStatus::Dead),
        decreases n - i,
    {
        let p = projectiles_get(&map.projectiles, i);
        if p.sprite.tiles_idx == res::CHARGED_SHOT_TILES && !p.should_unload() {
            return true;
        }
        i = i + 1;
    }
    false
}

/// The projectile the player fires: from the hand of the sprite, toward the
/// way the sprite looks (a player sliding down a wall looks away from it).
pub open spec fn spec_player_shot(p: Player, shot: Shot, sprite: BigSprite) -> Projectile {
    let flip = p.sprite.flip_h != (p.sprite.animation_state.current_animation_id == res::PLAYER_ANIM_WALL_SLIDE);
    let dx = if flip { -shot.rel_dx } else { shot.rel_dx as int };
    let off: (i16, i16) = if flip { (-2i16, 14i16) } else { (26i16, 14i16) };
    spec_new_projectile(
        (p.x + off.0) as i16,
        (p.y + off.1) as i16,
        dx as i16,
        shot.dy,
        shot.speed,
        shot.damage,
        sprite,
        true,
    )
}

/// Fires `shot` from the player with `sprite`; returns false (dropping it)
/// when the stage's projectile list is full.
pub fn spawn_projectile(map: &mut StageMap, player: &Player, shot: Shot, sprite: BigSprite) -> (r: bool)
    requires
        old(map).wf(),
        coord_small(player.x as int),
        coord_small(player.y as int),
        shot.speed != 0,
        shot.rel_dx != i16::MIN,
        shot.dy != i16::MIN,
        sprite.wf(),
        sprite.anims@.len() > res::PROJECTILE_ANIM_EXPLOSION,
        sprite.w <= 64,
        sprite.h <= 64,
    ensures
        final(map).wf(),
        r == (projectile_list(old(map).projectiles).len() < ENTITY_SLOTS),
        *final(map) == (StageMap { projectiles: final(map).projectiles, ..*old(map) }),
        projectile_list(final(map).projectiles) == (if r {
            projectile_list(old(map).projectiles).push(spec_player_shot(*player, shot, sprite))
        } else {
            projectile_list(old(map).projectiles)
        }),
{
    let is_wall_anim = player.sprite.current_animation() == res::PLAYER_ANIM_WALL_SLIDE;
    let visual_flip_h = player.sprite.flip_h != is_wall_anim;
    let dx = if visual_flip_h { -shot.rel_dx } else { shot.rel_dx };
    let (offset_x, offset_y) = projectile_weapon_offset(visual_flip_h);
    let projectile = Projectile::new(
        player.x + offset_x,
        player.y + offset_y,
        dx,
        shot.dy,
        shot.speed,
        shot.damage,
        sprite,
        true,
    );
    map.add_projectile(projectile)
}

/// Whether position `i` is among the bits of `hits`.
pub open spec fn hit_at(hits: u32, i: int) -> bool {
    0 <= i < 32 && hits & (1u32 << i as u32) != 0
}

/// The enemies after a melee weapon dealing `damage` hit those at the
/// positions in `hits`.
pub open spec fn spec_melee_enemies(es: Seq<Enemy>, hits: u32, damage: u16) -> Seq<Enemy> {
    Seq::new(es.len(), |i: int| if hit_at(hits, i) { spec_enemy_hit(es[i], damage) } else { es[i] })
}

/// The player after a melee attack: the double-edged sword hurts the player
/// too, by 3 for each enemy hit (in list order), from the way that enemy faces.
pub open spec fn spec_melee_player(p: Player, es: Seq<Enemy>, hits: u32, effect: MeleeHitEffect) -> Player
    decreases es.len(),
{
    if es.len() == 0 || effect != MeleeHitEffect::DoubleEdged {
        p
    } else {
        let q = spec_melee_player(p, es.drop_last(), hits, effect);
        if hit_at(hits, es.len() - 1) {
            spec_player_hit(q, es.last().facing, 3)
        } else {
            q
        }
    }
}

/// Applies a melee attack's hits: each enemy at a position in `hits` takes
/// the weapon's damage (2 for a basic hit, 3 otherwise); the double-edged
/// sword also hurts the player.
pub fn apply_melee_hits(map: &mut StageMap, player: &mut Player, effect: MeleeHitEffect, hits: u32)
    requires
        old(map).wf(),
        old(player).wf(),
        forall|i: int| enemy_list(old(map).enemies).len() <= i < 32 ==> !hit_at(hits, i),
    ensures
        final(map).wf(),
        final(player).wf(),
        *final(map) == (StageMap { enemies: final(map).enemies, ..*old(map) }),
        enemy_list(final(map).enemies) == spec_melee_enemies(enemy_list(old(map).enemies), hits, melee_hit_damage_value(effect)),
        *final(player) == spec_melee_player(*old(player), enemy_list(old(map).enemies), hits, effect),
{
    let ghost es = enemy_list(map.enemies);
    let damage = melee_hit_damage(effect);
    let n = enemies_len(&map.enemies);
    let mut kept = enemies_new();
    let mut i: usize = 0;
    while i < n
        invariant
            n == es.len(),
            n <= ENTITY_SLOTS,
            i <= n,
            damage == melee_hit_damage_value(effect),
            player.wf(),
            *player == spec_melee_player(*old(player), es.take(i as int), hits, effect),
            forall|k: int| 0 <= k < es.len() ==> (#[trigger] es[k]).wf() && es[k].id < 32,
            enemy_list(map.enemies) == es.skip(i as int),
            enemy_list(kept) == spec_melee_enemies(es, hits, damage).take(i as int),
            *map == (StageMap { enemies: map.enemies, ..*old(map) }),
        decreases n - i,
    {
        proof {
            assert(es.take(i + 1).drop_last() =~= es.take(i as int));
            assert(es.skip(i as int)[0] == es[i as int]);
        }
        let mut e = enemies_remove(&mut map.enemies, 0);
        assert(es.skip(i as int).remove(0) =~= es.skip(i + 1));
        if i < 32 && hits & (1u32 << (i as u32)) != 0 {
            e.on_hit(damage);
            if effect == MeleeHitEffect::DoubleEdged {
                player.on_hit(e.facing, 3);
            }
        }
        let _ = enemies_push(&mut kept, e);
        assert(enemy_list(kept) =~= spec_melee_enemies(es, hits, damage).take(i + 1));
        i = i + 1;
    }
    assert(es.take(n as int) =~= es);
    assert(spec_melee_enemies(es, hits, damage).take(n as int) =~= spec_melee_enemies(es, hits, damage));
    map.enemies = kept;
}

/// The damage of a melee hit effect.
pub open spec fn melee_hit_damage_value(effect: MeleeHitEffect) -> u16 {
    if effect == MeleeHitEffect::Basic { 2 } else { 3 }
}

/// The charged shot is a single sprite: no attack fires one while another
/// is on screen.
pub proof fn law_one_charged_shot(effect: AttackEffect, charge: u16, i: int)
    requires
        0 <= i < spec_attack_shots(effect, charge, true).len(),
    ensures
        spec_attack_shots(effect, charge, true)[i].sprite != ShotSprite::Charged,
{
}

} // verus!
