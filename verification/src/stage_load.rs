//! Loading a stage's placed objects as the screen comes near them: one pass
//! over the placements picks, in order, each object that may load, is near
//! the screen and is not loaded yet (an object counts as loaded as soon as
//! the pass picks it). Also the drawing of the stage's tiles into plane A as
//! the view scrolls, and their full redraw.
use vstd::prelude::*;

use crate::big_sprite::{spec_anim_start, BigSprite};
use crate::door::{Door, DoorProperties, Orientation, LENGTH, WIDTH};
use crate::enemy::{spec_apply_properties, spec_behavior, Enemy, EnemyProperties, Stats, Status};
use crate::entity::{coord_small, div_trunc, map_coord_ok};
use crate::map::{
    bit_set, door_list, enemy_list, get_scroll, is_off_screen, projectile_list, projectile_scroll_ok, rem_i16, rem_trunc,
    spec_doors_scrolled, spec_doors_unloaded, spec_enemies_scrolled, spec_enemies_unloaded, spec_normalize_axis, spec_off_screen,
    spec_projectiles_scrolled, spec_scroll_axis, spec_scroll_steps, spec_switches_scrolled, spec_switches_unloaded, spec_tile_span,
    switch_list, Bitmask, StageMap, TileLoads, ENTITY_SLOTS, SCREEN_HEIGHT, SCREEN_WIDTH, SCROLL_DOWN_Y, SCROLL_LEFT_X,
    SCROLL_RIGHT_X, SCROLL_UP_Y,
};
use crate::player::{spec_set_position, Player};
use crate::map_data::{div_i16, gfx_fits, spec_column_plane, spec_init_start, spec_row_plane, spec_screen_plane, tiles_loadable, MapData};
use crate::resource_state::State;
use crate::vdp::{ScrollSize, TileFlags, Vdp};
use crate::{PlaneAddress, PlaneWindow};
use crate::res::{self, EnemyType, ItemType};
use crate::switch::{Switch, SwitchProperties, EVENT_COUNT};
use crate::Direction;

verus! {

/// A placement as a loading pass sees it: stage position, object id, and
/// whether the object may load at all.
pub type Candidate = (i16, i16, u16, bool);

/// Whether every candidate has an id below 32 and a position on the map.
pub open spec fn cands_ok(cands: Seq<Candidate>) -> bool {
    forall|i: int|
        0 <= i < cands.len() ==> {
            &&& (#[trigger] cands[i]).2 < 32
            &&& map_coord_ok(cands[i].0 as int)
            &&& map_coord_ok(cands[i].1 as int)
        }
}

/// Whether a scroll stays within the range the passes handle.
pub open spec fn scroll_ok(dx: int, dy: int) -> bool {
    -16000 <= dx <= 16000 && -16000 <= dy <= 16000
}

/// A loading pass over `cands` from the loaded-mask `loaded` under the
/// scroll (dx, dy): the mask after it, and the positions picked, in order.
pub open spec fn spec_load_pass(cands: Seq<Candidate>, loaded: u32, dx: int, dy: int) -> (u32, Seq<usize>)
    decreases cands.len(),
{
    if cands.len() == 0 {
        (loaded, Seq::empty())
    } else {
        let prev = spec_load_pass(cands.drop_last(), loaded, dx, dy);
        let c = cands.last();
        if c.3 && !spec_off_screen(128 + c.0 + dx, 128 + c.1 + dy) && !bit_set(prev.0, c.2 as u32) {
            (prev.0 | (1u32 << (c.2 as u32)), prev.1.push((cands.len() - 1) as usize))
        } else {
            prev
        }
    }
}

/// The pass over a longer list picks what the pass over its first `i`
/// candidates picks, and then perhaps more.
pub proof fn lemma_load_pass_prefix(cands: Seq<Candidate>, loaded: u32, dx: int, dy: int, i: int)
    requires
        0 <= i <= cands.len(),
    ensures
        spec_load_pass(cands.take(i), loaded, dx, dy).1.len() <= spec_load_pass(cands, loaded, dx, dy).1.len(),
        spec_load_pass(cands, loaded, dx, dy).1.take(spec_load_pass(cands.take(i), loaded, dx, dy).1.len() as int)
            == spec_load_pass(cands.take(i), loaded, dx, dy).1,
    decreases cands.len(),
{
    let p = spec_load_pass(cands.take(i), loaded, dx, dy).1;
    if i == cands.len() {
        assert(cands.take(i) =~= cands);
        assert(p.take(p.len() as int) =~= p);
    } else {
        lemma_load_pass_prefix(cands.drop_last(), loaded, dx, dy, i);
        assert(cands.drop_last().take(i) =~= cands.take(i));
        let q = spec_load_pass(cands.drop_last(), loaded, dx, dy).1;
        let r = spec_load_pass(cands, loaded, dx, dy).1;
        assert(r == q || r == q.push((cands.len() - 1) as usize));
        assert(r.take(p.len() as int) =~= q.take(p.len() as int));
    }
}

/// The pass picks positions within the list, each at most once, in
/// increasing order, each an object that may load and is near the screen.
pub proof fn lemma_load_pass_picks(cands: Seq<Candidate>, loaded: u32, dx: int, dy: int)
    requires
        cands.len() <= usize::MAX,
    ensures
        ({
            let picked = spec_load_pass(cands, loaded, dx, dy).1;
            &&& forall|k: int| 0 <= k < picked.len() ==> (#[trigger] picked[k]) < cands.len()
            &&& forall|k: int, l: int| 0 <= k < l < picked.len() ==> (#[trigger] picked[k]) < (#[trigger] picked[l])
            &&& forall|k: int|
                0 <= k < picked.len() ==> {
                    let c = cands[#[trigger] picked[k] as int];
                    c.3 && !spec_off_screen(128 + c.0 + dx, 128 + c.1 + dy)
                }
        }),
    decreases cands.len(),
{
    if cands.len() > 0 {
        lemma_load_pass_picks(cands.drop_last(), loaded, dx, dy);
        let q = spec_load_pass(cands.drop_last(), loaded, dx, dy).1;
        let r = spec_load_pass(cands, loaded, dx, dy).1;
        let n = cands.len() - 1;
        assert forall|k: int| 0 <= k < q.len() implies cands[#[trigger] q[k] as int] == cands.drop_last()[q[k] as int] by {}
        if r != q {
            assert(r == q.push(n as usize));
            assert(n as usize == n);
            assert(cands[n] == cands.last());
            assert forall|k: int| 0 <= k < r.len() implies (#[trigger] r[k]) < cands.len() by {
                if k < q.len() {
                    assert(r[k] == q[k]);
                }
            }
            assert forall|k: int, l: int| 0 <= k < l < r.len() implies (#[trigger] r[k]) < (#[trigger] r[l]) by {
                assert(r[k] == q[k]);
                if l < q.len() {
                    assert(r[l] == q[l]);
                }
            }
            assert forall|k: int| 0 <= k < r.len() implies {
                let c = cands[#[trigger] r[k] as int];
                c.3 && !spec_off_screen(128 + c.0 + dx, 128 + c.1 + dy)
            } by {
                if k < q.len() {
                    assert(r[k] == q[k]);
                }
            }
        }
    }
}

/// A loading pass loads each object at most once: the objects it picks have
/// distinct ids, none of them loaded before the pass, all of them loaded
/// after it, and every object loaded before stays loaded.
pub proof fn law_pass_loads_each_object_once(cands: Seq<Candidate>, loaded: u32, dx: int, dy: int)
    requires
        cands_ok(cands),
        cands.len() <= usize::MAX,
    ensures
        ({
            let pass = spec_load_pass(cands, loaded, dx, dy);
            let picked = pass.1;
            &&& forall|k: int, l: int|
                0 <= k < l < picked.len() ==> cands[(#[trigger] picked[k]) as int].2 != cands[(#[trigger] picked[l]) as int].2
            &&& forall|k: int| 0 <= k < picked.len() ==> !bit_set(loaded, cands[(#[trigger] picked[k]) as int].2 as u32)
            &&& forall|k: int| 0 <= k < picked.len() ==> bit_set(pass.0, cands[(#[trigger] picked[k]) as int].2 as u32)
            &&& forall|id: u32| id < 32 && #[trigger] bit_set(loaded, id) ==> bit_set(pass.0, id)
        }),
    decreases cands.len(),
{
    if cands.len() > 0 {
        let prev = spec_load_pass(cands.drop_last(), loaded, dx, dy);
        let pass = spec_load_pass(cands, loaded, dx, dy);
        let n = cands.len() - 1;
        assert(cands_ok(cands.drop_last())) by {
            assert forall|i: int| 0 <= i < cands.drop_last().len() implies {
                &&& (#[trigger] cands.drop_last()[i]).2 < 32
                &&& map_coord_ok(cands.drop_last()[i].0 as int)
                &&& map_coord_ok(cands.drop_last()[i].1 as int)
            } by {
                assert(cands.drop_last()[i] == cands[i]);
            }
        }
        law_pass_loads_each_object_once(cands.drop_last(), loaded, dx, dy);
        lemma_load_pass_picks(cands.drop_last(), loaded, dx, dy);
        let q = prev.1;
        assert forall|k: int| 0 <= k < q.len() implies cands[#[trigger] q[k] as int] == cands.drop_last()[q[k] as int] by {}
        if pass != prev {
            let c = cands.last();
            let i = c.2 as u32;
            let m = prev.0;
            assert(c == cands[n]);
            assert(c.2 < 32);
            assert(n as usize == n);
            assert(pass.1 == q.push(n as usize));
            assert(pass.0 == m | (1u32 << i));
            assert(bit_set(m | (1u32 << i), i)) by (bit_vector)
                requires
                    i < 32,
            ;
            assert(forall|o: u32| o < 32 && o != i ==> #[trigger] bit_set(m | (1u32 << i), o) == bit_set(m, o)) by (bit_vector)
                requires
                    i < 32,
            ;
            let r = pass.1;
            assert forall|k: int, l: int| 0 <= k < l < r.len() implies cands[(#[trigger] r[k]) as int].2 != cands[(#[trigger] r[l]) as int].2 by {
                assert(r[k] == q[k]);
                if l < q.len() {
                    assert(r[l] == q[l]);
                } else {
                    assert(r[l] == n);
                    assert(bit_set(m, cands[q[k] as int].2 as u32));
                }
            }
            assert forall|k: int| 0 <= k < r.len() implies !bit_set(loaded, cands[(#[trigger] r[k]) as int].2 as u32) by {
                if k < q.len() {
                    assert(r[k] == q[k]);
                } else {
                    assert(r[k] == n);
                    assert(!bit_set(m, i));
                }
            }
            assert forall|k: int| 0 <= k < r.len() implies bit_set(pass.0, cands[(#[trigger] r[k]) as int].2 as u32) by {
                if k < q.len() {
                    assert(r[k] == q[k]);
                    assert(cands[q[k] as int].2 < 32);
                }
            }
        }
    }
}

/// Runs a loading pass: the positions picked and the loaded-mask after it
/// (see `spec_load_pass`).
pub fn load_pass(cands: &Vec<Candidate>, loaded: Bitmask, dx: i16, dy: i16) -> (r: (Vec<usize>, Bitmask))
    requires
        cands_ok(cands@),
        scroll_ok(dx as int, dy as int),
    ensures
        r.0@ == spec_load_pass(cands@, loaded.0, dx as int, dy as int).1,
        r.1.0 == spec_load_pass(cands@, loaded.0, dx as int, dy as int).0,
{
    let mut mask = loaded;
    let mut picked: Vec<usize> = Vec::new();
    let mut i: usize = 0;
    while i < cands.len()
        invariant
            cands_ok(cands@),
            scroll_ok(dx as int, dy as int),
            i <= cands@.len(),
            (mask.0, picked@) == spec_load_pass(cands@.take(i as int), loaded.0, dx as int, dy as int),
        decreases cands@.len() - i,
    {
        let (x, y, id, may_load) = cands[i];
        proof {
            assert(cands@[i as int].2 < 32);
            assert(cands@.take(i + 1).drop_last() =~= cands@.take(i as int));
            assert(cands@.take(i + 1).last() == cands@[i as int]);
        }
        if may_load && !is_off_screen(128 + x + dx, 128 + y + dy) && !mask.is_set(id) {
            mask.set(id);
            picked.push(i);
        }
        i = i + 1;
    }
    assert(cands@.take(i as int) =~= cands@);
    (picked, mask)
}

/// The candidates of door placements: every door may load.
pub open spec fn door_cands(ps: Seq<(i16, i16, DoorProperties)>) -> Seq<Candidate> {
    Seq::new(ps.len(), |i: int| (ps[i].0, ps[i].1, ps[i].2.id, true))
}

/// Whether `d` is the door loaded from a placement at stage position
/// (x, y) (scroll applied) with `p` and `sprite`, on a stage whose masks are
/// those of `m`.
pub open spec fn door_loaded_as(d: Door, m: StageMap, x: int, y: int, p: DoorProperties, sprite: BigSprite) -> bool {
    let locked = (p.locked || bit_set(m.doors_locked.0, p.id as u32)) && !bit_set(m.doors_unlocked.0, p.id as u32);
    let open = p.locked && bit_set(m.doors_unlocked.0, p.id as u32);
    &&& d.wf()
    &&& d.x == x + 128 - (if p.orientation == Orientation::Horizontal { LENGTH / 2 } else { WIDTH / 2 })
    &&& d.y == y + 128 - (if p.orientation == Orientation::Horizontal { WIDTH / 2 } else { LENGTH / 2 })
    &&& d.id == p.id
    &&& d.locked == locked
    &&& d.open == open
    &&& d.orientation == p.orientation
    &&& d.entry_side is None
    &&& d.sprite.animation_state == spec_anim_start(
        sprite.anims@,
        (if open { res::DOOR_ANIM_OPEN } else if p.locked { res::DOOR_ANIM_CLOSED_KEYHOLE } else { res::DOOR_ANIM_CLOSED }) as int,
    )
}

/// A door that locked itself behind the player comes back locked and closed
/// when it is loaded again: the tick that locks it records it locked and no
/// longer unlocked (see `update_door`), and a door loaded under such records
/// is locked and closed (see `load_doors`), whatever its placement says.
pub proof fn law_door_locked_behind_reloads_locked(
    unlocked: u32,
    locked: u32,
    m: StageMap,
    d: Door,
    x: int,
    y: int,
    p: DoorProperties,
    s: BigSprite,
)
    requires
        p.id < 32,
        m.doors_unlocked.0 == unlocked & !(1u32 << (p.id as u32)),
        m.doors_locked.0 == locked | (1u32 << (p.id as u32)),
        door_loaded_as(d, m, x, y, p, s),
    ensures
        d.locked,
        !d.open,
{
    let i = p.id as u32;
    assert(bit_set(locked | (1u32 << i), i)) by (bit_vector)
        requires
            i < 32,
    ;
    assert(!bit_set(unlocked & !(1u32 << i), i)) by (bit_vector)
        requires
            i < 32,
    ;
}

/// Whether a door sprite can be used.
pub open spec fn door_sprite_ok(s: BigSprite) -> bool {
    s.wf() && s.anims@.len() > res::DOOR_ANIM_OPEN
}

impl StageMap {
    /// The door placements a loading pass under the scroll (dx, dy) would
    /// load now, in order: those near the screen and not loaded yet.
    pub fn doors_to_load(&self, placements: &Vec<(i16, i16, DoorProperties)>, dx: i16, dy: i16) -> (r: Vec<usize>)
        requires
            cands_ok(door_cands(placements@)),
            scroll_ok(dx as int, dy as int),
        ensures
            r@ == spec_load_pass(door_cands(placements@), self.doors_loaded.0, dx as int, dy as int).1,
    {
        let cands = door_candidates(placements);
        load_pass(&cands, self.doors_loaded, dx, dy).0
    }

    /// Loads the doors near the screen under the scroll (dx, dy) that are not
    /// loaded yet, in placement order, the k-th of them with `sprites[k]`
    /// (see `doors_to_load`); each is marked loaded.
    pub fn load_doors(&mut self, placements: &Vec<(i16, i16, DoorProperties)>, dx: i16, dy: i16, sprites: Vec<BigSprite>)
        requires
            old(self).wf(),
            cands_ok(door_cands(placements@)),
            scroll_ok(dx as int, dy as int),
            sprites@.len() == spec_load_pass(door_cands(placements@), old(self).doors_loaded.0, dx as int, dy as int).1.len(),
            door_list(old(self).doors).len() + sprites@.len() <= ENTITY_SLOTS,
            forall|k: int| 0 <= k < sprites@.len() ==> door_sprite_ok(#[trigger] sprites@[k]),
        ensures
            final(self).wf(),
            ({
                let pass = spec_load_pass(door_cands(placements@), old(self).doors_loaded.0, dx as int, dy as int);
                let n0 = door_list(old(self).doors).len();
                &&& *final(self) == (StageMap { doors: final(self).doors, doors_loaded: Bitmask(pass.0), ..*old(self) })
                &&& door_list(final(self).doors).len() == n0 + pass.1.len()
                &&& door_list(final(self).doors).take(n0 as int) == door_list(old(self).doors)
                &&& forall|k: int|
                    0 <= k < pass.1.len() ==> {
                        let p = placements@[#[trigger] pass.1[k] as int];
                        door_loaded_as(door_list(final(self).doors)[n0 + k], *old(self), p.0 + dx, p.1 + dy, p.2, sprites@[k])
                    }
            }),
    {
        let ghost cands = door_cands(placements@);
        let ghost pass = spec_load_pass(cands, old(self).doors_loaded.0, dx as int, dy as int);
        let ghost n0 = door_list(old(self).doors).len();
        let ghost all_sprites = sprites@;
        let count = placements.len();
        proof {
            assert(cands.len() == count);
            lemma_load_pass_picks(cands, old(self).doors_loaded.0, dx as int, dy as int);
        }
        let mut sprites = sprites;
        let mut i: usize = 0;
        while i < placements.len()
            invariant
                cands == door_cands(placements@),
                cands_ok(cands),
                scroll_ok(dx as int, dy as int),
                pass == spec_load_pass(cands, old(self).doors_loaded.0, dx as int, dy as int),
                all_sprites.len() == pass.1.len(),
                forall|k: int| 0 <= k < all_sprites.len() ==> door_sprite_ok(#[trigger] all_sprites[k]),
                n0 == door_list(old(self).doors).len(),
                n0 + pass.1.len() <= ENTITY_SLOTS,
                i <= placements@.len(),
                self.wf(),
                ({
                    let sub = spec_load_pass(cands.take(i as int), old(self).doors_loaded.0, dx as int, dy as int);
                    &&& self.doors_loaded.0 == sub.0
                    &&& sprites@ == all_sprites.skip(sub.1.len() as int)
                    &&& door_list(self.doors).len() == n0 + sub.1.len()
                    &&& pass.1.take(sub.1.len() as int) == sub.1
                    &&& sub.1.len() <= pass.1.len()
                }),
                *self == (StageMap { doors: self.doors, doors_loaded: self.doors_loaded, ..*old(self) }),
                door_list(self.doors).take(n0 as int) == door_list(old(self).doors),
                forall|k: int|
                    0 <= k < door_list(self.doors).len() - n0 ==> {
                        let p = placements@[#[trigger] pass.1[k] as int];
                        door_loaded_as(door_list(self.doors)[n0 + k], *old(self), p.0 + dx, p.1 + dy, p.2, all_sprites[k])
                    },
            decreases placements@.len() - i,
        {
            let ghost sub = spec_load_pass(cands.take(i as int), old(self).doors_loaded.0, dx as int, dy as int);
            let ghost before = door_list(self.doors);
            let (x, y, properties) = placements[i];
            proof {
                assert(cands[i as int] == (x, y, properties.id, true));
                assert(cands.take(i + 1).drop_last() =~= cands.take(i as int));
                assert(cands.take(i + 1).last() == cands[i as int]);
                lemma_load_pass_prefix(cands, old(self).doors_loaded.0, dx as int, dy as int, i + 1);
            }
            if self.should_load_door(x, y, properties.id, dx, dy) {
                proof {
                    let sub1 = spec_load_pass(cands.take(i + 1), old(self).doors_loaded.0, dx as int, dy as int);
                    assert(sub1.1 == sub.1.push(i));
                    assert(pass.1[sub.1.len() as int] == i) by {
                        assert(pass.1.take(sub1.1.len() as int)[sub.1.len() as int] == sub1.1[sub.1.len() as int]);
                    }
                    assert(sprites@.len() > 0);
                    assert(sprites@[0] == all_sprites[sub.1.len() as int]);
                }
                let sprite = sprites.remove(0);
                self.add_door(x, y, &properties, dx, dy, sprite);
                proof {
                    let after = door_list(self.doors);
                    assert(after.take(n0 as int) =~= before.take(n0 as int));
                    assert forall|k: int| 0 <= k < after.len() - n0 implies {
                        let p = placements@[#[trigger] pass.1[k] as int];
                        door_loaded_as(after[n0 + k], *old(self), p.0 + dx, p.1 + dy, p.2, all_sprites[k])
                    } by {
                        if k < before.len() - n0 {
                            assert(after[n0 + k] == before[n0 + k]);
                        }
                    }
                    assert(sprites@ =~= all_sprites.skip(sub.1.len() as int + 1));
                }
            }
            i = i + 1;
        }
        proof {
            assert(cands.take(i as int) =~= cands);
            assert(pass.1.take(pass.1.len() as int) =~= pass.1);
        }
    }
}

/// The candidates of switch placements: every switch may load.
pub open spec fn switch_cands(ps: Seq<(i16, i16, SwitchProperties)>) -> Seq<Candidate> {
    Seq::new(ps.len(), |i: int| (ps[i].0, ps[i].1, ps[i].2.id, true))
}

/// Whether every switch placement names an event.
pub open spec fn switch_events_ok(ps: Seq<(i16, i16, SwitchProperties)>) -> bool {
    forall|i: int| 0 <= i < ps.len() ==> (#[trigger] ps[i]).2.event_id < EVENT_COUNT
}

/// Whether `s` is the switch loaded from a placement at stage position
/// (x, y) (scroll applied) with `p` and `sprite`, on a stage whose masks are
/// those of `m`: it shows whether its event was completed.
pub open spec fn switch_loaded_as(s: Switch, m: StageMap, x: int, y: int, p: SwitchProperties, sprite: BigSprite) -> bool {
    &&& s.wf()
    &&& s.x == x + 128 - crate::switch::WIDTH / 2
    &&& s.y == y + 128 - crate::switch::HEIGHT / 2
    &&& s.id == p.id
    &&& s.event_id == p.event_id
    &&& !s.pending
    &&& s.sprite.animation_state == spec_anim_start(
        sprite.anims@,
        (if bit_set(m.switches_completed.0, p.id as u32) { res::SWITCH_ANIM_ON } else { res::SWITCH_ANIM_OFF }) as int,
    )
}

/// Whether a switch sprite can be used.
pub open spec fn switch_sprite_ok(s: BigSprite) -> bool {
    s.wf() && s.anims@.len() > res::SWITCH_ANIM_ON
}

/// The candidates of enemy placements: an enemy may load unless it is a
/// miniboss defeated earlier in the game (`defeated_minibosses`, one bit per
/// enemy kind) or was defeated on this stage (`defeated`).
pub open spec fn enemy_cands(ps: Seq<(EnemyType, i16, i16, EnemyProperties)>, defeated: u32, defeated_minibosses: u32) -> Seq<Candidate> {
    Seq::new(
        ps.len(),
        |i: int|
            (ps[i].1, ps[i].2, ps[i].3.id, !(ps[i].3.flags is Some && defeated_minibosses & (1u32 << res::spec_enemy_index(ps[i].0)) != 0)
                && !bit_set(defeated, ps[i].3.id as u32)),
    )
}

/// Whether `base` can serve as the default stats of an enemy placed with `p`.
pub open spec fn enemy_stats_ok(base: Stats, p: EnemyProperties) -> bool {
    &&& -256 <= base.hitbox.x <= 256
    &&& -256 <= base.hitbox.y <= 256
    &&& 0 <= base.hitbox.w <= 256
    &&& 0 <= base.hitbox.h <= 256
    &&& spec_apply_properties(base, p).speed > 0
}

/// Whether an enemy sprite can be used.
pub open spec fn enemy_sprite_ok(s: BigSprite) -> bool {
    s.wf() && s.anims@.len() > res::ENEMY_ANIM_SHOOT
}

/// Whether `e` is the enemy of kind `t` loaded from a placement at stage
/// position (x, y) (scroll applied) with `p` and default stats `base`.
pub open spec fn enemy_loaded_as(e: Enemy, t: EnemyType, x: int, y: int, p: EnemyProperties, base: Stats) -> bool {
    &&& e.wf()
    &&& e.stats == spec_apply_properties(base, p)
    &&& e.x == x + 128 - (base.hitbox.x + div_trunc(base.hitbox.w as int, 2))
    &&& e.y == y + 128 - (base.hitbox.y + div_trunc(base.hitbox.h as int, 2))
    &&& e.id == p.id
    &&& e.facing == Direction::Right
    &&& e.status == Status::Idle
    &&& e.invulnerable == p.invulnerable
    &&& e.flags == (match p.flags { Some(f) => f, None => 0 })
    &&& e.enemy_type == t
    &&& e.behavior == spec_behavior(t)
}

impl StageMap {
    /// The switch placements a loading pass under the scroll (dx, dy) would
    /// load now, in order.
    pub fn switches_to_load(&self, placements: &Vec<(i16, i16, SwitchProperties)>, dx: i16, dy: i16) -> (r: Vec<usize>)
        requires
            cands_ok(switch_cands(placements@)),
            scroll_ok(dx as int, dy as int),
        ensures
            r@ == spec_load_pass(switch_cands(placements@), self.switches_loaded.0, dx as int, dy as int).1,
    {
        let mut cands: Vec<Candidate> = Vec::new();
        let mut i: usize = 0;
        while i < placements.len()
            invariant
                i <= placements@.len(),
                cands@ == switch_cands(placements@).take(i as int),
            decreases placements@.len() - i,
        {
            let (x, y, p) = placements[i];
            cands.push((x, y, p.id, true));
            i = i + 1;
            assert(cands@ =~= switch_cands(placements@).take(i as int));
        }
        assert(cands@ =~= switch_cands(placements@));
        load_pass(&cands, self.switches_loaded, dx, dy).0
    }

    /// Loads the switches near the screen under the scroll (dx, dy) that are
    /// not loaded yet, in placement order, the k-th of them with
    /// `sprites[k]` (see `switches_to_load`); each is marked loaded.
    pub fn load_switches(&mut self, placements: &Vec<(i16, i16, SwitchProperties)>, dx: i16, dy: i16, sprites: Vec<BigSprite>)
        requires
            old(self).wf(),
            cands_ok(switch_cands(placements@)),
            switch_events_ok(placements@),
            scroll_ok(dx as int, dy as int),
            sprites@.len() == spec_load_pass(switch_cands(placements@), old(self).switches_loaded.0, dx as int, dy as int).1.len(),
            switch_list(old(self).switches).len() + sprites@.len() <= ENTITY_SLOTS,
            forall|k: int| 0 <= k < sprites@.len() ==> switch_sprite_ok(#[trigger] sprites@[k]),
        ensures
            final(self).wf(),
            ({
                let pass = spec_load_pass(switch_cands(placements@), old(self).switches_loaded.0, dx as int, dy as int);
                let n0 = switch_list(old(self).switches).len();
                &&& *final(self) == (StageMap { switches: final(self).switches, switches_loaded: Bitmask(pass.0), ..*old(self) })
                &&& switch_list(final(self).switches).len() == n0 + pass.1.len()
                &&& switch_list(final(self).switches).take(n0 as int) == switch_list(old(self).switches)
                &&& forall|k: int|
                    0 <= k < pass.1.len() ==> {
                        let p = placements@[#[trigger] pass.1[k] as int];
                        switch_loaded_as(switch_list(final(self).switches)[n0 + k], *old(self), p.0 + dx, p.1 + dy, p.2, sprites@[k])
                    }
            }),
    {
        let ghost cands = switch_cands(placements@);
        let ghost pass = spec_load_pass(cands, old(self).switches_loaded.0, dx as int, dy as int);
        let ghost n0 = switch_list(old(self).switches).len();
        let ghost all_sprites = sprites@;
        let count = placements.len();
        proof {
            assert(cands.len() == count);
            lemma_load_pass_picks(cands, old(self).switches_loaded.0, dx as int, dy as int);
        }
        let mut sprites = sprites;
        let mut i: usize = 0;
        while i < placements.len()
            invariant
                cands == switch_cands(placements@),
                cands_ok(cands),
                switch_events_ok(placements@),
                scroll_ok(dx as int, dy as int),
                pass == spec_load_pass(cands, old(self).switches_loaded.0, dx as int, dy as int),
                all_sprites.len() == pass.1.len(),
                forall|k: int| 0 <= k < all_sprites.len() ==> switch_sprite_ok(#[trigger] all_sprites[k]),
                n0 == switch_list(old(self).switches).len(),
                n0 + pass.1.len() <= ENTITY_SLOTS,
                i <= placements@.len(),
                self.wf(),
                ({
                    let sub = spec_load_pass(cands.take(i as int), old(self).switches_loaded.0, dx as int, dy as int);
                    &&& self.switches_loaded.0 == sub.0
                    &&& sprites@ == all_sprites.skip(sub.1.len() as int)
                    &&& switch_list(self.switches).len() == n0 + sub.1.len()
                    &&& pass.1.take(sub.1.len() as int) == sub.1
                    &&& sub.1.len() <= pass.1.len()
                }),
                *self == (StageMap { switches: self.switches, switches_loaded: self.switches_loaded, ..*old(self) }),
                switch_list(self.switches).take(n0 as int) == switch_list(old(self).switches),
                forall|k: int|
                    0 <= k < switch_list(self.switches).len() - n0 ==> {
                        let p = placements@[#[trigger] pass.1[k] as int];
                        switch_loaded_as(switch_list(self.switches)[n0 + k], *old(self), p.0 + dx, p.1 + dy, p.2, all_sprites[k])
                    },
            decreases placements@.len() - i,
        {
            let ghost sub = spec_load_pass(cands.take(i as int), old(self).switches_loaded.0, dx as int, dy as int);
            let ghost before = switch_list(self.switches);
            let (x, y, properties) = placements[i];
            proof {
                assert(cands[i as int] == (x, y, properties.id, true));
                assert(placements@[i as int].2.event_id < EVENT_COUNT);
                assert(cands.take(i + 1).drop_last() =~= cands.take(i as int));
                assert(cands.take(i + 1).last() == cands[i as int]);
                lemma_load_pass_prefix(cands, old(self).switches_loaded.0, dx as int, dy as int, i + 1);
            }
            if self.should_load_switch(x, y, properties.id, dx, dy) {
                proof {
                    let sub1 = spec_load_pass(cands.take(i + 1), old(self).switches_loaded.0, dx as int, dy as int);
                    assert(sub1.1 == sub.1.push(i));
                    assert(pass.1[sub.1.len() as int] == i) by {
                        assert(pass.1.take(sub1.1.len() as int)[sub.1.len() as int] == sub1.1[sub.1.len() as int]);
                    }
                    assert(sprites@.len() > 0);
                    assert(sprites@[0] == all_sprites[sub.1.len() as int]);
                }
                let sprite = sprites.remove(0);
                self.add_switch(x, y, &properties, dx, dy, sprite);
                proof {
                    let after = switch_list(self.switches);
                    assert(after.take(n0 as int) =~= before.take(n0 as int));
                    assert forall|k: int| 0 <= k < after.len() - n0 implies {
                        let p = placements@[#[trigger] pass.1[k] as int];
                        switch_loaded_as(after[n0 + k], *old(self), p.0 + dx, p.1 + dy, p.2, all_sprites[k])
                    } by {
                        if k < before.len() - n0 {
                            assert(after[n0 + k] == before[n0 + k]);
                        }
                    }
                    assert(sprites@ =~= all_sprites.skip(sub.1.len() as int + 1));
                }
            }
            i = i + 1;
        }
        proof {
            assert(cands.take(i as int) =~= cands);
            assert(pass.1.take(pass.1.len() as int) =~= pass.1);
        }
    }

    /// The enemy placements a loading pass under the scroll (dx, dy) would
    /// load now, in order.
    pub fn enemies_to_load(
        &self,
        placements: &Vec<(EnemyType, i16, i16, EnemyProperties)>,
        dx: i16,
        dy: i16,
        defeated_minibosses: u32,
    ) -> (r: Vec<usize>)
        requires
            cands_ok(enemy_cands(placements@, self.enemies_defeated.0, defeated_minibosses)),
            scroll_ok(dx as int, dy as int),
        ensures
            r@ == spec_load_pass(
                enemy_cands(placements@, self.enemies_defeated.0, defeated_minibosses),
                self.enemies_loaded.0,
                dx as int,
                dy as int,
            ).1,
    {
        let ghost want = enemy_cands(placements@, self.enemies_defeated.0, defeated_minibosses);
        let mut cands: Vec<Candidate> = Vec::new();
        let mut i: usize = 0;
        while i < placements.len()
            invariant
                i <= placements@.len(),
                want == enemy_cands(placements@, self.enemies_defeated.0, defeated_minibosses),
                cands_ok(want),
                cands@ == want.take(i as int),
            decreases placements@.len() - i,
        {
            let (t, x, y, p) = placements[i];
            proof {
                assert(want[i as int].2 == p.id);
            }
            let may_load = !(p.flags.is_some() && defeated_minibosses & t.defeat_bit() != 0) && !self.enemies_defeated.is_set(p.id);
            cands.push((x, y, p.id, may_load));
            i = i + 1;
            assert(cands@ =~= want.take(i as int));
        }
        assert(cands@ =~= want);
        load_pass(&cands, self.enemies_loaded, dx, dy).0
    }

    /// Loads the enemies near the screen under the scroll (dx, dy) that may
    /// load and are not loaded yet, in placement order, the k-th of them
    /// with sprite `loads[k].0` and default stats `loads[k].1` (see
    /// `enemies_to_load`); each is marked loaded.
    pub fn load_enemies(
        &mut self,
        placements: &Vec<(EnemyType, i16, i16, EnemyProperties)>,
        dx: i16,
        dy: i16,
        defeated_minibosses: u32,
        loads: Vec<(BigSprite, Stats)>,
    )
        requires
            old(self).wf(),
            cands_ok(enemy_cands(placements@, old(self).enemies_defeated.0, defeated_minibosses)),
            scroll_ok(dx as int, dy as int),
            ({
                let pass = spec_load_pass(
                    enemy_cands(placements@, old(self).enemies_defeated.0, defeated_minibosses),
                    old(self).enemies_loaded.0,
                    dx as int,
                    dy as int,
                );
                &&& loads@.len() == pass.1.len()
                &&& forall|k: int|
                    0 <= k < loads@.len() ==> enemy_sprite_ok((#[trigger] loads@[k]).0)
                        && enemy_stats_ok(loads@[k].1, placements@[pass.1[k] as int].3)
            }),
            enemy_list(old(self).enemies).len() + loads@.len() <= ENTITY_SLOTS,
        ensures
            final(self).wf(),
            ({
                let pass = spec_load_pass(
                    enemy_cands(placements@, old(self).enemies_defeated.0, defeated_minibosses),
                    old(self).enemies_loaded.0,
                    dx as int,
                    dy as int,
                );
                let n0 = enemy_list(old(self).enemies).len();
                &&& *final(self) == (StageMap { enemies: final(self).enemies, enemies_loaded: Bitmask(pass.0), ..*old(self) })
                &&& enemy_list(final(self).enemies).len() == n0 + pass.1.len()
                &&& enemy_list(final(self).enemies).take(n0 as int) == enemy_list(old(self).enemies)
                &&& forall|k: int|
                    0 <= k < pass.1.len() ==> {
                        let p = placements@[#[trigger] pass.1[k] as int];
                        enemy_loaded_as(enemy_list(final(self).enemies)[n0 + k], p.0, p.1 + dx, p.2 + dy, p.3, loads@[k].1)
                    }
            }),
    {
        let ghost cands = enemy_cands(placements@, old(self).enemies_defeated.0, defeated_minibosses);
        let ghost pass = spec_load_pass(cands, old(self).enemies_loaded.0, dx as int, dy as int);
        let ghost n0 = enemy_list(old(self).enemies).len();
        let ghost all_loads = loads@;
        let count = placements.len();
        proof {
            assert(cands.len() == count);
            lemma_load_pass_picks(cands, old(self).enemies_loaded.0, dx as int, dy as int);
        }
        let mut loads = loads;
        let mut i: usize = 0;
        while i < placements.len()
            invariant
                cands == enemy_cands(placements@, old(self).enemies_defeated.0, defeated_minibosses),
                cands_ok(cands),
                scroll_ok(dx as int, dy as int),
                pass == spec_load_pass(cands, old(self).enemies_loaded.0, dx as int, dy as int),
                all_loads.len() == pass.1.len(),
                forall|k: int|
                    0 <= k < all_loads.len() ==> enemy_sprite_ok((#[trigger] all_loads[k]).0)
                        && enemy_stats_ok(all_loads[k].1, placements@[pass.1[k] as int].3),
                forall|k: int| 0 <= k < pass.1.len() ==> (#[trigger] pass.1[k]) < cands.len(),
                n0 == enemy_list(old(self).enemies).len(),
                n0 + pass.1.len() <= ENTITY_SLOTS,
                i <= placements@.len(),
                self.wf(),
                ({
                    let sub = spec_load_pass(cands.take(i as int), old(self).enemies_loaded.0, dx as int, dy as int);
                    &&& self.enemies_loaded.0 == sub.0
                    &&& loads@ == all_loads.skip(sub.1.len() as int)
                    &&& enemy_list(self.enemies).len() == n0 + sub.1.len()
                    &&& pass.1.take(sub.1.len() as int) == sub.1
                    &&& sub.1.len() <= pass.1.len()
                }),
                *self == (StageMap { enemies: self.enemies, enemies_loaded: self.enemies_loaded, ..*old(self) }),
                enemy_list(self.enemies).take(n0 as int) == enemy_list(old(self).enemies),
                forall|k: int|
                    0 <= k < enemy_list(self.enemies).len() - n0 ==> {
                        let p = placements@[#[trigger] pass.1[k] as int];
                        enemy_loaded_as(enemy_list(self.enemies)[n0 + k], p.0, p.1 + dx, p.2 + dy, p.3, all_loads[k].1)
                    },
            decreases placements@.len() - i,
        {
            let ghost sub = spec_load_pass(cands.take(i as int), old(self).enemies_loaded.0, dx as int, dy as int);
            let ghost before = enemy_list(self.enemies);
            let (t, x, y, properties) = placements[i];
            proof {
                assert(cands[i as int].2 == properties.id);
                assert(cands.take(i + 1).drop_last() =~= cands.take(i as int));
                assert(cands.take(i + 1).last() == cands[i as int]);
                lemma_load_pass_prefix(cands, old(self).enemies_loaded.0, dx as int, dy as int, i + 1);
            }
            if self.should_load_enemy(t, x, y, &properties, dx, dy, defeated_minibosses) {
                proof {
                    let sub1 = spec_load_pass(cands.take(i + 1), old(self).enemies_loaded.0, dx as int, dy as int);
                    assert(sub1.1 == sub.1.push(i));
                    assert(pass.1[sub.1.len() as int] == i) by {
                        assert(pass.1.take(sub1.1.len() as int)[sub.1.len() as int] == sub1.1[sub.1.len() as int]);
                    }
                    assert(loads@.len() > 0);
                    assert(loads@[0] == all_loads[sub.1.len() as int]);
                }
                let (sprite, base_stats) = loads.remove(0);
                self.add_enemy(t, x, y, &properties, base_stats, dx, dy, sprite);
                proof {
                    let after = enemy_list(self.enemies);
                    assert(after.take(n0 as int) =~= before.take(n0 as int));
                    assert forall|k: int| 0 <= k < after.len() - n0 implies {
                        let p = placements@[#[trigger] pass.1[k] as int];
                        enemy_loaded_as(after[n0 + k], p.0, p.1 + dx, p.2 + dy, p.3, all_loads[k].1)
                    } by {
                        if k < before.len() - n0 {
                            assert(after[n0 + k] == before[n0 + k]);
                        }
                    }
                    assert(loads@ =~= all_loads.skip(sub.1.len() as int + 1));
                }
            }
            i = i + 1;
        }
        proof {
            assert(cands.take(i as int) =~= cands);
            assert(pass.1.take(pass.1.len() as int) =~= pass.1);
        }
    }
}

/// Plane A after drawing map columns `from .. to` (each from map row `row`
/// on) into the plane column at `off`, one after the other.
pub open spec fn spec_columns_plane(
    plane: Seq<TileFlags>,
    md: MapData,
    from: int,
    to: int,
    row: int,
    off: PlaneAddress,
    start: u16,
) -> Seq<TileFlags>
    decreases to - from,
{
    if to <= from {
        plane
    } else {
        spec_column_plane(spec_columns_plane(plane, md, from, to - 1, row, off, start), md, to - 1, row, off, start)
    }
}

/// Plane A after drawing map rows `from .. to` (each from map column
/// `column` on) into the plane row at `off`, one after the other; rows
/// above the map are skipped.
pub open spec fn spec_rows_plane(
    plane: Seq<TileFlags>,
    md: MapData,
    from: int,
    to: int,
    column: int,
    off: PlaneAddress,
    start: u16,
) -> Seq<TileFlags>
    decreases to - from,
{
    if to <= from {
        plane
    } else {
        let p = spec_rows_plane(plane, md, from, to - 1, column, off, start);
        if to - 1 < 0 {
            p
        } else {
            spec_row_plane(p, md, column, to - 1, off, start)
        }
    }
}

impl StageMap {
    /// Draws the map tiles a scroll step exposed (see `scroll_tiles_step`):
    /// the columns `loads.columns`, from the row of the scroll offset on,
    /// into the plane column at `loads.column_addr`, then the rows
    /// `loads.rows`, from the column of the scroll offset on, into the
    /// plane row at `loads.row_addr`. The stage's tileset is brought into
    /// VRAM with the first tiles drawn.
    pub fn load_exposed_tiles(&mut self, loads: &TileLoads, vdp: &mut Vdp, res_state: &mut State)
        requires
            old(self).map_data.wf(),
            tiles_loadable(old(self).map_data, *old(res_state)),
            gfx_fits(old(self).map_data, spec_init_start(old(self).map_data, *old(res_state))),
            coord_small(old(self).scroll_offset.0 as int),
            coord_small(old(self).scroll_offset.1 as int),
        ensures
            ({
                let md = old(self).map_data;
                let start = spec_init_start(md, *old(res_state));
                let row = div_trunc(old(self).scroll_offset.1 as int, 8);
                let column = div_trunc(old(self).scroll_offset.0 as int, 8);
                &&& *final(self) == (StageMap { map_data: final(self).map_data, ..*old(self) })
                &&& final(self).map_data == (MapData { start_tile: final(self).map_data.start_tile, ..md })
                &&& final(self).map_data.start_tile == md.start_tile || final(self).map_data.start_tile == Some(start)
                &&& final(self).map_data.start_tile is None ==> *final(res_state) == *old(res_state)
                &&& final(vdp).plane_a@ == spec_rows_plane(
                    spec_columns_plane(old(vdp).plane_a@, md, loads.columns.0 as int, loads.columns.1 as int, row, loads.column_addr, start),
                    md,
                    loads.rows.0 as int,
                    loads.rows.1 as int,
                    column,
                    loads.row_addr,
                    start,
                )
            }),
    {
        let ghost md0 = self.map_data;
        let ghost start = spec_init_start(md0, *res_state);
        let ghost p0 = vdp.plane_a@;
        let row = div_i16(self.scroll_offset.1, 8);
        let column = div_i16(self.scroll_offset.0, 8);
        let mut x: i16 = loads.columns.0;
        while x < loads.columns.1
            invariant
                loads.columns.0 <= x <= loads.columns.1 || (x == loads.columns.0 && loads.columns.1 <= loads.columns.0),
                *self == (StageMap { map_data: self.map_data, ..*old(self) }),
                self.map_data == (MapData { start_tile: self.map_data.start_tile, ..md0 }),
                self.map_data.start_tile == md0.start_tile || self.map_data.start_tile == Some(start),
                md0.wf(),
                tiles_loadable(self.map_data, *res_state),
                spec_init_start(self.map_data, *res_state) == start,
                self.map_data.start_tile is None ==> *res_state == *old(res_state),
                gfx_fits(md0, start),
                row == div_trunc(old(self).scroll_offset.1 as int, 8),
                coord_small(old(self).scroll_offset.1 as int),
                vdp.plane_a@ == spec_columns_plane(p0, md0, loads.columns.0 as int, x as int, row as int, loads.column_addr, start),
            decreases loads.columns.1 - x,
        {
            self.map_data.load_tile_column(x, row, loads.column_addr, vdp, res_state);
            x = x + 1;
        }
        let ghost pc = vdp.plane_a@;
        let mut y: i16 = loads.rows.0;
        while y < loads.rows.1
            invariant
                loads.rows.0 <= y <= loads.rows.1 || (y == loads.rows.0 && loads.rows.1 <= loads.rows.0),
                *self == (StageMap { map_data: self.map_data, ..*old(self) }),
                self.map_data == (MapData { start_tile: self.map_data.start_tile, ..md0 }),
                self.map_data.start_tile == md0.start_tile || self.map_data.start_tile == Some(start),
                md0.wf(),
                tiles_loadable(self.map_data, *res_state),
                spec_init_start(self.map_data, *res_state) == start,
                self.map_data.start_tile is None ==> *res_state == *old(res_state),
                gfx_fits(md0, start),
                column == div_trunc(old(self).scroll_offset.0 as int, 8),
                coord_small(old(self).scroll_offset.0 as int),
                vdp.plane_a@ == spec_rows_plane(pc, md0, loads.rows.0 as int, y as int, column as int, loads.row_addr, start),
            decreases loads.rows.1 - y,
        {
            self.map_data.load_tile_row(column, y, loads.row_addr, vdp, res_state);
            y = y + 1;
        }
    }
}

impl StageMap {
    /// Draws the whole view of the stage into plane A again from the scroll
    /// offset, on a 64x64-cell plane, and returns the values of the
    /// horizontal and vertical scroll registers for the plane window.
    pub fn reload_map_tiles(&mut self, vdp: &mut Vdp, res_state: &mut State) -> (r: (i16, i16))
        requires
            old(self).map_data.wf(),
            tiles_loadable(old(self).map_data, *old(res_state)),
            gfx_fits(old(self).map_data, spec_init_start(old(self).map_data, *old(res_state))),
            coord_small(old(self).scroll_offset.0 as int),
            coord_small(old(self).scroll_offset.1 as int),
        ensures
            r.0 == -old(self).plane_window.spec_scroll().0,
            r.1 == old(self).plane_window.spec_scroll().1,
            final(vdp).scroll_size == (ScrollSize::Cell64, ScrollSize::Cell64),
            *final(self) == (StageMap {
                map_data: MapData { start_tile: Some(spec_init_start(old(self).map_data, *old(res_state))), ..old(self).map_data },
                ..*old(self)
            }),
            final(vdp).plane_a@ == spec_screen_plane(
                old(vdp).plane_a@,
                old(self).map_data,
                div_trunc(old(self).scroll_offset.0 as int, 8),
                div_trunc(old(self).scroll_offset.1 as int, 8),
                spec_init_start(old(self).map_data, *old(res_state)),
            ),
    {
        let offs = self.plane_window.current_scroll();
        let column = div_i16(self.scroll_offset.0, 8);
        let row = div_i16(self.scroll_offset.1, 8);
        self.map_data.load_to_vram(column, row, vdp, res_state);
        vdp.set_plane_size(ScrollSize::Cell64, ScrollSize::Cell64);
        (-(offs.0 as i16), offs.1 as i16)
    }

    /// Draws the stage again after the pause menu covered plane A: the plane
    /// window is set back to the sub-tile part of the scroll offset, as when
    /// the stage was loaded, and the view is drawn again (see
    /// `reload_map_tiles`).
    pub fn redraw(&mut self, vdp: &mut Vdp, res_state: &mut State) -> (r: (i16, i16))
        requires
            old(self).map_data.wf(),
            tiles_loadable(old(self).map_data, *old(res_state)),
            gfx_fits(old(self).map_data, spec_init_start(old(self).map_data, *old(res_state))),
            coord_small(old(self).scroll_offset.0 as int),
            coord_small(old(self).scroll_offset.1 as int),
        ensures
            final(self).plane_window.spec_scroll() == (
                rem_trunc(old(self).scroll_offset.0 as int, 8) % 512,
                rem_trunc(old(self).scroll_offset.1 as int, 8) % 512,
            ),
            r.0 == -final(self).plane_window.spec_scroll().0,
            r.1 == final(self).plane_window.spec_scroll().1,
            final(vdp).scroll_size == (ScrollSize::Cell64, ScrollSize::Cell64),
            *final(self) == (StageMap {
                map_data: MapData { start_tile: Some(spec_init_start(old(self).map_data, *old(res_state))), ..old(self).map_data },
                plane_window: final(self).plane_window,
                ..*old(self)
            }),
            final(vdp).plane_a@ == spec_screen_plane(
                old(vdp).plane_a@,
                old(self).map_data,
                div_trunc(old(self).scroll_offset.0 as int, 8),
                div_trunc(old(self).scroll_offset.1 as int, 8),
                spec_init_start(old(self).map_data, *old(res_state)),
            ),
    {
        self.plane_window = PlaneWindow::new();
        let sx = rem_i16(self.scroll_offset.0, 8);
        let sy = rem_i16(self.scroll_offset.1, 8);
        self.plane_window.scroll(sx, sy);
        self.reload_map_tiles(vdp, res_state)
    }
}

/// Drawing a run of columns does not depend on where the stage's tileset
/// lies in VRAM as recorded in the map data (only `start` counts).
proof fn lemma_columns_plane_md(
    plane: Seq<TileFlags>,
    md1: MapData,
    md2: MapData,
    from: int,
    to: int,
    row: int,
    off: PlaneAddress,
    start: u16,
)
    requires
        md1.gfx_layer == md2.gfx_layer,
        md1.palette == md2.palette,
    ensures
        spec_columns_plane(plane, md1, from, to, row, off, start) == spec_columns_plane(plane, md2, from, to, row, off, start),
    decreases to - from,
{
    if to > from {
        lemma_columns_plane_md(plane, md1, md2, from, to - 1, row, off, start);
        let q = spec_columns_plane(plane, md1, from, to - 1, row, off, start);
        assert(spec_column_plane(q, md1, to - 1, row, off, start) =~= spec_column_plane(q, md2, to - 1, row, off, start));
    }
}

/// Drawing a run of rows does not depend on where the stage's tileset lies
/// in VRAM as recorded in the map data (only `start` counts).
proof fn lemma_rows_plane_md(
    plane: Seq<TileFlags>,
    md1: MapData,
    md2: MapData,
    from: int,
    to: int,
    column: int,
    off: PlaneAddress,
    start: u16,
)
    requires
        md1.gfx_layer == md2.gfx_layer,
        md1.palette == md2.palette,
    ensures
        spec_rows_plane(plane, md1, from, to, column, off, start) == spec_rows_plane(plane, md2, from, to, column, off, start),
    decreases to - from,
{
    if to > from {
        lemma_rows_plane_md(plane, md1, md2, from, to - 1, column, off, start);
        let q = spec_rows_plane(plane, md1, from, to - 1, column, off, start);
        assert(spec_row_plane(q, md1, column, to - 1, off, start) =~= spec_row_plane(q, md2, column, to - 1, off, start));
    }
}

/// The view after one scroll step `d` (at most a tile per axis) from scroll
/// offset `off`, plane window scroll `win` and plane A `plane`: the offset
/// and the window move by `-d`, and the map columns and rows the step
/// exposes are drawn (see `scroll_tiles_step` and `load_exposed_tiles`).
pub open spec fn spec_step_view(
    md: MapData,
    start: u16,
    off: (int, int),
    win: (int, int),
    plane: Seq<TileFlags>,
    d: (i16, i16),
) -> ((int, int), (int, int), Seq<TileFlags>) {
    let noff = (off.0 - d.0, off.1 - d.1);
    let nwin = ((win.0 - d.0) % 512, (win.1 - d.1) % 512);
    let cols = spec_tile_span(noff.0, d.0 as int, crate::map_data::WIDTH as int);
    let rows = spec_tile_span(noff.1, d.1 as int, crate::map_data::HEIGHT as int);
    let caddr = PlaneAddress(
        (nwin.0 / 8 + (if d.0 < 0 { crate::map_data::WIDTH as int } else { 0 })) as u16,
        (nwin.1 / 8) as u16,
    );
    let raddr = PlaneAddress(
        (nwin.0 / 8) as u16,
        (nwin.1 / 8 + (if d.1 < 0 { crate::map_data::HEIGHT as int } else { 0 })) as u16,
    );
    let p = spec_rows_plane(
        spec_columns_plane(plane, md, cols.0, cols.1, div_trunc(noff.1, 8), caddr, start),
        md,
        rows.0,
        rows.1,
        div_trunc(noff.0, 8),
        raddr,
        start,
    );
    (noff, nwin, p)
}

/// The view after the scroll steps `steps`, one after the other.
pub open spec fn spec_scroll_view(
    md: MapData,
    start: u16,
    off: (int, int),
    win: (int, int),
    plane: Seq<TileFlags>,
    steps: Seq<(i16, i16)>,
) -> ((int, int), (int, int), Seq<TileFlags>)
    decreases steps.len(),
{
    if steps.len() == 0 {
        (off, win, plane)
    } else {
        let v = spec_scroll_view(md, start, off, win, plane, steps.drop_last());
        spec_step_view(md, start, v.0, v.1, v.2, steps.last())
    }
}

impl StageMap {
    /// Scrolls the stage's tiles by (dx, dy): in steps of at most a tile per
    /// axis (see `scroll_steps`), each moving the scroll offset and the plane
    /// window and drawing the map tiles it exposes. Returns the values of the
    /// horizontal and vertical scroll registers afterwards.
    #[verifier::spinoff_prover]
    #[verifier::rlimit(50)]
    pub fn scroll_tiles(&mut self, dx: i16, dy: i16, vdp: &mut Vdp, res_state: &mut State) -> (r: (i16, i16))
        requires
            old(self).map_data.wf(),
            tiles_loadable(old(self).map_data, *old(res_state)),
            gfx_fits(old(self).map_data, spec_init_start(old(self).map_data, *old(res_state))),
            coord_small(old(self).scroll_offset.0 as int),
            coord_small(old(self).scroll_offset.1 as int),
            coord_small(old(self).scroll_offset.0 - dx),
            coord_small(old(self).scroll_offset.1 - dy),
        ensures
            ({
                let md = old(self).map_data;
                let start = spec_init_start(md, *old(res_state));
                let v = spec_scroll_view(
                    md,
                    start,
                    (old(self).scroll_offset.0 as int, old(self).scroll_offset.1 as int),
                    old(self).plane_window.spec_scroll(),
                    old(vdp).plane_a@,
                    spec_scroll_steps(dx as int, dy as int),
                );
                &&& *final(self) == (StageMap {
                    scroll_offset: final(self).scroll_offset,
                    plane_window: final(self).plane_window,
                    map_data: final(self).map_data,
                    ..*old(self)
                })
                &&& final(self).map_data == (MapData { start_tile: final(self).map_data.start_tile, ..md })
                &&& final(self).map_data.start_tile == md.start_tile || final(self).map_data.start_tile == Some(start)
                &&& final(self).map_data.start_tile is None ==> *final(res_state) == *old(res_state)
                &&& final(self).scroll_offset == ((old(self).scroll_offset.0 - dx) as i16, (old(self).scroll_offset.1 - dy) as i16)
                &&& final(self).plane_window.spec_scroll() == v.1
                &&& final(vdp).plane_a@ == v.2
                &&& r == ((-v.1.0) as i16, v.1.1 as i16)
            }),
    {
        let ghost md0 = self.map_data;
        let ghost start = spec_init_start(md0, *res_state);
        let ghost off0 = (self.scroll_offset.0 as int, self.scroll_offset.1 as int);
        let ghost win0 = self.plane_window.spec_scroll();
        let ghost p0 = vdp.plane_a@;
        let ghost all = spec_scroll_steps(dx as int, dy as int);
        let ghost mut done: Seq<(i16, i16)> = Seq::empty();
        let mut rem_x = dx;
        let mut rem_y = dy;
        let mut regs: (i16, i16) = (-(self.plane_window.current_scroll().0 as i16), self.plane_window.current_scroll().1 as i16);
        assert(done + all =~= all);
        while rem_x != 0 || rem_y != 0
            invariant
                md0.wf(),
                gfx_fits(md0, start),
                *self == (StageMap { scroll_offset: self.scroll_offset, plane_window: self.plane_window, map_data: self.map_data, ..*old(self) }),
                self.map_data == (MapData { start_tile: self.map_data.start_tile, ..md0 }),
                self.map_data.start_tile == md0.start_tile || self.map_data.start_tile == Some(start),
                tiles_loadable(self.map_data, *res_state),
                spec_init_start(self.map_data, *res_state) == start,
                self.map_data.start_tile is None ==> *res_state == *old(res_state),
                coord_small(off0.0),
                coord_small(off0.1),
                coord_small(off0.0 - dx),
                coord_small(off0.1 - dy),
                dx >= 0 ==> 0 <= rem_x <= dx,
                dx < 0 ==> dx <= rem_x <= 0,
                dy >= 0 ==> 0 <= rem_y <= dy,
                dy < 0 ==> dy <= rem_y <= 0,
                self.scroll_offset.0 == off0.0 - (dx - rem_x),
                self.scroll_offset.1 == off0.1 - (dy - rem_y),
                all == spec_scroll_steps(dx as int, dy as int),
                done + spec_scroll_steps(rem_x as int, rem_y as int) == all,
                ({
                    let v = spec_scroll_view(md0, start, off0, win0, p0, done);
                    &&& v.0 == (self.scroll_offset.0 as int, self.scroll_offset.1 as int)
                    &&& v.1 == self.plane_window.spec_scroll()
                    &&& v.2 == vdp.plane_a@
                    &&& regs == ((-v.1.0) as i16, v.1.1 as i16)
                }),
            decreases (if rem_x < 0 { -rem_x } else { rem_x as int }) + (if rem_y < 0 { -rem_y } else { rem_y as int }),
        {
            let step_x: i16 = if rem_x < -8 { -8 } else if rem_x > 8 { 8 } else { rem_x };
            let step_y: i16 = if rem_y < -8 { -8 } else if rem_y > 8 { 8 } else { rem_y };
            let ghost before = vdp.plane_a@;
            let ghost md_now = self.map_data;
            let loads = self.scroll_tiles_step(step_x, step_y);
            self.load_exposed_tiles(&loads, vdp, res_state);
            regs = (loads.h_scroll, loads.v_scroll);
            proof {
                let v = spec_scroll_view(md0, start, off0, win0, p0, done);
                let nd = done.push((step_x, step_y));
                assert(nd.drop_last() =~= done);
                assert(nd.last() == (step_x, step_y));
                assert(spec_scroll_steps(rem_x as int, rem_y as int)
                    == seq![(step_x, step_y)] + spec_scroll_steps((rem_x - step_x) as int, (rem_y - step_y) as int));
                assert(nd + spec_scroll_steps((rem_x - step_x) as int, (rem_y - step_y) as int)
                    =~= done + spec_scroll_steps(rem_x as int, rem_y as int));
                let nv = spec_step_view(md0, start, v.0, v.1, v.2, (step_x, step_y));
                lemma_columns_plane_md(
                    before,
                    md_now,
                    md0,
                    loads.columns.0 as int,
                    loads.columns.1 as int,
                    div_trunc(self.scroll_offset.1 as int, 8),
                    loads.column_addr,
                    start,
                );
                let pc = spec_columns_plane(
                    before,
                    md0,
                    loads.columns.0 as int,
                    loads.columns.1 as int,
                    div_trunc(self.scroll_offset.1 as int, 8),
                    loads.column_addr,
                    start,
                );
                lemma_rows_plane_md(
                    pc,
                    md_now,
                    md0,
                    loads.rows.0 as int,
                    loads.rows.1 as int,
                    div_trunc(self.scroll_offset.0 as int, 8),
                    loads.row_addr,
                    start,
                );
                assert(loads.column_addr == PlaneAddress(
                    (nv.1.0 / 8 + (if step_x < 0 { crate::map_data::WIDTH as int } else { 0 })) as u16,
                    (nv.1.1 / 8) as u16,
                ));
                assert(loads.row_addr == PlaneAddress(
                    (nv.1.0 / 8) as u16,
                    (nv.1.1 / 8 + (if step_y < 0 { crate::map_data::HEIGHT as int } else { 0 })) as u16,
                ));
                assert(spec_scroll_view(md0, start, off0, win0, p0, nd) == nv);
            }
            proof {
                done = done.push((step_x, step_y));
            }
            rem_x = rem_x - step_x;
            rem_y = rem_y - step_y;
        }
        assert(done =~= all) by {
            assert(done + spec_scroll_steps(0, 0) =~= done);
        }
        regs
    }
}

/// The candidates of item placements (kind, position, id): an item may load
/// unless it was collected (`collected`).
pub open spec fn item_cands(ps: Seq<(ItemType, i16, i16, u16)>, collected: u32) -> Seq<Candidate> {
    Seq::new(ps.len(), |i: int| (ps[i].1, ps[i].2, ps[i].3, !bit_set(collected, ps[i].3 as u32)))
}

/// The candidates of character placements (kind index, position, id):
/// every character may load.
pub open spec fn npc_cands(ps: Seq<(u16, i16, i16, u16)>) -> Seq<Candidate> {
    Seq::new(ps.len(), |i: int| (ps[i].1, ps[i].2, ps[i].3, true))
}

/// The loaded-mask after the objects at `placed` (id and position, after
/// scrolling) that left the screen were unloaded: their ids are cleared.
pub open spec fn spec_unloaded(m: u32, placed: Seq<(u16, i16, i16)>) -> u32
    decreases placed.len(),
{
    if placed.len() == 0 {
        m
    } else {
        let r = spec_unloaded(m, placed.drop_last());
        let (id, x, y) = placed.last();
        if crate::map::spec_off_screen(x as int, y as int) { r & !(1u32 << (id as u32)) } else { r }
    }
}

/// Whether the ids and positions of placed objects suit `unload_offscreen`.
pub open spec fn placed_ok(placed: Seq<(u16, i16, i16)>) -> bool {
    forall|i: int| 0 <= i < placed.len() ==> {
        let (id, x, y) = #[trigger] placed[i];
        &&& id < 32
        &&& i16::MIN + 50 <= x <= i16::MAX - 50
        &&& i16::MIN + 50 <= y <= i16::MAX - 50
    }
}

/// Clears in `mask` the ids of the objects at `placed` that are off screen.
fn unload_offscreen(mask: Bitmask, placed: &Vec<(u16, i16, i16)>) -> (r: Bitmask)
    requires
        placed_ok(placed@),
    ensures
        r.0 == spec_unloaded(mask.0, placed@),
{
    let mut r = mask;
    let mut i: usize = 0;
    while i < placed.len()
        invariant
            i <= placed@.len(),
            placed_ok(placed@),
            r.0 == spec_unloaded(mask.0, placed@.take(i as int)),
        decreases placed@.len() - i,
    {
        let (id, x, y) = placed[i];
        proof {
            assert(placed@[i as int] == (id, x, y));
            assert(placed@.take(i as int + 1).drop_last() =~= placed@.take(i as int));
        }
        if crate::map::is_off_screen(x, y) {
            r.clear(id);
        }
        i = i + 1;
    }
    assert(placed@.take(placed@.len() as int) =~= placed@);
    r
}

impl StageMap {
    /// After a scroll, marks as not loaded the items at `placed` (their ids
    /// and positions after the scroll) that left the screen, so that a later
    /// loading pass brings them back.
    pub fn unload_items(&mut self, placed: &Vec<(u16, i16, i16)>)
        requires
            placed_ok(placed@),
        ensures
            *final(self) == (StageMap { items_loaded: Bitmask(spec_unloaded(old(self).items_loaded.0, placed@)), ..*old(self) }),
    {
        self.items_loaded = unload_offscreen(self.items_loaded, placed);
    }

    /// After a scroll, marks as not loaded the characters at `placed` (their
    /// ids and positions after the scroll) that left the screen.
    pub fn unload_npcs(&mut self, placed: &Vec<(u16, i16, i16)>)
        requires
            placed_ok(placed@),
        ensures
            *final(self) == (StageMap { npcs_loaded: Bitmask(spec_unloaded(old(self).npcs_loaded.0, placed@)), ..*old(self) }),
    {
        self.npcs_loaded = unload_offscreen(self.npcs_loaded, placed);
    }

    /// A loading pass over the item placements under the scroll (dx, dy):
    /// the items not collected, near the screen and not loaded yet are
    /// marked loaded; returns their positions in `placements`, in order, for
    /// the caller to place.
    pub fn load_items(&mut self, placements: &Vec<(ItemType, i16, i16, u16)>, dx: i16, dy: i16) -> (r: Vec<usize>)
        requires
            cands_ok(item_cands(placements@, old(self).items_collected.0)),
            scroll_ok(dx as int, dy as int),
        ensures
            ({
                let pass = spec_load_pass(item_cands(placements@, old(self).items_collected.0), old(self).items_loaded.0, dx as int, dy as int);
                &&& r@ == pass.1
                &&& *final(self) == (StageMap { items_loaded: Bitmask(pass.0), ..*old(self) })
            }),
    {
        let ghost want = item_cands(placements@, self.items_collected.0);
        let mut cands: Vec<Candidate> = Vec::new();
        let mut i: usize = 0;
        while i < placements.len()
            invariant
                i <= placements@.len(),
                want == item_cands(placements@, self.items_collected.0),
                cands_ok(want),
                cands@ == want.take(i as int),
            decreases placements@.len() - i,
        {
            let (_, x, y, id) = placements[i];
            proof {
                assert(want[i as int].2 == id);
            }
            let may_load = !self.items_collected.is_set(id);
            cands.push((x, y, id, may_load));
            i = i + 1;
            assert(cands@ =~= want.take(i as int));
        }
        assert(cands@ =~= want);
        let (picked, mask) = load_pass(&cands, self.items_loaded, dx, dy);
        self.items_loaded = mask;
        picked
    }

    /// A loading pass over the character placements under the scroll
    /// (dx, dy): the characters near the screen and not loaded yet are marked
    /// loaded; returns their positions in `placements`, in order, for the
    /// caller to place.
    pub fn load_npcs(&mut self, placements: &Vec<(u16, i16, i16, u16)>, dx: i16, dy: i16) -> (r: Vec<usize>)
        requires
            cands_ok(npc_cands(placements@)),
            scroll_ok(dx as int, dy as int),
        ensures
            ({
                let pass = spec_load_pass(npc_cands(placements@), old(self).npcs_loaded.0, dx as int, dy as int);
                &&& r@ == pass.1
                &&& *final(self) == (StageMap { npcs_loaded: Bitmask(pass.0), ..*old(self) })
            }),
    {
        let mut cands: Vec<Candidate> = Vec::new();
        let mut i: usize = 0;
        while i < placements.len()
            invariant
                i <= placements@.len(),
                cands@ == npc_cands(placements@).take(i as int),
            decreases placements@.len() - i,
        {
            let (_, x, y, id) = placements[i];
            cands.push((x, y, id, true));
            i = i + 1;
            assert(cands@ =~= npc_cands(placements@).take(i as int));
        }
        assert(cands@ =~= npc_cands(placements@));
        let (picked, mask) = load_pass(&cands, self.npcs_loaded, dx, dy);
        self.npcs_loaded = mask;
        picked
    }
}

/// The scroll of a frame: the one that brings the player's center back into
/// the middle band of the screen (see `get_scroll`), limited so that the
/// screen does not show past the map's edges (see `normalize`).
pub open spec fn spec_frame_scroll(m: StageMap, p: Player) -> (int, int) {
    (
        spec_normalize_axis(
            spec_scroll_axis(p.x + 20, SCROLL_LEFT_X as int, SCROLL_RIGHT_X as int),
            m.scroll_offset.0 as int,
            m.map_data.width * 8,
            SCREEN_WIDTH as int,
        ),
        spec_normalize_axis(
            spec_scroll_axis(p.y + 24, SCROLL_UP_Y as int, SCROLL_DOWN_Y as int),
            m.scroll_offset.1 as int,
            m.map_data.height * 8,
            SCREEN_HEIGHT as int,
        ),
    )
}

/// Whether the screen shows only the map: the scroll offset lies between
/// the map's start and its end minus the screen.
pub open spec fn view_on_map(m: StageMap) -> bool {
    &&& 320 <= m.map_data.width * 8 <= 320 + 16000
    &&& 224 <= m.map_data.height * 8 <= 224 + 16000
    &&& 0 <= m.scroll_offset.0 <= m.map_data.width * 8 - SCREEN_WIDTH
    &&& 0 <= m.scroll_offset.1 <= m.map_data.height * 8 - SCREEN_HEIGHT
}

/// A limited scroll lies between no scroll and the scroll asked for.
proof fn lemma_normalize_between(s: int, offset: int, size: int, screen: int)
    requires
        size >= screen,
        0 <= offset <= size - screen,
    ensures
        s >= 0 ==> 0 <= spec_normalize_axis(s, offset, size, screen) <= s,
        s < 0 ==> s <= spec_normalize_axis(s, offset, size, screen) <= 0,
        0 <= offset - spec_normalize_axis(s, offset, size, screen) <= size - screen,
{
}

impl StageMap {
    /// The scrolling of a frame: when the player's center left the middle
    /// band of the screen, the view scrolls to bring it back as far as the
    /// map's edges allow (see `spec_frame_scroll`): the stage's tiles are
    /// scrolled and drawn (see `scroll_tiles`) and the player and the loaded
    /// objects move with the view, those that leave it unloaded (see
    /// `scroll_entities`). Returns the new scroll register values, or `None`
    /// when the view stays.
    pub fn maybe_scroll_map(&mut self, player: &mut Player, vdp: &mut Vdp, res_state: &mut State) -> (r: Option<(i16, i16)>)
        requires
            old(self).wf(),
            view_on_map(*old(self)),
            old(self).map_data.wf(),
            tiles_loadable(old(self).map_data, *old(res_state)),
            gfx_fits(old(self).map_data, spec_init_start(old(self).map_data, *old(res_state))),
            coord_small(old(player).x as int),
            coord_small(old(player).y as int),
            forall|i: int|
                0 <= i < projectile_list(old(self).projectiles).len() ==> projectile_scroll_ok(
                    #[trigger] projectile_list(old(self).projectiles)[i],
                    spec_frame_scroll(*old(self), *old(player)).0 as i16,
                    spec_frame_scroll(*old(self), *old(player)).1 as i16,
                ),
        ensures
            final(self).wf(),
            view_on_map(*final(self)),
            ({
                let d = spec_frame_scroll(*old(self), *old(player));
                let dx = d.0 as i16;
                let dy = d.1 as i16;
                let md = old(self).map_data;
                let start = spec_init_start(md, *old(res_state));
                let v = spec_scroll_view(
                    md,
                    start,
                    (old(self).scroll_offset.0 as int, old(self).scroll_offset.1 as int),
                    old(self).plane_window.spec_scroll(),
                    old(vdp).plane_a@,
                    spec_scroll_steps(d.0, d.1),
                );
                if d.0 == 0 && d.1 == 0 {
                    &&& r is None
                    &&& *final(self) == *old(self)
                    &&& *final(player) == *old(player)
                    &&& *final(vdp) == *old(vdp)
                    &&& *final(res_state) == *old(res_state)
                } else {
                    &&& r == Some(((-v.1.0) as i16, v.1.1 as i16))
                    &&& final(vdp).plane_a@ == v.2
                    &&& final(self).plane_window.spec_scroll() == v.1
                    &&& final(self).scroll_offset == ((old(self).scroll_offset.0 - d.0) as i16, (old(self).scroll_offset.1 - d.1) as i16)
                    &&& final(self).map_data == (MapData { start_tile: final(self).map_data.start_tile, ..md })
                    &&& final(self).map_data.start_tile == md.start_tile || final(self).map_data.start_tile == Some(start)
                    &&& *final(player) == spec_set_position(*old(player), (old(player).x + d.0) as i16, (old(player).y + d.1) as i16)
                    &&& enemy_list(final(self).enemies) == spec_enemies_scrolled(enemy_list(old(self).enemies), dx, dy)
                    &&& final(self).enemies_loaded.0 == spec_enemies_unloaded(old(self).enemies_loaded.0, enemy_list(old(self).enemies), dx, dy)
                    &&& door_list(final(self).doors) == spec_doors_scrolled(door_list(old(self).doors), dx, dy)
                    &&& final(self).doors_loaded.0 == spec_doors_unloaded(old(self).doors_loaded.0, door_list(old(self).doors), dx, dy)
                    &&& switch_list(final(self).switches) == spec_switches_scrolled(switch_list(old(self).switches), dx, dy)
                    &&& final(self).switches_loaded.0 == spec_switches_unloaded(
                        old(self).switches_loaded.0,
                        switch_list(old(self).switches),
                        dx,
                        dy,
                    )
                    &&& projectile_list(final(self).projectiles) == spec_projectiles_scrolled(projectile_list(old(self).projectiles), dx, dy)
                    &&& *final(self) == (StageMap {
                        scroll_offset: final(self).scroll_offset,
                        plane_window: final(self).plane_window,
                        map_data: final(self).map_data,
                        enemies: final(self).enemies,
                        enemies_loaded: final(self).enemies_loaded,
                        doors: final(self).doors,
                        doors_loaded: final(self).doors_loaded,
                        switches: final(self).switches,
                        switches_loaded: final(self).switches_loaded,
                        projectiles: final(self).projectiles,
                        ..*old(self)
                    })
                }
            }),
    {
        let scroll = get_scroll(player);
        let (dx, dy) = self.normalize(scroll);
        proof {
            lemma_normalize_between(scroll.0 as int, self.scroll_offset.0 as int, self.map_data.width * 8, SCREEN_WIDTH as int);
            lemma_normalize_between(scroll.1 as int, self.scroll_offset.1 as int, self.map_data.height * 8, SCREEN_HEIGHT as int);
        }
        if dx == 0 && dy == 0 {
            return None;
        }
        let regs = self.scroll_tiles(dx, dy, vdp, res_state);
        self.scroll_entities(player, dx, dy);
        Some(regs)
    }
}

/// The candidates of door placements.
fn door_candidates(placements: &Vec<(i16, i16, DoorProperties)>) -> (r: Vec<Candidate>)
    ensures
        r@ == door_cands(placements@),
{
    let mut r: Vec<Candidate> = Vec::new();
    let mut i: usize = 0;
    while i < placements.len()
        invariant
            i <= placements@.len(),
            r@ == door_cands(placements@).take(i as int),
        decreases placements@.len() - i,
    {
        let (x, y, p) = placements[i];
        r.push((x, y, p.id, true));
        i = i + 1;
        assert(r@ =~= door_cands(placements@).take(i as int));
    }
    assert(r@ =~= door_cands(placements@));
    r
}

} // verus!
