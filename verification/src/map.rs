//! Stage-level bookkeeping: object state bitmasks, the stage's entity lists,
//! screen bounds and scrolling.
use vstd::prelude::*;

use crate::door::{door_tick, Door, DoorProperties};
use crate::enemy::{enemy_tick, enemy_tick_ok, spec_apply_properties, Enemy, EnemyProperties, EnemyTick, Stats, Status};
use crate::entity::{coord_small, div_trunc, fits_i16, hitbox_small, map_coord_ok, spec_overlaps, Hitbox};
use crate::inventory::{spec_remove_item, Inventory};
use crate::map_data::{has_bit, MapData};
use crate::player::{spec_player_hit, spec_reset, spec_set_position, Player};
use crate::projectile::{
    box_fits, flight_ok, projectile_target, spec_finish_flight, spec_flight_area, spec_flown, spec_projectile_target, Projectile,
    ProjectileHit, Status as ShotStatus, Trajectory,
};
use crate::res::{self, EnemyType, ItemType, MapType};
use crate::stage_load::{door_loaded_as, enemy_loaded_as, switch_loaded_as, view_on_map};
use crate::switch::{Switch, SwitchEvent, SwitchProperties, EVENT_COUNT};
use crate::big_sprite::BigSprite;
use crate::PlaneWindow;

verus! {

/// A bitmask tracking per-object state on a stage (collected items, opened doors, ...).
/// Object ids are below 32.
#[derive(Clone, Copy, Debug, PartialEq, Eq, Structural)]
pub struct Bitmask(pub u32);

/// Whether bit `id` of `m` is set.
pub open spec fn bit_set(m: u32, id: u32) -> bool {
    m & (1u32 << id) != 0
}

impl Bitmask {
    /// An empty mask.
    pub fn new() -> (r: Self)
        ensures
            r.0 == 0,
            forall|id: u32| id < 32 ==> !bit_set(r.0, id),
    {
        assert(forall|id: u32| id < 32 ==> #[trigger] (0u32 & (1u32 << id)) == 0) by (bit_vector);
        Bitmask(0)
    }

    /// A mask with the low 28 bits set.
    pub fn all_set() -> (r: Self)
        ensures
            r.0 == 0xFFFFFFF,
            forall|id: u32| id < 28 ==> bit_set(r.0, id),
    {
        assert(forall|id: u32| id < 28 ==> #[trigger] (0xFFFFFFFu32 & (1u32 << id)) != 0)
            by (bit_vector);
        Bitmask(0xFFFFFFF)
    }

    /// Whether object `id` is marked.
    pub fn is_set(&self, id: u16) -> (r: bool)
        requires
            id < 32,
        ensures
            r == bit_set(self.0, id as u32),
    {
        self.0 & (1u32 << (id as u32)) != 0
    }

    /// Marks object `id`, leaving the other bits unchanged.
    pub fn set(&mut self, id: u16)
        requires
            id < 32,
        ensures
            final(self).0 == old(self).0 | (1u32 << id as u32),
            bit_set(final(self).0, id as u32),
            forall|o: u32| o < 32 && o != id ==> bit_set(final(self).0, o) == bit_set(old(self).0, o),
    {
        let ghost m = self.0;
        self.0 = self.0 | (1u32 << (id as u32));
        let ghost i = id as u32;
        assert(bit_set(m | (1u32 << i), i)) by (bit_vector)
            requires
                i < 32,
        ;
        assert(forall|o: u32| o < 32 && o != i ==> #[trigger] bit_set(m | (1u32 << i), o) == bit_set(m, o))
            by (bit_vector)
            requires
                i < 32,
        ;
    }

    /// Unmarks object `id`, leaving the other bits unchanged.
    pub fn clear(&mut self, id: u16)
        requires
            id < 32,
        ensures
            final(self).0 == old(self).0 & !(1u32 << id as u32),
            !bit_set(final(self).0, id as u32),
            forall|o: u32| o < 32 && o != id ==> bit_set(final(self).0, o) == bit_set(old(self).0, o),
    {
        let ghost m = self.0;
        self.0 = self.0 & !(1u32 << (id as u32));
        let ghost i = id as u32;
        assert(!bit_set(m & !(1u32 << i), i)) by (bit_vector)
            requires
                i < 32,
        ;
        assert(forall|o: u32| o < 32 && o != i ==> #[trigger] bit_set(m & !(1u32 << i), o) == bit_set(m, o))
            by (bit_vector)
            requires
                i < 32,
        ;
    }
}


/// Screen size in pixels.
pub const SCREEN_WIDTH: usize = 320;
pub const SCREEN_HEIGHT: usize = 224;

/// Capacity of each of the stage's entity lists.
pub const ENTITY_SLOTS: usize = 16;

/// Player sprite positions that trigger a scroll.
pub const SCROLL_RIGHT_X: i16 = 308;
pub const SCROLL_DOWN_Y: i16 = 252;
pub const SCROLL_LEFT_X: i16 = 268;
pub const SCROLL_UP_Y: i16 = 228;

/// The doors held by a fixed-capacity vector, in order.
pub uninterp spec fn door_list(v: heapless::Vec<Door, 16>) -> Seq<Door>;

/// `heapless::Vec::new`: an empty vector.
#[verifier::external_body]
fn doors_new() -> (r: heapless::Vec<Door, 16>)
    ensures
        door_list(r) == Seq::<Door>::empty(),
{
    heapless::Vec::new()
}

/// Length of the vector; never above the capacity.
#[verifier::external_body]
fn doors_len(v: &heapless::Vec<Door, 16>) -> (r: usize)
    ensures
        r == door_list(*v).len(),
        r <= ENTITY_SLOTS,
{
    v.len()
}

/// Element `i`, read through the slice the vector dereferences to.
#[verifier::external_body]
fn doors_get(v: &heapless::Vec<Door, 16>, i: usize) -> (r: &Door)
    requires
        i < door_list(*v).len(),
    ensures
        *r == door_list(*v)[i as int],
{
    &v[i]
}

/// `heapless::Vec::push`: appends when below capacity, else hands the element back.
#[verifier::external_body]
fn doors_push(v: &mut heapless::Vec<Door, 16>, e: Door) -> (r: Result<(), Door>)
    ensures
        r == (if door_list(*old(v)).len() < ENTITY_SLOTS { Ok::<(), Door>(()) } else { Err(e) }),
        door_list(*final(v)) == (if door_list(*old(v)).len() < ENTITY_SLOTS {
            door_list(*old(v)).push(e)
        } else {
            door_list(*old(v))
        }),
{
    v.push(e)
}

/// Element `i` for writing, through the slice the vector dereferences to:
/// what is written there becomes element `i`, the others stay.
#[verifier::external_body]
fn doors_get_mut(v: &mut heapless::Vec<Door, 16>, i: usize) -> (r: &mut Door)
    requires
        i < door_list(*old(v)).len(),
    ensures
        *r == door_list(*old(v))[i as int],
        door_list(*final(v)) == door_list(*old(v)).update(i as int, *final(r)),
{
    &mut v[i]
}

/// `heapless::Vec::remove`: takes out element `i`, shifting the later ones down.
#[verifier::external_body]
fn doors_remove(v: &mut heapless::Vec<Door, 16>, i: usize) -> (r: Door)
    requires
        i < door_list(*old(v)).len(),
    ensures
        r == door_list(*old(v))[i as int],
        door_list(*final(v)) == door_list(*old(v)).remove(i as int),
{
    v.remove(i)
}

/// The switches held by a fixed-capacity vector, in order.
pub uninterp spec fn switch_list(v: heapless::Vec<Switch, 16>) -> Seq<Switch>;

/// `heapless::Vec::new`: an empty vector.
#[verifier::external_body]
fn switches_new() -> (r: heapless::Vec<Switch, 16>)
    ensures
        switch_list(r) == Seq::<Switch>::empty(),
{
    heapless::Vec::new()
}

/// Length of the vector; never above the capacity.
#[verifier::external_body]
fn switches_len(v: &heapless::Vec<Switch, 16>) -> (r: usize)
    ensures
        r == switch_list(*v).len(),
        r <= ENTITY_SLOTS,
{
    v.len()
}

/// Element `i` for writing, through the slice the vector dereferences to:
/// what is written there becomes element `i`, the others stay.
#[verifier::external_body]
fn switches_get_mut(v: &mut heapless::Vec<Switch, 16>, i: usize) -> (r: &mut Switch)
    requires
        i < switch_list(*old(v)).len(),
    ensures
        *r == switch_list(*old(v))[i as int],
        switch_list(*final(v)) == switch_list(*old(v)).update(i as int, *final(r)),
{
    &mut v[i]
}

/// Element `i`, read through the slice the vector dereferences to.
#[verifier::external_body]
fn switches_get(v: &heapless::Vec<Switch, 16>, i: usize) -> (r: &Switch)
    requires
        i < switch_list(*v).len(),
    ensures
        *r == switch_list(*v)[i as int],
{
    &v[i]
}

/// `heapless::Vec::push`: appends when below capacity, else hands the element back.
#[verifier::external_body]
fn switches_push(v: &mut heapless::Vec<Switch, 16>, e: Switch) -> (r: Result<(), Switch>)
    ensures
        r == (if switch_list(*old(v)).len() < ENTITY_SLOTS { Ok::<(), Switch>(()) } else { Err(e) }),
        switch_list(*final(v)) == (if switch_list(*old(v)).len() < ENTITY_SLOTS {
            switch_list(*old(v)).push(e)
        } else {
            switch_list(*old(v))
        }),
{
    v.push(e)
}

/// `heapless::Vec::remove`: takes out element `i`, shifting the later ones down.
#[verifier::external_body]
fn switches_remove(v: &mut heapless::Vec<Switch, 16>, i: usize) -> (r: Switch)
    requires
        i < switch_list(*old(v)).len(),
    ensures
        r == switch_list(*old(v))[i as int],
        switch_list(*final(v)) == switch_list(*old(v)).remove(i as int),
{
    v.remove(i)
}

/// The enemies held by a fixed-capacity vector, in order.
pub uninterp spec fn enemy_list(v: heapless::Vec<Enemy, 16>) -> Seq<Enemy>;

/// `heapless::Vec::new`: an empty vector.
#[verifier::external_body]
pub(crate) fn enemies_new() -> (r: heapless::Vec<Enemy, 16>)
    ensures
        enemy_list(r) == Seq::<Enemy>::empty(),
{
    heapless::Vec::new()
}

/// Length of the vector; never above the capacity.
#[verifier::external_body]
pub(crate) fn enemies_len(v: &heapless::Vec<Enemy, 16>) -> (r: usize)
    ensures
        r == enemy_list(*v).len(),
        r <= ENTITY_SLOTS,
{
    v.len()
}

/// Element `i` for writing, through the slice the vector dereferences to:
/// what is written there becomes element `i`, the others stay.
#[verifier::external_body]
fn enemies_get_mut(v: &mut heapless::Vec<Enemy, 16>, i: usize) -> (r: &mut Enemy)
    requires
        i < enemy_list(*old(v)).len(),
    ensures
        *r == enemy_list(*old(v))[i as int],
        enemy_list(*final(v)) == enemy_list(*old(v)).update(i as int, *final(r)),
{
    &mut v[i]
}

/// Element `i`, read through the slice the vector dereferences to.
#[verifier::external_body]
pub(crate) fn enemies_get(v: &heapless::Vec<Enemy, 16>, i: usize) -> (r: &Enemy)
    requires
        i < enemy_list(*v).len(),
    ensures
        *r == enemy_list(*v)[i as int],
{
    &v[i]
}

/// `heapless::Vec::push`: appends when below capacity, else hands the element back.
#[verifier::external_body]
pub(crate) fn enemies_push(v: &mut heapless::Vec<Enemy, 16>, e: Enemy) -> (r: Result<(), Enemy>)
    ensures
        r == (if enemy_list(*old(v)).len() < ENTITY_SLOTS { Ok::<(), Enemy>(()) } else { Err(e) }),
        enemy_list(*final(v)) == (if enemy_list(*old(v)).len() < ENTITY_SLOTS {
            enemy_list(*old(v)).push(e)
        } else {
            enemy_list(*old(v))
        }),
{
    v.push(e)
}

/// `heapless::Vec::remove`: takes out element `i`, shifting the later ones down.
#[verifier::external_body]
pub(crate) fn enemies_remove(v: &mut heapless::Vec<Enemy, 16>, i: usize) -> (r: Enemy)
    requires
        i < enemy_list(*old(v)).len(),
    ensures
        r == enemy_list(*old(v))[i as int],
        enemy_list(*final(v)) == enemy_list(*old(v)).remove(i as int),
{
    v.remove(i)
}

/// The projectiles held by a fixed-capacity vector, in order.
pub uninterp spec fn projectile_list(v: heapless::Vec<Projectile, 16>) -> Seq<Projectile>;

/// `heapless::Vec::new`: an empty vector.
#[verifier::external_body]
fn projectiles_new() -> (r: heapless::Vec<Projectile, 16>)
    ensures
        projectile_list(r) == Seq::<Projectile>::empty(),
{
    heapless::Vec::new()
}

/// Length of the vector; never above the capacity.
#[verifier::external_body]
pub(crate) fn projectiles_len(v: &heapless::Vec<Projectile, 16>) -> (r: usize)
    ensures
        r == projectile_list(*v).len(),
        r <= ENTITY_SLOTS,
{
    v.len()
}

/// Element `i`, read through the slice the vector dereferences to.
#[verifier::external_body]
pub(crate) fn projectiles_get(v: &heapless::Vec<Projectile, 16>, i: usize) -> (r: &Projectile)
    requires
        i < projectile_list(*v).len(),
    ensures
        *r == projectile_list(*v)[i as int],
{
    &v[i]
}

/// Element `i` for writing, through the slice the vector dereferences to:
/// what is written there becomes element `i`, the others stay.
#[verifier::external_body]
fn projectiles_get_mut(v: &mut heapless::Vec<Projectile, 16>, i: usize) -> (r: &mut Projectile)
    requires
        i < projectile_list(*old(v)).len(),
    ensures
        *r == projectile_list(*old(v))[i as int],
        projectile_list(*final(v)) == projectile_list(*old(v)).update(i as int, *final(r)),
{
    &mut v[i]
}

/// `heapless::Vec::push`: appends when below capacity, else hands the element back.
#[verifier::external_body]
fn projectiles_push(v: &mut heapless::Vec<Projectile, 16>, e: Projectile) -> (r: Result<(), Projectile>)
    ensures
        r == (if projectile_list(*old(v)).len() < ENTITY_SLOTS { Ok::<(), Projectile>(()) } else { Err(e) }),
        projectile_list(*final(v)) == (if projectile_list(*old(v)).len() < ENTITY_SLOTS {
            projectile_list(*old(v)).push(e)
        } else {
            projectile_list(*old(v))
        }),
{
    v.push(e)
}

/// `heapless::Vec::remove`: takes out element `i`, shifting the later ones down.
#[verifier::external_body]
fn projectiles_remove(v: &mut heapless::Vec<Projectile, 16>, i: usize) -> (r: Projectile)
    requires
        i < projectile_list(*old(v)).len(),
    ensures
        r == projectile_list(*old(v))[i as int],
        projectile_list(*final(v)) == projectile_list(*old(v)).remove(i as int),
{
    v.remove(i)
}

/// Whether a position (in sprite coordinates, the screen starting at 128)
/// is more than 50 pixels outside the screen.
pub open spec fn spec_off_screen(x: int, y: int) -> bool {
    x + 50 < 128 || x - 50 > 320 + 128 || y + 50 < 128 || y - 50 > 224 + 128
}

/// Whether a position is more than 50 pixels outside the screen.
pub fn is_off_screen(x: i16, y: i16) -> (r: bool)
    requires
        i16::MIN + 50 <= x <= i16::MAX - 50,
        i16::MIN + 50 <= y <= i16::MAX - 50,
    ensures
        r == spec_off_screen(x as int, y as int),
{
    let leeway: i16 = 50;
    x + leeway < 128 || x - leeway > 320 + 128 || y + leeway < 128 || y - leeway > 224 + 128
}

/// The scroll along one axis that brings a center coordinate `c` back into
/// the band `[lo, hi]`.
pub open spec fn spec_scroll_axis(c: int, lo: int, hi: int) -> int {
    if c > hi { hi - c } else if c < lo { lo - c } else { 0 }
}

/// The scroll (dx, dy) that keeps the player's center in the middle band of
/// the screen.
pub fn get_scroll(player: &Player) -> (r: (i16, i16))
    requires
        fits_i16(player.x + 20),
        fits_i16(player.y + 24),
        fits_i16(SCROLL_LEFT_X - (player.x + 20)),
        fits_i16(SCROLL_UP_Y - (player.y + 24)),
    ensures
        r.0 == spec_scroll_axis(player.x + 20, SCROLL_LEFT_X as int, SCROLL_RIGHT_X as int),
        r.1 == spec_scroll_axis(player.y + 24, SCROLL_UP_Y as int, SCROLL_DOWN_Y as int),
{
    let center = player.hitbox().center();
    let mut dx: i16 = 0;
    let mut dy: i16 = 0;
    if center.0 > SCROLL_RIGHT_X {
        dx = SCROLL_RIGHT_X - center.0;
    } else if center.0 < SCROLL_LEFT_X {
        dx = SCROLL_LEFT_X - center.0;
    }
    if center.1 > SCROLL_DOWN_Y {
        dy = SCROLL_DOWN_Y - center.1;
    } else if center.1 < SCROLL_UP_Y {
        dy = SCROLL_UP_Y - center.1;
    }
    (dx, dy)
}

/// A scroll limited so that the screen does not show past the map's edges:
/// `offset` is the current scroll offset and `size` the map's extent along
/// the axis in pixels, at least the screen's `screen`.
pub open spec fn spec_normalize_axis(s: int, offset: int, size: int, screen: int) -> int {
    let d = if s < offset { s } else { offset };
    let lo = offset - (size - screen);
    if d < lo { lo } else { d }
}

/// Whether every element of a door list is well formed with an id below 32.
pub open spec fn doors_ok(s: Seq<Door>) -> bool {
    forall|i: int| 0 <= i < s.len() ==> (#[trigger] s[i]).wf() && s[i].id < 32
}

pub open spec fn switches_ok(s: Seq<Switch>) -> bool {
    forall|i: int| 0 <= i < s.len() ==> (#[trigger] s[i]).wf() && s[i].id < 32
}

pub open spec fn enemies_ok(s: Seq<Enemy>) -> bool {
    forall|i: int| 0 <= i < s.len() ==> (#[trigger] s[i]).wf() && s[i].id < 32
}

pub open spec fn projectiles_ok(s: Seq<Projectile>) -> bool {
    forall|i: int| 0 <= i < s.len() ==> (#[trigger] s[i]).wf()
}

/// A door moved by (dx, dy).
pub open spec fn spec_door_moved(e: Door, dx: i16, dy: i16) -> Door {
    Door {
        x: (e.x + dx) as i16,
        y: (e.y + dy) as i16,
        sprite: e.sprite.spec_set_position((e.x + dx) as i16, (e.y + dy) as i16),
        ..e
    }
}

/// The doors that stay after moving them all by (dx, dy) and dropping
/// those that left the screen, in order.
pub open spec fn spec_doors_scrolled(es: Seq<Door>, dx: i16, dy: i16) -> Seq<Door>
    decreases es.len(),
{
    if es.len() == 0 {
        es
    } else {
        let r = spec_doors_scrolled(es.drop_last(), dx, dy);
        let e = spec_door_moved(es.last(), dx, dy);
        if spec_off_screen(e.x as int, e.y as int) { r } else { r.push(e) }
    }
}

/// The loaded-doors mask after scrolling: the ids of those that left the
/// screen are cleared.
pub open spec fn spec_doors_unloaded(m: u32, es: Seq<Door>, dx: i16, dy: i16) -> u32
    decreases es.len(),
{
    if es.len() == 0 {
        m
    } else {
        let r = spec_doors_unloaded(m, es.drop_last(), dx, dy);
        let e = spec_door_moved(es.last(), dx, dy);
        if spec_off_screen(e.x as int, e.y as int) { r & !(1u32 << (e.id as u32)) } else { r }
    }
}

proof fn lemma_doors_scrolled_len(es: Seq<Door>, dx: i16, dy: i16)
    ensures
        spec_doors_scrolled(es, dx, dy).len() <= es.len(),
    decreases es.len(),
{
    if es.len() > 0 {
        lemma_doors_scrolled_len(es.drop_last(), dx, dy);
    }
}

proof fn lemma_doors_scrolled_ok(es: Seq<Door>, dx: i16, dy: i16)
    requires
        forall|i: int| 0 <= i < es.len() ==> (#[trigger] es[i]).wf() && es[i].id < 32,
        -16334 <= dx <= 16334,
        -16334 <= dy <= 16334,
    ensures
        forall|i: int| 0 <= i < spec_doors_scrolled(es, dx, dy).len() ==> {
            let e = #[trigger] spec_doors_scrolled(es, dx, dy)[i];
            e.wf() && e.id < 32
        },
    decreases es.len(),
{
    if es.len() > 0 {
        lemma_doors_scrolled_ok(es.drop_last(), dx, dy);
        let r = spec_doors_scrolled(es.drop_last(), dx, dy);
        let e = spec_door_moved(es.last(), dx, dy);
        assert(es.last() == es[es.len() - 1]);
        if !spec_off_screen(e.x as int, e.y as int) {
            assert(e.wf());
            assert(r.push(e)[r.len() as int] == e);
        }
    }
}

/// A switch moved by (dx, dy).
pub open spec fn spec_switch_moved(e: Switch, dx: i16, dy: i16) -> Switch {
    Switch {
        x: (e.x + dx) as i16,
        y: (e.y + dy) as i16,
        sprite: e.sprite.spec_set_position((e.x + dx) as i16, (e.y + dy) as i16),
        ..e
    }
}

/// The switches that stay after moving them all by (dx, dy) and dropping
/// those that left the screen, in order.
pub open spec fn spec_switches_scrolled(es: Seq<Switch>, dx: i16, dy: i16) -> Seq<Switch>
    decreases es.len(),
{
    if es.len() == 0 {
        es
    } else {
        let r = spec_switches_scrolled(es.drop_last(), dx, dy);
        let e = spec_switch_moved(es.last(), dx, dy);
        if spec_off_screen(e.x as int, e.y as int) { r } else { r.push(e) }
    }
}

/// The loaded-switches mask after scrolling: the ids of those that left the
/// screen are cleared.
pub open spec fn spec_switches_unloaded(m: u32, es: Seq<Switch>, dx: i16, dy: i16) -> u32
    decreases es.len(),
{
    if es.len() == 0 {
        m
    } else {
        let r = spec_switches_unloaded(m, es.drop_last(), dx, dy);
        let e = spec_switch_moved(es.last(), dx, dy);
        if spec_off_screen(e.x as int, e.y as int) { r & !(1u32 << (e.id as u32)) } else { r }
    }
}

proof fn lemma_switches_scrolled_len(es: Seq<Switch>, dx: i16, dy: i16)
    ensures
        spec_switches_scrolled(es, dx, dy).len() <= es.len(),
    decreases es.len(),
{
    if es.len() > 0 {
        lemma_switches_scrolled_len(es.drop_last(), dx, dy);
    }
}

proof fn lemma_switches_scrolled_ok(es: Seq<Switch>, dx: i16, dy: i16)
    requires
        forall|i: int| 0 <= i < es.len() ==> (#[trigger] es[i]).wf() && es[i].id < 32,
        -16334 <= dx <= 16334,
        -16334 <= dy <= 16334,
    ensures
        forall|i: int| 0 <= i < spec_switches_scrolled(es, dx, dy).len() ==> {
            let e = #[trigger] spec_switches_scrolled(es, dx, dy)[i];
            e.wf() && e.id < 32
        },
    decreases es.len(),
{
    if es.len() > 0 {
        lemma_switches_scrolled_ok(es.drop_last(), dx, dy);
        let r = spec_switches_scrolled(es.drop_last(), dx, dy);
        let e = spec_switch_moved(es.last(), dx, dy);
        assert(es.last() == es[es.len() - 1]);
        if !spec_off_screen(e.x as int, e.y as int) {
            assert(e.wf());
            assert(r.push(e)[r.len() as int] == e);
        }
    }
}

/// A enemy moved by (dx, dy).
pub open spec fn spec_enemy_moved(e: Enemy, dx: i16, dy: i16) -> Enemy {
    Enemy {
        x: (e.x + dx) as i16,
        y: (e.y + dy) as i16,
        sprite: e.sprite.spec_set_position((e.x + dx) as i16, (e.y + dy) as i16),
        ..e
    }
}

/// The enemies that stay after moving them all by (dx, dy) and dropping
/// those that left the screen, in order.
pub open spec fn spec_enemies_scrolled(es: Seq<Enemy>, dx: i16, dy: i16) -> Seq<Enemy>
    decreases es.len(),
{
    if es.len() == 0 {
        es
    } else {
        let r = spec_enemies_scrolled(es.drop_last(), dx, dy);
        let e = spec_enemy_moved(es.last(), dx, dy);
        if spec_off_screen(e.x as int, e.y as int) { r } else { r.push(e) }
    }
}

/// The loaded-enemies mask after scrolling: the ids of those that left the
/// screen are cleared.
pub open spec fn spec_enemies_unloaded(m: u32, es: Seq<Enemy>, dx: i16, dy: i16) -> u32
    decreases es.len(),
{
    if es.len() == 0 {
        m
    } else {
        let r = spec_enemies_unloaded(m, es.drop_last(), dx, dy);
        let e = spec_enemy_moved(es.last(), dx, dy);
        if spec_off_screen(e.x as int, e.y as int) { r & !(1u32 << (e.id as u32)) } else { r }
    }
}

proof fn lemma_enemies_scrolled_len(es: Seq<Enemy>, dx: i16, dy: i16)
    ensures
        spec_enemies_scrolled(es, dx, dy).len() <= es.len(),
    decreases es.len(),
{
    if es.len() > 0 {
        lemma_enemies_scrolled_len(es.drop_last(), dx, dy);
    }
}

proof fn lemma_enemies_scrolled_ok(es: Seq<Enemy>, dx: i16, dy: i16)
    requires
        forall|i: int| 0 <= i < es.len() ==> (#[trigger] es[i]).wf() && es[i].id < 32,
        -16334 <= dx <= 16334,
        -16334 <= dy <= 16334,
    ensures
        forall|i: int| 0 <= i < spec_enemies_scrolled(es, dx, dy).len() ==> {
            let e = #[trigger] spec_enemies_scrolled(es, dx, dy)[i];
            e.wf() && e.id < 32
        },
    decreases es.len(),
{
    if es.len() > 0 {
        lemma_enemies_scrolled_ok(es.drop_last(), dx, dy);
        let r = spec_enemies_scrolled(es.drop_last(), dx, dy);
        let e = spec_enemy_moved(es.last(), dx, dy);
        assert(es.last() == es[es.len() - 1]);
        if !spec_off_screen(e.x as int, e.y as int) {
            assert(e.wf());
            assert(r.push(e)[r.len() as int] == e);
        }
    }
}

/// A projectile moved along with a scroll of (dx, dy).
pub open spec fn spec_projectile_scrolled(p: Projectile, dx: i16, dy: i16) -> Projectile {
    Projectile {
        x: (p.x + dx) as i16,
        y: (p.y + dy) as i16,
        sprite: p.sprite.spec_set_position((p.x + dx) as i16, (p.y + dy) as i16),
        trajectory: Trajectory {
            start_x: (p.trajectory.start_x + dx) as i16,
            start_y: (p.trajectory.start_y + dy) as i16,
            ..p.trajectory
        },
        ..p
    }
}

/// The projectiles that stay after a scroll of (dx, dy), in order.
pub open spec fn spec_projectiles_scrolled(ps: Seq<Projectile>, dx: i16, dy: i16) -> Seq<Projectile>
    decreases ps.len(),
{
    if ps.len() == 0 {
        ps
    } else {
        let r = spec_projectiles_scrolled(ps.drop_last(), dx, dy);
        let p = spec_projectile_scrolled(ps.last(), dx, dy);
        if spec_off_screen(p.x as int, p.y as int) { r } else { r.push(p) }
    }
}

proof fn lemma_projectiles_scrolled(ps: Seq<Projectile>, dx: i16, dy: i16)
    requires
        projectiles_ok(ps),
    ensures
        spec_projectiles_scrolled(ps, dx, dy).len() <= ps.len(),
        projectiles_ok(spec_projectiles_scrolled(ps, dx, dy)),
    decreases ps.len(),
{
    if ps.len() > 0 {
        lemma_projectiles_scrolled(ps.drop_last(), dx, dy);
        let r = spec_projectiles_scrolled(ps.drop_last(), dx, dy);
        let p = spec_projectile_scrolled(ps.last(), dx, dy);
        assert(ps.last() == ps[ps.len() - 1]);
        if !spec_off_screen(p.x as int, p.y as int) {
            assert(r.push(p)[r.len() as int] == p);
        }
    }
}

/// Whether a projectile can be moved by a scroll of (dx, dy) without
/// leaving the coordinate range.
pub open spec fn projectile_scroll_ok(p: Projectile, dx: i16, dy: i16) -> bool {
    &&& i16::MIN + 50 <= p.x + dx <= i16::MAX - 50
    &&& i16::MIN + 50 <= p.y + dy <= i16::MAX - 50
    &&& fits_i16(p.trajectory.start_x + dx)
    &&& fits_i16(p.trajectory.start_y + dy)
}

/// Rust's remainder (sign of the dividend) of `a` by `b`.
pub open spec fn rem_trunc(a: int, b: int) -> int {
    if a >= 0 { a % b } else { -((-a) % b) }
}

pub(crate) fn rem_i16(a: i16, b: i16) -> (r: i16)
    requires
        b > 0,
        a > i16::MIN,
    ensures
        r == rem_trunc(a as int, b as int),
{
    if a >= 0 {
        a % b
    } else {
        -((-a) % b)
    }
}

/// Whether the stage places door `id` with a keyhole (its first placement
/// with that id; no placement means no keyhole).
pub open spec fn spec_keyhole(ps: Seq<DoorProperties>, id: u16) -> bool
    decreases ps.len(),
{
    if ps.len() == 0 {
        false
    } else if ps[0].id == id {
        ps[0].locked
    } else {
        spec_keyhole(ps.drop_first(), id)
    }
}

/// Whether a key opens door `d` from the interaction box `h`: the door is
/// locked, has a keyhole, and is within reach.
pub open spec fn spec_unlockable(d: Door, ps: Seq<DoorProperties>, h: Hitbox) -> bool {
    d.locked && spec_keyhole(ps, d.id) && spec_overlaps(h, d.spec_hitbox())
}

/// The position of the first door a key opens, -1 when there is none.
pub open spec fn spec_unlock_index(ds: Seq<Door>, ps: Seq<DoorProperties>, h: Hitbox) -> int
    decreases ds.len(),
{
    if ds.len() == 0 {
        -1
    } else if spec_unlockable(ds[0], ps, h) {
        0
    } else {
        let r = spec_unlock_index(ds.drop_first(), ps, h);
        if r < 0 { -1 } else { r + 1 }
    }
}

proof fn lemma_unlock_index(ds: Seq<Door>, ps: Seq<DoorProperties>, h: Hitbox)
    ensures
        -1 <= spec_unlock_index(ds, ps, h) < ds.len(),
        spec_unlock_index(ds, ps, h) >= 0 ==> spec_unlockable(ds[spec_unlock_index(ds, ps, h)], ps, h),
        forall|j: int| 0 <= j < ds.len() && (spec_unlock_index(ds, ps, h) < 0 || j < spec_unlock_index(ds, ps, h))
            ==> !spec_unlockable(#[trigger] ds[j], ps, h),
    decreases ds.len(),
{
    if ds.len() > 0 && !spec_unlockable(ds[0], ps, h) {
        lemma_unlock_index(ds.drop_first(), ps, h);
        assert forall|j: int| 0 <= j < ds.len() && (spec_unlock_index(ds, ps, h) < 0 || j < spec_unlock_index(ds, ps, h))
            implies !spec_unlockable(#[trigger] ds[j], ps, h) by {
            if j > 0 {
                assert(ds[j] == ds.drop_first()[j - 1]);
            }
        }
    }
}

/// The enemies that stay after dropping those whose death sequence ended.
pub open spec fn spec_enemies_culled(es: Seq<Enemy>) -> Seq<Enemy>
    decreases es.len(),
{
    if es.len() == 0 {
        es
    } else {
        let r = spec_enemies_culled(es.drop_last());
        if es.last().spec_should_unload() { r } else { r.push(es.last()) }
    }
}

/// The loaded-enemies mask after culling: the dropped enemies' ids are cleared.
pub open spec fn spec_enemies_cull_mask(m: u32, es: Seq<Enemy>) -> u32
    decreases es.len(),
{
    if es.len() == 0 {
        m
    } else {
        let r = spec_enemies_cull_mask(m, es.drop_last());
        if es.last().spec_should_unload() { r & !(1u32 << (es.last().id as u32)) } else { r }
    }
}

proof fn lemma_enemies_culled(es: Seq<Enemy>)
    requires
        enemies_ok(es),
    ensures
        spec_enemies_culled(es).len() <= es.len(),
        enemies_ok(spec_enemies_culled(es)),
    decreases es.len(),
{
    if es.len() > 0 {
        lemma_enemies_culled(es.drop_last());
        let r = spec_enemies_culled(es.drop_last());
        assert(es.last() == es[es.len() - 1]);
        if !es.last().spec_should_unload() {
            assert(r.push(es.last())[r.len() as int] == es.last());
        }
    }
}

/// The projectiles that stay after dropping the finished ones.
pub open spec fn spec_projectiles_culled(ps: Seq<Projectile>) -> Seq<Projectile>
    decreases ps.len(),
{
    if ps.len() == 0 {
        ps
    } else {
        let r = spec_projectiles_culled(ps.drop_last());
        if ps.last().status == crate::projectile::Status::Dead { r } else { r.push(ps.last()) }
    }
}

proof fn lemma_projectiles_culled(ps: Seq<Projectile>)
    requires
        projectiles_ok(ps),
    ensures
        spec_projectiles_culled(ps).len() <= ps.len(),
        projectiles_ok(spec_projectiles_culled(ps)),
    decreases ps.len(),
{
    if ps.len() > 0 {
        lemma_projectiles_culled(ps.drop_last());
        let r = spec_projectiles_culled(ps.drop_last());
        assert(ps.last() == ps[ps.len() - 1]);
        if ps.last().status != crate::projectile::Status::Dead {
            assert(r.push(ps.last())[r.len() as int] == ps.last());
        }
    }
}

/// The projectiles but the player's, in order.
pub open spec fn spec_enemy_shots(ps: Seq<Projectile>) -> Seq<Projectile>
    decreases ps.len(),
{
    if ps.len() == 0 {
        ps
    } else {
        let r = spec_enemy_shots(ps.drop_last());
        if ps.last().is_player { r } else { r.push(ps.last()) }
    }
}

proof fn lemma_enemy_shots(ps: Seq<Projectile>)
    requires
        projectiles_ok(ps),
    ensures
        spec_enemy_shots(ps).len() <= ps.len(),
        projectiles_ok(spec_enemy_shots(ps)),
    decreases ps.len(),
{
    if ps.len() > 0 {
        lemma_enemy_shots(ps.drop_last());
        let r = spec_enemy_shots(ps.drop_last());
        assert(ps.last() == ps[ps.len() - 1]);
        if !ps.last().is_player {
            assert(r.push(ps.last())[r.len() as int] == ps.last());
        }
    }
}

/// Whether the stage places door `id` with a keyhole (see `spec_keyhole`).
fn keyhole(placements: &Vec<DoorProperties>, id: u16) -> (r: bool)
    ensures
        r == spec_keyhole(placements@, id),
{
    let mut j: usize = 0;
    assert(placements@.skip(0) =~= placements@);
    while j < placements.len()
        invariant
            j <= placements@.len(),
            spec_keyhole(placements@, id) == spec_keyhole(placements@.skip(j as int), id),
        decreases placements@.len() - j,
    {
        assert(placements@.skip(j as int)[0] == placements@[j as int]);
        assert(placements@.skip(j as int).drop_first() =~= placements@.skip(j + 1));
        if placements[j].id == id {
            return placements[j].locked;
        }
        j = j + 1;
    }
    false
}

/// The id of door `i`.
fn ds_id(v: &heapless::Vec<Door, 16>, i: usize) -> (r: u16)
    requires
        i < door_list(*v).len(),
    ensures
        r == door_list(*v)[i as int].id,
{
    doors_get(v, i).id
}

/// The flags a stage pays out: those of the first enemy placement that
/// gives any (only one flag-carrying miniboss is on a stage at a time).
pub open spec fn spec_flag_count(flags: Seq<Option<u16>>) -> u16
    decreases flags.len(),
{
    if flags.len() == 0 {
        0
    } else {
        match flags[0] {
            Some(f) => if f > 0 { f } else { spec_flag_count(flags.drop_first()) },
            None => spec_flag_count(flags.drop_first()),
        }
    }
}

/// The flags a stage pays out, from the `flags` of its enemy placements in order.
pub fn flag_count(flags: &Vec<Option<u16>>) -> (r: u16)
    ensures
        r == spec_flag_count(flags@),
{
    let mut j: usize = 0;
    assert(flags@.skip(0) =~= flags@);
    while j < flags.len()
        invariant
            j <= flags@.len(),
            spec_flag_count(flags@) == spec_flag_count(flags@.skip(j as int)),
        decreases flags@.len() - j,
    {
        assert(flags@.skip(j as int)[0] == flags@[j as int]);
        assert(flags@.skip(j as int).drop_first() =~= flags@.skip(j + 1));
        if let Some(f) = flags[j] {
            if f > 0 {
                return f;
            }
        }
        j = j + 1;
    }
    0
}

/// The flags earned for the solved stages; `stage_flags[i]` lists the flags
/// of the enemy placements of the stage with index `i` (forest, volcano,
/// spaceship, arctic, boss stage).
pub open spec fn spec_flags_for_maps(solved: Seq<bool>, stage_flags: Seq<Seq<Option<u16>>>) -> int
    decreases solved.len(),
{
    if solved.len() == 0 {
        0
    } else {
        spec_flags_for_maps(solved.drop_last(), stage_flags)
            + (if solved.last() { spec_flag_count(stage_flags[solved.len() - 1]) as int } else { 0 })
    }
}

/// The scroll split into steps of at most one tile (8 pixels) per axis.
pub open spec fn spec_scroll_steps(rx: int, ry: int) -> Seq<(i16, i16)>
    decreases (if rx < 0 { -rx } else { rx }) + (if ry < 0 { -ry } else { ry }),
{
    if rx == 0 && ry == 0 {
        Seq::empty()
    } else {
        let sx = if rx < -8 { -8 } else if rx > 8 { 8 } else { rx };
        let sy = if ry < -8 { -8 } else if ry > 8 { 8 } else { ry };
        seq![(sx as i16, sy as i16)] + spec_scroll_steps(rx - sx, ry - sy)
    }
}

/// The scroll split into steps of at most one tile (8 pixels) per axis,
/// each step moving both axes as far as it can.
pub fn scroll_steps(dx: i16, dy: i16) -> (r: Vec<(i16, i16)>)
    ensures
        r@ == spec_scroll_steps(dx as int, dy as int),
{
    let mut r: Vec<(i16, i16)> = Vec::new();
    let mut rem_x = dx;
    let mut rem_y = dy;
    while rem_x != 0 || rem_y != 0
        invariant
            r@ + spec_scroll_steps(rem_x as int, rem_y as int) == spec_scroll_steps(dx as int, dy as int),
        decreases (if rem_x < 0 { -rem_x } else { rem_x as int }) + (if rem_y < 0 { -rem_y } else { rem_y as int }),
    {
        let step_x: i16 = if rem_x < -8 { -8 } else if rem_x > 8 { 8 } else { rem_x };
        let step_y: i16 = if rem_y < -8 { -8 } else if rem_y > 8 { 8 } else { rem_y };
        let ghost before = r@;
        r.push((step_x, step_y));
        assert(r@ + spec_scroll_steps((rem_x - step_x) as int, (rem_y - step_y) as int)
            =~= before + spec_scroll_steps(rem_x as int, rem_y as int));
        rem_x = rem_x - step_x;
        rem_y = rem_y - step_y;
    }
    assert(r@ + spec_scroll_steps(0, 0) =~= r@);
    r
}

/// The tiles a scroll step exposes: the horizontal and vertical scroll
/// registers, the map tile columns `columns.0 .. columns.1` to load at plane
/// address `column_addr`, and the rows `rows.0 .. rows.1` at `row_addr`.
#[derive(Clone, Copy, Debug)]
pub struct TileLoads {
    pub h_scroll: i16,
    pub v_scroll: i16,
    pub columns: (i16, i16),
    pub column_addr: crate::PlaneAddress,
    pub rows: (i16, i16),
    pub row_addr: crate::PlaneAddress,
}

/// The map tiles (`start .. end`, in tiles) that scrolling by `d` pixels
/// to the offset `offset` exposes along one axis whose view spans `view`
/// tiles: the tiles entering at the far edge when moving forward, at the
/// near edge when moving back.
pub open spec fn spec_tile_span(offset: int, d: int, view: int) -> (int, int) {
    let start = div_trunc(offset, 8);
    let end = div_trunc(offset + d, 8);
    if d < 0 { (view + end + 1, view + start + 1) } else { (start, end) }
}

proof fn lemma_flags_prefix(sv: Seq<bool>, fl: Seq<Seq<Option<u16>>>, i: int)
    requires
        0 <= i <= sv.len(),
    ensures
        spec_flags_for_maps(sv.take(i), fl) <= spec_flags_for_maps(sv, fl),
    decreases sv.len() - i,
{
    if i < sv.len() {
        lemma_flags_prefix(sv, fl, i + 1);
        assert(sv.take(i + 1).drop_last() =~= sv.take(i));
    } else {
        assert(sv.take(i) =~= sv);
    }
}

/// The health of the first vulnerable boss among the enemies, if any.
pub open spec fn spec_boss_health(es: Seq<Enemy>) -> Option<u16>
    decreases es.len(),
{
    if es.len() == 0 {
        None
    } else if es[0].enemy_type == EnemyType::Boss && !es[0].invulnerable {
        Some(es[0].stats.health)
    } else {
        spec_boss_health(es.drop_first())
    }
}

/// A normalized scroll never shows past the map's edges: after scrolling by
/// it, the scroll offset stays between the map's start and its end minus
/// the screen.
pub proof fn law_normalize_keeps_view_on_map(s: int, offset: int, size: int, screen: int)
    requires
        size >= screen,
        0 <= offset <= size - screen,
    ensures
        0 <= offset - spec_normalize_axis(s, offset, size, screen) <= size - screen,
{
}

/// A switch triggers its event once: after the switches' tick no switch is
/// pending, so the next tick runs no event (until a switch is hit again).
pub proof fn law_switch_fires_once(ss: Seq<Switch>, e: SwitchEvent)
    ensures
        !spec_fires(ss.map_values(|s: Switch| spec_switch_ticked(s)), e),
{
    let t = ss.map_values(|s: Switch| spec_switch_ticked(s));
    assert forall|k: int| 0 <= k < t.len() implies !(#[trigger] t[k]).pending by {
        assert(t[k] == spec_switch_ticked(ss[k]));
    }
}

/// The steps of a scroll add up to the whole scroll, and each moves at most
/// one tile (8 pixels) along each axis.
pub proof fn law_scroll_steps_total(rx: int, ry: int)
    ensures
        ({
            let st = spec_scroll_steps(rx, ry);
            &&& forall|i: int| 0 <= i < st.len() ==> -8 <= (#[trigger] st[i]).0 <= 8 && -8 <= st[i].1 <= 8
            &&& steps_sum_x(st) == rx
            &&& steps_sum_y(st) == ry
        }),
    decreases (if rx < 0 { -rx } else { rx }) + (if ry < 0 { -ry } else { ry }),
{
    if !(rx == 0 && ry == 0) {
        let sx = if rx < -8 { -8 } else if rx > 8 { 8 } else { rx };
        let sy = if ry < -8 { -8 } else if ry > 8 { 8 } else { ry };
        law_scroll_steps_total(rx - sx, ry - sy);
        let rest = spec_scroll_steps(rx - sx, ry - sy);
        let st = spec_scroll_steps(rx, ry);
        assert(st == seq![(sx as i16, sy as i16)] + rest);
        assert(st.drop_first() =~= rest);
        lemma_steps_sum_first(st);
    }
}

/// Sum of the horizontal steps.
pub open spec fn steps_sum_x(st: Seq<(i16, i16)>) -> int
    decreases st.len(),
{
    if st.len() == 0 { 0 } else { steps_sum_x(st.drop_last()) + st.last().0 }
}

/// Sum of the vertical steps.
pub open spec fn steps_sum_y(st: Seq<(i16, i16)>) -> int
    decreases st.len(),
{
    if st.len() == 0 { 0 } else { steps_sum_y(st.drop_last()) + st.last().1 }
}

proof fn lemma_steps_sum_first(st: Seq<(i16, i16)>)
    requires
        st.len() > 0,
    ensures
        steps_sum_x(st) == st[0].0 + steps_sum_x(st.drop_first()),
        steps_sum_y(st) == st[0].1 + steps_sum_y(st.drop_first()),
    decreases st.len(),
{
    if st.len() > 1 {
        lemma_steps_sum_first(st.drop_last());
        assert(st.drop_last().drop_first() =~= st.drop_first().drop_last());
        assert(st.drop_first().last() == st.last());
        assert(st.drop_last()[0] == st[0]);
        assert(steps_sum_x(st.drop_first()) == steps_sum_x(st.drop_first().drop_last()) + st.drop_first().last().0);
        assert(steps_sum_y(st.drop_first()) == steps_sum_y(st.drop_first().drop_last()) + st.drop_first().last().1);
    } else {
        assert(st.drop_first() =~= Seq::<(i16, i16)>::empty());
        assert(st.drop_last() =~= Seq::<(i16, i16)>::empty());
        assert(st.last() == st[0]);
    }
}

/// Solving more stages never lowers the flags earned.
pub proof fn law_flags_monotone(a: Seq<bool>, b: Seq<bool>, stage_flags: Seq<Seq<Option<u16>>>)
    requires
        a.len() == b.len(),
        forall|i: int| 0 <= i < a.len() && #[trigger] a[i] ==> b[i],
    ensures
        spec_flags_for_maps(a, stage_flags) <= spec_flags_for_maps(b, stage_flags),
    decreases a.len(),
{
    if a.len() > 0 {
        assert forall|i: int| 0 <= i < a.drop_last().len() && #[trigger] a.drop_last()[i] implies b.drop_last()[i] by {
            assert(a.drop_last()[i] == a[i]);
        }
        law_flags_monotone(a.drop_last(), b.drop_last(), stage_flags);
        assert(a.last() == a[a.len() - 1]);
    }
}

/// After a scroll every door left is on screen, and every door that left
/// the screen is marked as not loaded.
pub proof fn law_scrolled_doors_on_screen(ds: Seq<Door>, m: u32, dx: i16, dy: i16)
    requires
        forall|i: int| 0 <= i < ds.len() ==> (#[trigger] ds[i]).id < 32,
    ensures
        forall|i: int| 0 <= i < spec_doors_scrolled(ds, dx, dy).len() ==> {
            let d = #[trigger] spec_doors_scrolled(ds, dx, dy)[i];
            !spec_off_screen(d.x as int, d.y as int)
        },
        forall|i: int| 0 <= i < ds.len() && spec_off_screen(spec_door_moved(ds[i], dx, dy).x as int, spec_door_moved(ds[i], dx, dy).y as int)
            ==> !bit_set(spec_doors_unloaded(m, ds, dx, dy), #[trigger] ds[i].id as u32),
    decreases ds.len(),
{
    if ds.len() > 0 {
        let p = ds.drop_last();
        law_scrolled_doors_on_screen(p, m, dx, dy);
        let r = spec_doors_scrolled(p, dx, dy);
        let e = spec_door_moved(ds.last(), dx, dy);
        assert(ds.last() == ds[ds.len() - 1]);
        if !spec_off_screen(e.x as int, e.y as int) {
            assert forall|i: int| 0 <= i < r.push(e).len() implies !spec_off_screen((#[trigger] r.push(e)[i]).x as int, r.push(e)[i].y as int) by {
                if i < r.len() {
                    assert(r.push(e)[i] == r[i]);
                }
            }
        }
        let mm = spec_doors_unloaded(m, p, dx, dy);
        assert forall|i: int| 0 <= i < ds.len() && spec_off_screen(spec_door_moved(ds[i], dx, dy).x as int, spec_door_moved(ds[i], dx, dy).y as int)
            implies !bit_set(spec_doors_unloaded(m, ds, dx, dy), #[trigger] ds[i].id as u32) by {
            let id = ds[i].id as u32;
            let last = ds.last().id as u32;
            if i < ds.len() - 1 {
                assert(p[i] == ds[i]);
                assert(!bit_set(mm, id));
                if spec_off_screen(e.x as int, e.y as int) {
                    assert(!bit_set(mm & !(1u32 << last), id)) by (bit_vector)
                        requires
                            !bit_set(mm, id),
                            id < 32,
                            last < 32,
                    ;
                }
            } else {
                assert(!bit_set(mm & !(1u32 << last), last)) by (bit_vector)
                    requires
                        last < 32,
                ;
            }
        }
    }
}

/// The tiles and objects of a stage, and what happened to its objects.
pub struct StageMap {
    pub map_type: MapType,
    /// The scroll of the map plane in VRAM.
    pub plane_window: PlaneWindow,
    /// The scroll in pixels.
    pub scroll_offset: (i16, i16),
    pub map_data: MapData,
    pub enemies: heapless::Vec<Enemy, 16>,
    pub enemies_loaded: Bitmask,
    pub enemies_defeated: Bitmask,
    pub npcs_loaded: Bitmask,
    pub items_loaded: Bitmask,
    pub items_collected: Bitmask,
    pub item_start_tile: u16,
    pub inventory: Inventory,
    pub doors: heapless::Vec<Door, 16>,
    pub doors_loaded: Bitmask,
    pub doors_unlocked: Bitmask,
    pub doors_locked: Bitmask,
    pub switches: heapless::Vec<Switch, 16>,
    pub switches_loaded: Bitmask,
    pub switches_completed: Bitmask,
    pub projectiles: heapless::Vec<Projectile, 16>,
}

/// The player after the hits of enemy ticks, taken in order.
pub open spec fn spec_player_after_ticks(p: Player, ticks: Seq<EnemyTick>) -> Player
    decreases ticks.len(),
{
    if ticks.len() == 0 {
        p
    } else {
        let q = spec_player_after_ticks(p, ticks.drop_last());
        match ticks.last().hit_player {
            Some(h) => spec_player_hit(q, h.direction, h.damage),
            None => q,
        }
    }
}

/// The defeated-enemies mask after ticks: the id of enemy `es[i]` is set
/// where tick `i` says it is defeated.
pub open spec fn spec_defeated_after(m: u32, es: Seq<Enemy>, ticks: Seq<EnemyTick>) -> u32
    decreases ticks.len(),
{
    if ticks.len() == 0 {
        m
    } else {
        let r = spec_defeated_after(m, es, ticks.drop_last());
        if ticks.last().defeated { r | (1u32 << (es[ticks.len() - 1].id as u32)) } else { r }
    }
}

/// The unlocked-doors mask after door ticks: the id of door `ds[i]` is
/// cleared where tick `i` locked the door.
pub open spec fn spec_unlocked_after(m: u32, ds: Seq<Door>, locks: Seq<bool>) -> u32
    decreases locks.len(),
{
    if locks.len() == 0 {
        m
    } else {
        let r = spec_unlocked_after(m, ds, locks.drop_last());
        if locks.last() { r & !(1u32 << (ds[locks.len() - 1].id as u32)) } else { r }
    }
}

/// The locked-doors mask after door ticks: the id of door `ds[i]` is set
/// where tick `i` locked the door.
pub open spec fn spec_locked_after(m: u32, ds: Seq<Door>, locks: Seq<bool>) -> u32
    decreases locks.len(),
{
    if locks.len() == 0 {
        m
    } else {
        let r = spec_locked_after(m, ds, locks.drop_last());
        if locks.last() { r | (1u32 << (ds[locks.len() - 1].id as u32)) } else { r }
    }
}

/// Whether projectile `i` of stage `m0` may take its frame: a flying one
/// has room for its step (see `flight_ok`) and its swept area lies well
/// inside the coordinate range.
pub open spec fn projectile_ready(m0: StageMap, i: int) -> bool {
    let p = projectile_list(m0.projectiles)[i];
    let h = spec_flight_area(p);
    p.status == ShotStatus::Flying ==> {
        &&& flight_ok(p)
        &&& box_fits(h)
        &&& coord_small(h.x + m0.scroll_offset.0)
        &&& coord_small(h.y + m0.scroll_offset.1)
        &&& 0 <= h.w <= 1024
        &&& 0 <= h.h <= 1024
    }
}

/// The frame of projectile `i` (see `StageMap::update_projectile`): stage
/// `m0` and player `pl0` become `m1` and `pl1`.
pub open spec fn projectile_step(m0: StageMap, pl0: Player, i: int, wall_bit: u8, m1: StageMap, pl1: Player) -> bool {
    &&& {
        let ps = projectile_list(m0.projectiles);
        let es = enemy_list(m0.enemies);
        let ss = switch_list(m0.switches);
        let p = ps[i];
        let u = p.sprite.spec_update();
        if p.status == ShotStatus::Flying {
            let h = spec_flight_area(p);
            let q = spec_flown(p);
            let pl = if pl0.status is Dead { None } else { Some(pl0.spec_hitbox()) };
            let t = spec_projectile_target(p.is_player, h, spec_shot_enemies(es), spec_shot_switches(ss, m0.switches_completed.0), pl, (q.x - p.x) as i16);
            let hit = t != ProjectileHit::Nothing;
            let blocked = spec_door_blocks(door_list(m0.doors), h)
                || m0.map_data.spec_any_bit(h.x + m0.scroll_offset.0, h.y + m0.scroll_offset.1, h.w as int, h.h as int, wall_bit);
            &&& projectile_list(m1.projectiles) == ps.update(i, spec_finish_flight(q, hit, blocked))
            &&& enemy_list(m1.enemies) == (match t {
                ProjectileHit::Enemy(k) => es.update(k as int, crate::enemy::spec_enemy_hit(es[k as int], p.damage)),
                _ => es,
            })
            &&& switch_list(m1.switches) == (match t {
                ProjectileHit::Switch(k) => ss.update(k as int, Switch { pending: true, ..ss[k as int] }),
                _ => ss,
            })
            &&& pl1 == (match t {
                ProjectileHit::Player(d) => spec_player_hit(pl0, d, p.damage),
                _ => pl0,
            })
        } else {
            &&& projectile_list(m1.projectiles) == ps.update(i, (if p.status == ShotStatus::Dead {
                Projectile { sprite: u, ..p }
            } else {
                Projectile { sprite: u, status: if u.spec_animation_finished() { ShotStatus::Dead } else { ShotStatus::Explosion }, ..p }
            }))
            &&& enemy_list(m1.enemies) == es
            &&& switch_list(m1.switches) == ss
            &&& pl1 == pl0
        }
    }
    &&& m1 == (StageMap {
        projectiles: m1.projectiles,
        enemies: m1.enemies,
        switches: m1.switches,
        ..m0
    })
}

/// Whether stages `ms` and players `pls` are the run of the projectiles'
/// frames of stage `m0` with player `pl0`: projectile `k` takes its frame
/// from `ms[k]`, `pls[k]` to `ms[k + 1]`, `pls[k + 1]`.
pub open spec fn projectile_run(m0: StageMap, pl0: Player, wall_bit: u8, ms: Seq<StageMap>, pls: Seq<Player>) -> bool {
    let n = projectile_list(m0.projectiles).len();
    &&& ms.len() == n + 1
    &&& pls.len() == n + 1
    &&& ms[0] == m0
    &&& pls[0] == pl0
    &&& forall|k: int| 0 <= k < n ==> #[trigger] projectile_step(ms[k], pls[k], k, wall_bit, ms[k + 1], pls[k + 1])
}

/// The enemies' ticks of a frame (see `StageMap::update_enemies`): stage
/// `m0` and player `pl0` become `m1` and `pl1`, with the ticks `ticks`.
pub open spec fn enemies_ticked(m0: StageMap, pl0: Player, walks: Seq<(i16, i16)>, frame: u32, m1: StageMap, pl1: Player, ticks: Seq<EnemyTick>) -> bool {
    let es = enemy_list(m0.enemies);
    let es1 = enemy_list(m1.enemies);
    &&& ticks.len() == es.len()
    &&& es1.len() == es.len()
    &&& forall|i: int| 0 <= i < es.len() ==> enemy_tick(es[i], #[trigger] es1[i], walks[i], frame, pl0.x, pl0.y, pl0.spec_hitbox(), ticks[i])
    &&& pl1 == spec_player_after_ticks(pl0, ticks)
    &&& m1.enemies_defeated.0 == spec_defeated_after(m0.enemies_defeated.0, es, ticks)
    &&& m1 == (StageMap { enemies: m1.enemies, enemies_defeated: m1.enemies_defeated, ..m0 })
}

/// The finished enemies dropped (see `StageMap::cull_enemies`).
pub open spec fn enemies_culled(m0: StageMap, m1: StageMap) -> bool {
    &&& m1 == (StageMap { enemies: m1.enemies, enemies_loaded: m1.enemies_loaded, ..m0 })
    &&& enemy_list(m1.enemies) == spec_enemies_culled(enemy_list(m0.enemies))
    &&& m1.enemies_loaded.0 == spec_enemies_cull_mask(m0.enemies_loaded.0, enemy_list(m0.enemies))
}

/// The switches' frame (see `StageMap::update_switches`).
pub open spec fn switches_ticked(m0: StageMap, m1: StageMap) -> bool {
    let ss = switch_list(m0.switches);
    let es = enemy_list(m0.enemies);
    let ds = door_list(m0.doors);
    let opened = spec_fires(ss, SwitchEvent::OpenDoor0) && spec_has_door_0(ds);
    &&& switch_list(m1.switches) == ss.map_values(|s: Switch| spec_switch_ticked(s))
    &&& m1.switches_completed.0 == spec_completed_after(m0.switches_completed.0, ss)
    &&& enemy_list(m1.enemies) == (if spec_fires(ss, SwitchEvent::RemoveEnemies) {
        es.map_values(|e: Enemy| spec_killed(e))
    } else {
        es
    })
    &&& door_list(m1.doors) == (if spec_fires(ss, SwitchEvent::OpenDoor0) {
        ds.map_values(|d: Door| spec_door_0_opened(d))
    } else {
        ds
    })
    &&& m1.doors_unlocked.0 == (if opened { m0.doors_unlocked.0 | 1u32 } else { m0.doors_unlocked.0 })
    &&& m1.doors_locked.0 == (if opened { m0.doors_locked.0 & !1u32 } else { m0.doors_locked.0 })
    &&& m1 == (StageMap {
        switches: m1.switches,
        switches_completed: m1.switches_completed,
        enemies: m1.enemies,
        doors: m1.doors,
        doors_unlocked: m1.doors_unlocked,
        doors_locked: m1.doors_locked,
        ..m0
    })
}

/// The doors' ticks of a frame (see `StageMap::update_doors`), with the
/// player's box `player`; `locks` tells which doors locked themselves.
pub open spec fn doors_ticked(m0: StageMap, player: Hitbox, active: bool, m1: StageMap, locks: Seq<bool>) -> bool {
    let ds = door_list(m0.doors);
    let ds1 = door_list(m1.doors);
    &&& locks.len() == ds.len()
    &&& ds1.len() == ds.len()
    &&& forall|i: int| 0 <= i < ds.len() ==> door_tick(ds[i], #[trigger] ds1[i], player, active,
        bit_set(spec_unlocked_after(m0.doors_unlocked.0, ds, locks.take(i)), ds[i].id as u32), locks[i])
    &&& m1.doors_unlocked.0 == spec_unlocked_after(m0.doors_unlocked.0, ds, locks)
    &&& m1.doors_locked.0 == spec_locked_after(m0.doors_locked.0, ds, locks)
    &&& m1 == (StageMap { doors: m1.doors, doors_unlocked: m1.doors_unlocked, doors_locked: m1.doors_locked, ..m0 })
}

/// The finished projectiles dropped (see `StageMap::cull_projectiles`).
pub open spec fn projectiles_culled(m0: StageMap, m1: StageMap) -> bool {
    &&& m1 == (StageMap { projectiles: m1.projectiles, ..m0 })
    &&& projectile_list(m1.projectiles) == spec_projectiles_culled(projectile_list(m0.projectiles))
}

/// The stage's frame after the enemies, step by step: the switches act
/// (`m2` to `m3`), the doors tick (`m4`, with the box of player `pl1`, active
/// unless dead), the projectiles fly (the run `ms`, `pls`) and the finished
/// ones go (`m6`).
pub open spec fn rest_frame(
    m2: StageMap,
    pl1: Player,
    wall_bit: u8,
    locks: Seq<bool>,
    m3: StageMap,
    m4: StageMap,
    ms: Seq<StageMap>,
    pls: Seq<Player>,
    m6: StageMap,
) -> bool {
    &&& switches_ticked(m2, m3)
    &&& doors_ticked(m3, pl1.spec_hitbox(), !(pl1.status is Dead), m4, locks)
    &&& projectile_run(m4, pl1, wall_bit, ms, pls)
    &&& projectiles_culled(ms.last(), m6)
}

/// Whether stage `m2` and player `pl1` become `m6` and `pl6` by the stage's
/// frame after the enemies (see `rest_frame`).
pub open spec fn rest_frame_done(m2: StageMap, pl1: Player, wall_bit: u8, locks: Seq<bool>, m6: StageMap, pl6: Player) -> bool {
    exists|m3: StageMap, m4: StageMap, ms: Seq<StageMap>, pls: Seq<Player>| {
        &&& #[trigger] rest_frame(m2, pl1, wall_bit, locks, m3, m4, ms, pls, m6)
        &&& pls.last() == pl6
    }
}

/// An enemy after `kill`: it starts dying unless it already is.
pub open spec fn spec_killed(e: Enemy) -> Enemy {
    if e.spec_dying() { e } else { Enemy { status: Status::Dying { cooldown: 0 }, ..e } }
}

/// A door after the "open door 0" event: door 0 is unlocked and starts
/// opening (unless already opening); the other doors stay.
pub open spec fn spec_door_0_opened(d: Door) -> Door {
    if d.id == 0 {
        Door { locked: false, sprite: d.sprite.spec_maybe_set_animation(res::DOOR_ANIM_OPENING), ..d }
    } else {
        d
    }
}

/// Whether door 0 is among the doors.
pub open spec fn spec_has_door_0(ds: Seq<Door>) -> bool {
    exists|k: int| 0 <= k < ds.len() && (#[trigger] ds[k]).id == 0
}

/// A switch after its tick: a pending switch runs its event and shows on.
pub open spec fn spec_switch_ticked(s: Switch) -> Switch {
    if s.pending {
        Switch { pending: false, sprite: s.sprite.spec_maybe_set_animation(res::SWITCH_ANIM_ON), ..s }
    } else {
        s
    }
}

/// The event of switch `s`.
pub open spec fn spec_switch_event(s: Switch) -> SwitchEvent {
    if s.event_id == 0 { SwitchEvent::RemoveEnemies } else { SwitchEvent::OpenDoor0 }
}

/// Whether a pending switch among `ss` runs event `e`.
pub open spec fn spec_fires(ss: Seq<Switch>, e: SwitchEvent) -> bool {
    exists|k: int| 0 <= k < ss.len() && (#[trigger] ss[k]).pending && spec_switch_event(ss[k]) == e
}

/// The completed-mask after the pending switches among `ss` ran.
pub open spec fn spec_completed_after(m: u32, ss: Seq<Switch>) -> u32
    decreases ss.len(),
{
    if ss.len() == 0 {
        m
    } else {
        let p = spec_completed_after(m, ss.drop_last());
        if ss.last().pending { p | (1u32 << (ss.last().id as u32)) } else { p }
    }
}

/// What a player's shot can hit among the enemies: (alive, box) of each.
pub open spec fn spec_shot_enemies(es: Seq<Enemy>) -> Seq<(bool, Hitbox)> {
    Seq::new(es.len(), |k: int| (!es[k].spec_dying(), es[k].spec_hitbox()))
}

/// What a player's shot can hit among the switches: (neither completed nor
/// pending, box) of each.
pub open spec fn spec_shot_switches(ss: Seq<Switch>, completed: u32) -> Seq<(bool, Hitbox)> {
    Seq::new(
        ss.len(),
        |k: int|
            (
                !(bit_set(completed, ss[k].id as u32) || ss[k].pending),
                Hitbox { x: ss[k].x, y: ss[k].y, w: crate::switch::WIDTH, h: crate::switch::HEIGHT },
            ),
    )
}

/// Whether a closed door among `ds` overlaps `h`.
pub open spec fn spec_door_blocks(ds: Seq<Door>, h: Hitbox) -> bool {
    exists|i: int| 0 <= i < ds.len() && !(#[trigger] ds[i]).open && spec_overlaps(ds[i].spec_hitbox(), h)
}

impl StageMap {
    pub open spec fn wf(self) -> bool {
        &&& self.inventory.wf()
        &&& doors_ok(door_list(self.doors))
        &&& switches_ok(switch_list(self.switches))
        &&& enemies_ok(enemy_list(self.enemies))
        &&& projectiles_ok(projectile_list(self.projectiles))
    }

    /// The scroll `scroll` limited so that the screen does not show past the
    /// map's edges.
    pub fn normalize(&self, scroll: (i16, i16)) -> (r: (i16, i16))
        requires
            320 <= self.map_data.width * 8 <= 320 + 16000,
            224 <= self.map_data.height * 8 <= 224 + 16000,
            coord_small(self.scroll_offset.0 as int),
            coord_small(self.scroll_offset.1 as int),
        ensures
            r.0 == spec_normalize_axis(scroll.0 as int, self.scroll_offset.0 as int, self.map_data.width * 8, SCREEN_WIDTH as int),
            r.1 == spec_normalize_axis(scroll.1 as int, self.scroll_offset.1 as int, self.map_data.height * 8, SCREEN_HEIGHT as int),
    {
        let mut dx = if scroll.0 < self.scroll_offset.0 { scroll.0 } else { self.scroll_offset.0 };
        let lo_x = self.scroll_offset.0 - (self.map_data.width * 8 - SCREEN_WIDTH) as i16;
        if dx < lo_x {
            dx = lo_x;
        }
        let mut dy = if scroll.1 < self.scroll_offset.1 { scroll.1 } else { self.scroll_offset.1 };
        let lo_y = self.scroll_offset.1 - (self.map_data.height * 8 - SCREEN_HEIGHT) as i16;
        if dy < lo_y {
            dy = lo_y;
        }
        (dx, dy)
    }

    /// A stage with no objects loaded yet: the player is placed on the spawn
    /// point with the screen scrolled to center it (as far as the map's edges
    /// allow) and reset for beaming in. The stage's objects are loaded
    /// afterwards (see the `should_load_*` and `add_*` functions).
    pub fn new(map_type: MapType, map_data: MapData, player: &mut Player) -> (r: StageMap)
        requires
            old(player).wf(),
            coord_small(old(player).x as int),
            coord_small(old(player).y as int),
            map_coord_ok(map_data.player_spawn_position.0 as int),
            map_coord_ok(map_data.player_spawn_position.1 as int),
            320 <= map_data.width * 8 <= 320 + 16000,
            224 <= map_data.height * 8 <= 224 + 16000,
        ensures
            r.wf(),
            view_on_map(r),
            final(player).wf(),
            ({
                let sx = spec_normalize_axis(160 - map_data.player_spawn_position.0, 0, map_data.width * 8, 320);
                let sy = spec_normalize_axis(112 - map_data.player_spawn_position.1, 0, map_data.height * 8, 224);
                &&& *final(player) == spec_reset(spec_set_position(*old(player),
                    (map_data.player_spawn_position.0 + 108 + sx) as i16,
                    (map_data.player_spawn_position.1 + 104 + sy) as i16))
                &&& r.scroll_offset == ((-sx) as i16, (-sy) as i16)
                &&& r.plane_window.spec_scroll() == (rem_trunc(-sx, 8) % 512, rem_trunc(-sy, 8) % 512)
            }),
            r.map_type == map_type,
            r.map_data == map_data,
            door_list(r.doors).len() == 0,
            switch_list(r.switches).len() == 0,
            enemy_list(r.enemies).len() == 0,
            projectile_list(r.projectiles).len() == 0,
            r.enemies_loaded.0 == 0 && r.enemies_defeated.0 == 0 && r.npcs_loaded.0 == 0,
            r.items_loaded.0 == 0 && r.items_collected.0 == 0 && r.item_start_tile == 0,
            r.doors_loaded.0 == 0 && r.doors_unlocked.0 == 0 && r.doors_locked.0 == 0,
            r.switches_loaded.0 == 0 && r.switches_completed.0 == 0,
            r.inventory.spec_items() == Seq::<crate::inventory::InventoryItem>::empty(),
            r.inventory.spec_weapons() == crate::inventory::spec_weapons_for(crate::weapon::spec_default_weapons(), old(player).player_type),
            r.inventory.scene is None,
    {
        let inventory = Inventory::new(player);
        let mut map = StageMap {
            map_type,
            plane_window: PlaneWindow::new(),
            scroll_offset: (0, 0),
            map_data,
            enemies: enemies_new(),
            enemies_loaded: Bitmask::new(),
            enemies_defeated: Bitmask::new(),
            npcs_loaded: Bitmask::new(),
            items_loaded: Bitmask::new(),
            items_collected: Bitmask::new(),
            item_start_tile: 0,
            inventory,
            doors: doors_new(),
            doors_loaded: Bitmask::new(),
            doors_unlocked: Bitmask::new(),
            doors_locked: Bitmask::new(),
            switches: switches_new(),
            switches_loaded: Bitmask::new(),
            switches_completed: Bitmask::new(),
            projectiles: projectiles_new(),
        };
        let px = map.map_data.player_spawn_position.0 + 128;
        let py = map.map_data.player_spawn_position.1 + 128;
        let center = player.hitbox().center();
        player.move_relative(px - center.0, py - center.1);
        let center = player.hitbox().center();
        let scroll_x = 128 + 320 / 2 - center.0;
        let scroll_y = 128 + 224 / 2 - center.1;
        let (scroll_x, scroll_y) = map.normalize((scroll_x, scroll_y));
        player.move_relative(scroll_x, scroll_y);
        player.reset();
        map.scroll_offset = (-scroll_x, -scroll_y);
        map.plane_window = PlaneWindow::new();
        map.plane_window.scroll(rem_i16(-scroll_x, 8), rem_i16(-scroll_y, 8));
        map
    }

    /// The number of enemies on the stage.
    pub fn enemy_count(&self) -> (r: usize)
        ensures
            r == enemy_list(self.enemies).len(),
            r <= ENTITY_SLOTS,
    {
        enemies_len(&self.enemies)
    }

    /// The number of doors on the stage.
    pub fn door_count(&self) -> (r: usize)
        ensures
            r == door_list(self.doors).len(),
            r <= ENTITY_SLOTS,
    {
        doors_len(&self.doors)
    }

    /// The number of switches on the stage.
    pub fn switch_count(&self) -> (r: usize)
        ensures
            r == switch_list(self.switches).len(),
            r <= ENTITY_SLOTS,
    {
        switches_len(&self.switches)
    }

    /// The number of projectiles on the stage.
    pub fn projectile_count(&self) -> (r: usize)
        ensures
            r == projectile_list(self.projectiles).len(),
            r <= ENTITY_SLOTS,
    {
        projectiles_len(&self.projectiles)
    }

    /// Drops all enemies, doors, switches and projectiles.
    pub fn clear(&mut self)
        ensures
            *final(self) == (StageMap {
                enemies: final(self).enemies,
                doors: final(self).doors,
                switches: final(self).switches,
                projectiles: final(self).projectiles,
                ..*old(self)
            }),
            enemy_list(final(self).enemies).len() == 0,
            door_list(final(self).doors).len() == 0,
            switch_list(final(self).switches).len() == 0,
            projectile_list(final(self).projectiles).len() == 0,
    {
        self.enemies = enemies_new();
        self.doors = doors_new();
        self.switches = switches_new();
        self.projectiles = projectiles_new();
    }

    fn scroll_projectiles(&mut self, dx: i16, dy: i16)
        requires
            old(self).wf(),
            forall|i: int| 0 <= i < projectile_list(old(self).projectiles).len() ==>
                projectile_scroll_ok(#[trigger] projectile_list(old(self).projectiles)[i], dx, dy),
        ensures
            final(self).wf(),
            *final(self) == (StageMap { projectiles: final(self).projectiles, ..*old(self) }),
            projectile_list(final(self).projectiles) == spec_projectiles_scrolled(projectile_list(old(self).projectiles), dx, dy),
    {
        let ghost ps = projectile_list(self.projectiles);
        proof {
            lemma_projectiles_scrolled(ps, dx, dy);
        }
        let mut kept = projectiles_new();
        let n = projectiles_len(&self.projectiles);
        let mut i: usize = 0;
        while i < n
            invariant
                n == ps.len(),
                n <= ENTITY_SLOTS,
                i <= n,
                projectiles_ok(ps),
                forall|k: int| 0 <= k < ps.len() ==> projectile_scroll_ok(#[trigger] ps[k], dx, dy),
                projectile_list(self.projectiles) == ps.skip(i as int),
                projectile_list(kept) == spec_projectiles_scrolled(ps.take(i as int), dx, dy),
                *self == (StageMap { projectiles: self.projectiles, ..*old(self) }),
            decreases n - i,
        {
            proof {
                lemma_projectiles_scrolled(ps.take(i as int), dx, dy);
                assert(ps.take(i + 1).drop_last() =~= ps.take(i as int));
                assert(ps.skip(i as int)[0] == ps[i as int]);
            }
            let mut p = projectiles_remove(&mut self.projectiles, 0);
            assert(ps.skip(i as int).remove(0) =~= ps.skip(i + 1));
            p.scroll(dx, dy);
            if !is_off_screen(p.x, p.y) {
                let _ = projectiles_push(&mut kept, p);
            }
            i = i + 1;
        }
        assert(ps.take(n as int) =~= ps);
        self.projectiles = kept;
    }

    /// Moves the player and every object of the stage by (dx, dy) as part of
    /// a scroll; objects that left the screen are dropped, and those with an
    /// id are marked as not loaded so that they can be loaded again. The
    /// step bound is the widest for which a moved object (within ±16383)
    /// still fits the off-screen test's range.
    pub fn scroll_entities(&mut self, player: &mut Player, dx: i16, dy: i16)
        requires
            old(self).wf(),
            -16334 <= dx <= 16334,
            -16334 <= dy <= 16334,
            fits_i16(old(player).x + dx),
            fits_i16(old(player).y + dy),
            forall|i: int| 0 <= i < projectile_list(old(self).projectiles).len() ==>
                projectile_scroll_ok(#[trigger] projectile_list(old(self).projectiles)[i], dx, dy),
        ensures
            final(self).wf(),
            *final(player) == spec_set_position(*old(player), (old(player).x + dx) as i16, (old(player).y + dy) as i16),
            *final(self) == (StageMap {
                enemies: final(self).enemies,
                enemies_loaded: final(self).enemies_loaded,
                doors: final(self).doors,
                doors_loaded: final(self).doors_loaded,
                switches: final(self).switches,
                switches_loaded: final(self).switches_loaded,
                projectiles: final(self).projectiles,
                ..*old(self)
            }),
            enemy_list(final(self).enemies) == spec_enemies_scrolled(enemy_list(old(self).enemies), dx, dy),
            final(self).enemies_loaded.0 == spec_enemies_unloaded(old(self).enemies_loaded.0, enemy_list(old(self).enemies), dx, dy),
            door_list(final(self).doors) == spec_doors_scrolled(door_list(old(self).doors), dx, dy),
            final(self).doors_loaded.0 == spec_doors_unloaded(old(self).doors_loaded.0, door_list(old(self).doors), dx, dy),
            switch_list(final(self).switches) == spec_switches_scrolled(switch_list(old(self).switches), dx, dy),
            final(self).switches_loaded.0 == spec_switches_unloaded(old(self).switches_loaded.0, switch_list(old(self).switches), dx, dy),
            projectile_list(final(self).projectiles) == spec_projectiles_scrolled(projectile_list(old(self).projectiles), dx, dy),
    {
        player.move_relative(dx, dy);
        self.scroll_enemies(dx, dy);
        self.scroll_projectiles(dx, dy);
        self.scroll_doors(dx, dy);
        self.scroll_switches(dx, dy);
    }

    /// Unlocks the first door (in list order) that a key opens from the
    /// player's box grown by five pixels: the door is recorded as unlocked and
    /// no longer locked, and one key is used up. `placements` are the stage's
    /// door placements, which tell which doors have a keyhole. Returns whether
    /// a door was unlocked.
    pub fn unlock_nearby_door(&mut self, player_box: Hitbox, placements: &Vec<DoorProperties>) -> (r: bool)
        requires
            old(self).wf(),
            coord_small(player_box.x as int),
            coord_small(player_box.y as int),
            0 <= player_box.w <= 1000,
            0 <= player_box.h <= 1000,
        ensures
            final(self).wf(),
            ({
                let h = Hitbox {
                    x: (player_box.x - 5) as i16,
                    y: (player_box.y - 5) as i16,
                    w: (player_box.w + 10) as i16,
                    h: (player_box.h + 10) as i16,
                };
                let ds = door_list(old(self).doors);
                let k = spec_unlock_index(ds, placements@, h);
                &&& r == (k >= 0)
                &&& k < 0 ==> *final(self) == *old(self)
                &&& k >= 0 ==> {
                    &&& door_list(final(self).doors) == ds.update(k, Door { locked: false, ..ds[k] })
                    &&& final(self).doors_unlocked.0 == old(self).doors_unlocked.0 | (1u32 << (ds[k].id as u32))
                    &&& final(self).doors_locked.0 == old(self).doors_locked.0 & !(1u32 << (ds[k].id as u32))
                    &&& final(self).inventory.spec_items() == spec_remove_item(old(self).inventory.spec_items(), ItemType::Key)
                    &&& final(self).inventory.spec_weapons() == old(self).inventory.spec_weapons()
                    &&& final(self).inventory.scene == old(self).inventory.scene
                    &&& *final(self) == (StageMap {
                        doors: final(self).doors,
                        doors_unlocked: final(self).doors_unlocked,
                        doors_locked: final(self).doors_locked,
                        inventory: final(self).inventory,
                        ..*old(self)
                    })
                }
            }),
    {
        let h = player_box.expand(5);
        let ghost ds = door_list(self.doors);
        let ghost k = spec_unlock_index(ds, placements@, h);
        proof {
            lemma_unlock_index(ds, placements@, h);
        }
        let idx = match self.unlock_index(h, placements) {
            Some(i) => i,
            None => return false,
        };
        let ghost target = ds.update(k, Door { locked: false, ..ds[k] });
        let n = doors_len(&self.doors);
        let mut kept = doors_new();
        let mut i: usize = 0;
        let ghost me = *self;
        while i < n
            invariant
                n == ds.len(),
                n <= ENTITY_SLOTS,
                i <= n,
                idx == k,
                0 <= k < n,
                target == ds.update(k, Door { locked: false, ..ds[k] }),
                door_list(self.doors) == ds.skip(i as int),
                door_list(kept) == target.take(i as int),
                *self == (StageMap { doors: self.doors, ..me }),
            decreases n - i,
        {
            assert(ds.skip(i as int)[0] == ds[i as int]);
            let mut d = doors_remove(&mut self.doors, 0);
            assert(ds.skip(i as int).remove(0) =~= ds.skip(i + 1));
            if i == idx {
                d.unlock();
            }
            let _ = doors_push(&mut kept, d);
            assert(target.take(i + 1) =~= target.take(i as int).push(target[i as int]));
            i = i + 1;
        }
        assert(target.take(n as int) =~= target);
        self.doors = kept;
        let id = ds_id(&self.doors, idx);
        self.doors_unlocked.set(id);
        self.doors_locked.clear(id);
        self.inventory.remove(ItemType::Key);
        proof {
            assert(doors_ok(target)) by {
                assert forall|j: int| 0 <= j < target.len() implies (#[trigger] target[j]).wf() && target[j].id < 32 by {
                    if j == k {
                        assert(ds[k].wf());
                    }
                }
            }
        }
        true
    }

    /// The position of the first door a key opens from the box `h`.
    fn unlock_index(&self, h: Hitbox, placements: &Vec<DoorProperties>) -> (r: Option<usize>)
        requires
            self.wf(),
            -16388 <= h.x <= 16378,
            -16388 <= h.y <= 16378,
            0 <= h.w <= 1010,
            0 <= h.h <= 1010,
        ensures
            r matches Some(i) ==> i == spec_unlock_index(door_list(self.doors), placements@, h),
            r is None ==> spec_unlock_index(door_list(self.doors), placements@, h) == -1,
    {
        let ghost ds = door_list(self.doors);
        proof {
            lemma_unlock_index(ds, placements@, h);
        }
        let n = doors_len(&self.doors);
        let mut i: usize = 0;
        while i < n
            invariant
                n == ds.len(),
                ds == door_list(self.doors),
                i <= n,
                doors_ok(ds),
                -16388 <= h.x <= 16378,
                -16388 <= h.y <= 16378,
                0 <= h.w <= 1010,
                0 <= h.h <= 1010,
                forall|j: int| 0 <= j < i ==> !spec_unlockable(#[trigger] ds[j], placements@, h),
                -1 <= spec_unlock_index(ds, placements@, h) < n,
                spec_unlock_index(ds, placements@, h) >= 0 ==> spec_unlockable(ds[spec_unlock_index(ds, placements@, h)], placements@, h),
                forall|j: int| 0 <= j < n && (spec_unlock_index(ds, placements@, h) < 0 || j < spec_unlock_index(ds, placements@, h))
                    ==> !spec_unlockable(#[trigger] ds[j], placements@, h),
            decreases n - i,
        {
            let d = doors_get(&self.doors, i);
            assert(d.wf());
            if d.locked && keyhole(placements, d.id) && h.collides(&d.hitbox()) {
                return Some(i);
            }
            i = i + 1;
        }
        None
    }

    /// Marks as pending the switches whose position bit is set in `hits`.
    pub fn press_switches(&mut self, hits: u32)
        requires
            old(self).wf(),
        ensures
            final(self).wf(),
            *final(self) == (StageMap { switches: final(self).switches, ..*old(self) }),
            switch_list(final(self).switches) == Seq::new(switch_list(old(self).switches).len(), |i: int|
                if hits & (1u32 << (i as u32)) != 0 {
                    Switch { pending: true, ..switch_list(old(self).switches)[i] }
                } else {
                    switch_list(old(self).switches)[i]
                }),
    {
        let ghost ss = switch_list(self.switches);
        let ghost target = Seq::new(ss.len(), |i: int|
            if hits & (1u32 << (i as u32)) != 0 { Switch { pending: true, ..ss[i] } } else { ss[i] });
        let n = switches_len(&self.switches);
        let mut kept = switches_new();
        let mut i: usize = 0;
        let ghost me = *self;
        while i < n
            invariant
                n == ss.len(),
                n <= ENTITY_SLOTS,
                i <= n,
                target == Seq::new(ss.len(), |i: int|
                    if hits & (1u32 << (i as u32)) != 0 { Switch { pending: true, ..ss[i] } } else { ss[i] }),
                switch_list(self.switches) == ss.skip(i as int),
                switch_list(kept) == target.take(i as int),
                *self == (StageMap { switches: self.switches, ..me }),
            decreases n - i,
        {
            assert(ss.skip(i as int)[0] == ss[i as int]);
            let mut sw = switches_remove(&mut self.switches, 0);
            assert(ss.skip(i as int).remove(0) =~= ss.skip(i + 1));
            if hits & (1u32 << (i as u32)) != 0 {
                sw.pending = true;
            }
            let _ = switches_push(&mut kept, sw);
            assert(target.take(i + 1) =~= target.take(i as int).push(target[i as int]));
            i = i + 1;
        }
        assert(target.take(n as int) =~= target);
        self.switches = kept;
        assert(switches_ok(target)) by {
            assert forall|j: int| 0 <= j < target.len() implies (#[trigger] target[j]).wf() && target[j].id < 32 by {
                assert(ss[j].wf());
            }
        }
    }

    /// The switches as melee targets: (skip, hitbox) in list order, skipping
    /// those completed or already pending.
    pub fn switch_targets(&self) -> (r: Vec<(bool, Hitbox)>)
        requires
            self.wf(),
        ensures
            r@.len() == switch_list(self.switches).len(),
            forall|i: int| 0 <= i < r@.len() ==> #[trigger] r@[i] == (
                bit_set(self.switches_completed.0, switch_list(self.switches)[i].id as u32) || switch_list(self.switches)[i].pending,
                Hitbox { x: switch_list(self.switches)[i].x, y: switch_list(self.switches)[i].y, w: crate::switch::WIDTH, h: crate::switch::HEIGHT },
            ),
    {
        let ghost ss = switch_list(self.switches);
        let n = switches_len(&self.switches);
        let mut r: Vec<(bool, Hitbox)> = Vec::new();
        let mut i: usize = 0;
        while i < n
            invariant
                n == ss.len(),
                ss == switch_list(self.switches),
                switches_ok(ss),
                i <= n,
                r@.len() == i,
                forall|k: int| 0 <= k < i ==> #[trigger] r@[k] == (
                    bit_set(self.switches_completed.0, ss[k].id as u32) || ss[k].pending,
                    Hitbox { x: ss[k].x, y: ss[k].y, w: crate::switch::WIDTH, h: crate::switch::HEIGHT },
                ),
            decreases n - i,
        {
            let sw = switches_get(&self.switches, i);
            assert(sw.id < 32);
            r.push((self.switches_completed.is_set(sw.id) || sw.pending, sw.hitbox()));
            i = i + 1;
        }
        r
    }

    /// The enemies as melee targets: (id, hitbox) in list order.
    pub fn enemy_targets(&self) -> (r: Vec<(u16, Hitbox)>)
        requires
            self.wf(),
        ensures
            r@.len() == enemy_list(self.enemies).len(),
            forall|i: int| 0 <= i < r@.len() ==> #[trigger] r@[i] == (enemy_list(self.enemies)[i].id, enemy_list(self.enemies)[i].spec_hitbox()),
    {
        let ghost es = enemy_list(self.enemies);
        let n = enemies_len(&self.enemies);
        let mut r: Vec<(u16, Hitbox)> = Vec::new();
        let mut i: usize = 0;
        while i < n
            invariant
                n == es.len(),
                es == enemy_list(self.enemies),
                enemies_ok(es),
                i <= n,
                r@.len() == i,
                forall|k: int| 0 <= k < i ==> #[trigger] r@[k] == (es[k].id, es[k].spec_hitbox()),
            decreases n - i,
        {
            let e = enemies_get(&self.enemies, i);
            assert(e.wf());
            r.push((e.id, e.hitbox()));
            i = i + 1;
        }
        r
    }

    /// Drops the enemies whose death sequence ended, marking them as not loaded.
    pub fn cull_enemies(&mut self)
        requires
            old(self).wf(),
        ensures
            final(self).wf(),
            *final(self) == (StageMap { enemies: final(self).enemies, enemies_loaded: final(self).enemies_loaded, ..*old(self) }),
            enemy_list(final(self).enemies) == spec_enemies_culled(enemy_list(old(self).enemies)),
            final(self).enemies_loaded.0 == spec_enemies_cull_mask(old(self).enemies_loaded.0, enemy_list(old(self).enemies)),
    {
        let ghost es = enemy_list(self.enemies);
        proof {
            lemma_enemies_culled(es);
        }
        let mut kept = enemies_new();
        let n = enemies_len(&self.enemies);
        let mut i: usize = 0;
        while i < n
            invariant
                n == es.len(),
                n <= ENTITY_SLOTS,
                i <= n,
                enemies_ok(es),
                enemy_list(self.enemies) == es.skip(i as int),
                enemy_list(kept) == spec_enemies_culled(es.take(i as int)),
                self.enemies_loaded.0 == spec_enemies_cull_mask(old(self).enemies_loaded.0, es.take(i as int)),
                *self == (StageMap { enemies: self.enemies, enemies_loaded: self.enemies_loaded, ..*old(self) }),
            decreases n - i,
        {
            proof {
                lemma_enemies_culled(es.take(i as int));
                assert(es.take(i + 1).drop_last() =~= es.take(i as int));
                assert(es.skip(i as int)[0] == es[i as int]);
            }
            let e = enemies_remove(&mut self.enemies, 0);
            assert(es.skip(i as int).remove(0) =~= es.skip(i + 1));
            assert(e.id < 32);
            if e.should_unload() {
                self.enemies_loaded.clear(e.id);
            } else {
                let _ = enemies_push(&mut kept, e);
            }
            i = i + 1;
        }
        assert(es.take(n as int) =~= es);
        self.enemies = kept;
    }

    /// Drops the projectiles that are gone.
    pub fn cull_projectiles(&mut self)
        requires
            old(self).wf(),
        ensures
            final(self).wf(),
            *final(self) == (StageMap { projectiles: final(self).projectiles, ..*old(self) }),
            projectile_list(final(self).projectiles) == spec_projectiles_culled(projectile_list(old(self).projectiles)),
    {
        let ghost ps = projectile_list(self.projectiles);
        proof {
            lemma_projectiles_culled(ps);
        }
        let mut kept = projectiles_new();
        let n = projectiles_len(&self.projectiles);
        let mut i: usize = 0;
        while i < n
            invariant
                n == ps.len(),
                n <= ENTITY_SLOTS,
                i <= n,
                projectiles_ok(ps),
                projectile_list(self.projectiles) == ps.skip(i as int),
                projectile_list(kept) == spec_projectiles_culled(ps.take(i as int)),
                *self == (StageMap { projectiles: self.projectiles, ..*old(self) }),
            decreases n - i,
        {
            proof {
                lemma_projectiles_culled(ps.take(i as int));
                assert(ps.take(i + 1).drop_last() =~= ps.take(i as int));
                assert(ps.skip(i as int)[0] == ps[i as int]);
            }
            let p = projectiles_remove(&mut self.projectiles, 0);
            assert(ps.skip(i as int).remove(0) =~= ps.skip(i + 1));
            if !p.should_unload() {
                let _ = projectiles_push(&mut kept, p);
            }
            i = i + 1;
        }
        assert(ps.take(n as int) =~= ps);
        self.projectiles = kept;
    }

    /// A tick of door `i` with the player's box `player` (`active` telling
    /// whether the player is active; see `Door::update`): the door counts as
    /// opened with a key when the stage records it unlocked. A door that
    /// locks itself behind the player is recorded as locked and no longer
    /// unlocked, so it comes back locked when loaded again. Returns whether
    /// the door locked itself.
    pub fn update_door(&mut self, i: usize, player: Hitbox, active: bool) -> (r: bool)
        requires
            old(self).wf(),
            i < door_list(old(self).doors).len(),
            hitbox_small(player),
        ensures
            final(self).wf(),
            ({
                let ds = door_list(old(self).doors);
                let d = ds[i as int];
                let id = d.id as u32;
                &&& door_list(final(self).doors) == ds.update(i as int, door_list(final(self).doors)[i as int])
                &&& door_tick(d, door_list(final(self).doors)[i as int], player, active, bit_set(old(self).doors_unlocked.0, id), r)
                &&& final(self).doors_unlocked.0 == (if r { old(self).doors_unlocked.0 & !(1u32 << id) } else { old(self).doors_unlocked.0 })
                &&& final(self).doors_locked.0 == (if r { old(self).doors_locked.0 | (1u32 << id) } else { old(self).doors_locked.0 })
                &&& *final(self) == (StageMap {
                    doors: final(self).doors,
                    doors_unlocked: final(self).doors_unlocked,
                    doors_locked: final(self).doors_locked,
                    ..*old(self)
                })
            }),
    {
        let ghost ds = door_list(self.doors);
        proof {
            assert(ds[i as int].wf() && ds[i as int].id < 32);
        }
        let id = ds_id(&self.doors, i);
        let unlocked = self.doors_unlocked.is_set(id);
        let door = doors_get_mut(&mut self.doors, i);
        let locked = door.update(player, active, unlocked);
        if locked {
            self.doors_unlocked.clear(id);
            self.doors_locked.set(id);
        }
        proof {
            let after = door_list(self.doors);
            assert forall|j: int| 0 <= j < after.len() implies (#[trigger] after[j]).wf() && after[j].id < 32 by {
                if j != i {
                    assert(after[j] == ds[j]);
                }
            }
        }
        locked
    }

    /// The "remove enemies" event: every enemy starts dying.
    pub fn remove_enemies(&mut self)
        requires
            old(self).wf(),
        ensures
            final(self).wf(),
            enemy_list(final(self).enemies) == enemy_list(old(self).enemies).map_values(|e: Enemy| spec_killed(e)),
            *final(self) == (StageMap { enemies: final(self).enemies, ..*old(self) }),
    {
        let ghost es = enemy_list(self.enemies);
        let n = enemies_len(&self.enemies);
        let mut i: usize = 0;
        while i < n
            invariant
                n == es.len(),
                i <= n,
                enemy_list(self.enemies).len() == n,
                forall|k: int| 0 <= k < i ==> #[trigger] enemy_list(self.enemies)[k] == spec_killed(es[k]),
                forall|k: int| i <= k < n ==> #[trigger] enemy_list(self.enemies)[k] == es[k],
                enemies_ok(es),
                *self == (StageMap { enemies: self.enemies, ..*old(self) }),
            decreases n - i,
        {
            let e = enemies_get_mut(&mut self.enemies, i);
            e.kill();
            i = i + 1;
        }
        assert(enemy_list(self.enemies) =~= es.map_values(|e: Enemy| spec_killed(e)));
        proof {
            let after = enemy_list(self.enemies);
            assert forall|k: int| 0 <= k < after.len() implies (#[trigger] after[k]).wf() && after[k].id < 32 by {
                assert(es[k].wf());
            }
        }
    }

    /// The "open door 0" event: door 0, if loaded, is unlocked and starts
    /// opening, and the stage records it as unlocked and not locked.
    pub fn open_door_0(&mut self)
        requires
            old(self).wf(),
        ensures
            final(self).wf(),
            door_list(final(self).doors) == door_list(old(self).doors).map_values(|d: Door| spec_door_0_opened(d)),
            final(self).doors_unlocked.0 == (if spec_has_door_0(door_list(old(self).doors)) {
                old(self).doors_unlocked.0 | 1u32
            } else {
                old(self).doors_unlocked.0
            }),
            final(self).doors_locked.0 == (if spec_has_door_0(door_list(old(self).doors)) {
                old(self).doors_locked.0 & !1u32
            } else {
                old(self).doors_locked.0
            }),
            *final(self) == (StageMap {
                doors: final(self).doors,
                doors_unlocked: final(self).doors_unlocked,
                doors_locked: final(self).doors_locked,
                ..*old(self)
            }),
    {
        let ghost ds = door_list(self.doors);
        let ghost u0 = self.doors_unlocked.0;
        let ghost l0 = self.doors_locked.0;
        let n = doors_len(&self.doors);
        let mut i: usize = 0;
        while i < n
            invariant
                n == ds.len(),
                i <= n,
                door_list(self.doors).len() == n,
                forall|k: int| 0 <= k < i ==> #[trigger] door_list(self.doors)[k] == spec_door_0_opened(ds[k]),
                forall|k: int| i <= k < n ==> #[trigger] door_list(self.doors)[k] == ds[k],
                doors_ok(ds),
                self.doors_unlocked.0 == (if exists|k: int| 0 <= k < i && (#[trigger] ds[k]).id == 0 { u0 | 1u32 } else { u0 }),
                self.doors_locked.0 == (if exists|k: int| 0 <= k < i && (#[trigger] ds[k]).id == 0 { l0 & !1u32 } else { l0 }),
                *self == (StageMap { doors: self.doors, doors_unlocked: self.doors_unlocked, doors_locked: self.doors_locked, ..*old(self) }),
            decreases n - i,
        {
            let d = doors_get_mut(&mut self.doors, i);
            let is_0 = d.id == 0;
            if is_0 {
                d.unlock();
                d.open();
            }
            if is_0 {
                let ghost uu = self.doors_unlocked.0;
                let ghost ll = self.doors_locked.0;
                self.doors_unlocked.set(0);
                self.doors_locked.clear(0);
                proof {
                    assert((uu | 1u32) == (if uu == u0 { u0 | 1u32 } else { uu })) by (bit_vector)
                        requires
                            uu == u0 || uu == (u0 | 1u32),
                    ;
                    assert((ll & !1u32) == (if ll == l0 { l0 & !1u32 } else { ll })) by (bit_vector)
                        requires
                            ll == l0 || ll == (l0 & !1u32),
                    ;
                    assert(1u32 << 0u32 == 1u32) by (bit_vector);
                    assert(exists|k: int| 0 <= k < i + 1 && (#[trigger] ds[k]).id == 0) by {
                        assert(ds[i as int].id == 0);
                    }
                }
            } else {
                proof {
                    if exists|k: int| 0 <= k < i + 1 && (#[trigger] ds[k]).id == 0 {
                        let k = choose|k: int| 0 <= k < i + 1 && (#[trigger] ds[k]).id == 0;
                        assert(k < i);
                    }
                }
            }
            i = i + 1;
        }
        assert(door_list(self.doors) =~= ds.map_values(|d: Door| spec_door_0_opened(d)));
        proof {
            let after = door_list(self.doors);
            assert forall|k: int| 0 <= k < after.len() implies (#[trigger] after[k]).wf() && after[k].id < 32 by {
                assert(ds[k].wf());
            }
        }
    }

    /// The switches' tick: each pending switch, in order, is marked completed
    /// on the stage, shows on, and runs its event (see `remove_enemies` and
    /// `open_door_0`; running an event twice does what running it once does).
    pub fn update_switches(&mut self)
        requires
            old(self).wf(),
        ensures
            final(self).wf(),
            ({
                let ss = switch_list(old(self).switches);
                let es = enemy_list(old(self).enemies);
                let ds = door_list(old(self).doors);
                let opened = spec_fires(ss, SwitchEvent::OpenDoor0) && spec_has_door_0(ds);
                &&& switch_list(final(self).switches) == ss.map_values(|s: Switch| spec_switch_ticked(s))
                &&& final(self).switches_completed.0 == spec_completed_after(old(self).switches_completed.0, ss)
                &&& enemy_list(final(self).enemies) == (if spec_fires(ss, SwitchEvent::RemoveEnemies) {
                    es.map_values(|e: Enemy| spec_killed(e))
                } else {
                    es
                })
                &&& door_list(final(self).doors) == (if spec_fires(ss, SwitchEvent::OpenDoor0) {
                    ds.map_values(|d: Door| spec_door_0_opened(d))
                } else {
                    ds
                })
                &&& final(self).doors_unlocked.0 == (if opened { old(self).doors_unlocked.0 | 1u32 } else { old(self).doors_unlocked.0 })
                &&& final(self).doors_locked.0 == (if opened { old(self).doors_locked.0 & !1u32 } else { old(self).doors_locked.0 })
                &&& *final(self) == (StageMap {
                    switches: final(self).switches,
                    switches_completed: final(self).switches_completed,
                    enemies: final(self).enemies,
                    doors: final(self).doors,
                    doors_unlocked: final(self).doors_unlocked,
                    doors_locked: final(self).doors_locked,
                    ..*old(self)
                })
            }),
    {
        let ghost ss = switch_list(self.switches);
        let ghost es = enemy_list(self.enemies);
        let ghost ds = door_list(self.doors);
        let ghost u0 = self.doors_unlocked.0;
        let ghost l0 = self.doors_locked.0;
        let ghost killed = es.map_values(|e: Enemy| spec_killed(e));
        let ghost opened_doors = ds.map_values(|d: Door| spec_door_0_opened(d));
        proof {
            assert(killed.map_values(|e: Enemy| spec_killed(e)) =~= killed);
            assert(opened_doors.map_values(|d: Door| spec_door_0_opened(d)) =~= opened_doors) by {
                assert forall|k: int| 0 <= k < ds.len() implies spec_door_0_opened(#[trigger] opened_doors[k]) == opened_doors[k] by {
                    assert(ds[k].wf());
                }
            }
            assert(spec_has_door_0(opened_doors) == spec_has_door_0(ds)) by {
                if spec_has_door_0(ds) {
                    let k = choose|k: int| 0 <= k < ds.len() && (#[trigger] ds[k]).id == 0;
                    assert(opened_doors[k].id == 0);
                }
                if spec_has_door_0(opened_doors) {
                    let k = choose|k: int| 0 <= k < opened_doors.len() && (#[trigger] opened_doors[k]).id == 0;
                    assert(ds[k].id == 0);
                }
            }
            assert((u0 | 1u32) | 1u32 == u0 | 1u32) by (bit_vector);
            assert((l0 & !1u32) & !1u32 == l0 & !1u32) by (bit_vector);
        }
        let n = switches_len(&self.switches);
        let mut i: usize = 0;
        while i < n
            invariant
                n == ss.len(),
                i <= n,
                switches_ok(ss),
                enemies_ok(es),
                doors_ok(ds),
                killed == es.map_values(|e: Enemy| spec_killed(e)),
                killed.map_values(|e: Enemy| spec_killed(e)) == killed,
                opened_doors == ds.map_values(|d: Door| spec_door_0_opened(d)),
                opened_doors.map_values(|d: Door| spec_door_0_opened(d)) == opened_doors,
                spec_has_door_0(opened_doors) == spec_has_door_0(ds),
                (u0 | 1u32) | 1u32 == u0 | 1u32,
                (l0 & !1u32) & !1u32 == l0 & !1u32,
                self.wf(),
                switch_list(self.switches).len() == n,
                forall|k: int| 0 <= k < i ==> #[trigger] switch_list(self.switches)[k] == spec_switch_ticked(ss[k]),
                forall|k: int| i <= k < n ==> #[trigger] switch_list(self.switches)[k] == ss[k],
                self.switches_completed.0 == spec_completed_after(old(self).switches_completed.0, ss.take(i as int)),
                enemy_list(self.enemies) == (if spec_fires(ss.take(i as int), SwitchEvent::RemoveEnemies) { killed } else { es }),
                door_list(self.doors) == (if spec_fires(ss.take(i as int), SwitchEvent::OpenDoor0) { opened_doors } else { ds }),
                self.doors_unlocked.0 == (if spec_fires(ss.take(i as int), SwitchEvent::OpenDoor0) && spec_has_door_0(ds) { u0 | 1u32 } else { u0 }),
                self.doors_locked.0 == (if spec_fires(ss.take(i as int), SwitchEvent::OpenDoor0) && spec_has_door_0(ds) { l0 & !1u32 } else { l0 }),
                *self == (StageMap {
                    switches: self.switches,
                    switches_completed: self.switches_completed,
                    enemies: self.enemies,
                    doors: self.doors,
                    doors_unlocked: self.doors_unlocked,
                    doors_locked: self.doors_locked,
                    ..*old(self)
                }),
            decreases n - i,
        {
            let ghost before = switch_list(self.switches);
            let ghost t = ss.take(i as int);
            let ghost t1 = ss.take(i + 1);
            proof {
                assert(t1.drop_last() =~= t);
                assert(t1.last() == ss[i as int]);
                assert(ss[i as int].wf() && ss[i as int].id < 32);
                assert(spec_fires(t1, SwitchEvent::RemoveEnemies) == (spec_fires(t, SwitchEvent::RemoveEnemies)
                    || (ss[i as int].pending && spec_switch_event(ss[i as int]) == SwitchEvent::RemoveEnemies))) by {
                    if spec_fires(t1, SwitchEvent::RemoveEnemies) {
                        let k = choose|k: int| 0 <= k < t1.len() && (#[trigger] t1[k]).pending && spec_switch_event(t1[k]) == SwitchEvent::RemoveEnemies;
                        if k < i {
                            assert(t[k] == t1[k]);
                        }
                    }
                    if spec_fires(t, SwitchEvent::RemoveEnemies) {
                        let k = choose|k: int| 0 <= k < t.len() && (#[trigger] t[k]).pending && spec_switch_event(t[k]) == SwitchEvent::RemoveEnemies;
                        assert(t1[k] == t[k]);
                    }
                    if ss[i as int].pending && spec_switch_event(ss[i as int]) == SwitchEvent::RemoveEnemies {
                        assert(t1[i as int] == ss[i as int]);
                    }
                }
                assert(spec_fires(t1, SwitchEvent::OpenDoor0) == (spec_fires(t, SwitchEvent::OpenDoor0)
                    || (ss[i as int].pending && spec_switch_event(ss[i as int]) == SwitchEvent::OpenDoor0))) by {
                    if spec_fires(t1, SwitchEvent::OpenDoor0) {
                        let k = choose|k: int| 0 <= k < t1.len() && (#[trigger] t1[k]).pending && spec_switch_event(t1[k]) == SwitchEvent::OpenDoor0;
                        if k < i {
                            assert(t[k] == t1[k]);
                        }
                    }
                    if spec_fires(t, SwitchEvent::OpenDoor0) {
                        let k = choose|k: int| 0 <= k < t.len() && (#[trigger] t[k]).pending && spec_switch_event(t[k]) == SwitchEvent::OpenDoor0;
                        assert(t1[k] == t[k]);
                    }
                    if ss[i as int].pending && spec_switch_event(ss[i as int]) == SwitchEvent::OpenDoor0 {
                        assert(t1[i as int] == ss[i as int]);
                    }
                }
            }
            let sw = switches_get_mut(&mut self.switches, i);
            let id = sw.id;
            let ev = sw.trigger();
            proof {
                let after = switch_list(self.switches);
                assert forall|k: int| 0 <= k < after.len() implies (#[trigger] after[k]).wf() && after[k].id < 32 by {
                    if k != i {
                        assert(after[k] == before[k]);
                    }
                }
            }
            match ev {
                Some(e) => {
                    self.switches_completed.set(id);
                    match e {
                        SwitchEvent::RemoveEnemies => self.remove_enemies(),
                        SwitchEvent::OpenDoor0 => self.open_door_0(),
                    }
                },
                None => {},
            }
            i = i + 1;
        }
        proof {
            assert(ss.take(n as int) =~= ss);
            assert(switch_list(self.switches) =~= ss.map_values(|s: Switch| spec_switch_ticked(s)));
        }
    }

    /// The frame of projectile `i` on the stage. It animates; an explosion
    /// ends once played; a flying one moves along its trajectory over the
    /// area it sweeps (see `spec_flight_area`) and hits the first target there
    /// (see `spec_projectile_target`): a player's shot damages the first
    /// living enemy, or else makes the first untouched switch pending; an
    /// enemy shot hurts the active player, pushing them the way it flies.
    /// It then explodes on what it hit, is gone once off screen, and explodes
    /// on a closed door or on a wall: a map tile whose attributes hold bit
    /// `wall_bit` (see `spec_finish_flight`).
    pub fn update_projectile(&mut self, i: usize, player: &mut Player, wall_bit: u8)
        requires
            old(self).wf(),
            old(self).map_data.wf(),
            i < projectile_list(old(self).projectiles).len(),
            wall_bit < 8,
            old(player).wf(),
            coord_small(old(player).x as int),
            coord_small(old(player).y as int),
            projectile_ready(*old(self), i as int),
        ensures
            final(self).wf(),
            final(player).wf(),
            ({
                let ps = projectile_list(old(self).projectiles);
                let es = enemy_list(old(self).enemies);
                let ss = switch_list(old(self).switches);
                let p = ps[i as int];
                let u = p.sprite.spec_update();
                if p.status == ShotStatus::Flying {
                    let h = spec_flight_area(p);
                    let q = spec_flown(p);
                    let pl = if old(player).status is Dead { None } else { Some(old(player).spec_hitbox()) };
                    let t = spec_projectile_target(p.is_player, h, spec_shot_enemies(es), spec_shot_switches(ss, old(self).switches_completed.0), pl, (q.x - p.x) as i16);
                    let hit = t != ProjectileHit::Nothing;
                    let blocked = spec_door_blocks(door_list(old(self).doors), h)
                        || old(self).map_data.spec_any_bit(h.x + old(self).scroll_offset.0, h.y + old(self).scroll_offset.1, h.w as int, h.h as int, wall_bit);
                    &&& projectile_list(final(self).projectiles) == ps.update(i as int, spec_finish_flight(q, hit, blocked))
                    &&& enemy_list(final(self).enemies) == (match t {
                        ProjectileHit::Enemy(k) => es.update(k as int, crate::enemy::spec_enemy_hit(es[k as int], p.damage)),
                        _ => es,
                    })
                    &&& switch_list(final(self).switches) == (match t {
                        ProjectileHit::Switch(k) => ss.update(k as int, Switch { pending: true, ..ss[k as int] }),
                        _ => ss,
                    })
                    &&& *final(player) == (match t {
                        ProjectileHit::Player(d) => spec_player_hit(*old(player), d, p.damage),
                        _ => *old(player),
                    })
                } else {
                    &&& projectile_list(final(self).projectiles) == ps.update(i as int, (if p.status == ShotStatus::Dead {
                        Projectile { sprite: u, ..p }
                    } else {
                        Projectile { sprite: u, status: if u.spec_animation_finished() { ShotStatus::Dead } else { ShotStatus::Explosion }, ..p }
                    }))
                    &&& enemy_list(final(self).enemies) == es
                    &&& switch_list(final(self).switches) == ss
                    &&& *final(player) == *old(player)
                }
            }),
            *final(self) == (StageMap {
                projectiles: final(self).projectiles,
                enemies: final(self).enemies,
                switches: final(self).switches,
                ..*old(self)
            }),
    {
        let ghost ps = projectile_list(self.projectiles);
        let ghost es = enemy_list(self.enemies);
        let ghost ss = switch_list(self.switches);
        let ghost p = ps[i as int];
        proof {
            assert(p.wf());
        }
        let (x0, is_player, damage) = {
            let pr = projectiles_get(&self.projectiles, i);
            (pr.x, pr.is_player, pr.damage)
        };
        let area = {
            let pr = projectiles_get_mut(&mut self.projectiles, i);
            pr.advance()
        };
        proof {
            let after = projectile_list(self.projectiles);
            assert forall|k: int| 0 <= k < after.len() implies (#[trigger] after[k]).wf() by {
                if k != i {
                    assert(after[k] == ps[k]);
                }
            }
        }
        let h = match area {
            Some(h) => h,
            None => return,
        };
        let x1 = projectiles_get(&self.projectiles, i).x;
        let enemies = self.shot_targets();
        let switch_flags = self.switch_targets();
        let mut switches: Vec<(bool, Hitbox)> = Vec::new();
        let mut k: usize = 0;
        while k < switch_flags.len()
            invariant
                k <= switch_flags@.len(),
                switch_flags@.len() == ss.len(),
                ss == switch_list(self.switches),
                forall|j: int| 0 <= j < switch_flags@.len() ==> #[trigger] switch_flags@[j] == (
                    bit_set(self.switches_completed.0, ss[j].id as u32) || ss[j].pending,
                    Hitbox { x: ss[j].x, y: ss[j].y, w: crate::switch::WIDTH, h: crate::switch::HEIGHT },
                ),
                switches@ == spec_shot_switches(ss, self.switches_completed.0).take(k as int),
            decreases switch_flags@.len() - k,
        {
            let (done, b) = switch_flags[k];
            switches.push((!done, b));
            k = k + 1;
            assert(switches@ =~= spec_shot_switches(ss, self.switches_completed.0).take(k as int));
        }
        assert(switches@ =~= spec_shot_switches(ss, self.switches_completed.0));
        assert(enemies@ =~= spec_shot_enemies(es));
        let pl = if player.is_active() { Some(player.hitbox()) } else { None };
        proof {
            assert forall|j: int| 0 <= j < enemies@.len() implies box_fits((#[trigger] enemies@[j]).1) by {
                assert(es[j].wf());
            }
            assert forall|j: int| 0 <= j < switches@.len() implies box_fits((#[trigger] switches@[j]).1) by {
                assert(ss[j].wf());
            }
        }
        let target = projectile_target(is_player, h, &enemies, &switches, pl, x1 - x0);
        let hit = match target {
            ProjectileHit::Enemy(e) => {
                proof {
                    crate::projectile::lemma_target_in_range(is_player, h, enemies@, switches@, pl, (x1 - x0) as i16);
                }
                let en = enemies_get_mut(&mut self.enemies, e);
                en.on_hit(damage);
                true
            },
            ProjectileHit::Switch(s) => {
                proof {
                    crate::projectile::lemma_target_in_range(is_player, h, enemies@, switches@, pl, (x1 - x0) as i16);
                }
                let sw = switches_get_mut(&mut self.switches, s);
                sw.pending = true;
                true
            },
            ProjectileHit::Player(d) => {
                player.on_hit(d, damage);
                true
            },
            ProjectileHit::Nothing => false,
        };
        proof {
            let ea = enemy_list(self.enemies);
            assert forall|k: int| 0 <= k < ea.len() implies (#[trigger] ea[k]).wf() && ea[k].id < 32 by {
                assert(es[k].wf());
            }
            let sa = switch_list(self.switches);
            assert forall|k: int| 0 <= k < sa.len() implies (#[trigger] sa[k]).wf() && sa[k].id < 32 by {
                assert(ss[k].wf());
            }
        }
        let door = self.door_blocks(h);
        let tiles = self.map_data.get_hit_tiles(&h, self.scroll_offset);
        let wall = tiles.touches_tile(1u8 << wall_bit);
        proof {
            assert(has_bit(tiles.any_hit_bitmask, wall_bit) == wall);
        }
        let blocked = door || wall;
        let ghost q = projectile_list(self.projectiles)[i as int];
        proof {
            assert(q == spec_flown(p));
            assert(h == spec_flight_area(p));
            assert(x1 == q.x && x0 == p.x);
            assert(target == spec_projectile_target(p.is_player, h, spec_shot_enemies(es), spec_shot_switches(ss, old(self).switches_completed.0), pl, (q.x - p.x) as i16));
        }
        let pr = projectiles_get_mut(&mut self.projectiles, i);
        pr.finish_flight(hit, blocked);
        proof {
            let after = projectile_list(self.projectiles);
            assert forall|k: int| 0 <= k < after.len() implies (#[trigger] after[k]).wf() by {
                if k != i {
                    assert(after[k] == ps[k]);
                }
            }
        }
    }

    /// The projectiles' frames (see `update_projectile`), in order: each
    /// sees the stage and the player as the projectiles before it left them.
    /// `cull_projectiles` then drops the finished ones.
    pub fn update_projectiles(&mut self, player: &mut Player, wall_bit: u8)
        requires
            old(self).wf(),
            old(self).map_data.wf(),
            wall_bit < 8,
            old(player).wf(),
            coord_small(old(player).x as int),
            coord_small(old(player).y as int),
            forall|i: int| 0 <= i < projectile_list(old(self).projectiles).len() ==> #[trigger] projectile_ready(*old(self), i),
        ensures
            final(self).wf(),
            final(player).wf(),
            exists|ms: Seq<StageMap>, pls: Seq<Player>| {
                &&& #[trigger] projectile_run(*old(self), *old(player), wall_bit, ms, pls)
                &&& ms.last() == *final(self)
                &&& pls.last() == *final(player)
            },
    {
        let ghost m0 = *self;
        let ghost pl0 = *player;
        let ghost ps0 = projectile_list(self.projectiles);
        let ghost mut ms: Seq<StageMap> = seq![*self];
        let ghost mut pls: Seq<Player> = seq![*player];
        let n = projectiles_len(&self.projectiles);
        let mut i: usize = 0;
        while i < n
            invariant
                n == ps0.len(),
                ps0 == projectile_list(m0.projectiles),
                i <= n,
                self.wf(),
                self.map_data == m0.map_data,
                self.scroll_offset == m0.scroll_offset,
                m0.map_data.wf(),
                wall_bit < 8,
                player.wf(),
                player.x == pl0.x,
                player.y == pl0.y,
                coord_small(pl0.x as int),
                coord_small(pl0.y as int),
                projectile_list(self.projectiles).len() == n,
                forall|j: int| i <= j < n ==> #[trigger] projectile_list(self.projectiles)[j] == ps0[j],
                forall|j: int| 0 <= j < n ==> #[trigger] projectile_ready(m0, j),
                ms.len() == i + 1,
                pls.len() == i + 1,
                ms[0] == m0,
                pls[0] == pl0,
                ms[i as int] == *self,
                pls[i as int] == *player,
                forall|k: int| 0 <= k < i ==> #[trigger] projectile_step(ms[k], pls[k], k, wall_bit, ms[k + 1], pls[k + 1]),
            decreases n - i,
        {
            proof {
                assert(projectile_list(self.projectiles)[i as int] == ps0[i as int]);
                assert(projectile_ready(m0, i as int));
                assert(projectile_ready(*self, i as int));
            }
            let ghost before = projectile_list(self.projectiles);
            let ghost m_i = *self;
            let ghost p_i = *player;
            self.update_projectile(i, player, wall_bit);
            proof {
                assert(projectile_step(m_i, p_i, i as int, wall_bit, *self, *player));
                ms = ms.push(*self);
                pls = pls.push(*player);
                let after = projectile_list(self.projectiles);
                assert forall|j: int| i + 1 <= j < n implies #[trigger] after[j] == ps0[j] by {
                    assert(after[j] == before[j]);
                }
                assert forall|k: int| 0 <= k < i + 1 implies #[trigger] projectile_step(ms[k], pls[k], k, wall_bit, ms[k + 1], pls[k + 1]) by {
                    if k < i {
                        assert(ms[k] == ms.drop_last()[k] && ms[k + 1] == ms.drop_last()[k + 1]);
                    }
                }
            }
            i = i + 1;
        }
        proof {
            assert(projectile_run(m0, pl0, wall_bit, ms, pls));
        }
    }

    /// The stage's frame after the enemies: the switches act, the doors
    /// tick, the projectiles fly and the finished ones go (see
    /// `rest_frame`). Returns which doors locked themselves.
    pub fn update_rest(&mut self, player: &mut Player, wall_bit: u8) -> (r: Vec<bool>)
        requires
            old(self).wf(),
            old(self).map_data.wf(),
            old(player).wf(),
            coord_small(old(player).x as int),
            coord_small(old(player).y as int),
            coord_small(old(player).x + 8),
            coord_small(old(player).y + 8),
            wall_bit < 8,
            forall|i: int| 0 <= i < projectile_list(old(self).projectiles).len() ==> #[trigger] projectile_ready(*old(self), i),
        ensures
            final(self).wf(),
            final(player).wf(),
            rest_frame_done(*old(self), *old(player), wall_bit, r@, *final(self), *final(player)),
    {
        let ghost m2 = *self;
        let ghost pl1 = *player;
        self.update_switches();
        let ghost m3 = *self;
        proof {
            assert(switches_ticked(m2, m3));
        }
        let ph = player.hitbox();
        let active = player.is_active();
        let locks = self.update_doors(ph, active);
        let ghost m4 = *self;
        proof {
            assert(doors_ticked(m3, pl1.spec_hitbox(), !(pl1.status is Dead), m4, locks@));
            assert(projectile_list(m4.projectiles) == projectile_list(m2.projectiles));
            assert forall|i: int| 0 <= i < projectile_list(m4.projectiles).len() implies #[trigger] projectile_ready(m4, i) by {
                assert(projectile_ready(m2, i));
            }
        }
        self.update_projectiles(player, wall_bit);
        let ghost m5 = *self;
        let ghost pl5 = *player;
        self.cull_projectiles();
        proof {
            let (ms, pls) = choose|ms: Seq<StageMap>, pls: Seq<Player>| {
                &&& #[trigger] projectile_run(m4, pl1, wall_bit, ms, pls)
                &&& ms.last() == m5
                &&& pls.last() == pl5
            };
            assert(rest_frame(m2, pl1, wall_bit, locks@, m3, m4, ms, pls, *self));
            assert(pls.last() == *player);
            assert(rest_frame_done(m2, pl1, wall_bit, locks@, *self, *player));
        }
        locks
    }

    /// The tick of enemy `i` (see `Enemy::update`), with the walk step `walk`
    /// the stage's walk data and the level geometry allow, on frame `frame`:
    /// an enemy touching the player hurts them, and an enemy that is
    /// defeated (dying) is recorded as defeated on the stage, so that it does
    /// not come back. Returns the tick, whose shot the caller fires and whose
    /// finished death sequence the game records.
    pub fn update_enemy(&mut self, i: usize, walk: (i16, i16), frame: u32, player: &mut Player) -> (r: EnemyTick)
        requires
            old(self).wf(),
            i < enemy_list(old(self).enemies).len(),
            enemy_list(old(self).enemies)[i as int].status matches Status::Dying { cooldown } ==> cooldown < u16::MAX,
            old(player).wf(),
            old(player).x + 8 <= i16::MAX,
            old(player).y + 8 <= i16::MAX,
            enemy_tick_ok(enemy_list(old(self).enemies)[i as int], walk, frame, old(player).x, old(player).y, old(player).spec_hitbox()),
        ensures
            final(self).wf(),
            final(player).wf(),
            ({
                let es = enemy_list(old(self).enemies);
                let e1 = enemy_list(final(self).enemies)[i as int];
                &&& enemy_list(final(self).enemies) == es.update(i as int, e1)
                &&& enemy_tick(es[i as int], e1, walk, frame, old(player).x, old(player).y, old(player).spec_hitbox(), r)
                &&& *final(player) == (match r.hit_player {
                    Some(h) => spec_player_hit(*old(player), h.direction, h.damage),
                    None => *old(player),
                })
                &&& final(self).enemies_defeated.0 == (if r.defeated {
                    old(self).enemies_defeated.0 | (1u32 << (es[i as int].id as u32))
                } else {
                    old(self).enemies_defeated.0
                })
                &&& *final(self) == (StageMap { enemies: final(self).enemies, enemies_defeated: final(self).enemies_defeated, ..*old(self) })
            }),
    {
        let ghost es = enemy_list(self.enemies);
        proof {
            assert(es[i as int].wf() && es[i as int].id < 32);
        }
        let id = enemies_get(&self.enemies, i).id;
        let ph = player.hitbox();
        let e = enemies_get_mut(&mut self.enemies, i);
        let tick = e.update(walk, frame, player.x, player.y, ph);
        proof {
            let after = enemy_list(self.enemies);
            assert forall|k: int| 0 <= k < after.len() implies (#[trigger] after[k]).wf() && after[k].id < 32 by {
                if k != i {
                    assert(after[k] == es[k]);
                }
            }
        }
        match tick.hit_player {
            Some(h) => player.on_hit(h.direction, h.damage),
            None => {},
        }
        if tick.defeated {
            self.enemies_defeated.set(id);
        }
        tick
    }

    /// The doors' ticks of a frame (see `update_door`), in order, with the
    /// player's box `player`: each door sees the unlocked mask as the doors
    /// before it left it. Returns, per door, whether it locked itself.
    pub fn update_doors(&mut self, player: Hitbox, active: bool) -> (r: Vec<bool>)
        requires
            old(self).wf(),
            hitbox_small(player),
        ensures
            final(self).wf(),
            ({
                let ds = door_list(old(self).doors);
                let ds1 = door_list(final(self).doors);
                &&& r@.len() == ds.len()
                &&& ds1.len() == ds.len()
                &&& forall|i: int| 0 <= i < ds.len() ==> door_tick(ds[i], #[trigger] ds1[i], player, active,
                    bit_set(spec_unlocked_after(old(self).doors_unlocked.0, ds, r@.take(i)), ds[i].id as u32), r@[i])
                &&& final(self).doors_unlocked.0 == spec_unlocked_after(old(self).doors_unlocked.0, ds, r@)
                &&& final(self).doors_locked.0 == spec_locked_after(old(self).doors_locked.0, ds, r@)
                &&& *final(self) == (StageMap {
                    doors: final(self).doors,
                    doors_unlocked: final(self).doors_unlocked,
                    doors_locked: final(self).doors_locked,
                    ..*old(self)
                })
            }),
    {
        let ghost ds = door_list(self.doors);
        let n = doors_len(&self.doors);
        let mut locks: Vec<bool> = Vec::new();
        let mut i: usize = 0;
        while i < n
            invariant
                n == ds.len(),
                i <= n,
                self.wf(),
                hitbox_small(player),
                locks@.len() == i,
                door_list(self.doors).len() == n,
                forall|j: int| 0 <= j < i ==> door_tick(ds[j], #[trigger] door_list(self.doors)[j], player, active,
                    bit_set(spec_unlocked_after(old(self).doors_unlocked.0, ds, locks@.take(j)), ds[j].id as u32), locks@[j]),
                forall|j: int| i <= j < n ==> #[trigger] door_list(self.doors)[j] == ds[j],
                self.doors_unlocked.0 == spec_unlocked_after(old(self).doors_unlocked.0, ds, locks@),
                self.doors_locked.0 == spec_locked_after(old(self).doors_locked.0, ds, locks@),
                *self == (StageMap {
                    doors: self.doors,
                    doors_unlocked: self.doors_unlocked,
                    doors_locked: self.doors_locked,
                    ..*old(self)
                }),
            decreases n - i,
        {
            let ghost before = door_list(self.doors);
            let ghost l0 = locks@;
            proof {
                assert(before[i as int] == ds[i as int]);
            }
            let locked = self.update_door(i, player, active);
            locks.push(locked);
            proof {
                let after = door_list(self.doors);
                assert(locks@.drop_last() =~= l0);
                assert(locks@.last() == locked);
                assert forall|j: int| 0 <= j < i + 1 implies door_tick(ds[j], #[trigger] after[j], player, active,
                    bit_set(spec_unlocked_after(old(self).doors_unlocked.0, ds, locks@.take(j)), ds[j].id as u32), locks@[j]) by {
                    assert(locks@.take(j) =~= l0.take(j));
                    if j < i {
                        assert(after[j] == before[j]);
                    } else {
                        assert(l0.take(j) =~= l0);
                    }
                }
                assert forall|j: int| i + 1 <= j < n implies #[trigger] after[j] == ds[j] by {
                    assert(after[j] == before[j]);
                }
            }
            i = i + 1;
        }
        assert(locks@.take(n as int) =~= locks@);
        locks
    }

    /// The enemies' ticks of a frame (see `update_enemy`), in order, enemy
    /// `i` walking by `walks[i]`: each hits the player as its tick says, and
    /// the defeated ones are recorded. Returns the ticks; `cull_enemies` then
    /// drops the enemies whose death sequence ended.
    pub fn update_enemies(&mut self, walks: &Vec<(i16, i16)>, frame: u32, player: &mut Player) -> (r: Vec<EnemyTick>)
        requires
            old(self).wf(),
            walks@.len() == enemy_list(old(self).enemies).len(),
            old(player).wf(),
            old(player).x + 8 <= i16::MAX,
            old(player).y + 8 <= i16::MAX,
            forall|i: int| 0 <= i < walks@.len() ==> {
                let e = #[trigger] enemy_list(old(self).enemies)[i];
                &&& e.status matches Status::Dying { cooldown } ==> cooldown < u16::MAX
                &&& enemy_tick_ok(e, walks@[i], frame, old(player).x, old(player).y, old(player).spec_hitbox())
            },
        ensures
            final(self).wf(),
            final(player).wf(),
            ({
                let es = enemy_list(old(self).enemies);
                let es1 = enemy_list(final(self).enemies);
                &&& r@.len() == es.len()
                &&& es1.len() == es.len()
                &&& forall|i: int| 0 <= i < es.len() ==> enemy_tick(es[i], #[trigger] es1[i], walks@[i], frame,
                    old(player).x, old(player).y, old(player).spec_hitbox(), r@[i])
                &&& *final(player) == spec_player_after_ticks(*old(player), r@)
                &&& final(player).x == old(player).x && final(player).y == old(player).y
                &&& final(self).enemies_defeated.0 == spec_defeated_after(old(self).enemies_defeated.0, es, r@)
                &&& *final(self) == (StageMap { enemies: final(self).enemies, enemies_defeated: final(self).enemies_defeated, ..*old(self) })
            }),
    {
        let ghost es = enemy_list(self.enemies);
        let ghost p0 = *player;
        let n = enemies_len(&self.enemies);
        let mut ticks: Vec<EnemyTick> = Vec::new();
        let mut i: usize = 0;
        while i < n
            invariant
                n == es.len(),
                walks@.len() == n,
                i <= n,
                self.wf(),
                player.wf(),
                player.x == p0.x,
                player.y == p0.y,
                p0.x + 8 <= i16::MAX,
                p0.y + 8 <= i16::MAX,
                ticks@.len() == i,
                enemy_list(self.enemies).len() == n,
                forall|j: int| 0 <= j < i ==> enemy_tick(es[j], #[trigger] enemy_list(self.enemies)[j], walks@[j], frame,
                    p0.x, p0.y, p0.spec_hitbox(), ticks@[j]),
                forall|j: int| i <= j < n ==> #[trigger] enemy_list(self.enemies)[j] == es[j],
                forall|j: int| 0 <= j < n ==> {
                    let e = #[trigger] es[j];
                    &&& e.status matches Status::Dying { cooldown } ==> cooldown < u16::MAX
                    &&& enemy_tick_ok(e, walks@[j], frame, p0.x, p0.y, p0.spec_hitbox())
                },
                *player == spec_player_after_ticks(p0, ticks@),
                self.enemies_defeated.0 == spec_defeated_after(old(self).enemies_defeated.0, es, ticks@),
                *self == (StageMap { enemies: self.enemies, enemies_defeated: self.enemies_defeated, ..*old(self) }),
            decreases n - i,
        {
            let ghost before = enemy_list(self.enemies);
            let ghost t0 = ticks@;
            proof {
                assert(before[i as int] == es[i as int]);
            }
            let tick = self.update_enemy(i, walks[i], frame, player);
            ticks.push(tick);
            proof {
                let after = enemy_list(self.enemies);
                assert(ticks@.drop_last() =~= t0);
                assert(ticks@.last() == tick);
                assert forall|j: int| 0 <= j < i + 1 implies enemy_tick(es[j], #[trigger] after[j], walks@[j], frame,
                    p0.x, p0.y, p0.spec_hitbox(), ticks@[j]) by {
                    if j < i {
                        assert(after[j] == before[j]);
                    }
                }
                assert forall|j: int| i + 1 <= j < n implies #[trigger] after[j] == es[j] by {
                    assert(after[j] == before[j]);
                }
            }
            i = i + 1;
        }
        ticks
    }

    /// Drops the player's projectiles (when the shooter switches guns).
    pub fn drop_player_projectiles(&mut self)
        requires
            old(self).wf(),
        ensures
            final(self).wf(),
            *final(self) == (StageMap { projectiles: final(self).projectiles, ..*old(self) }),
            projectile_list(final(self).projectiles) == spec_enemy_shots(projectile_list(old(self).projectiles)),
    {
        let ghost ps = projectile_list(self.projectiles);
        proof {
            lemma_enemy_shots(ps);
        }
        let mut kept = projectiles_new();
        let n = projectiles_len(&self.projectiles);
        let mut i: usize = 0;
        while i < n
            invariant
                n == ps.len(),
                n <= ENTITY_SLOTS,
                i <= n,
                projectiles_ok(ps),
                projectile_list(self.projectiles) == ps.skip(i as int),
                projectile_list(kept) == spec_enemy_shots(ps.take(i as int)),
                *self == (StageMap { projectiles: self.projectiles, ..*old(self) }),
            decreases n - i,
        {
            proof {
                lemma_enemy_shots(ps.take(i as int));
                assert(ps.take(i + 1).drop_last() =~= ps.take(i as int));
                assert(ps.skip(i as int)[0] == ps[i as int]);
            }
            let p = projectiles_remove(&mut self.projectiles, 0);
            assert(ps.skip(i as int).remove(0) =~= ps.skip(i + 1));
            if !p.is_player {
                let _ = projectiles_push(&mut kept, p);
            }
            i = i + 1;
        }
        assert(ps.take(n as int) =~= ps);
        self.projectiles = kept;
    }

    /// Adds a projectile; returns false (dropping it) when the list is full.
    pub fn add_projectile(&mut self, p: Projectile) -> (r: bool)
        requires
            old(self).wf(),
            p.wf(),
        ensures
            final(self).wf(),
            r == (projectile_list(old(self).projectiles).len() < ENTITY_SLOTS),
            *final(self) == (StageMap { projectiles: final(self).projectiles, ..*old(self) }),
            projectile_list(final(self).projectiles) == (if r {
                projectile_list(old(self).projectiles).push(p)
            } else {
                projectile_list(old(self).projectiles)
            }),
    {
        let ghost ps = projectile_list(self.projectiles);
        let r = projectiles_push(&mut self.projectiles, p);
        assert(projectiles_ok(projectile_list(self.projectiles))) by {
            assert forall|i: int| 0 <= i < projectile_list(self.projectiles).len() implies (#[trigger] projectile_list(self.projectiles)[i]).wf() by {
                if i < ps.len() {
                    assert(ps[i].wf());
                }
            }
        }
        r.is_ok()
    }

    /// Whether a door placed at stage position (x, y) is due to be loaded
    /// with the scroll (dx, dy): it is near the screen and not loaded yet.
    pub fn should_load_door(&self, x: i16, y: i16, id: u16, dx: i16, dy: i16) -> (r: bool)
        requires
            id < 32,
            map_coord_ok(x as int),
            map_coord_ok(y as int),
            -16334 <= dx <= 16334,
            -16334 <= dy <= 16334,
        ensures
            r == (!spec_off_screen(128 + x + dx, 128 + y + dy) && !bit_set(self.doors_loaded.0, id as u32)),
    {
        !is_off_screen(128 + x + dx, 128 + y + dy) && !self.doors_loaded.is_set(id)
    }

    /// Loads a door placed at stage position (x, y) under the scroll
    /// (dx, dy): it is marked loaded, is locked when placed locked or locked
    /// behind the player earlier (unless unlocked with a key), and stands open
    /// when its keyhole was unlocked.
    pub fn add_door(&mut self, x: i16, y: i16, properties: &DoorProperties, dx: i16, dy: i16, sprite: BigSprite)
        requires
            old(self).wf(),
            properties.id < 32,
            door_list(old(self).doors).len() < ENTITY_SLOTS,
            map_coord_ok(x + dx),
            map_coord_ok(y + dy),
            sprite.wf(),
            sprite.anims@.len() > res::DOOR_ANIM_OPEN,
        ensures
            final(self).wf(),
            *final(self) == (StageMap { doors: final(self).doors, doors_loaded: final(self).doors_loaded, ..*old(self) }),
            final(self).doors_loaded.0 == old(self).doors_loaded.0 | (1u32 << (properties.id as u32)),
            door_list(final(self).doors).len() == door_list(old(self).doors).len() + 1,
            door_list(final(self).doors).drop_last() == door_list(old(self).doors),
            door_loaded_as(door_list(final(self).doors).last(), *old(self), x + dx, y + dy, *properties, sprite),
    {
        let ghost ds = door_list(self.doors);
        self.doors_loaded.set(properties.id);
        let locked = (properties.locked || self.doors_locked.is_set(properties.id)) && !self.doors_unlocked.is_set(properties.id);
        let is_open = properties.locked && self.doors_unlocked.is_set(properties.id);
        let door = Door::new(x + dx, y + dy, properties, is_open, locked, sprite);
        let _ = doors_push(&mut self.doors, door);
        assert(door_list(self.doors).drop_last() =~= ds);
        assert(doors_ok(door_list(self.doors))) by {
            assert forall|i: int| 0 <= i < door_list(self.doors).len() implies (#[trigger] door_list(self.doors)[i]).wf() && door_list(self.doors)[i].id < 32 by {
                if i < ds.len() {
                    assert(ds[i].wf());
                }
            }
        }
    }

    /// Whether a switch placed at stage position (x, y) is due to be loaded.
    pub fn should_load_switch(&self, x: i16, y: i16, id: u16, dx: i16, dy: i16) -> (r: bool)
        requires
            id < 32,
            map_coord_ok(x as int),
            map_coord_ok(y as int),
            -16334 <= dx <= 16334,
            -16334 <= dy <= 16334,
        ensures
            r == (!spec_off_screen(128 + x + dx, 128 + y + dy) && !bit_set(self.switches_loaded.0, id as u32)),
    {
        !is_off_screen(128 + x + dx, 128 + y + dy) && !self.switches_loaded.is_set(id)
    }

    /// Loads a switch: it is marked loaded and shows whether its event was
    /// completed.
    pub fn add_switch(&mut self, x: i16, y: i16, properties: &SwitchProperties, dx: i16, dy: i16, sprite: BigSprite)
        requires
            old(self).wf(),
            properties.id < 32,
            properties.event_id < EVENT_COUNT,
            switch_list(old(self).switches).len() < ENTITY_SLOTS,
            map_coord_ok(x + dx),
            map_coord_ok(y + dy),
            sprite.wf(),
            sprite.anims@.len() > res::SWITCH_ANIM_ON,
        ensures
            final(self).wf(),
            *final(self) == (StageMap { switches: final(self).switches, switches_loaded: final(self).switches_loaded, ..*old(self) }),
            final(self).switches_loaded.0 == old(self).switches_loaded.0 | (1u32 << (properties.id as u32)),
            switch_list(final(self).switches).len() == switch_list(old(self).switches).len() + 1,
            switch_list(final(self).switches).drop_last() == switch_list(old(self).switches),
            switch_loaded_as(switch_list(final(self).switches).last(), *old(self), x + dx, y + dy, *properties, sprite),
    {
        let ghost ss = switch_list(self.switches);
        self.switches_loaded.set(properties.id);
        let completed = self.switches_completed.is_set(properties.id);
        let sw = Switch::new(x + dx, y + dy, properties, completed, sprite);
        let _ = switches_push(&mut self.switches, sw);
        assert(switch_list(self.switches).drop_last() =~= ss);
        assert(switches_ok(switch_list(self.switches))) by {
            assert forall|i: int| 0 <= i < switch_list(self.switches).len() implies (#[trigger] switch_list(self.switches)[i]).wf() && switch_list(self.switches)[i].id < 32 by {
                if i < ss.len() {
                    assert(ss[i].wf());
                }
            }
        }
    }

    /// Whether an enemy placed at stage position (x, y) is due to be loaded:
    /// not a miniboss already defeated in this game, not defeated on this
    /// stage, near the screen and not loaded yet.
    pub fn should_load_enemy(
        &self,
        enemy_type: EnemyType,
        x: i16,
        y: i16,
        properties: &EnemyProperties,
        dx: i16,
        dy: i16,
        defeated_minibosses: u32,
    ) -> (r: bool)
        requires
            properties.id < 32,
            map_coord_ok(x as int),
            map_coord_ok(y as int),
            -16334 <= dx <= 16334,
            -16334 <= dy <= 16334,
        ensures
            r == (!(properties.flags is Some && defeated_minibosses & (1u32 << res::spec_enemy_index(enemy_type)) != 0)
                && !bit_set(self.enemies_defeated.0, properties.id as u32)
                && !spec_off_screen(128 + x + dx, 128 + y + dy)
                && !bit_set(self.enemies_loaded.0, properties.id as u32)),
    {
        if properties.flags.is_some() && defeated_minibosses & enemy_type.defeat_bit() != 0 {
            return false;
        }
        !self.enemies_defeated.is_set(properties.id)
            && !is_off_screen(128 + x + dx, 128 + y + dy)
            && !self.enemies_loaded.is_set(properties.id)
    }

    /// Loads an enemy with its kind's `base_stats`: it is marked loaded.
    pub fn add_enemy(
        &mut self,
        enemy_type: EnemyType,
        x: i16,
        y: i16,
        properties: &EnemyProperties,
        base_stats: Stats,
        dx: i16,
        dy: i16,
        sprite: BigSprite,
    )
        requires
            old(self).wf(),
            properties.id < 32,
            enemy_list(old(self).enemies).len() < ENTITY_SLOTS,
            map_coord_ok(x + dx),
            map_coord_ok(y + dy),
            -256 <= base_stats.hitbox.x <= 256,
            -256 <= base_stats.hitbox.y <= 256,
            0 <= base_stats.hitbox.w <= 256,
            0 <= base_stats.hitbox.h <= 256,
            spec_apply_properties(base_stats, *properties).speed > 0,
            sprite.wf(),
            sprite.anims@.len() > res::ENEMY_ANIM_SHOOT,
        ensures
            final(self).wf(),
            *final(self) == (StageMap { enemies: final(self).enemies, enemies_loaded: final(self).enemies_loaded, ..*old(self) }),
            final(self).enemies_loaded.0 == old(self).enemies_loaded.0 | (1u32 << (properties.id as u32)),
            enemy_list(final(self).enemies).len() == enemy_list(old(self).enemies).len() + 1,
            enemy_list(final(self).enemies).drop_last() == enemy_list(old(self).enemies),
            enemy_loaded_as(enemy_list(final(self).enemies).last(), enemy_type, x + dx, y + dy, *properties, base_stats),
    {
        let ghost es = enemy_list(self.enemies);
        self.enemies_loaded.set(properties.id);
        let e = Enemy::new(enemy_type, x + dx, y + dy, properties, base_stats, sprite);
        let _ = enemies_push(&mut self.enemies, e);
        assert(enemy_list(self.enemies).drop_last() =~= es);
        assert(enemies_ok(enemy_list(self.enemies))) by {
            assert forall|i: int| 0 <= i < enemy_list(self.enemies).len() implies (#[trigger] enemy_list(self.enemies)[i]).wf() && enemy_list(self.enemies)[i].id < 32 by {
                if i < es.len() {
                    assert(es[i].wf());
                }
            }
        }
    }

    /// The flags earned for the solved stages (see `spec_flags_for_maps`).
    pub fn get_flags_for_maps(
        forest_solved: bool,
        volcano_solved: bool,
        spaceship_solved: bool,
        arctic_solved: bool,
        boss_solved: bool,
        stage_flags: &Vec<Vec<Option<u16>>>,
    ) -> (r: u16)
        requires
            stage_flags@.len() == res::MAP_COUNT,
            spec_flags_for_maps(seq![forest_solved, volcano_solved, spaceship_solved, arctic_solved, boss_solved],
                stage_flags@.map_values(|v: Vec<Option<u16>>| v@)) <= u16::MAX,
        ensures
            r == spec_flags_for_maps(seq![forest_solved, volcano_solved, spaceship_solved, arctic_solved, boss_solved],
                stage_flags@.map_values(|v: Vec<Option<u16>>| v@)),
    {
        let ghost fl = stage_flags@.map_values(|v: Vec<Option<u16>>| v@);
        let solved = [forest_solved, volcano_solved, spaceship_solved, arctic_solved, boss_solved];
        let ghost sv = seq![forest_solved, volcano_solved, spaceship_solved, arctic_solved, boss_solved];
        assert(solved@ == sv);
        let mut captured: u16 = 0;
        let mut i: usize = 0;
        while i < 5
            invariant
                i <= 5,
                solved@ == sv,
                stage_flags@.len() == 5,
                fl == stage_flags@.map_values(|v: Vec<Option<u16>>| v@),
                spec_flags_for_maps(sv, fl) <= u16::MAX,
                captured == spec_flags_for_maps(sv.take(i as int), fl),
            decreases 5 - i,
        {
            proof {
                lemma_flags_prefix(sv, fl, (i + 1) as int);
                assert(sv.take(i + 1).drop_last() =~= sv.take(i as int));
            }
            if solved[i] {
                let c = flag_count(&stage_flags[i]);
                captured = captured + c;
            }
            i = i + 1;
        }
        assert(sv.take(5) =~= sv);
        captured
    }

    /// One scroll step of at most a tile per axis: moves the scroll offset
    /// and the plane window by (-dx, -dy) and returns the tiles it exposes.
    pub fn scroll_tiles_step(&mut self, dx: i16, dy: i16) -> (r: TileLoads)
        requires
            -8 <= dx <= 8,
            -8 <= dy <= 8,
            coord_small(old(self).scroll_offset.0 as int),
            coord_small(old(self).scroll_offset.1 as int),
        ensures
            *final(self) == (StageMap {
                scroll_offset: ((old(self).scroll_offset.0 - dx) as i16, (old(self).scroll_offset.1 - dy) as i16),
                plane_window: final(self).plane_window,
                ..*old(self)
            }),
            final(self).plane_window.spec_scroll() == ((old(self).plane_window.spec_scroll().0 - dx) % 512,
                (old(self).plane_window.spec_scroll().1 - dy) % 512),
            r.h_scroll == -final(self).plane_window.spec_scroll().0,
            r.v_scroll == final(self).plane_window.spec_scroll().1,
            (r.columns.0 as int, r.columns.1 as int) == spec_tile_span(old(self).scroll_offset.0 - dx, dx as int, crate::map_data::WIDTH as int),
            (r.rows.0 as int, r.rows.1 as int) == spec_tile_span(old(self).scroll_offset.1 - dy, dy as int, crate::map_data::HEIGHT as int),
            r.column_addr.0 == final(self).plane_window.spec_scroll().0 / 8 + (if dx < 0 { crate::map_data::WIDTH as int } else { 0 }),
            r.column_addr.1 == final(self).plane_window.spec_scroll().1 / 8,
            r.row_addr.0 == final(self).plane_window.spec_scroll().0 / 8,
            r.row_addr.1 == final(self).plane_window.spec_scroll().1 / 8 + (if dy < 0 { crate::map_data::HEIGHT as int } else { 0 }),
    {
        self.scroll_offset = (self.scroll_offset.0 - dx, self.scroll_offset.1 - dy);
        self.plane_window.scroll(-dx, -dy);
        let offs = self.plane_window.current_scroll();
        let h_scroll = -(offs.0 as i16);
        let v_scroll = offs.1 as i16;
        let mut start_x = crate::map_data::div_i16(self.scroll_offset.0, 8);
        let mut end_x = crate::map_data::div_i16(self.scroll_offset.0 + dx, 8);
        let mut column_addr = self.plane_window.vram_address();
        if dx < 0 {
            let s = start_x;
            start_x = crate::map_data::WIDTH as i16 + end_x + 1;
            end_x = crate::map_data::WIDTH as i16 + s + 1;
            column_addr.0 = column_addr.0 + crate::map_data::WIDTH as u16;
        }
        let mut start_y = crate::map_data::div_i16(self.scroll_offset.1, 8);
        let mut end_y = crate::map_data::div_i16(self.scroll_offset.1 + dy, 8);
        let mut row_addr = self.plane_window.vram_address();
        if dy < 0 {
            let s = start_y;
            start_y = crate::map_data::HEIGHT as i16 + end_y + 1;
            end_y = crate::map_data::HEIGHT as i16 + s + 1;
            row_addr.1 = row_addr.1 + crate::map_data::HEIGHT as u16;
        }
        TileLoads { h_scroll, v_scroll, columns: (start_x, end_x), column_addr, rows: (start_y, end_y), row_addr }
    }

    /// The health of the first vulnerable boss on the stage, for the display.
    pub fn boss_health(&self) -> (r: Option<u16>)
        ensures
            r == spec_boss_health(enemy_list(self.enemies)),
    {
        let ghost es = enemy_list(self.enemies);
        let n = enemies_len(&self.enemies);
        let mut i: usize = 0;
        assert(es.skip(0) =~= es);
        while i < n
            invariant
                n == es.len(),
                es == enemy_list(self.enemies),
                i <= n,
                spec_boss_health(es) == spec_boss_health(es.skip(i as int)),
            decreases n - i,
        {
            assert(es.skip(i as int)[0] == es[i as int]);
            assert(es.skip(i as int).drop_first() =~= es.skip(i + 1));
            let e = enemies_get(&self.enemies, i);
            if e.is_boss() && !e.invulnerable {
                return Some(e.health());
            }
            i = i + 1;
        }
        None
    }

    /// Whether a closed door stands in the area `h`.
    pub fn door_blocks(&self, h: Hitbox) -> (r: bool)
        requires
            self.wf(),
            fits_i16(h.x + h.w),
            fits_i16(h.y + h.h),
        ensures
            r == exists|i: int| 0 <= i < door_list(self.doors).len()
                && !(#[trigger] door_list(self.doors)[i]).open
                && spec_overlaps(door_list(self.doors)[i].spec_hitbox(), h),
    {
        let ghost ds = door_list(self.doors);
        let n = doors_len(&self.doors);
        let mut i: usize = 0;
        while i < n
            invariant
                n == ds.len(),
                ds == door_list(self.doors),
                doors_ok(ds),
                i <= n,
                fits_i16(h.x + h.w),
                fits_i16(h.y + h.h),
                forall|j: int| 0 <= j < i ==> !(!(#[trigger] ds[j]).open && spec_overlaps(ds[j].spec_hitbox(), h)),
            decreases n - i,
        {
            let d = doors_get(&self.doors, i);
            assert(d.wf());
            if !d.open && d.hitbox().collides(&h) {
                return true;
            }
            i = i + 1;
        }
        false
    }

    /// The enemies as projectile targets: (alive, hitbox) in list order.
    pub fn shot_targets(&self) -> (r: Vec<(bool, Hitbox)>)
        requires
            self.wf(),
        ensures
            r@.len() == enemy_list(self.enemies).len(),
            forall|i: int| 0 <= i < r@.len() ==> #[trigger] r@[i] == (!enemy_list(self.enemies)[i].spec_dying(), enemy_list(self.enemies)[i].spec_hitbox()),
    {
        let ghost es = enemy_list(self.enemies);
        let n = enemies_len(&self.enemies);
        let mut r: Vec<(bool, Hitbox)> = Vec::new();
        let mut i: usize = 0;
        while i < n
            invariant
                n == es.len(),
                es == enemy_list(self.enemies),
                enemies_ok(es),
                i <= n,
                r@.len() == i,
                forall|k: int| 0 <= k < i ==> #[trigger] r@[k] == (!es[k].spec_dying(), es[k].spec_hitbox()),
            decreases n - i,
        {
            let e = enemies_get(&self.enemies, i);
            assert(e.wf());
            r.push((e.is_alive(), e.hitbox()));
            i = i + 1;
        }
        r
    }

    /// Moves every door by (dx, dy); those that left the screen are dropped
    /// and marked as not loaded.
    fn scroll_doors(&mut self, dx: i16, dy: i16)
        requires
            old(self).wf(),
            -16334 <= dx <= 16334,
            -16334 <= dy <= 16334,
        ensures
            final(self).wf(),
            *final(self) == (StageMap { doors: final(self).doors, doors_loaded: final(self).doors_loaded, ..*old(self) }),
            door_list(final(self).doors) == spec_doors_scrolled(door_list(old(self).doors), dx, dy),
            final(self).doors_loaded.0 == spec_doors_unloaded(old(self).doors_loaded.0, door_list(old(self).doors), dx, dy),
    {
        let ghost es = door_list(self.doors);
        proof {
            lemma_doors_scrolled_ok(es, dx, dy);
        }
        let mut kept = doors_new();
        let n = doors_len(&self.doors);
        let mut i: usize = 0;
        while i < n
            invariant
                n == es.len(),
                n <= ENTITY_SLOTS,
                i <= n,
                -16334 <= dx <= 16334,
                -16334 <= dy <= 16334,
                forall|k: int| 0 <= k < es.len() ==> (#[trigger] es[k]).wf() && es[k].id < 32,
                door_list(self.doors) == es.skip(i as int),
                door_list(kept) == spec_doors_scrolled(es.take(i as int), dx, dy),
                self.doors_loaded.0 == spec_doors_unloaded(old(self).doors_loaded.0, es.take(i as int), dx, dy),
                *self == (StageMap { doors: self.doors, doors_loaded: self.doors_loaded, ..*old(self) }),
            decreases n - i,
        {
            proof {
                lemma_doors_scrolled_len(es.take(i as int), dx, dy);
                assert(es.take(i + 1).drop_last() =~= es.take(i as int));
                assert(es.skip(i as int)[0] == es[i as int]);
            }
            let mut e = doors_remove(&mut self.doors, 0);
            assert(es.skip(i as int).remove(0) =~= es.skip(i + 1));
            e.move_relative(dx, dy);
            if is_off_screen(e.x, e.y) {
                self.doors_loaded.clear(e.id);
            } else {
                let _ = doors_push(&mut kept, e);
            }
            i = i + 1;
        }
        assert(es.take(n as int) =~= es);
        self.doors = kept;
    }

    /// Moves every switch by (dx, dy); those that left the screen are dropped
    /// and marked as not loaded.
    fn scroll_switches(&mut self, dx: i16, dy: i16)
        requires
            old(self).wf(),
            -16334 <= dx <= 16334,
            -16334 <= dy <= 16334,
        ensures
            final(self).wf(),
            *final(self) == (StageMap { switches: final(self).switches, switches_loaded: final(self).switches_loaded, ..*old(self) }),
            switch_list(final(self).switches) == spec_switches_scrolled(switch_list(old(self).switches), dx, dy),
            final(self).switches_loaded.0 == spec_switches_unloaded(old(self).switches_loaded.0, switch_list(old(self).switches), dx, dy),
    {
        let ghost es = switch_list(self.switches);
        proof {
            lemma_switches_scrolled_ok(es, dx, dy);
        }
        let mut kept = switches_new();
        let n = switches_len(&self.switches);
        let mut i: usize = 0;
        while i < n
            invariant
                n == es.len(),
                n <= ENTITY_SLOTS,
                i <= n,
                -16334 <= dx <= 16334,
                -16334 <= dy <= 16334,
                forall|k: int| 0 <= k < es.len() ==> (#[trigger] es[k]).wf() && es[k].id < 32,
                switch_list(self.switches) == es.skip(i as int),
                switch_list(kept) == spec_switches_scrolled(es.take(i as int), dx, dy),
                self.switches_loaded.0 == spec_switches_unloaded(old(self).switches_loaded.0, es.take(i as int), dx, dy),
                *self == (StageMap { switches: self.switches, switches_loaded: self.switches_loaded, ..*old(self) }),
            decreases n - i,
        {
            proof {
                lemma_switches_scrolled_len(es.take(i as int), dx, dy);
                assert(es.take(i + 1).drop_last() =~= es.take(i as int));
                assert(es.skip(i as int)[0] == es[i as int]);
            }
            let mut e = switches_remove(&mut self.switches, 0);
            assert(es.skip(i as int).remove(0) =~= es.skip(i + 1));
            e.move_relative(dx, dy);
            if is_off_screen(e.x, e.y) {
                self.switches_loaded.clear(e.id);
            } else {
                let _ = switches_push(&mut kept, e);
            }
            i = i + 1;
        }
        assert(es.take(n as int) =~= es);
        self.switches = kept;
    }

    /// Moves every enemy by (dx, dy); those that left the screen are dropped
    /// and marked as not loaded.
    fn scroll_enemies(&mut self, dx: i16, dy: i16)
        requires
            old(self).wf(),
            -16334 <= dx <= 16334,
            -16334 <= dy <= 16334,
        ensures
            final(self).wf(),
            *final(self) == (StageMap { enemies: final(self).enemies, enemies_loaded: final(self).enemies_loaded, ..*old(self) }),
            enemy_list(final(self).enemies) == spec_enemies_scrolled(enemy_list(old(self).enemies), dx, dy),
            final(self).enemies_loaded.0 == spec_enemies_unloaded(old(self).enemies_loaded.0, enemy_list(old(self).enemies), dx, dy),
    {
        let ghost es = enemy_list(self.enemies);
        proof {
            lemma_enemies_scrolled_ok(es, dx, dy);
        }
        let mut kept = enemies_new();
        let n = enemies_len(&self.enemies);
        let mut i: usize = 0;
        while i < n
            invariant
                n == es.len(),
                n <= ENTITY_SLOTS,
                i <= n,
                -16334 <= dx <= 16334,
                -16334 <= dy <= 16334,
                forall|k: int| 0 <= k < es.len() ==> (#[trigger] es[k]).wf() && es[k].id < 32,
                enemy_list(self.enemies) == es.skip(i as int),
                enemy_list(kept) == spec_enemies_scrolled(es.take(i as int), dx, dy),
                self.enemies_loaded.0 == spec_enemies_unloaded(old(self).enemies_loaded.0, es.take(i as int), dx, dy),
                *self == (StageMap { enemies: self.enemies, enemies_loaded: self.enemies_loaded, ..*old(self) }),
            decreases n - i,
        {
            proof {
                lemma_enemies_scrolled_len(es.take(i as int), dx, dy);
                assert(es.take(i + 1).drop_last() =~= es.take(i as int));
                assert(es.skip(i as int)[0] == es[i as int]);
            }
            let mut e = enemies_remove(&mut self.enemies, 0);
            assert(es.skip(i as int).remove(0) =~= es.skip(i + 1));
            e.move_relative(dx, dy);
            if is_off_screen(e.x, e.y) {
                self.enemies_loaded.clear(e.id);
            } else {
                let _ = enemies_push(&mut kept, e);
            }
            i = i + 1;
        }
        assert(es.take(n as int) =~= es);
        self.enemies = kept;
    }

}

} // verus!
