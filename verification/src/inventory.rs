//! The player's inventory: collected items (stacked by type) and the weapons
//! with their remaining uses.
use vstd::prelude::*;

use crate::big_sprite::BigSprite;
use crate::player::{Player, PlayerType};
use crate::player_update::{spec_fresh_sprite_fits, spec_weapon_sprite_after, tapped};
use crate::res::{self, ItemType};
use crate::resource_state::State;
use crate::vdp::{Button, ControllerState};
use crate::weapon::{default_weapons, spec_default_weapons, spec_max_uses, spec_tiles_idx, spec_weapon_player_type, WeaponType};

verus! {

/// Maximum number of item stacks.
pub const ITEM_SLOT_LEN: usize = 8;

/// Maximum number of weapons.
pub const WEAPON_SLOT_LEN: usize = 16;

/// A stack of items of one type.
#[derive(Clone, Copy, Debug, PartialEq, Eq, Structural)]
pub struct InventoryItem {
    pub item_type: ItemType,
    pub amount: u16,
}

/// A weapon and its remaining uses (`None` when unlimited).
#[derive(Clone, Copy, Debug, PartialEq, Eq, Structural)]
pub struct InventoryWeapon {
    pub weapon_type: WeaponType,
    pub uses_left: Option<i16>,
}

#[verifier::external_type_specification]
#[verifier::external_body]
#[verifier::reject_recursive_types(T)]
pub struct ExHeaplessVec<T, const N: usize>(heapless::Vec<T, N>);

/// The item stacks held by a fixed-capacity vector, in order.
pub uninterp spec fn item_slots(v: heapless::Vec<InventoryItem, 8>) -> Seq<InventoryItem>;

/// The weapons held by a fixed-capacity vector, in order.
pub uninterp spec fn weapon_slots(v: heapless::Vec<InventoryWeapon, 16>) -> Seq<InventoryWeapon>;

/// `heapless::Vec::new`: an empty vector.
#[verifier::external_body]
fn items_new() -> (r: heapless::Vec<InventoryItem, 8>)
    ensures
        item_slots(r) == Seq::<InventoryItem>::empty(),
{
    heapless::Vec::new()
}

/// Length of the vector (`len` of the slice it dereferences to); never above the capacity.
#[verifier::external_body]
pub(crate) fn items_len(v: &heapless::Vec<InventoryItem, 8>) -> (r: usize)
    ensures
        r == item_slots(*v).len(),
        r <= ITEM_SLOT_LEN,
{
    v.len()
}

/// Element `i`, read through the slice the vector dereferences to.
#[verifier::external_body]
pub(crate) fn items_get(v: &heapless::Vec<InventoryItem, 8>, i: usize) -> (r: InventoryItem)
    requires
        i < item_slots(*v).len(),
    ensures
        r == item_slots(*v)[i as int],
{
    v[i]
}

/// Overwrites element `i` through the mutable slice the vector dereferences to.
#[verifier::external_body]
fn items_set(v: &mut heapless::Vec<InventoryItem, 8>, i: usize, item: InventoryItem)
    requires
        i < item_slots(*old(v)).len(),
    ensures
        item_slots(*final(v)) == item_slots(*old(v)).update(i as int, item),
{
    v[i] = item;
}

/// `heapless::Vec::push`: appends when below capacity, else hands the item back unchanged.
#[verifier::external_body]
fn items_push(v: &mut heapless::Vec<InventoryItem, 8>, item: InventoryItem) -> (r: Result<(), InventoryItem>)
    ensures
        r == (if item_slots(*old(v)).len() < ITEM_SLOT_LEN { Ok::<(), InventoryItem>(()) } else { Err(item) }),
        item_slots(*final(v)) == (if item_slots(*old(v)).len() < ITEM_SLOT_LEN {
            item_slots(*old(v)).push(item)
        } else {
            item_slots(*old(v))
        }),
{
    v.push(item)
}

/// `heapless::Vec::remove`: takes out element `i`, shifting the later ones down.
#[verifier::external_body]
fn items_remove(v: &mut heapless::Vec<InventoryItem, 8>, i: usize) -> (r: InventoryItem)
    requires
        i < item_slots(*old(v)).len(),
    ensures
        r == item_slots(*old(v))[i as int],
        item_slots(*final(v)) == item_slots(*old(v)).remove(i as int),
{
    v.remove(i)
}

/// `heapless::Vec::new`: an empty vector.
#[verifier::external_body]
fn weapons_new() -> (r: heapless::Vec<InventoryWeapon, 16>)
    ensures
        weapon_slots(r) == Seq::<InventoryWeapon>::empty(),
{
    heapless::Vec::new()
}

/// Length of the vector; never above the capacity.
#[verifier::external_body]
pub(crate) fn weapons_len(v: &heapless::Vec<InventoryWeapon, 16>) -> (r: usize)
    ensures
        r == weapon_slots(*v).len(),
        r <= WEAPON_SLOT_LEN,
{
    v.len()
}

/// Element `i`.
#[verifier::external_body]
pub(crate) fn weapons_get(v: &heapless::Vec<InventoryWeapon, 16>, i: usize) -> (r: InventoryWeapon)
    requires
        i < weapon_slots(*v).len(),
    ensures
        r == weapon_slots(*v)[i as int],
{
    v[i]
}

/// Overwrites element `i`.
#[verifier::external_body]
fn weapons_set(v: &mut heapless::Vec<InventoryWeapon, 16>, i: usize, w: InventoryWeapon)
    requires
        i < weapon_slots(*old(v)).len(),
    ensures
        weapon_slots(*final(v)) == weapon_slots(*old(v)).update(i as int, w),
{
    v[i] = w;
}

/// `heapless::Vec::push`: appends when below capacity, else hands the weapon back unchanged.
#[verifier::external_body]
fn weapons_push(v: &mut heapless::Vec<InventoryWeapon, 16>, w: InventoryWeapon) -> (r: Result<(), InventoryWeapon>)
    ensures
        r == (if weapon_slots(*old(v)).len() < WEAPON_SLOT_LEN { Ok::<(), InventoryWeapon>(()) } else { Err(w) }),
        weapon_slots(*final(v)) == (if weapon_slots(*old(v)).len() < WEAPON_SLOT_LEN {
            weapon_slots(*old(v)).push(w)
        } else {
            weapon_slots(*old(v))
        }),
{
    v.push(w)
}

/// Whether a stack of type `t` is held.
pub open spec fn spec_has_item(s: Seq<InventoryItem>, t: ItemType) -> bool {
    exists|i: int| 0 <= i < s.len() && (#[trigger] s[i]).item_type == t
}

/// Index of the first stack of type `t`, -1 when there is none.
pub open spec fn spec_item_index(s: Seq<InventoryItem>, t: ItemType) -> int
    decreases s.len(),
{
    if s.len() == 0 {
        -1
    } else if s[0].item_type == t {
        0
    } else {
        let r = spec_item_index(s.drop_first(), t);
        if r < 0 { -1 } else { r + 1 }
    }
}

proof fn lemma_item_index(s: Seq<InventoryItem>, t: ItemType)
    ensures
        -1 <= spec_item_index(s, t) < s.len(),
        spec_item_index(s, t) >= 0 ==> s[spec_item_index(s, t)].item_type == t,
        forall|j: int| 0 <= j < s.len() && (spec_item_index(s, t) < 0 || j < spec_item_index(s, t)) ==> (#[trigger] s[j]).item_type != t,
        spec_has_item(s, t) <==> spec_item_index(s, t) >= 0,
    decreases s.len(),
{
    if s.len() > 0 && s[0].item_type != t {
        lemma_item_index(s.drop_first(), t);
        assert forall|j: int| 0 <= j < s.len() && (spec_item_index(s, t) < 0 || j < spec_item_index(s, t)) implies (#[trigger] s[j]).item_type != t by {
            if j > 0 {
                assert(s[j] == s.drop_first()[j - 1]);
            }
        }
    }
    if spec_item_index(s, t) >= 0 {
        assert(s[spec_item_index(s, t)].item_type == t);
    }
}

/// The stacks after adding one item of type `t`.
pub open spec fn spec_add_item(s: Seq<InventoryItem>, t: ItemType) -> Seq<InventoryItem> {
    let i = spec_item_index(s, t);
    if i >= 0 {
        s.update(i, InventoryItem { item_type: t, amount: (s[i].amount + 1) as u16 })
    } else {
        s.push(InventoryItem { item_type: t, amount: 1 })
    }
}

/// The stacks after removing one item of type `t`.
pub open spec fn spec_remove_item(s: Seq<InventoryItem>, t: ItemType) -> Seq<InventoryItem> {
    let i = spec_item_index(s, t);
    if i < 0 {
        s
    } else if s[i].amount > 1 {
        s.update(i, InventoryItem { item_type: t, amount: (s[i].amount - 1) as u16 })
    } else {
        s.remove(i)
    }
}

/// Stacks have distinct types and hold at least one item each.
pub open spec fn items_wf(s: Seq<InventoryItem>) -> bool {
    &&& s.len() <= ITEM_SLOT_LEN
    &&& forall|i: int| 0 <= i < s.len() ==> (#[trigger] s[i]).amount >= 1
    &&& forall|i: int, j: int| 0 <= i < j < s.len() ==> (#[trigger] s[i]).item_type != (#[trigger] s[j]).item_type
}

/// Index of the first entry for weapon `w`, -1 when there is none.
pub open spec fn spec_weapon_index(s: Seq<InventoryWeapon>, w: WeaponType) -> int
    decreases s.len(),
{
    if s.len() == 0 {
        -1
    } else if s[0].weapon_type == w {
        0
    } else {
        let r = spec_weapon_index(s.drop_first(), w);
        if r < 0 { -1 } else { r + 1 }
    }
}

proof fn lemma_weapon_index(s: Seq<InventoryWeapon>, w: WeaponType)
    ensures
        -1 <= spec_weapon_index(s, w) < s.len(),
        spec_weapon_index(s, w) >= 0 ==> s[spec_weapon_index(s, w)].weapon_type == w,
        forall|j: int| 0 <= j < s.len() && (spec_weapon_index(s, w) < 0 || j < spec_weapon_index(s, w)) ==> (#[trigger] s[j]).weapon_type != w,
    decreases s.len(),
{
    if s.len() > 0 && s[0].weapon_type != w {
        lemma_weapon_index(s.drop_first(), w);
        assert forall|j: int| 0 <= j < s.len() && (spec_weapon_index(s, w) < 0 || j < spec_weapon_index(s, w)) implies (#[trigger] s[j]).weapon_type != w by {
            if j > 0 {
                assert(s[j] == s.drop_first()[j - 1]);
            }
        }
    }
}

/// Remaining uses of weapon `w` (first entry), `None` when unlimited or absent.
pub open spec fn spec_uses_left(s: Seq<InventoryWeapon>, w: WeaponType) -> Option<i16> {
    let i = spec_weapon_index(s, w);
    if i >= 0 { s[i].uses_left } else { None }
}

/// After adding an item of type `t`, the inventory contains `t`.
pub proof fn law_add_then_contains(s: Seq<InventoryItem>, t: ItemType)
    ensures
        spec_has_item(spec_add_item(s, t), t),
{
    lemma_item_index(s, t);
    let a = spec_add_item(s, t);
    let i = spec_item_index(s, t);
    if i >= 0 {
        assert(a[i].item_type == t);
    } else {
        assert(a[s.len() as int].item_type == t);
    }
}

/// Removing an item right after adding one of the same type gives back the
/// stacks exactly as they were.
pub proof fn law_remove_undoes_add(s: Seq<InventoryItem>, t: ItemType)
    requires
        items_wf(s),
        forall|i: int| 0 <= i < s.len() && (#[trigger] s[i]).item_type == t ==> s[i].amount < u16::MAX,
    ensures
        spec_remove_item(spec_add_item(s, t), t) == s,
{
    lemma_item_index(s, t);
    let a = spec_add_item(s, t);
    lemma_item_index(a, t);
    let i = spec_item_index(s, t);
    let k = spec_item_index(a, t);
    if i >= 0 {
        assert(a[i].item_type == t);
        if k < i {
            assert(a[k] == s[k]);
        }
        assert(k == i);
        assert(spec_remove_item(a, t) =~= s);
    } else {
        assert(a[s.len() as int].item_type == t);
        if k < s.len() {
            assert(a[k] == s[k]);
        }
        assert(k == s.len());
        assert(spec_remove_item(a, t) =~= s);
    }
}

/// The weapons a character starts with: those of the default weapons that
/// the character can wield, in order, each with its full uses.
pub open spec fn spec_weapons_for(ws: Seq<WeaponType>, pt: PlayerType) -> Seq<InventoryWeapon>
    decreases ws.len(),
{
    if ws.len() == 0 {
        Seq::empty()
    } else {
        let r = spec_weapons_for(ws.drop_last(), pt);
        let w = ws.last();
        if spec_weapon_player_type(w) == pt {
            r.push(InventoryWeapon { weapon_type: w, uses_left: spec_max_uses(w) })
        } else {
            r
        }
    }
}

proof fn lemma_weapons_for_len(ws: Seq<WeaponType>, pt: PlayerType)
    ensures
        spec_weapons_for(ws, pt).len() <= ws.len(),
    decreases ws.len(),
{
    if ws.len() > 0 {
        lemma_weapons_for_len(ws.drop_last(), pt);
    }
}

/// The item slot after moving the selection right (wrapping around).
pub open spec fn spec_select_next(sel: Option<usize>) -> usize {
    match sel {
        Some(s) => if s < ITEM_SLOT_LEN - 1 { (s + 1) as usize } else { 0 },
        None => 0,
    }
}

/// The item slot after moving the selection left (wrapping around).
pub open spec fn spec_select_prev(sel: Option<usize>) -> usize {
    match sel {
        Some(s) => if s > 0 { (s - 1) as usize } else { (ITEM_SLOT_LEN - 1) as usize },
        None => (ITEM_SLOT_LEN - 1) as usize,
    }
}

/// The next (or previous) weapon in the list after `cur`, wrapping around;
/// `None` when `cur` is not in the list.
/// The weapon that a frame of the inventory menu with input `s` switches to:
/// Down or Up (without Right or Left) cycles through the owned weapons.
pub open spec fn spec_menu_switch(ws: Seq<InventoryWeapon>, cur: WeaponType, s: ControllerState) -> Option<WeaponType> {
    let cycling = !tapped(s, Button::Right) && !tapped(s, Button::Left) && (tapped(s, Button::Down) || tapped(s, Button::Up)) && ws.len() > 0;
    if cycling { spec_cycle_weapon(ws, cur, tapped(s, Button::Down)) } else { None }
}

pub open spec fn spec_cycle_weapon(ws: Seq<InventoryWeapon>, cur: WeaponType, forward: bool) -> Option<WeaponType> {
    let n = ws.len();
    let i = spec_weapon_index(ws, cur);
    if n > 0 && i >= 0 {
        Some(ws[if forward { (i + 1) % (n as int) } else { (i + n - 1) % (n as int) }].weapon_type)
    } else {
        None
    }
}

/// Whether using the selected item recharges the weapon: the selected slot
/// holds batteries and the weapon has fewer uses than its maximum.
pub open spec fn spec_battery_use(items: Seq<InventoryItem>, ws: Seq<InventoryWeapon>, sel: Option<usize>, w: WeaponType) -> bool {
    &&& sel matches Some(k) && k < items.len() && items[k as int].item_type == ItemType::Battery
    &&& spec_max_uses(w) matches Some(m) && (match spec_uses_left(ws, w) { Some(u) => u, None => 0i16 }) < m
}

/// What a frame of the inventory menu changed beyond the inventory and player.
#[derive(Clone, Copy, Debug, PartialEq, Eq, Structural)]
pub struct MenuUpdate {
    /// The weapon switched to, if any.
    pub switched_to: Option<WeaponType>,
    /// Whether the player's projectiles must go (the shooter switched guns).
    pub drop_player_projectiles: bool,
}

/// The scene shown in the inventory menu.
#[derive(Clone, Copy, Debug, PartialEq, Eq, Structural)]
pub struct InventoryScene {
    /// The item slot currently selected.
    pub selection: Option<usize>,
    /// Whether the menu must be redrawn on the next render.
    pub needs_refresh: bool,
}

impl InventoryScene {
    /// A menu with no item selected.
    pub fn new() -> (r: Self)
        ensures
            r == (InventoryScene { selection: None, needs_refresh: false }),
    {
        InventoryScene { selection: None, needs_refresh: false }
    }

    /// One frame of the open inventory menu (for an active player with a
    /// controller): Right/Left move the item selection (wrapping around),
    /// otherwise Down/Up switch to the next/previous weapon, and B with
    /// batteries selected recharges the weapon by one use when it is below
    /// its maximum (the player must be alive). The menu is marked for redraw
    /// when anything changed. `fresh_sprite` is the new weapon's own sprite,
    /// used when the weapon sprite cannot just take the new weapon's tiles.
    #[verifier::rlimit(40)]
    pub fn update(
        inventory: &mut Inventory,
        player: &mut Player,
        res_state: &mut State,
        input: Option<&ControllerState>,
        fresh_sprite: Option<BigSprite>,
    ) -> (r: MenuUpdate)
        requires
            old(inventory).wf(),
            old(player).wf(),
            fresh_sprite matches Some(s) ==> s.wf() && s.anims@.len() > res::SWORD_ANIM_SLASH,
            old(player).weapon_sprite matches Some(s) ==> s.singleton && s.tiles_idx < old(res_state).spec_count(),
            old(res_state).spec_count() > res::STRONGSWORD_TILES,
            input matches Some(s) ==> (spec_menu_switch(old(inventory).spec_weapons(), old(player).weapon, *s) matches Some(nw)
                ==> spec_fresh_sprite_fits(old(player).weapon_sprite, nw, fresh_sprite)),
        ensures
            final(inventory).wf(),
            final(player).wf(),
            final(player).weapon_sprite != old(player).weapon_sprite ==> match final(player).weapon_sprite {
                Some(s) => spec_tiles_idx(final(player).weapon) == Some(s.tiles_idx) && s.singleton,
                None => spec_tiles_idx(final(player).weapon) is None,
            },
            old(player).status is Dead || input is None || old(inventory).scene is None ==> {
                &&& *final(inventory) == *old(inventory)
                &&& *final(player) == *old(player)
                &&& *final(res_state) == *old(res_state)
                &&& r == (MenuUpdate { switched_to: None, drop_player_projectiles: false })
            },
            !(old(player).status is Dead) ==> match (input, old(inventory).scene) {
                (Some(s), Some(sc)) => {
                    let ws = old(inventory).spec_weapons();
                    let items = old(inventory).spec_items();
                    let right = tapped(*s, Button::Right);
                    let left = tapped(*s, Button::Left);
                    let sel = if right { Some(spec_select_next(sc.selection)) } else if left { Some(spec_select_prev(sc.selection)) } else { sc.selection };
                    let cycling = !right && !left && (tapped(*s, Button::Down) || tapped(*s, Button::Up)) && ws.len() > 0;
                    let sw = spec_menu_switch(ws, old(player).weapon, *s);
                    let w2 = match sw { Some(nw) => nw, None => old(player).weapon };
                    let bat = old(player).spec_alive() && tapped(*s, Button::B) && spec_battery_use(items, ws, sel, w2);
                    &&& r == (MenuUpdate { switched_to: sw, drop_player_projectiles: sw is Some && old(player).player_type == PlayerType::Shooter })
                    &&& *final(player) == (Player {
                        weapon: w2,
                        weapon_sprite: if sw is Some { spec_weapon_sprite_after(old(player).weapon_sprite, w2, fresh_sprite) } else { old(player).weapon_sprite },
                        ..*old(player)
                    })
                    &&& final(inventory).spec_items() == (if bat { spec_remove_item(items, ItemType::Battery) } else { items })
                    &&& final(inventory).spec_weapons() == (if bat { spec_change_uses(ws, w2, 1) } else { ws })
                    &&& final(inventory).scene == Some(InventoryScene {
                        selection: sel,
                        needs_refresh: sc.needs_refresh || right || left || cycling || bat,
                    })
                },
                _ => true,
            },
    {
        let none = MenuUpdate { switched_to: None, drop_player_projectiles: false };
        if !player.is_active() {
            return none;
        }
        let s = match input {
            Some(s) => s,
            None => return none,
        };
        let mut sc = match inventory.scene {
            Some(sc) => sc,
            None => return none,
        };
        let mut refresh = false;
        let mut switched_to: Option<WeaponType> = None;
        let mut drop_player_projectiles = false;
        if s.just_pressed(Button::Right) {
            sc.selection = Some(match sc.selection {
                Some(k) => if k < ITEM_SLOT_LEN - 1 { k + 1 } else { 0 },
                None => 0,
            });
            refresh = true;
        } else if s.just_pressed(Button::Left) {
            sc.selection = Some(match sc.selection {
                Some(k) => if k > 0 { k - 1 } else { ITEM_SLOT_LEN - 1 },
                None => ITEM_SLOT_LEN - 1,
            });
            refresh = true;
        } else if s.just_pressed(Button::Down) || s.just_pressed(Button::Up) {
            let forward = s.just_pressed(Button::Down);
            let count = weapons_len(&inventory.weapons);
            if count > 0 {
                proof {
                    lemma_weapon_index(inventory.spec_weapons(), player.weapon);
                }
                if let Some(i) = inventory.weapon_index(player.weapon) {
                    let next = if forward { (i + 1) % count } else { (i + count - 1) % count };
                    let nw = weapons_get(&inventory.weapons, next).weapon_type;
                    player.set_weapon(nw, res_state, fresh_sprite);
                    switched_to = Some(nw);
                    if player.player_type == PlayerType::Shooter {
                        drop_player_projectiles = true;
                    }
                }
                refresh = true;
            }
        }
        if player.is_alive() && s.just_pressed(Button::B) {
            let is_battery = match sc.selection {
                Some(k) => k < items_len(&inventory.items) && items_get(&inventory.items, k).item_type == ItemType::Battery,
                None => false,
            };
            if is_battery {
                let uses = inventory.get_weapon_uses_left(player.weapon);
                if let Some(m) = player.weapon.max_uses() {
                    let u = match uses {
                        Some(u) => u,
                        None => 0,
                    };
                    if u < m {
                        inventory.remove(ItemType::Battery);
                        inventory.increase_weapon_uses(player.weapon);
                        refresh = true;
                    }
                }
            }
        }
        if refresh {
            sc.needs_refresh = true;
        }
        inventory.scene = Some(sc);
        MenuUpdate { switched_to, drop_player_projectiles }
    }
}

pub struct Inventory {
    pub items: heapless::Vec<InventoryItem, 8>,
    pub weapons: heapless::Vec<InventoryWeapon, 16>,
    pub scene: Option<InventoryScene>,
}

impl Inventory {
    /// An empty inventory holding the weapons the player's character starts
    /// with (see `spec_weapons_for`).
    pub fn new(player: &Player) -> (r: Inventory)
        ensures
            r.wf(),
            r.spec_items() == Seq::<InventoryItem>::empty(),
            r.spec_weapons() == spec_weapons_for(spec_default_weapons(), player.player_type),
            r.scene is None,
    {
        let defaults = default_weapons();
        let mut weapons = weapons_new();
        let mut i: usize = 0;
        while i < defaults.len()
            invariant
                defaults@ == spec_default_weapons(),
                i <= defaults@.len(),
                weapon_slots(weapons) == spec_weapons_for(defaults@.take(i as int), player.player_type),
            decreases defaults@.len() - i,
        {
            proof {
                lemma_weapons_for_len(defaults@.take(i as int), player.player_type);
            }
            let w = defaults[i];
            assert(defaults@.take(i + 1).drop_last() =~= defaults@.take(i as int));
            if w.player_type() == player.player_type {
                let _ = weapons_push(&mut weapons, InventoryWeapon { weapon_type: w, uses_left: w.max_uses() });
            }
            i = i + 1;
        }
        assert(defaults@.take(i as int) =~= defaults@);
        Inventory { items: items_new(), weapons, scene: None }
    }

    /// The item stacks in order.
    pub open spec fn spec_items(self) -> Seq<InventoryItem> {
        item_slots(self.items)
    }

    /// The weapons in order.
    pub open spec fn spec_weapons(self) -> Seq<InventoryWeapon> {
        weapon_slots(self.weapons)
    }

    pub open spec fn wf(self) -> bool {
        items_wf(self.spec_items())
    }

    /// Adds one item, stacking it onto an existing stack of its type.
    pub fn add(&mut self, item_type: ItemType)
        requires
            old(self).wf(),
            forall|i: int| 0 <= i < old(self).spec_items().len() && (#[trigger] old(self).spec_items()[i]).item_type == item_type ==> old(self).spec_items()[i].amount < u16::MAX,
            !spec_has_item(old(self).spec_items(), item_type) ==> old(self).spec_items().len() < ITEM_SLOT_LEN,
        ensures
            final(self).wf(),
            final(self).spec_weapons() == old(self).spec_weapons(),
            final(self).scene == old(self).scene,
            final(self).spec_items() == spec_add_item(old(self).spec_items(), item_type),
    {
        proof {
            lemma_item_index(old(self).spec_items(), item_type);
        }
        let n = items_len(&self.items);
        let mut i: usize = 0;
        while i < n
            invariant
                n == self.spec_items().len(),
                i <= n,
                *self == *old(self),
                old(self).wf(),
                -1 <= spec_item_index(old(self).spec_items(), item_type) < n,
                spec_item_index(old(self).spec_items(), item_type) >= 0 ==> old(self).spec_items()[spec_item_index(old(self).spec_items(), item_type)].item_type == item_type,
                forall|j: int| 0 <= j < n && (spec_item_index(old(self).spec_items(), item_type) < 0 || j < spec_item_index(old(self).spec_items(), item_type)) ==> (#[trigger] old(self).spec_items()[j]).item_type != item_type,
                forall|j: int| 0 <= j < old(self).spec_items().len() && (#[trigger] old(self).spec_items()[j]).item_type == item_type ==> old(self).spec_items()[j].amount < u16::MAX,
                !spec_has_item(old(self).spec_items(), item_type) ==> old(self).spec_items().len() < ITEM_SLOT_LEN,
                forall|j: int| 0 <= j < i ==> (#[trigger] self.spec_items()[j]).item_type != item_type,
            decreases n - i,
        {
            let it = items_get(&self.items, i);
            if it.item_type == item_type {
                items_set(&mut self.items, i, InventoryItem { item_type, amount: it.amount + 1 });
                return;
            }
            i = i + 1;
        }
        let res = items_push(&mut self.items, InventoryItem { item_type, amount: 1 });
        proof {
            let s = old(self).spec_items();
            let t = self.spec_items();
            assert(!spec_has_item(s, item_type));
            assert(t == s.push(InventoryItem { item_type, amount: 1 }));
            assert forall|a: int, b: int| 0 <= a < b < t.len() implies (#[trigger] t[a]).item_type != (#[trigger] t[b]).item_type by {
                if b == s.len() {
                    assert(t[a] == s[a]);
                }
            }
        }
    }

    /// Removes all items.
    pub fn clear(&mut self)
        ensures
            final(self).spec_items() == Seq::<InventoryItem>::empty(),
            final(self).spec_weapons() == old(self).spec_weapons(),
            final(self).scene == old(self).scene,
    {
        self.items = items_new();
    }

    /// Whether at least one item of the given type is held.
    pub fn contains(&self, item_type: ItemType) -> (r: bool)
        ensures
            r == spec_has_item(self.spec_items(), item_type),
    {
        let n = items_len(&self.items);
        let mut i: usize = 0;
        while i < n
            invariant
                n == self.spec_items().len(),
                i <= n,
                forall|j: int| 0 <= j < i ==> (#[trigger] self.spec_items()[j]).item_type != item_type,
            decreases n - i,
        {
            if items_get(&self.items, i).item_type == item_type {
                return true;
            }
            i = i + 1;
        }
        false
    }

    /// Removes one item of the given type; a stack that runs empty disappears.
    pub fn remove(&mut self, item_type: ItemType)
        requires
            old(self).wf(),
        ensures
            final(self).wf(),
            final(self).spec_weapons() == old(self).spec_weapons(),
            final(self).scene == old(self).scene,
            final(self).spec_items() == spec_remove_item(old(self).spec_items(), item_type),
    {
        proof {
            lemma_item_index(old(self).spec_items(), item_type);
        }
        let n = items_len(&self.items);
        let mut i: usize = 0;
        while i < n
            invariant
                n == self.spec_items().len(),
                i <= n,
                *self == *old(self),
                old(self).wf(),
                -1 <= spec_item_index(old(self).spec_items(), item_type) < n,
                spec_item_index(old(self).spec_items(), item_type) >= 0 ==> old(self).spec_items()[spec_item_index(old(self).spec_items(), item_type)].item_type == item_type,
                forall|j: int| 0 <= j < n && (spec_item_index(old(self).spec_items(), item_type) < 0 || j < spec_item_index(old(self).spec_items(), item_type)) ==> (#[trigger] old(self).spec_items()[j]).item_type != item_type,
                forall|j: int| 0 <= j < i ==> (#[trigger] self.spec_items()[j]).item_type != item_type,
            decreases n - i,
        {
            let it = items_get(&self.items, i);
            if it.item_type == item_type {
                if it.amount > 1 {
                    items_set(&mut self.items, i, InventoryItem { item_type, amount: it.amount - 1 });
                } else {
                    let gone = items_remove(&mut self.items, i);
                    let ghost s = old(self).spec_items();
                    let ghost t = self.spec_items();
                    assert forall|a: int, b: int| 0 <= a < b < t.len() implies (#[trigger] t[a]).item_type != (#[trigger] t[b]).item_type by {
                        let a0 = if a < i { a } else { a + 1 };
                        let b0 = if b < i { b } else { b + 1 };
                        assert(t[a] == s[a0]);
                        assert(t[b] == s[b0]);
                    }
                    assert forall|a: int| 0 <= a < t.len() implies (#[trigger] t[a]).amount >= 1 by {
                        let a0 = if a < i { a } else { a + 1 };
                        assert(t[a] == s[a0]);
                    }
                }
                return;
            }
            i = i + 1;
        }
    }

    /// Whether the given weapon has uses left: false only when an entry for it
    /// has exactly zero uses left.
    pub fn weapon_has_uses_left(&self, weapon_type: WeaponType) -> (r: bool)
        ensures
            r == !(exists|i: int| 0 <= i < self.spec_weapons().len() && (#[trigger] self.spec_weapons()[i]).weapon_type == weapon_type && self.spec_weapons()[i].uses_left == Some(0i16)),
    {
        let n = weapons_len(&self.weapons);
        let mut i: usize = 0;
        while i < n
            invariant
                n == self.spec_weapons().len(),
                i <= n,
                forall|j: int| 0 <= j < i ==> !((#[trigger] self.spec_weapons()[j]).weapon_type == weapon_type && self.spec_weapons()[j].uses_left == Some(0i16)),
            decreases n - i,
        {
            let w = weapons_get(&self.weapons, i);
            if w.weapon_type == weapon_type {
                if w.uses_left == Some(0i16) {
                    return false;
                }
            }
            i = i + 1;
        }
        true
    }

    /// The remaining uses of the given weapon (its first entry); `None` when
    /// unlimited or not held.
    pub fn get_weapon_uses_left(&self, weapon_type: WeaponType) -> (r: Option<i16>)
        ensures
            r == spec_uses_left(self.spec_weapons(), weapon_type),
    {
        proof {
            lemma_weapon_index(self.spec_weapons(), weapon_type);
        }
        match self.weapon_index(weapon_type) {
            Some(i) => weapons_get(&self.weapons, i).uses_left,
            None => None,
        }
    }

    /// Position of the first entry for a weapon.
    pub(crate) fn weapon_index(&self, weapon_type: WeaponType) -> (r: Option<usize>)
        ensures
            r matches Some(i) ==> i == spec_weapon_index(self.spec_weapons(), weapon_type),
            r is None ==> spec_weapon_index(self.spec_weapons(), weapon_type) == -1,
    {
        proof {
            lemma_weapon_index(self.spec_weapons(), weapon_type);
        }
        let n = weapons_len(&self.weapons);
        let mut i: usize = 0;
        while i < n
            invariant
                n == self.spec_weapons().len(),
                i <= n,
                forall|j: int| 0 <= j < i ==> (#[trigger] self.spec_weapons()[j]).weapon_type != weapon_type,
                -1 <= spec_weapon_index(self.spec_weapons(), weapon_type) < n,
                spec_weapon_index(self.spec_weapons(), weapon_type) >= 0 ==> self.spec_weapons()[spec_weapon_index(self.spec_weapons(), weapon_type)].weapon_type == weapon_type,
                forall|j: int| 0 <= j < n && (spec_weapon_index(self.spec_weapons(), weapon_type) < 0 || j < spec_weapon_index(self.spec_weapons(), weapon_type)) ==> (#[trigger] self.spec_weapons()[j]).weapon_type != weapon_type,
            decreases n - i,
        {
            if weapons_get(&self.weapons, i).weapon_type == weapon_type {
                return Some(i);
            }
            i = i + 1;
        }
        None
    }

    /// Uses up one use of the weapon.
    pub fn decrease_weapon_uses(&mut self, weapon_type: WeaponType)
        requires
            spec_uses_left(old(self).spec_weapons(), weapon_type) matches Some(u) ==> u - 1 >= i16::MIN,
        ensures
            final(self).spec_items() == old(self).spec_items(),
            final(self).scene == old(self).scene,
            final(self).spec_weapons() == spec_change_uses(old(self).spec_weapons(), weapon_type, -1),
    {
        self.change_weapon_uses(weapon_type, -1);
    }

    /// Gives back one use of the weapon.
    pub fn increase_weapon_uses(&mut self, weapon_type: WeaponType)
        requires
            spec_uses_left(old(self).spec_weapons(), weapon_type) matches Some(u) ==> u + 1 <= i16::MAX,
        ensures
            final(self).spec_items() == old(self).spec_items(),
            final(self).scene == old(self).scene,
            final(self).spec_weapons() == spec_change_uses(old(self).spec_weapons(), weapon_type, 1),
    {
        self.change_weapon_uses(weapon_type, 1);
    }

    /// Adds `amount` to the remaining uses of the weapon's first entry, if its uses are limited.
    pub fn change_weapon_uses(&mut self, weapon_type: WeaponType, amount: i16)
        requires
            spec_uses_left(old(self).spec_weapons(), weapon_type) matches Some(u) ==> i16::MIN <= u + amount <= i16::MAX,
        ensures
            final(self).spec_items() == old(self).spec_items(),
            final(self).scene == old(self).scene,
            final(self).spec_weapons() == spec_change_uses(old(self).spec_weapons(), weapon_type, amount as int),
    {
        proof {
            lemma_weapon_index(self.spec_weapons(), weapon_type);
        }
        if let Some(i) = self.weapon_index(weapon_type) {
            let w = weapons_get(&self.weapons, i);
            if let Some(u) = w.uses_left {
                weapons_set(&mut self.weapons, i, InventoryWeapon { weapon_type: w.weapon_type, uses_left: Some(u + amount) });
            }
        }
    }
}

/// The weapons after adding `amount` uses to the first entry of `w`, when limited.
pub open spec fn spec_change_uses(s: Seq<InventoryWeapon>, w: WeaponType, amount: int) -> Seq<InventoryWeapon> {
    let i = spec_weapon_index(s, w);
    if i >= 0 && s[i].uses_left is Some {
        s.update(i, InventoryWeapon { weapon_type: w, uses_left: Some((s[i].uses_left->0 + amount) as i16) })
    } else {
        s
    }
}

/// Moving the item selection right and then left (or left and then right)
/// comes back to the same slot.
pub proof fn law_selection_wraps(k: usize)
    requires
        k < ITEM_SLOT_LEN,
    ensures
        spec_select_prev(Some(spec_select_next(Some(k)))) == k,
        spec_select_next(Some(spec_select_prev(Some(k)))) == k,
        spec_select_next(Some(k)) < ITEM_SLOT_LEN,
        spec_select_prev(Some(k)) < ITEM_SLOT_LEN,
{
}

/// Using up one use of a weapon and recharging one gives back the weapons
/// exactly as they were.
pub proof fn law_recharge_undoes_use(s: Seq<InventoryWeapon>, w: WeaponType)
    requires
        spec_uses_left(s, w) matches Some(u) ==> u > i16::MIN,
    ensures
        spec_change_uses(spec_change_uses(s, w, -1), w, 1) == s,
{
    lemma_weapon_index(s, w);
    let a = spec_change_uses(s, w, -1);
    let i = spec_weapon_index(s, w);
    if i >= 0 && s[i].uses_left is Some {
        lemma_weapon_index(a, w);
        let k = spec_weapon_index(a, w);
        assert(a[i].weapon_type == w);
        if k < i {
            assert(a[k] == s[k]);
        }
        assert(k == i);
        assert(spec_change_uses(a, w, 1) =~= s);
    } else {
        assert(a == s);
    }
}

/// Switching to the next weapon and then to the previous one comes back to
/// the weapon held, when each weapon appears once in the list.
pub proof fn law_cycle_back(s: Seq<InventoryWeapon>, w: WeaponType)
    requires
        forall|i: int, j: int| 0 <= i < j < s.len() ==> (#[trigger] s[i]).weapon_type != (#[trigger] s[j]).weapon_type,
        spec_weapon_index(s, w) >= 0,
    ensures
        spec_cycle_weapon(s, spec_cycle_weapon(s, w, true)->0, false) == Some(w),
{
    lemma_weapon_index(s, w);
    let n = s.len() as int;
    let i = spec_weapon_index(s, w);
    let j = (i + 1) % n;
    let v = s[j].weapon_type;
    lemma_weapon_index(s, v);
    let k = spec_weapon_index(s, v);
    assert(k == j) by {
        if k < j {
            assert(s[k].weapon_type == v);
        }
        if k < 0 || k > j {
            assert(s[j].weapon_type != v || (k >= 0 && k < j));
        }
    }
    assert((j + n - 1) % n == i) by (nonlinear_arith)
        requires
            0 <= i < n,
            j == (i + 1) % n,
    ;
}

} // verus!
