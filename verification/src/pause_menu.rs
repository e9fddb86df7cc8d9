//! The pause menu's contents: the frame around the screen, the text it
//! shows (stage, health, flag times, weapons, items) and the item icons.
use vstd::prelude::*;

use crate::game::{lemma_decimal_len_bound, pow10, spec_decimal_len};
use crate::inventory::{items_get, items_len, weapons_get, weapons_len, Inventory, InventoryItem, InventoryScene, InventoryWeapon, ITEM_SLOT_LEN};
use crate::res::{spec_item_index, ItemType, MapType, MAP_COUNT};
use crate::ui::{centered_x, spec_centered_x};
use crate::vdp::{Palette, Plane, TileFlags, Vdp};
use crate::weapon::{spec_max_uses, WeaponType};

verus! {

broadcast use vstd::string::is_ascii_spec_bytes;

/// Plane B scrolls this far up while the menu shows, hiding the HUD.
pub const HUD_HIDE_SCROLL: i16 = 96;
/// The HUD scroll in tiles.
pub const HUD_HIDE_SCROLL_TILES: u16 = 12;
/// Side of an item slot in tiles.
pub const SLOT_SIZE: u16 = 4;
/// Side of an item sprite in tiles.
pub const ITEM_SIZE: u16 = 2;
pub const SLOT_STRIDE: u16 = 4;
pub const ITEMS_LABEL_Y: u16 = 16;
/// The row of the selection marker, just above the slots.
pub const ITEMS_MARKER_Y: u16 = 17;
pub const ITEMS_ROW_Y: u16 = 18;
/// The row of the item counts, just below the slots.
pub const ITEMS_COUNT_Y: u16 = 22;
/// Width of the row of slots, and its centered first column.
pub const ITEMS_ROW_W: u16 = 32;
pub const ITEMS_ROW_X: u16 = 4;
pub const WEAPON_LABEL_Y: u16 = 11;
pub const WEAPON_LIST_Y: u16 = 12;
pub const WEAPON_ARROW_X: u16 = 4;
pub const WEAPON_NAME_X: u16 = 6;
pub const WEAPON_BAR_X: u16 = 20;
/// Cells of a bar.
pub const BAR_LEN: u16 = 8;
pub const LABEL_X: u16 = 5;
pub const VALUE_X: u16 = 16;

/// Text drawn from tile (x, y) on.
#[derive(Debug, PartialEq, Eq)]
pub struct Label {
    pub text: Vec<u8>,
    pub x: u16,
    pub y: u16,
}

/// A label with its text as a sequence.
pub struct LabelView {
    pub text: Seq<u8>,
    pub x: u16,
    pub y: u16,
}

impl View for Label {
    type V = LabelView;

    open spec fn view(&self) -> LabelView {
        LabelView { text: self.text@, x: self.x, y: self.y }
    }
}

/// The bytes of ASCII characters.
pub open spec fn spec_ascii(s: Seq<char>) -> Seq<u8> {
    Seq::new(s.len(), |i: int| s[i] as u8)
}

/// The bytes of an ASCII text.
fn ascii_text(s: &str) -> (r: Vec<u8>)
    requires
        vstd::string::is_ascii(s),
    ensures
        r@ == spec_ascii(s@),
{
    let b = s.as_bytes();
    vstd::slice::slice_to_vec(b)
}

/// The decimal digits of `n`.
pub open spec fn spec_decimal(n: nat) -> Seq<u8>
    decreases n,
{
    if n < 10 {
        seq![(48 + n) as u8]
    } else {
        spec_decimal(n / 10).push((48 + n % 10) as u8)
    }
}

proof fn lemma_decimal_len(n: nat)
    ensures
        spec_decimal(n).len() == spec_decimal_len(n),
    decreases n,
{
    if n >= 10 {
        lemma_decimal_len(n / 10);
    }
}

/// Appends the decimal digits of `n`.
fn push_decimal(out: &mut Vec<u8>, n: u32)
    ensures
        final(out)@ == old(out)@ + spec_decimal(n as nat),
    decreases n,
{
    if n >= 10 {
        push_decimal(out, n / 10);
    }
    out.push((48 + n % 10) as u8);
    assert(out@ =~= old(out)@ + spec_decimal(n as nat));
}

/// The decimal digits of `n`.
pub fn decimal_text(n: u32) -> (r: Vec<u8>)
    ensures
        r@ == spec_decimal(n as nat),
        r@.len() <= 10,
{
    proof {
        reveal_with_fuel(pow10, 11);
        assert(pow10(10) == 10_000_000_000);
        lemma_decimal_len_bound(n as nat, 10);
        lemma_decimal_len(n as nat);
    }
    let mut r: Vec<u8> = Vec::new();
    push_decimal(&mut r, n);
    assert(r@ =~= spec_decimal(n as nat));
    r
}

/// Cells of a bar showing `amount` of `max` filled.
pub open spec fn spec_bar_filled(amount: u16, max: u16) -> int {
    if max == 0 {
        0
    } else if (amount * 8) / (max as int) < 8 {
        (amount * 8) / (max as int)
    } else {
        8
    }
}

/// The text of a `[####----] n/m` bar: `amount` of `max` in eight cells,
/// then the numbers. The text holds at most 20 characters: when both
/// numbers together have more than 8 digits, `max` is left out.
pub open spec fn spec_bar_text(amount: u16, max: u16) -> Seq<u8> {
    let f = spec_bar_filled(amount, max);
    let head = seq![91u8] + Seq::new(8, |c: int| if c < f { 35u8 } else { 45u8 }) + seq![93u8, 32u8] + spec_decimal(
        amount as nat,
    ) + seq![47u8];
    if spec_decimal(amount as nat).len() + spec_decimal(max as nat).len() <= 8 {
        head + spec_decimal(max as nat)
    } else {
        head
    }
}

/// The text of a bar (see `spec_bar_text`).
pub fn bar_text(amount: u16, max: u16) -> (r: Vec<u8>)
    requires
        amount * 8 <= u16::MAX,
    ensures
        r@ == spec_bar_text(amount, max),
{
    let filled: u16 = if max == 0 {
        0
    } else {
        let f = amount * BAR_LEN / max;
        if f < BAR_LEN { f } else { BAR_LEN }
    };
    let mut bar: Vec<u8> = Vec::new();
    bar.push(91);
    let mut cell: u16 = 0;
    while cell < BAR_LEN
        invariant
            cell <= BAR_LEN,
            filled == spec_bar_filled(amount, max),
            bar@ == seq![91u8] + Seq::new(cell as nat, |c: int| if c < filled { 35u8 } else { 45u8 }),
        decreases BAR_LEN - cell,
    {
        bar.push(if cell < filled { 35u8 } else { 45u8 });
        cell = cell + 1;
        assert(bar@ =~= seq![91u8] + Seq::new(cell as nat, |c: int| if c < filled { 35u8 } else { 45u8 }));
    }
    bar.push(93);
    bar.push(32);
    let amount_digits = decimal_text(amount as u32);
    let max_digits = decimal_text(max as u32);
    let mut i: usize = 0;
    let ghost b0 = bar@;
    while i < amount_digits.len()
        invariant
            i <= amount_digits@.len(),
            bar@ == b0 + amount_digits@.take(i as int),
        decreases amount_digits@.len() - i,
    {
        bar.push(amount_digits[i]);
        i = i + 1;
        assert(bar@ =~= b0 + amount_digits@.take(i as int));
    }
    bar.push(47);
    proof {
        lemma_decimal_len(amount as nat);
        lemma_decimal_len(max as nat);
        assert(amount_digits@.take(amount_digits@.len() as int) =~= amount_digits@);
    }
    if amount_digits.len() + max_digits.len() <= 8 {
        let ghost b1 = bar@;
        let mut j: usize = 0;
        while j < max_digits.len()
            invariant
                j <= max_digits@.len(),
                bar@ == b1 + max_digits@.take(j as int),
            decreases max_digits@.len() - j,
        {
            bar.push(max_digits[j]);
            j = j + 1;
            assert(bar@ =~= b1 + max_digits@.take(j as int));
        }
        assert(max_digits@.take(max_digits@.len() as int) =~= max_digits@);
    }
    let ghost f = spec_bar_filled(amount, max);
    assert(bar@ =~= spec_bar_text(amount, max));
    bar
}

/// The count under an item slot, three characters wide: `x` and the amount
/// for more than one item (the amount left out when over 3 digits).
pub open spec fn spec_count_text(amount: u16) -> Seq<u8> {
    let base = if amount > 1 {
        if spec_decimal(amount as nat).len() <= 3 {
            seq![120u8] + spec_decimal(amount as nat)
        } else {
            seq![120u8]
        }
    } else {
        Seq::<u8>::empty()
    };
    base + Seq::new(if base.len() < 3 { (3 - base.len()) as nat } else { 0 }, |i: int| 32u8)
}

/// The count under an item slot (see `spec_count_text`).
pub fn count_text(amount: u16) -> (r: Vec<u8>)
    ensures
        r@ == spec_count_text(amount),
{
    let mut count: Vec<u8> = Vec::new();
    if amount > 1 {
        count.push(120);
        let digits = decimal_text(amount as u32);
        if digits.len() <= 3 {
            let mut i: usize = 0;
            while i < digits.len()
                invariant
                    i <= digits@.len(),
                    count@ == seq![120u8] + digits@.take(i as int),
                decreases digits@.len() - i,
            {
                count.push(digits[i]);
                i = i + 1;
                assert(count@ =~= seq![120u8] + digits@.take(i as int));
            }
            assert(digits@.take(digits@.len() as int) =~= digits@);
        }
    }
    let ghost base = count@;
    assert(base =~= if amount > 1 {
        if spec_decimal(amount as nat).len() <= 3 {
            seq![120u8] + spec_decimal(amount as nat)
        } else {
            seq![120u8]
        }
    } else {
        Seq::<u8>::empty()
    });
    while count.len() < 3
        invariant
            base.len() <= count@.len() <= 3 || (count@ == base && base.len() > 3),
            count@ == base + Seq::new((count@.len() - base.len()) as nat, |i: int| 32u8),
        decreases 3 - count@.len(),
    {
        count.push(32);
        assert(count@ =~= base + Seq::new((count@.len() - base.len()) as nat, |i: int| 32u8));
    }
    assert(count@ =~= spec_count_text(amount));
    count
}

/// The fastest flag time of a stage: its frame count (left out when over 8
/// digits), or `-` when the stage's flag was not taken.
pub open spec fn spec_frame_text(frames: u32) -> Seq<u8> {
    if frames > 0 {
        if spec_decimal(frames as nat).len() <= 8 {
            spec_decimal(frames as nat)
        } else {
            Seq::<u8>::empty()
        }
    } else {
        seq![45u8]
    }
}

/// The fastest flag time of a stage (see `spec_frame_text`).
pub fn frame_text(frames: u32) -> (r: Vec<u8>)
    ensures
        r@ == spec_frame_text(frames),
{
    if frames > 0 {
        let digits = decimal_text(frames);
        if digits.len() <= 8 {
            digits
        } else {
            Vec::new()
        }
    } else {
        let mut r: Vec<u8> = Vec::new();
        r.push(45);
        assert(r@ =~= seq![45u8]);
        r
    }
}

/// The short name of a stage in the menu.
pub open spec fn spec_map_name(m: MapType) -> Seq<char> {
    match m {
        MapType::BossStage => seq!['B', 'o', 's', 's'],
        MapType::Volcano => seq!['V', 'o', 'l', 'c', 'a', 'n', 'o'],
        MapType::Forest => seq!['F', 'o', 'r', 'e', 's', 't'],
        MapType::Spaceship => seq!['S', 'p', 'S', 'h', 'i', 'p'],
        MapType::Arctic => seq!['A', 'r', 'c', 't', 'i', 'c'],
    }
}

/// The short name of a stage in the menu.
pub fn map_name(map_type: MapType) -> (r: &'static str)
    ensures
        r@ == spec_map_name(map_type),
        vstd::string::is_ascii(r),
{
    proof {
        reveal_strlit("Boss");
        reveal_strlit("Volcano");
        reveal_strlit("Forest");
        reveal_strlit("SpShip");
        reveal_strlit("Arctic");
    }
    match map_type {
        MapType::BossStage => "Boss",
        MapType::Volcano => "Volcano",
        MapType::Forest => "Forest",
        MapType::Spaceship => "SpShip",
        MapType::Arctic => "Arctic",
    }
}

/// The name of a weapon in the menu (see `WeaponType::display_name`).
pub open spec fn spec_weapon_name(w: WeaponType) -> Seq<char> {
    match w {
        WeaponType::Gun => seq!['G', 'u', 'n'],
        WeaponType::Sword => seq!['S', 'w', 'o', 'r', 'd'],
        WeaponType::ThreeGun => seq!['3', '-', 'G', 'u', 'n'],
        WeaponType::StrongGun => seq!['S', 't', 'r', 'n', 'g', 'G', 'u', 'n'],
        WeaponType::FlameSword => seq!['F', 'l', 'a', 'm', 'e', 'S', 'w', 'o', 'r', 'd'],
        WeaponType::DoubleEdgedSword => seq!['2', '-', 'E', 'd', 'g', 'e', ' ', 'S', 'w', 'o', 'r', 'd'],
        WeaponType::StrongSword => seq!['S', 't', 'r', 'n', 'g', 'S', 'w', 'o', 'r', 'd'],
    }
}

/// The bytes of a weapon's name.
fn weapon_name_text(w: WeaponType) -> (r: Vec<u8>)
    ensures
        r@ == spec_ascii(spec_weapon_name(w)),
{
    let name = w.display_name();
    proof {
        reveal_strlit("Gun");
        reveal_strlit("Sword");
        reveal_strlit("3-Gun");
        reveal_strlit("StrngGun");
        reveal_strlit("FlameSword");
        reveal_strlit("2-Edge Sword");
        reveal_strlit("StrngSword");
        assert(name@ == spec_weapon_name(w));
    }
    ascii_text(name)
}

/// The uses a weapon's bar shows: none below zero.
pub open spec fn spec_bar_uses(u: Option<i16>) -> u16 {
    match u {
        Some(v) => if v > 0 { v as u16 } else { 0 },
        None => 0,
    }
}

/// Whether the bars of the weapons stay within range (at most 8191 uses).
pub open spec fn weapon_bars_ok(ws: Seq<InventoryWeapon>) -> bool {
    forall|i: int| 0 <= i < ws.len() ==> spec_bar_uses((#[trigger] ws[i]).uses_left) <= 8191
}

/// The weapon list of the menu, one row per weapon from row 12 on: a `>`
/// on the equipped weapon (a space on the others), the weapon's name, and
/// a uses bar for weapons with a limited number of uses.
pub open spec fn spec_weapon_rows(ws: Seq<InventoryWeapon>, selected: WeaponType) -> Seq<LabelView>
    decreases ws.len(),
{
    if ws.len() == 0 {
        Seq::empty()
    } else {
        let w = ws.last();
        let y = (WEAPON_LIST_Y + ws.len() - 1) as u16;
        let row = seq![
            LabelView { text: if w.weapon_type == selected { seq![62u8] } else { seq![32u8] }, x: WEAPON_ARROW_X, y },
            LabelView { text: spec_ascii(spec_weapon_name(w.weapon_type)), x: WEAPON_NAME_X, y },
        ];
        let bar = match spec_max_uses(w.weapon_type) {
            Some(m) => seq![LabelView { text: spec_bar_text(spec_bar_uses(w.uses_left), m as u16), x: WEAPON_BAR_X, y }],
            None => Seq::<LabelView>::empty(),
        };
        spec_weapon_rows(ws.drop_last(), selected) + row + bar
    }
}

/// The views of labels.
pub open spec fn label_views(ls: Seq<Label>) -> Seq<LabelView> {
    ls.map_values(|l: Label| l@)
}

/// The weapon list of the menu (see `spec_weapon_rows`).
pub fn weapon_labels(inventory: &Inventory, selected: WeaponType) -> (r: Vec<Label>)
    requires
        weapon_bars_ok(inventory.spec_weapons()),
    ensures
        label_views(r@) == spec_weapon_rows(inventory.spec_weapons(), selected),
{
    let ghost ws = inventory.spec_weapons();
    let n = weapons_len(&inventory.weapons);
    let mut r: Vec<Label> = Vec::new();
    let mut i: usize = 0;
    assert(ws.take(0) =~= Seq::<InventoryWeapon>::empty());
    assert(label_views(r@) =~= Seq::<LabelView>::empty());
    while i < n
        invariant
            n == ws.len(),
            n <= 16,
            i <= n,
            ws == inventory.spec_weapons(),
            weapon_bars_ok(ws),
            label_views(r@) == spec_weapon_rows(ws.take(i as int), selected),
        decreases n - i,
    {
        let w = weapons_get(&inventory.weapons, i);
        assert(ws.take(i + 1).drop_last() =~= ws.take(i as int));
        assert(ws.take(i + 1).last() == ws[i as int]);
        let y = WEAPON_LIST_Y + i as u16;
        let mut marker: Vec<u8> = Vec::new();
        marker.push(if w.weapon_type == selected { 62u8 } else { 32u8 });
        let ghost before = r@;
        let l1 = Label { text: marker, x: WEAPON_ARROW_X, y };
        let l2 = Label { text: weapon_name_text(w.weapon_type), x: WEAPON_NAME_X, y };
        let ghost row = seq![l1@, l2@];
        assert(row == seq![
            LabelView { text: if w.weapon_type == selected { seq![62u8] } else { seq![32u8] }, x: WEAPON_ARROW_X, y },
            LabelView { text: spec_ascii(spec_weapon_name(w.weapon_type)), x: WEAPON_NAME_X, y },
        ]);
        r.push(l1);
        r.push(l2);
        assert(label_views(r@) =~= label_views(before) + row);
        if let Some(max) = w.weapon_type.max_uses() {
            let uses: u16 = match w.uses_left {
                Some(v) => if v > 0 { v as u16 } else { 0 },
                None => 0,
            };
            assert(spec_bar_uses(ws[i as int].uses_left) <= 8191);
            let l3 = Label { text: bar_text(uses, max as u16), x: WEAPON_BAR_X, y };
            let ghost mid = r@;
            r.push(l3);
            assert(label_views(r@) =~= label_views(mid).push(l3@));
        }
        proof {
            assert(label_views(r@) =~= spec_weapon_rows(ws.take(i + 1), selected));
        }
        i = i + 1;
    }
    assert(ws.take(n as int) =~= ws);
    r
}

/// The item kind and amount shown in slot `i` (an empty slot holds no items).
pub open spec fn spec_slot(items: Seq<InventoryItem>, i: int) -> (ItemType, u16) {
    if i < items.len() {
        (items[i].item_type, items[i].amount)
    } else {
        (ItemType::Key, 0u16)
    }
}

/// The first column of item slot `i`.
pub open spec fn spec_slot_x(i: int) -> u16 {
    (ITEMS_ROW_X + i * SLOT_STRIDE) as u16
}

/// The item texts of the menu, two per slot: a `v` over the selected slot
/// (a space over the others), and the slot's count.
pub open spec fn spec_item_labels(items: Seq<InventoryItem>, selection: Option<usize>) -> Seq<LabelView> {
    Seq::new(
        2 * ITEM_SLOT_LEN as nat,
        |j: int|
            {
                let i = j / 2;
                if j % 2 == 0 {
                    LabelView {
                        text: if selection == Some(i as usize) { seq![118u8] } else { seq![32u8] },
                        x: (spec_slot_x(i) + SLOT_SIZE / 2) as u16,
                        y: ITEMS_MARKER_Y,
                    }
                } else {
                    LabelView { text: spec_count_text(spec_slot(items, i).1), x: (spec_slot_x(i) + 1) as u16, y: ITEMS_COUNT_Y }
                }
            },
    )
}

/// The icon shown in each item slot: the item's sprite when it holds items.
pub open spec fn spec_item_icons(items: Seq<InventoryItem>) -> Seq<Option<ItemType>> {
    Seq::new(
        ITEM_SLOT_LEN as nat,
        |i: int| if spec_slot(items, i).1 > 0 { Some(spec_slot(items, i).0) } else { None },
    )
}

/// What the menu shows of the items and weapons: texts, and the icon (if
/// any) of each item slot.
pub struct MenuContent {
    pub labels: Vec<Label>,
    pub icons: Vec<Option<ItemType>>,
}

/// The item slots of the menu (see `spec_item_labels` and `spec_item_icons`).
pub fn item_content(inventory: &Inventory) -> (r: MenuContent)
    ensures
        label_views(r.labels@) == spec_item_labels(inventory.spec_items(), spec_selection(inventory)),
        r.icons@ == spec_item_icons(inventory.spec_items()),
{
    let ghost items = inventory.spec_items();
    let selection: Option<usize> = match &inventory.scene {
        Some(s) => s.selection,
        None => None,
    };
    let n = items_len(&inventory.items);
    let mut labels: Vec<Label> = Vec::new();
    let mut icons: Vec<Option<ItemType>> = Vec::new();
    let mut i: usize = 0;
    while i < ITEM_SLOT_LEN
        invariant
            i <= ITEM_SLOT_LEN,
            n == items.len(),
            n <= ITEM_SLOT_LEN,
            items == inventory.spec_items(),
            selection == spec_selection(inventory),
            label_views(labels@) == spec_item_labels(items, selection).take(2 * i),
            icons@ == spec_item_icons(items).take(i as int),
        decreases ITEM_SLOT_LEN - i,
    {
        let (item_type, amount) = if i < n {
            let it = items_get(&inventory.items, i);
            (it.item_type, it.amount)
        } else {
            (ItemType::Key, 0u16)
        };
        let slot_x = ITEMS_ROW_X + i as u16 * SLOT_STRIDE;
        let mut marker: Vec<u8> = Vec::new();
        marker.push(if selection == Some(i) { 118u8 } else { 32u8 });
        let ghost before = labels@;
        let l1 = Label { text: marker, x: slot_x + SLOT_SIZE / 2, y: ITEMS_MARKER_Y };
        let l2 = Label { text: count_text(amount), x: slot_x + 1, y: ITEMS_COUNT_Y };
        labels.push(l1);
        icons.push(if amount > 0 { Some(item_type) } else { None });
        labels.push(l2);
        proof {
            let sl = spec_item_labels(items, selection);
            assert((2 * i) as int / 2 == i && (2 * i) as int % 2 == 0);
            assert((2 * i + 1) as int / 2 == i && (2 * i + 1) as int % 2 == 1);
            assert(spec_slot(items, i as int) == (item_type, amount));
            assert(sl[2 * i as int] == l1@);
            assert(sl[2 * i + 1] == l2@);
            assert(label_views(labels@) =~= label_views(before).push(l1@).push(l2@));
            assert(label_views(labels@) =~= spec_item_labels(items, selection).take(2 * i + 2));
            assert(icons@ =~= spec_item_icons(items).take(i + 1));
        }
        i = i + 1;
    }
    assert(spec_item_labels(items, selection).take(2 * ITEM_SLOT_LEN as int) =~= spec_item_labels(items, selection));
    assert(spec_item_icons(items).take(ITEM_SLOT_LEN as int) =~= spec_item_icons(items));
    MenuContent { labels, icons }
}

/// The item slot selected in the open menu.
pub open spec fn spec_selection(inventory: &Inventory) -> Option<usize> {
    match inventory.scene {
        Some(s) => s.selection,
        None => None,
    }
}

/// The cells that draw an item's 2x2 sprite centered in the 4x4 slot at
/// (slot_x, slot_y): the item sprites lie one after the other from VRAM tile
/// `item_start_tile`, four tiles each, column by column; the cells use
/// palette B and show in front of sprites.
pub open spec fn spec_icon_cells(item_type: ItemType, slot_x: u16, slot_y: u16, item_start_tile: u16) -> Seq<(u16, TileFlags)> {
    Seq::new(
        4,
        |j: int|
            {
                let tx = j / 2;
                let ty = j % 2;
                let tile = (item_start_tile + spec_item_index(item_type) * 4 + tx * 2 + ty) as u16;
                (((slot_y + 1 + ty) * 64 + slot_x + 1 + tx) as u16, TileFlags(((tile & 0x7FFu16) | 0x2000u16) | 0x8000u16))
            },
    )
}

/// The cells that draw an item's icon in a slot (see `spec_icon_cells`),
/// each a plane position and its cell.
pub fn item_icon_cells(item_type: ItemType, slot_x: u16, slot_y: u16, item_start_tile: u16) -> (r: Vec<(u16, TileFlags)>)
    requires
        item_start_tile + 24 <= u16::MAX,
        (slot_y + 2) * 64 + slot_x + 2 <= u16::MAX,
    ensures
        r@ == spec_icon_cells(item_type, slot_x, slot_y, item_start_tile),
{
    let start_tile = item_start_tile + item_type.index() * ITEM_SIZE * ITEM_SIZE;
    let off_x = slot_x + (SLOT_SIZE - ITEM_SIZE) / 2;
    let off_y = slot_y + (SLOT_SIZE - ITEM_SIZE) / 2;
    let mut r: Vec<(u16, TileFlags)> = Vec::new();
    let mut tx: u16 = 0;
    while tx < ITEM_SIZE
        invariant
            tx <= ITEM_SIZE,
            start_tile == item_start_tile + spec_item_index(item_type) * 4,
            off_x == slot_x + 1,
            off_y == slot_y + 1,
            item_start_tile + 24 <= u16::MAX,
            (slot_y + 2) * 64 + slot_x + 2 <= u16::MAX,
            r@ == spec_icon_cells(item_type, slot_x, slot_y, item_start_tile).take(2 * tx),
        decreases ITEM_SIZE - tx,
    {
        let mut ty: u16 = 0;
        while ty < ITEM_SIZE
            invariant
                tx < ITEM_SIZE,
                ty <= ITEM_SIZE,
                start_tile == item_start_tile + spec_item_index(item_type) * 4,
                off_x == slot_x + 1,
                off_y == slot_y + 1,
                item_start_tile + 24 <= u16::MAX,
                (slot_y + 2) * 64 + slot_x + 2 <= u16::MAX,
                r@ == spec_icon_cells(item_type, slot_x, slot_y, item_start_tile).take(2 * tx + ty),
            decreases ITEM_SIZE - ty,
        {
            let tile = start_tile + tx * ITEM_SIZE + ty;
            let mut cell = TileFlags::for_tile(tile, Palette::B);
            cell.set_priority(true);
            assert((1u16 << 13u16) == 0x2000u16) by (bit_vector);
            assert(cell.0 == ((tile & 0x7FFu16) | 0x2000u16) | 0x8000u16);
            proof {
                assert((slot_y + 1 + ty) * 64 + slot_x + 1 + tx <= (slot_y + 2) * 64 + slot_x + 2) by (nonlinear_arith)
                    requires
                        ty <= 1,
                        tx <= 1,
                ;
            }
            r.push(((off_y + ty) * 64 + (off_x + tx), cell));
            proof {
                let j = 2 * tx + ty;
                assert(j / 2 == tx && j % 2 == ty);
                assert(r@ =~= spec_icon_cells(item_type, slot_x, slot_y, item_start_tile).take(2 * tx + ty + 1));
            }
            ty = ty + 1;
        }
        tx = tx + 1;
    }
    assert(r@ =~= spec_icon_cells(item_type, slot_x, slot_y, item_start_tile));
    r
}

/// The plane positions to clear to empty the 4x4 icon area of the slot at
/// (slot_x, slot_y), row by row.
pub fn icon_area_cells(slot_x: u16, slot_y: u16) -> (r: Vec<(u16, u16)>)
    requires
        slot_x + SLOT_SIZE <= u16::MAX,
        slot_y + SLOT_SIZE <= u16::MAX,
    ensures
        r@ == Seq::new(16, |j: int| ((slot_x + j % 4) as u16, (slot_y + j / 4) as u16)),
{
    let mut r: Vec<(u16, u16)> = Vec::new();
    let mut cy: u16 = 0;
    while cy < SLOT_SIZE
        invariant
            cy <= SLOT_SIZE,
            slot_x + SLOT_SIZE <= u16::MAX,
            slot_y + SLOT_SIZE <= u16::MAX,
            r@ == Seq::new(16, |j: int| ((slot_x + j % 4) as u16, (slot_y + j / 4) as u16)).take(4 * cy),
        decreases SLOT_SIZE - cy,
    {
        let mut cx: u16 = 0;
        while cx < SLOT_SIZE
            invariant
                cy < SLOT_SIZE,
                cx <= SLOT_SIZE,
                slot_x + SLOT_SIZE <= u16::MAX,
                slot_y + SLOT_SIZE <= u16::MAX,
                r@ == Seq::new(16, |j: int| ((slot_x + j % 4) as u16, (slot_y + j / 4) as u16)).take(4 * cy + cx),
            decreases SLOT_SIZE - cx,
        {
            r.push((slot_x + cx, slot_y + cy));
            proof {
                let j = 4 * cy + cx;
                assert(j % 4 == cx && j / 4 == cy);
                assert(r@ =~= Seq::new(16, |j: int| ((slot_x + j % 4) as u16, (slot_y + j / 4) as u16)).take(4 * cy + cx + 1));
            }
            cx = cx + 1;
        }
        cy = cy + 1;
    }
    assert(r@ =~= Seq::new(16, |j: int| ((slot_x + j % 4) as u16, (slot_y + j / 4) as u16)));
    r
}

/// The border cell of the menu: tile 1 in palette C, in front of sprites.
pub open spec fn spec_border_cell() -> TileFlags {
    TileFlags(0xC001u16)
}

/// Plane A with the menu's frame: the first 32 rows of the 40 visible
/// columns are cleared, and a border runs along rows 0 and 27 and columns 0
/// and 39 in between.
pub open spec fn spec_menu_frame(plane: Seq<TileFlags>) -> Seq<TileFlags> {
    Seq::new(
        plane.len(),
        |k: int|
            {
                let row = k / 64;
                let col = k % 64;
                if row < 32 && col < 40 {
                    if row == 0 || row == 27 || (1 <= row <= 26 && (col == 0 || col == 39)) {
                        spec_border_cell()
                    } else {
                        TileFlags(0)
                    }
                } else {
                    plane[k]
                }
            },
    )
}

/// Position `k` lies in the 40 cells from row `y`'s start exactly when it is
/// in row `y` and in one of its first 40 columns.
proof fn lemma_row_cells(k: int, y: int)
    requires
        0 <= k,
        0 <= y,
    ensures
        (y * 64 <= k < y * 64 + 40) <==> (k / 64 == y && k % 64 < 40),
{
    assert((y * 64 <= k < y * 64 + 40) <==> (k / 64 == y && k % 64 < 40)) by (nonlinear_arith)
        requires
            0 <= k,
            0 <= y,
    ;
}

/// Draws the menu's frame into plane A (see `spec_menu_frame`).
pub fn draw_menu_frame(vdp: &mut Vdp)
    ensures
        final(vdp).plane_a@ == spec_menu_frame(old(vdp).plane_a@),
{
    let mut border = TileFlags::for_tile(1, Palette::C);
    border.set_priority(true);
    assert(((1u16 & 0x7FFu16) | (2u16 << 13u16)) | 0x8000u16 == 0xC001u16) by (bit_vector);
    assert(border == spec_border_cell());
    let ghost p0 = vdp.plane_a@;
    let mut row: u16 = 0;
    while row < 32
        invariant
            row <= 32,
            border == spec_border_cell(),
            vdp.plane_a@.len() == p0.len(),
            forall|k: int| 0 <= k < p0.len() ==> #[trigger] vdp.plane_a@[k] == (if k / 64 < row {
                spec_menu_frame(p0)[k]
            } else {
                p0[k]
            }),
        decreases 32 - row,
    {
        let mut cells: Vec<TileFlags> = Vec::new();
        let mut col: u16 = 0;
        while col < 40
            invariant
                row < 32,
                col <= 40,
                border == spec_border_cell(),
                cells@.len() == col,
                forall|c: int| 0 <= c < col ==> #[trigger] cells@[c] == (if row == 0 || row == 27 || (1 <= row <= 26 && (c == 0 || c == 39)) {
                    spec_border_cell()
                } else {
                    TileFlags(0)
                }),
            decreases 40 - col,
        {
            if row == 0 || row == 27 || (1 <= row && row <= 26 && (col == 0 || col == 39)) {
                cells.push(border);
            } else {
                cells.push(TileFlags::new());
            }
            col = col + 1;
        }
        vdp.set_plane_tiles(Plane::A, row * 64, cells.as_slice());
        proof {
            assert forall|k: int| 0 <= k < p0.len() implies #[trigger] vdp.plane_a@[k] == (if k / 64 < row + 1 {
                spec_menu_frame(p0)[k]
            } else {
                p0[k]
            }) by {
                lemma_row_cells(k, row as int);
            }
        }
        row = row + 1;
    }
    assert(vdp.plane_a@ =~= spec_menu_frame(p0));
}

/// The stage at position `i` of the stage list.
pub open spec fn spec_map_at(i: int) -> MapType {
    if i == 0 {
        MapType::Forest
    } else if i == 1 {
        MapType::Volcano
    } else if i == 2 {
        MapType::Spaceship
    } else if i == 3 {
        MapType::Arctic
    } else {
        MapType::BossStage
    }
}

/// The column of stage `i`'s flag time: the stages stand side by side from
/// column 2 on, each at least six columns wide and one apart.
pub open spec fn spec_flag_column(i: nat) -> int
    decreases i,
{
    if i == 0 {
        2
    } else {
        let w = spec_map_name(spec_map_at(i - 1)).len();
        spec_flag_column((i - 1) as nat) + (if w > 6 { w as int } else { 6 }) + 1
    }
}

/// The flag times of the menu: each stage's name on row 8 and its fastest
/// flag time under it.
pub open spec fn spec_flag_labels(flag_frames: Seq<u32>) -> Seq<LabelView> {
    Seq::new(
        2 * MAP_COUNT as nat,
        |j: int|
            {
                let i = j / 2;
                let x = spec_flag_column(i as nat) as u16;
                if j % 2 == 0 {
                    LabelView { text: spec_ascii(spec_map_name(spec_map_at(i))), x, y: 8 }
                } else {
                    LabelView { text: spec_frame_text(flag_frames[i]), x, y: 9 }
                }
            },
    )
}

/// Text centered on the 40-column screen.
pub open spec fn spec_centered(text: Seq<u8>, y: u16) -> LabelView {
    LabelView { text, x: spec_centered_x(text.len()), y }
}

/// A label from an ASCII text.
fn label(text: &str, x: u16, y: u16) -> (r: Label)
    requires
        vstd::string::is_ascii(text),
    ensures
        r@ == (LabelView { text: spec_ascii(text@), x, y }),
{
    Label { text: ascii_text(text), x, y }
}

/// A label centered on the screen.
fn centered_label(text: Vec<u8>, y: u16) -> (r: Label)
    ensures
        r@ == spec_centered(text@, y),
{
    let x = centered_x(text.len());
    Label { text, x, y }
}

/// Everything the menu writes when it opens, in order: the title, the
/// stage, the player's health bar, the flag times, the headings, the weapon
/// list, the item slots (nothing selected) and the two help lines.
pub open spec fn spec_pause_labels(
    map_type: MapType,
    health: u16,
    max_health: u16,
    flag_frames: Seq<u32>,
    weapons: Seq<InventoryWeapon>,
    selected: WeaponType,
    items: Seq<InventoryItem>,
) -> Seq<LabelView> {
    seq![
        spec_centered(spec_ascii("== GAME PAUSED =="@), 2),
        LabelView { text: spec_ascii("Stage:"@), x: LABEL_X, y: 4 },
        LabelView { text: spec_ascii(spec_map_name(map_type)), x: VALUE_X, y: 4 },
        LabelView { text: spec_ascii("Health:"@), x: LABEL_X, y: 5 },
        LabelView { text: spec_bar_text(health, max_health), x: VALUE_X, y: 5 },
        LabelView { text: spec_ascii("Flag score speed:"@), x: 2, y: 7 },
    ] + spec_flag_labels(flag_frames) + seq![
        LabelView { text: spec_ascii("Weapons:"@), x: LABEL_X, y: WEAPON_LABEL_Y },
        LabelView { text: spec_ascii("Items:"@), x: LABEL_X, y: ITEMS_LABEL_Y },
    ] + spec_weapon_rows(weapons, selected) + spec_item_labels(items, None) + seq![
        spec_centered(spec_ascii("L/R: item      U/D: weapon      B: use"@), 23),
        spec_centered(spec_ascii("Press START to resume"@), 25),
    ]
}

/// Appends labels.
fn append_labels(out: &mut Vec<Label>, more: Vec<Label>)
    ensures
        label_views(final(out)@) == label_views(old(out)@) + label_views(more@),
{
    let ghost m = more@;
    let mut more = more;
    let mut rev: Vec<Label> = Vec::new();
    while more.len() > 0
        invariant
            m.len() == more@.len() + rev@.len(),
            forall|k: int| 0 <= k < more@.len() ==> #[trigger] more@[k] == m[k],
            forall|k: int| 0 <= k < rev@.len() ==> #[trigger] rev@[k] == m[m.len() - 1 - k],
            out@ == old(out)@,
        decreases more@.len(),
    {
        let l = more.pop().unwrap();
        rev.push(l);
    }
    while rev.len() > 0
        invariant
            rev@.len() <= m.len(),
            forall|k: int| 0 <= k < rev@.len() ==> #[trigger] rev@[k] == m[m.len() - 1 - k],
            label_views(out@) == label_views(old(out)@) + label_views(m.take(m.len() - rev@.len())),
        decreases rev@.len(),
    {
        let ghost before = out@;
        let l = rev.pop().unwrap();
        out.push(l);
        proof {
            let i = m.len() - rev@.len() - 1;
            assert(m.take(i + 1) =~= m.take(i).push(m[i]));
            assert(label_views(out@) =~= label_views(before).push(l@));
            assert(label_views(m.take(i + 1)) =~= label_views(m.take(i)).push(m[i]@));
        }
    }
    assert(m.take(m.len() as int) =~= m);
}

impl InventoryScene {
    /// Opens the pause menu: the menu scene starts (nothing selected), the
    /// frame is drawn into plane A, and the menu's texts and item icons are
    /// returned for drawing (see `spec_pause_labels`). `flag_frames` holds the
    /// fastest flag time of each stage.
    pub fn on_enter(
        inventory: &mut Inventory,
        map_type: MapType,
        health: u16,
        max_health: u16,
        flag_frames: &Vec<u32>,
        selected: WeaponType,
        vdp: &mut Vdp,
    ) -> (r: MenuContent)
        requires
            flag_frames@.len() == MAP_COUNT,
            health * 8 <= u16::MAX,
            weapon_bars_ok(old(inventory).spec_weapons()),
        ensures
            *final(inventory) == (Inventory { scene: Some(InventoryScene { selection: None, needs_refresh: false }), ..*old(inventory) }),
            final(vdp).plane_a@ == spec_menu_frame(old(vdp).plane_a@),
            label_views(r.labels@) == spec_pause_labels(
                map_type,
                health,
                max_health,
                flag_frames@,
                old(inventory).spec_weapons(),
                selected,
                old(inventory).spec_items(),
            ),
            r.icons@ == spec_item_icons(old(inventory).spec_items()),
    {
        inventory.scene = Some(InventoryScene::new());
        draw_menu_frame(vdp);
        proof {
            reveal_strlit("== GAME PAUSED ==");
            reveal_strlit("Stage:");
            reveal_strlit("Health:");
            reveal_strlit("Flag score speed:");
            reveal_strlit("Weapons:");
            reveal_strlit("Items:");
            reveal_strlit("L/R: item      U/D: weapon      B: use");
            reveal_strlit("Press START to resume");
        }
        let l0 = centered_label(ascii_text("== GAME PAUSED =="), 2);
        let l1 = label("Stage:", LABEL_X, 4);
        let l2 = label(map_name(map_type), VALUE_X, 4);
        let l3 = label("Health:", LABEL_X, 5);
        let l4 = Label { text: bar_text(health, max_health), x: VALUE_X, y: 5 };
        let l5 = label("Flag score speed:", 2, 7);
        let ghost head = seq![l0@, l1@, l2@, l3@, l4@, l5@];
        let mut labels: Vec<Label> = Vec::new();
        labels.push(l0);
        labels.push(l1);
        labels.push(l2);
        labels.push(l3);
        labels.push(l4);
        labels.push(l5);
        assert(label_views(labels@) =~= head);
        let mut flags: Vec<Label> = Vec::new();
        let mut x: u16 = 2;
        let mut i: usize = 0;
        while i < MAP_COUNT
            invariant
                i <= MAP_COUNT,
                flag_frames@.len() == MAP_COUNT,
                x == spec_flag_column(i as nat),
                x <= 2 + 8 * i,
                label_views(flags@) == spec_flag_labels(flag_frames@).take(2 * i),
            decreases MAP_COUNT - i,
        {
            let m = MapType::from_index(i).unwrap();
            assert(m == spec_map_at(i as int));
            let name = map_name(m);
            let ghost before = flags@;
            let l1 = label(name, x, 8);
            let l2 = Label { text: frame_text(flag_frames[i]), x, y: 9 };
            flags.push(l1);
            flags.push(l2);
            proof {
                assert((2 * i) as int / 2 == i && (2 * i) as int % 2 == 0);
                assert((2 * i + 1) as int / 2 == i && (2 * i + 1) as int % 2 == 1);
                assert(label_views(flags@) =~= label_views(before).push(l1@).push(l2@));
                assert(label_views(flags@) =~= spec_flag_labels(flag_frames@).take(2 * i + 2));
            }
            let n = name.len();
            proof {
                assert(name@.len() <= 7);
                assert(n == name@.len()) by {
                    assert(vstd::string::is_ascii(name));
                }
            }
            x = x + (if n > 6 { n as u16 } else { 6 }) + 1;
            i = i + 1;
        }
        assert(spec_flag_labels(flag_frames@).take(2 * MAP_COUNT as int) =~= spec_flag_labels(flag_frames@));
        append_labels(&mut labels, flags);
        let ghost s1 = label_views(labels@);
        let l_weapons = label("Weapons:", LABEL_X, WEAPON_LABEL_Y);
        let l_items = label("Items:", LABEL_X, ITEMS_LABEL_Y);
        labels.push(l_weapons);
        labels.push(l_items);
        proof {
            assert(label_views(labels@) =~= s1.push(l_weapons@).push(l_items@));
        }
        let ghost s2 = label_views(labels@);
        let weapons = weapon_labels(inventory, selected);
        let ghost wv = label_views(weapons@);
        append_labels(&mut labels, weapons);
        let items = item_content(inventory);
        let ghost iv = label_views(items.labels@);
        append_labels(&mut labels, items.labels);
        let ghost s3 = label_views(labels@);
        let l_help = centered_label(ascii_text("L/R: item      U/D: weapon      B: use"), 23);
        let l_resume = centered_label(ascii_text("Press START to resume"), 25);
        labels.push(l_help);
        labels.push(l_resume);
        proof {
            assert(label_views(labels@) =~= s3.push(l_help@).push(l_resume@));
            assert(s3 == s2 + wv + iv);
            assert(s2 == s1 + seq![l_weapons@, l_items@]);
            assert(s1 == head + spec_flag_labels(flag_frames@));
        }
        assert(label_views(labels@) =~= spec_pause_labels(
            map_type,
            health,
            max_health,
            flag_frames@,
            old(inventory).spec_weapons(),
            selected,
            old(inventory).spec_items(),
        ));
        MenuContent { labels, icons: items.icons }
    }

    /// The menu's redraw of a frame: while the open menu has nothing new,
    /// nothing; otherwise the weapon list and the item slots, the menu's
    /// change flag cleared.
    pub fn render(inventory: &mut Inventory, selected: WeaponType) -> (r: Option<MenuContent>)
        requires
            weapon_bars_ok(old(inventory).spec_weapons()),
        ensures
            match old(inventory).scene {
                Some(s) => if !s.needs_refresh {
                    r is None && *final(inventory) == *old(inventory)
                } else {
                    *final(inventory) == (Inventory { scene: Some(InventoryScene { needs_refresh: false, ..s }), ..*old(inventory) })
                },
                None => *final(inventory) == *old(inventory),
            },
            r matches Some(c) ==> {
                &&& label_views(c.labels@) == spec_weapon_rows(final(inventory).spec_weapons(), selected) + spec_item_labels(
                    final(inventory).spec_items(),
                    spec_selection(final(inventory)),
                )
                &&& c.icons@ == spec_item_icons(final(inventory).spec_items())
            },
            (old(inventory).scene matches Some(s) && !s.needs_refresh) <==> r is None,
    {
        match inventory.scene {
            Some(s) => {
                if !s.needs_refresh {
                    return None;
                }
                inventory.scene = Some(InventoryScene { needs_refresh: false, ..s });
            },
            None => {},
        }
        let mut labels = weapon_labels(inventory, selected);
        let items = item_content(inventory);
        append_labels(&mut labels, items.labels);
        Some(MenuContent { labels, icons: items.icons })
    }

    /// Closes the pause menu (the caller then clears the item slots and
    /// redraws the stage).
    pub fn on_exit(inventory: &mut Inventory)
        ensures
            *final(inventory) == (Inventory { scene: None, ..*old(inventory) }),
    {
        inventory.scene = None;
    }
}

/// The plane B positions of the item slot boxes, one per slot.
pub open spec fn spec_item_box_positions() -> Seq<(u16, u16)> {
    Seq::new(ITEM_SLOT_LEN as nat, |i: int| (spec_slot_x(i), (ITEMS_ROW_Y + HUD_HIDE_SCROLL_TILES) as u16))
}

/// The plane B positions of the item slot boxes (drawn once when the menu
/// opens; plane B is scrolled by the HUD's height while the menu shows).
pub fn item_box_positions() -> (r: Vec<(u16, u16)>)
    ensures
        r@ == spec_item_box_positions(),
{
    let mut r: Vec<(u16, u16)> = Vec::new();
    let mut i: u16 = 0;
    while i < ITEM_SLOT_LEN as u16
        invariant
            i <= ITEM_SLOT_LEN,
            r@ == spec_item_box_positions().take(i as int),
        decreases ITEM_SLOT_LEN - i,
    {
        r.push((ITEMS_ROW_X + i * SLOT_STRIDE, ITEMS_ROW_Y + HUD_HIDE_SCROLL_TILES));
        i = i + 1;
        assert(r@ =~= spec_item_box_positions().take(i as int));
    }
    assert(r@ =~= spec_item_box_positions());
    r
}

/// The plane B positions to clear when the menu closes: the item slot
/// boxes, row by row.
pub fn item_box_area() -> (r: Vec<(u16, u16)>)
    ensures
        r@ == Seq::new(
            (SLOT_SIZE * ITEMS_ROW_W) as nat,
            |j: int| ((ITEMS_ROW_X + j % 32) as u16, (ITEMS_ROW_Y + HUD_HIDE_SCROLL_TILES + j / 32) as u16),
        ),
{
    let ghost want = Seq::new(
        (SLOT_SIZE * ITEMS_ROW_W) as nat,
        |j: int| ((ITEMS_ROW_X + j % 32) as u16, (ITEMS_ROW_Y + HUD_HIDE_SCROLL_TILES + j / 32) as u16),
    );
    let mut r: Vec<(u16, u16)> = Vec::new();
    let mut row: u16 = 0;
    while row < SLOT_SIZE
        invariant
            row <= SLOT_SIZE,
            r@ == want.take(32 * row),
            want == Seq::new(
                (SLOT_SIZE * ITEMS_ROW_W) as nat,
                |j: int| ((ITEMS_ROW_X + j % 32) as u16, (ITEMS_ROW_Y + HUD_HIDE_SCROLL_TILES + j / 32) as u16),
            ),
        decreases SLOT_SIZE - row,
    {
        let mut col: u16 = 0;
        while col < ITEMS_ROW_W
            invariant
                row < SLOT_SIZE,
                col <= ITEMS_ROW_W,
                r@ == want.take(32 * row + col),
                want == Seq::new(
                    (SLOT_SIZE * ITEMS_ROW_W) as nat,
                    |j: int| ((ITEMS_ROW_X + j % 32) as u16, (ITEMS_ROW_Y + HUD_HIDE_SCROLL_TILES + j / 32) as u16),
                ),
            decreases ITEMS_ROW_W - col,
        {
            r.push((ITEMS_ROW_X + col, ITEMS_ROW_Y + HUD_HIDE_SCROLL_TILES + row));
            proof {
                let j: int = 32 * row + col;
                assert(j % 32 == col && j / 32 == row) by (nonlinear_arith)
                    requires
                        j == 32 * row + col,
                        0 <= col < 32,
                        0 <= row,
                ;
                assert(want[j] == ((ITEMS_ROW_X + col) as u16, (ITEMS_ROW_Y + HUD_HIDE_SCROLL_TILES + row) as u16));
                assert(r@ =~= want.take(32 * row + col + 1));
            }
            col = col + 1;
        }
        row = row + 1;
    }
    assert(r@ =~= want);
    r
}

} // verus!
