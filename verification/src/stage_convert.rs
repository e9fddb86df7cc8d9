//! Converting a stage drawn in the Tiled editor: its layers are merged into
//! the graphics and attribute grids, and its objects become the spawn point,
//! enemies, NPCs, items, doors and switches the stage source is generated from.
//!
//! The editor's file is read elsewhere; here a stage arrives as plain layers
//! and objects, with positions already rounded to whole pixels and each
//! layer's tile attribute (if its name names one) already looked up.
use vstd::prelude::*;

use crate::convert::{
    door_orientation, is_miniboss_name, miniboss_word, parse_walk_data, spec_parse_walk,
    ConvertMapResult, DoorData, EnemyData, EnemyProperties, EnemyView, ItemData, ItemView,
    MapSerializationData, NpcData, NpcView, SwitchData, TiledMap, WalkData, MAX_PLACED,
};
use crate::door::Orientation;

verus! {

/// The value of an object property, as far as conversion reads it.
#[derive(Debug, PartialEq, Eq)]
pub enum PropertyValue {
    Bool(bool),
    Int(i32),
    Text(Vec<u8>),
    /// Any other kind of value (float, color, file, object, class).
    Other,
}

/// An object of an object layer.
pub struct MapObject {
    pub name: Vec<u8>,
    /// The object's class ("Enemy", "Npc", "Item", "Door", "Switch").
    pub user_type: Vec<u8>,
    /// Position, rounded to the nearest pixel.
    pub x: i64,
    pub y: i64,
    /// Named properties (each name once).
    pub properties: Vec<(Vec<u8>, PropertyValue)>,
}

/// What a layer holds.
pub enum LayerContent {
    /// A finite tile layer: `tiles[y * width + x]` is the id (within the
    /// tileset) of the tile at (x, y), if any.
    Tiles { width: u32, height: u32, tiles: Vec<Option<u32>> },
    Objects(Vec<MapObject>),
    /// An infinite tile layer, an image layer or a group.
    Unsupported,
}

/// A layer of the stage.
pub struct MapLayer {
    pub name: Vec<u8>,
    /// Whether the layer lies on the stage's grid (it has no pixel offset).
    pub aligned: bool,
    /// The tile attribute bits the layer's name stands for, if it names one.
    pub attribute: Option<u8>,
    pub content: LayerContent,
}

/// Why a stage cannot be converted.
#[derive(Clone, Copy, Debug, PartialEq, Eq, Structural)]
pub enum ConvertError {
    /// A layer is shifted off the stage's grid.
    LayerOffset,
    /// The "gfx" layer is not a finite tile layer.
    GfxLayerNotTiles,
    /// A graphics tile id does not fit the 16-bit tile numbers.
    GfxTileOutOfRange,
    /// The "objs" layer (which names no attribute) holds tiles.
    ObjectLayerWithTiles,
    /// An attribute layer's size differs from the stage's.
    LayerSizeMismatch,
    /// Two attribute layers put a tile on the same cell.
    MultipleAttributes { x: u32, y: u32 },
    /// A layer that is neither a finite tile layer nor an object layer.
    UnsupportedLayer,
    MultipleSpawns,
    NoSpawn,
    /// A second instance of a miniboss kind.
    DuplicateMiniboss,
    /// A malformed walk script.
    BadWalkData,
    /// A property with a value of the wrong kind.
    PropertyType,
    /// A property that NPCs and switches need is missing.
    MissingProperty,
    TooManyEnemies,
    TooManyNpcs,
    TooManyItems,
    TooManyDoors,
    TooManySwitches,
    /// A door whose name ends neither in `H` nor in `V`.
    BadDoorOrientation,
}

/// `v` converted to `u16`, saturating at the bounds.
pub open spec fn spec_sat_u16(v: i64) -> u16 {
    if v < 0 {
        0
    } else if v > 65535 {
        65535
    } else {
        v as u16
    }
}

/// `v` converted to `i16`, saturating at the bounds.
pub open spec fn spec_sat_i16(v: i64) -> i16 {
    if v < -32768 {
        -32768i16
    } else if v > 32767 {
        32767i16
    } else {
        v as i16
    }
}

fn sat_u16(v: i64) -> (r: u16)
    ensures
        r == spec_sat_u16(v),
{
    if v < 0 {
        0
    } else if v > 65535 {
        65535
    } else {
        v as u16
    }
}

fn sat_i16(v: i64) -> (r: i16)
    ensures
        r == spec_sat_i16(v),
{
    if v < -32768 {
        -32768
    } else if v > 32767 {
        32767
    } else {
        v as i16
    }
}

/// Whether two byte strings are equal.
fn bytes_eq(a: &[u8], b: &[u8]) -> (r: bool)
    ensures
        r == (a@ == b@),
{
    if a.len() != b.len() {
        return false;
    }
    let mut i: usize = 0;
    while i < a.len()
        invariant
            i <= a@.len(),
            a@.len() == b@.len(),
            forall|k: int| 0 <= k < i ==> a@[k] == b@[k],
        decreases a@.len() - i,
    {
        if a[i] != b[i] {
            return false;
        }
        i = i + 1;
    }
    assert(a@ =~= b@);
    true
}

/// The value of the first property named `key`.
pub open spec fn spec_property(ps: Seq<(Vec<u8>, PropertyValue)>, key: Seq<u8>) -> Option<PropertyValue>
    decreases ps.len(),
{
    if ps.len() == 0 {
        None
    } else if ps[0].0@ == key {
        Some(ps[0].1)
    } else {
        spec_property(ps.drop_first(), key)
    }
}

/// The position of the first property named `key`.
fn find_property(ps: &Vec<(Vec<u8>, PropertyValue)>, key: &[u8]) -> (r: Option<usize>)
    ensures
        match r {
            Some(i) => i < ps@.len() && spec_property(ps@, key@) == Some(ps@[i as int].1),
            None => spec_property(ps@, key@) is None,
        },
{
    let mut i: usize = 0;
    assert(ps@.skip(0) =~= ps@);
    while i < ps.len()
        invariant
            i <= ps@.len(),
            spec_property(ps@, key@) == spec_property(ps@.skip(i as int), key@),
        decreases ps@.len() - i,
    {
        assert(ps@.skip(i as int)[0] == ps@[i as int]);
        if bytes_eq(ps[i].0.as_slice(), key) {
            return Some(i);
        }
        assert(ps@.skip(i as int).drop_first() =~= ps@.skip(i + 1));
        i = i + 1;
    }
    None
}

/// An integer property: absent, or present with an integer value.
pub open spec fn spec_int_property(ps: Seq<(Vec<u8>, PropertyValue)>, key: Seq<u8>) -> Result<Option<i32>, ConvertError> {
    match spec_property(ps, key) {
        None => Ok(None),
        Some(PropertyValue::Int(i)) => Ok(Some(i)),
        Some(_) => Err(ConvertError::PropertyType),
    }
}

/// A flag property: absent (false), or present with a boolean value.
pub open spec fn spec_bool_property(ps: Seq<(Vec<u8>, PropertyValue)>, key: Seq<u8>) -> Result<bool, ConvertError> {
    match spec_property(ps, key) {
        None => Ok(false),
        Some(PropertyValue::Bool(b)) => Ok(b),
        Some(_) => Err(ConvertError::PropertyType),
    }
}

/// A property that must be present with an integer value.
pub open spec fn spec_required_int(ps: Seq<(Vec<u8>, PropertyValue)>, key: Seq<u8>) -> Result<i32, ConvertError> {
    match spec_property(ps, key) {
        None => Err(ConvertError::MissingProperty),
        Some(PropertyValue::Int(i)) => Ok(i),
        Some(_) => Err(ConvertError::PropertyType),
    }
}

/// The walk script of an enemy: none, or a well-formed text property.
pub open spec fn spec_walk_property(ps: Seq<(Vec<u8>, PropertyValue)>) -> Result<Seq<WalkData>, ConvertError> {
    match spec_property(ps, key_walk()) {
        None => Ok(Seq::empty()),
        Some(PropertyValue::Text(s)) => match spec_parse_walk(s@) {
            Some(w) => Ok(w),
            None => Err(ConvertError::BadWalkData),
        },
        Some(_) => Err(ConvertError::PropertyType),
    }
}

fn int_property(ps: &Vec<(Vec<u8>, PropertyValue)>, key: &[u8]) -> (r: Result<Option<i32>, ConvertError>)
    ensures
        r == spec_int_property(ps@, key@),
{
    match find_property(ps, key) {
        None => Ok(None),
        Some(i) => match &ps[i].1 {
            PropertyValue::Int(v) => Ok(Some(*v)),
            _ => Err(ConvertError::PropertyType),
        },
    }
}

fn bool_property(ps: &Vec<(Vec<u8>, PropertyValue)>, key: &[u8]) -> (r: Result<bool, ConvertError>)
    ensures
        r == spec_bool_property(ps@, key@),
{
    match find_property(ps, key) {
        None => Ok(false),
        Some(i) => match &ps[i].1 {
            PropertyValue::Bool(b) => Ok(*b),
            _ => Err(ConvertError::PropertyType),
        },
    }
}

fn required_int(ps: &Vec<(Vec<u8>, PropertyValue)>, key: &[u8]) -> (r: Result<i32, ConvertError>)
    ensures
        r == spec_required_int(ps@, key@),
{
    match find_property(ps, key) {
        None => Err(ConvertError::MissingProperty),
        Some(i) => match &ps[i].1 {
            PropertyValue::Int(v) => Ok(*v),
            _ => Err(ConvertError::PropertyType),
        },
    }
}

fn walk_property(ps: &Vec<(Vec<u8>, PropertyValue)>) -> (r: Result<Vec<WalkData>, ConvertError>)
    ensures
        match r {
            Ok(w) => spec_walk_property(ps@) == Ok::<Seq<WalkData>, ConvertError>(w@),
            Err(e) => spec_walk_property(ps@) == Err::<Seq<WalkData>, ConvertError>(e),
        },
{
    let key: [u8; 4] = [119, 97, 108, 107];
    assert(key@ =~= key_walk());
    match find_property(ps, key.as_slice()) {
        None => Ok(Vec::new()),
        Some(i) => match &ps[i].1 {
            PropertyValue::Text(s) => match parse_walk_data(s.as_slice()) {
                Some(w) => Ok(w),
                None => Err(ConvertError::BadWalkData),
            },
            _ => Err(ConvertError::PropertyType),
        },
    }
}

/// "walk"
pub open spec fn key_walk() -> Seq<u8> {
    seq![119u8, 97, 108, 107]
}

/// "speed"
pub open spec fn key_speed() -> Seq<u8> {
    seq![115u8, 112, 101, 101, 100]
}

/// "health"
pub open spec fn key_health() -> Seq<u8> {
    seq![104u8, 101, 97, 108, 116, 104]
}

/// "strength"
pub open spec fn key_strength() -> Seq<u8> {
    seq![115u8, 116, 114, 101, 110, 103, 116, 104]
}

/// "invulnerable"
pub open spec fn key_invulnerable() -> Seq<u8> {
    seq![105u8, 110, 118, 117, 108, 110, 101, 114, 97, 98, 108, 101]
}

/// "flags"
pub open spec fn key_flags() -> Seq<u8> {
    seq![102u8, 108, 97, 103, 115]
}

/// "dialogue_id"
pub open spec fn key_dialogue_id() -> Seq<u8> {
    seq![100u8, 105, 97, 108, 111, 103, 117, 101, 95, 105, 100]
}

/// "locked"
pub open spec fn key_locked() -> Seq<u8> {
    seq![108u8, 111, 99, 107, 101, 100]
}

/// "event_id"
pub open spec fn key_event_id() -> Seq<u8> {
    seq![101u8, 118, 101, 110, 116, 95, 105, 100]
}

/// "gfx", the graphics layer.
pub open spec fn name_gfx() -> Seq<u8> {
    seq![103u8, 102, 120]
}

/// "objs", the object layer.
pub open spec fn name_objs() -> Seq<u8> {
    seq![111u8, 98, 106, 115]
}

/// "Spawn", the player's spawn point.
pub open spec fn name_spawn() -> Seq<u8> {
    seq![83u8, 112, 97, 119, 110]
}

/// "Enemy"
pub open spec fn class_enemy() -> Seq<u8> {
    seq![69u8, 110, 101, 109, 121]
}

/// "Npc"
pub open spec fn class_npc() -> Seq<u8> {
    seq![78u8, 112, 99]
}

/// "Item"
pub open spec fn class_item() -> Seq<u8> {
    seq![73u8, 116, 101, 109]
}

/// "Door"
pub open spec fn class_door() -> Seq<u8> {
    seq![68u8, 111, 111, 114]
}

/// "Switch"
pub open spec fn class_switch() -> Seq<u8> {
    seq![83u8, 119, 105, 116, 99, 104]
}

/// Whether a name contains "Miniboss".
pub open spec fn spec_is_miniboss(name: Seq<u8>) -> bool {
    exists|i: int| 0 <= i && i + 8 <= name.len() && #[trigger] name.subrange(i, i + 8) == miniboss_word()
}

/// The orientation a door's name ends with.
pub open spec fn spec_door_orientation(name: Seq<u8>) -> Option<Orientation> {
    if name.len() > 0 && name.last() == 72 {
        Some(Orientation::Horizontal)
    } else if name.len() > 0 && name.last() == 86 {
        Some(Orientation::Vertical)
    } else {
        None
    }
}

/// A stage while it is converted: the next free ids, the two grids (row
/// major), the spawn point found so far, the objects converted so far, and
/// the names of the enemy, NPC and item kinds seen.
pub struct StageView {
    pub next_enemy_id: u16,
    pub next_npc_id: u16,
    pub next_item_id: u16,
    pub next_door_id: u16,
    pub next_switch_id: u16,
    pub gfx: Seq<u16>,
    pub attr: Seq<u8>,
    pub spawn: Option<(i16, i16)>,
    pub enemies: Seq<EnemyView>,
    pub npcs: Seq<NpcView>,
    pub items: Seq<ItemView>,
    pub doors: Seq<DoorData>,
    pub switches: Seq<SwitchData>,
    pub enemy_types: Set<Seq<u8>>,
    pub npc_types: Set<Seq<u8>>,
    pub item_types: Set<Seq<u8>>,
}

/// Converting an enemy object: a second miniboss of a kind is refused; the
/// walk script and the overriding properties are read; the enemy gets the
/// next enemy id.
pub open spec fn spec_enemy_step(st: StageView, o: MapObject) -> Result<StageView, ConvertError> {
    let ps = o.properties@;
    if spec_is_miniboss(o.name@) && st.enemy_types.contains(o.name@) {
        Err(ConvertError::DuplicateMiniboss)
    } else {
        match spec_walk_property(ps) {
            Err(e) => Err(e),
            Ok(walk) => match (
                spec_int_property(ps, key_speed()),
                spec_int_property(ps, key_health()),
                spec_int_property(ps, key_strength()),
                spec_bool_property(ps, key_invulnerable()),
                spec_int_property(ps, key_flags()),
            ) {
                (Ok(speed), Ok(health), Ok(strength), Ok(invulnerable), Ok(flags)) => {
                    if st.next_enemy_id == u16::MAX {
                        Err(ConvertError::TooManyEnemies)
                    } else {
                        Ok(StageView {
                            next_enemy_id: (st.next_enemy_id + 1) as u16,
                            enemies: st.enemies.push(EnemyView {
                                kind: o.name@,
                                id: st.next_enemy_id,
                                x: spec_sat_u16(o.x),
                                y: spec_sat_u16(o.y),
                                walk,
                                speed,
                                health,
                                strength,
                                invulnerable,
                                flags,
                            }),
                            enemy_types: st.enemy_types.insert(o.name@),
                            ..st
                        })
                    }
                },
                _ => Err(ConvertError::PropertyType),
            },
        }
    }
}

/// Converting an NPC object: it needs an integer `dialogue_id` (kept in 16
/// bits) and gets the next NPC id.
pub open spec fn spec_npc_step(st: StageView, o: MapObject) -> Result<StageView, ConvertError> {
    match spec_required_int(o.properties@, key_dialogue_id()) {
        Err(e) => Err(e),
        Ok(d) => if st.next_npc_id == u16::MAX {
            Err(ConvertError::TooManyNpcs)
        } else {
            Ok(StageView {
                next_npc_id: (st.next_npc_id + 1) as u16,
                npcs: st.npcs.push(NpcView {
                    kind: o.name@,
                    id: st.next_npc_id,
                    dialogue_id: d as u16,
                    x: spec_sat_u16(o.x),
                    y: spec_sat_u16(o.y),
                }),
                npc_types: st.npc_types.insert(o.name@),
                ..st
            })
        },
    }
}

/// Converting an item object: it gets the next item id (at most 16 items).
pub open spec fn spec_item_step(st: StageView, o: MapObject) -> Result<StageView, ConvertError> {
    if st.next_item_id >= MAX_PLACED {
        Err(ConvertError::TooManyItems)
    } else {
        Ok(StageView {
            next_item_id: (st.next_item_id + 1) as u16,
            items: st.items.push(ItemView { kind: o.name@, id: st.next_item_id, x: spec_sat_u16(o.x), y: spec_sat_u16(o.y) }),
            item_types: st.item_types.insert(o.name@),
            ..st
        })
    }
}

/// Converting a door object: an optional boolean `locked`, the next door id
/// (at most 16 doors), and the orientation its name ends with.
pub open spec fn spec_door_step(st: StageView, o: MapObject) -> Result<StageView, ConvertError> {
    match spec_bool_property(o.properties@, key_locked()) {
        Err(e) => Err(e),
        Ok(locked) => if st.next_door_id >= MAX_PLACED {
            Err(ConvertError::TooManyDoors)
        } else {
            match spec_door_orientation(o.name@) {
                None => Err(ConvertError::BadDoorOrientation),
                Some(orientation) => Ok(StageView {
                    next_door_id: (st.next_door_id + 1) as u16,
                    doors: st.doors.push(DoorData {
                        id: st.next_door_id,
                        orientation,
                        locked,
                        x: spec_sat_u16(o.x),
                        y: spec_sat_u16(o.y),
                    }),
                    ..st
                }),
            }
        },
    }
}

/// Converting a switch object: it needs an integer `event_id` (kept in 16
/// bits) and gets the next switch id (at most 16 switches).
pub open spec fn spec_switch_step(st: StageView, o: MapObject) -> Result<StageView, ConvertError> {
    match spec_required_int(o.properties@, key_event_id()) {
        Err(e) => Err(e),
        Ok(ev) => if st.next_switch_id >= MAX_PLACED {
            Err(ConvertError::TooManySwitches)
        } else {
            Ok(StageView {
                next_switch_id: (st.next_switch_id + 1) as u16,
                switches: st.switches.push(SwitchData {
                    id: st.next_switch_id,
                    event_id: ev as u16,
                    x: spec_sat_u16(o.x),
                    y: spec_sat_u16(o.y),
                }),
                ..st
            })
        },
    }
}

/// Converting one object: the object named "Spawn" is the player's spawn
/// point (only one per stage); otherwise the object's class decides; objects
/// of other classes are ignored.
pub open spec fn spec_object_step(st: StageView, o: MapObject) -> Result<StageView, ConvertError> {
    if o.name@ == name_spawn() {
        if st.spawn is Some {
            Err(ConvertError::MultipleSpawns)
        } else {
            Ok(StageView { spawn: Some((spec_sat_i16(o.x), spec_sat_i16(o.y))), ..st })
        }
    } else if o.user_type@ == class_enemy() {
        spec_enemy_step(st, o)
    } else if o.user_type@ == class_npc() {
        spec_npc_step(st, o)
    } else if o.user_type@ == class_item() {
        spec_item_step(st, o)
    } else if o.user_type@ == class_door() {
        spec_door_step(st, o)
    } else if o.user_type@ == class_switch() {
        spec_switch_step(st, o)
    } else {
        Ok(st)
    }
}

/// The objects of a layer converted in order; the first failure stops.
pub open spec fn spec_objects(st: StageView, os: Seq<MapObject>) -> Result<StageView, ConvertError>
    decreases os.len(),
{
    if os.len() == 0 {
        Ok(st)
    } else {
        match spec_objects(st, os.drop_last()) {
            Ok(s) => spec_object_step(s, os.last()),
            Err(e) => Err(e),
        }
    }
}

/// The names in a list of names.
pub open spec fn names_set(v: Seq<Vec<u8>>) -> Set<Seq<u8>> {
    v.map_values(|n: Vec<u8>| n@).to_set()
}

/// Whether no name occurs twice in a list of names.
pub open spec fn names_unique(v: Seq<Vec<u8>>) -> bool {
    forall|i: int, j: int| 0 <= i < v.len() && 0 <= j < v.len() && i != j ==> #[trigger] v[i]@ != #[trigger] v[j]@
}

/// Whether `name` is in the list.
fn contains_name(v: &Vec<Vec<u8>>, name: &[u8]) -> (r: bool)
    ensures
        r == names_set(v@).contains(name@),
{
    let mut i: usize = 0;
    while i < v.len()
        invariant
            i <= v@.len(),
            forall|k: int| 0 <= k < i ==> v@[k]@ != name@,
        decreases v@.len() - i,
    {
        if bytes_eq(v[i].as_slice(), name) {
            assert(v@.map_values(|n: Vec<u8>| n@)[i as int] == name@);
            return true;
        }
        i = i + 1;
    }
    assert(!names_set(v@).contains(name@)) by {
        let names = v@.map_values(|n: Vec<u8>| n@);
        if names.contains(name@) {
            let k = choose|k: int| 0 <= k < names.len() && #[trigger] names[k] == name@;
            assert(v@[k]@ == name@);
        }
    }
    false
}

/// Adds `name` to a list of distinct names unless it is there.
fn insert_name(v: &mut Vec<Vec<u8>>, name: &[u8])
    requires
        names_unique(old(v)@),
    ensures
        names_unique(final(v)@),
        names_set(final(v)@) == names_set(old(v)@).insert(name@),
{
    if contains_name(v, name) {
        assert(names_set(v@) =~= names_set(v@).insert(name@));
        return;
    }
    let n = vstd::slice::slice_to_vec(name);
    v.push(n);
    proof {
        let old_names = old(v)@.map_values(|m: Vec<u8>| m@);
        let new_names = v@.map_values(|m: Vec<u8>| m@);
        assert(new_names =~= old_names.push(name@));
        assert forall|x: Seq<u8>| #[trigger] names_set(v@).contains(x) == names_set(old(v)@).insert(name@).contains(x) by {
            if new_names.contains(x) {
                let k = choose|k: int| 0 <= k < new_names.len() && #[trigger] new_names[k] == x;
                if k < old_names.len() {
                    assert(old_names[k] == x);
                }
            }
            if old_names.contains(x) {
                let k = choose|k: int| 0 <= k < old_names.len() && #[trigger] old_names[k] == x;
                assert(new_names[k] == x);
            }
            if x == name@ {
                assert(new_names[old_names.len() as int] == x);
            }
        }
        assert(names_set(v@) =~= names_set(old(v)@).insert(name@));
        assert forall|i: int, j: int| 0 <= i < v@.len() && 0 <= j < v@.len() && i != j implies #[trigger] v@[i]@ != #[trigger] v@[j]@ by {
            if i == old_names.len() && j < old_names.len() {
                assert(old_names[j] == v@[j]@);
                assert(old_names.contains(v@[j]@));
            }
            if j == old_names.len() && i < old_names.len() {
                assert(old_names[i] == v@[i]@);
                assert(old_names.contains(v@[i]@));
            }
        }
    }
}

/// The parts of a stage converted so far (seen as a `StageView`).
struct StageBuild {
    next_enemy_id: u16,
    next_npc_id: u16,
    next_item_id: u16,
    next_door_id: u16,
    next_switch_id: u16,
    gfx: Vec<u16>,
    attr: Vec<u8>,
    spawn: Option<(i16, i16)>,
    enemies: Vec<EnemyData>,
    npcs: Vec<NpcData>,
    items: Vec<ItemData>,
    doors: Vec<DoorData>,
    switches: Vec<SwitchData>,
    enemy_types: Vec<Vec<u8>>,
    npc_types: Vec<Vec<u8>>,
    item_types: Vec<Vec<u8>>,
}

impl StageBuild {
    spec fn sv(&self) -> StageView {
        StageView {
            next_enemy_id: self.next_enemy_id,
            next_npc_id: self.next_npc_id,
            next_item_id: self.next_item_id,
            next_door_id: self.next_door_id,
            next_switch_id: self.next_switch_id,
            gfx: self.gfx@,
            attr: self.attr@,
            spawn: self.spawn,
            enemies: self.enemies@.map_values(|e: EnemyData| e@),
            npcs: self.npcs@.map_values(|n: NpcData| n@),
            items: self.items@.map_values(|i: ItemData| i@),
            doors: self.doors@,
            switches: self.switches@,
            enemy_types: names_set(self.enemy_types@),
            npc_types: names_set(self.npc_types@),
            item_types: names_set(self.item_types@),
        }
    }

    spec fn wf(&self) -> bool {
        &&& names_unique(self.enemy_types@)
        &&& names_unique(self.npc_types@)
        &&& names_unique(self.item_types@)
    }
}

fn add_enemy(b: &mut StageBuild, o: &MapObject) -> (r: Result<(), ConvertError>)
    requires
        old(b).wf(),
    ensures
        match spec_enemy_step(old(b).sv(), *o) {
            Ok(s) => r is Ok && final(b).wf() && final(b).sv() == s,
            Err(e) => r == Err::<(), ConvertError>(e),
        },
        final(b).gfx == old(b).gfx,
        final(b).attr == old(b).attr,
{
    if is_miniboss_name(o.name.as_slice()) && contains_name(&b.enemy_types, o.name.as_slice()) {
        return Err(ConvertError::DuplicateMiniboss);
    }
    let walk = match walk_property(&o.properties) {
        Ok(w) => w,
        Err(e) => return Err(e),
    };
    let k_speed: [u8; 5] = [115, 112, 101, 101, 100];
    let k_health: [u8; 6] = [104, 101, 97, 108, 116, 104];
    let k_strength: [u8; 8] = [115, 116, 114, 101, 110, 103, 116, 104];
    let k_invulnerable: [u8; 12] = [105, 110, 118, 117, 108, 110, 101, 114, 97, 98, 108, 101];
    let k_flags: [u8; 5] = [102, 108, 97, 103, 115];
    assert(k_speed@ =~= key_speed());
    assert(k_health@ =~= key_health());
    assert(k_strength@ =~= key_strength());
    assert(k_invulnerable@ =~= key_invulnerable());
    assert(k_flags@ =~= key_flags());
    let speed = int_property(&o.properties, k_speed.as_slice());
    let health = int_property(&o.properties, k_health.as_slice());
    let strength = int_property(&o.properties, k_strength.as_slice());
    let invulnerable = bool_property(&o.properties, k_invulnerable.as_slice());
    let flags = int_property(&o.properties, k_flags.as_slice());
    match (speed, health, strength, invulnerable, flags) {
        (Ok(speed), Ok(health), Ok(strength), Ok(invulnerable), Ok(flags)) => {
            if b.next_enemy_id == u16::MAX {
                return Err(ConvertError::TooManyEnemies);
            }
            let ghost before = b.enemies@;
            let e = EnemyData {
                kind: vstd::slice::slice_to_vec(o.name.as_slice()),
                id: b.next_enemy_id,
                x: sat_u16(o.x),
                y: sat_u16(o.y),
                properties: EnemyProperties { walk_data: walk, speed, health, strength, invulnerable, flags },
            };
            b.enemies.push(e);
            assert(b.enemies@.map_values(|e: EnemyData| e@) =~= before.map_values(|e: EnemyData| e@).push(e@));
            insert_name(&mut b.enemy_types, o.name.as_slice());
            b.next_enemy_id = b.next_enemy_id + 1;
            Ok(())
        },
        _ => Err(ConvertError::PropertyType),
    }
}

fn add_npc(b: &mut StageBuild, o: &MapObject) -> (r: Result<(), ConvertError>)
    requires
        old(b).wf(),
    ensures
        match spec_npc_step(old(b).sv(), *o) {
            Ok(s) => r is Ok && final(b).wf() && final(b).sv() == s,
            Err(e) => r == Err::<(), ConvertError>(e),
        },
        final(b).gfx == old(b).gfx,
        final(b).attr == old(b).attr,
{
    let key: [u8; 11] = [100, 105, 97, 108, 111, 103, 117, 101, 95, 105, 100];
    assert(key@ =~= key_dialogue_id());
    let d = match required_int(&o.properties, key.as_slice()) {
        Ok(d) => d,
        Err(e) => return Err(e),
    };
    if b.next_npc_id == u16::MAX {
        return Err(ConvertError::TooManyNpcs);
    }
    let ghost before = b.npcs@;
    let n = NpcData {
        kind: vstd::slice::slice_to_vec(o.name.as_slice()),
        id: b.next_npc_id,
        dialogue_id: d as u16,
        x: sat_u16(o.x),
        y: sat_u16(o.y),
    };
    b.npcs.push(n);
    assert(b.npcs@.map_values(|n: NpcData| n@) =~= before.map_values(|n: NpcData| n@).push(n@));
    insert_name(&mut b.npc_types, o.name.as_slice());
    b.next_npc_id = b.next_npc_id + 1;
    Ok(())
}

fn add_item(b: &mut StageBuild, o: &MapObject) -> (r: Result<(), ConvertError>)
    requires
        old(b).wf(),
    ensures
        match spec_item_step(old(b).sv(), *o) {
            Ok(s) => r is Ok && final(b).wf() && final(b).sv() == s,
            Err(e) => r == Err::<(), ConvertError>(e),
        },
        final(b).gfx == old(b).gfx,
        final(b).attr == old(b).attr,
{
    if b.next_item_id >= MAX_PLACED {
        return Err(ConvertError::TooManyItems);
    }
    let ghost before = b.items@;
    let it = ItemData {
        kind: vstd::slice::slice_to_vec(o.name.as_slice()),
        id: b.next_item_id,
        x: sat_u16(o.x),
        y: sat_u16(o.y),
    };
    b.items.push(it);
    assert(b.items@.map_values(|i: ItemData| i@) =~= before.map_values(|i: ItemData| i@).push(it@));
    insert_name(&mut b.item_types, o.name.as_slice());
    b.next_item_id = b.next_item_id + 1;
    Ok(())
}

fn add_door(b: &mut StageBuild, o: &MapObject) -> (r: Result<(), ConvertError>)
    requires
        old(b).wf(),
    ensures
        match spec_door_step(old(b).sv(), *o) {
            Ok(s) => r is Ok && final(b).wf() && final(b).sv() == s,
            Err(e) => r == Err::<(), ConvertError>(e),
        },
        final(b).gfx == old(b).gfx,
        final(b).attr == old(b).attr,
{
    let key: [u8; 6] = [108, 111, 99, 107, 101, 100];
    assert(key@ =~= key_locked());
    let locked = match bool_property(&o.properties, key.as_slice()) {
        Ok(l) => l,
        Err(e) => return Err(e),
    };
    if b.next_door_id >= MAX_PLACED {
        return Err(ConvertError::TooManyDoors);
    }
    let orientation = match door_orientation(o.name.as_slice()) {
        Some(or) => or,
        None => return Err(ConvertError::BadDoorOrientation),
    };
    b.doors.push(DoorData { id: b.next_door_id, orientation, locked, x: sat_u16(o.x), y: sat_u16(o.y) });
    b.next_door_id = b.next_door_id + 1;
    Ok(())
}

fn add_switch(b: &mut StageBuild, o: &MapObject) -> (r: Result<(), ConvertError>)
    requires
        old(b).wf(),
    ensures
        match spec_switch_step(old(b).sv(), *o) {
            Ok(s) => r is Ok && final(b).wf() && final(b).sv() == s,
            Err(e) => r == Err::<(), ConvertError>(e),
        },
        final(b).gfx == old(b).gfx,
        final(b).attr == old(b).attr,
{
    let key: [u8; 8] = [101, 118, 101, 110, 116, 95, 105, 100];
    assert(key@ =~= key_event_id());
    let ev = match required_int(&o.properties, key.as_slice()) {
        Ok(v) => v,
        Err(e) => return Err(e),
    };
    if b.next_switch_id >= MAX_PLACED {
        return Err(ConvertError::TooManySwitches);
    }
    b.switches.push(SwitchData { id: b.next_switch_id, event_id: ev as u16, x: sat_u16(o.x), y: sat_u16(o.y) });
    b.next_switch_id = b.next_switch_id + 1;
    Ok(())
}

fn add_object(b: &mut StageBuild, o: &MapObject) -> (r: Result<(), ConvertError>)
    requires
        old(b).wf(),
    ensures
        match spec_object_step(old(b).sv(), *o) {
            Ok(s) => r is Ok && final(b).wf() && final(b).sv() == s,
            Err(e) => r == Err::<(), ConvertError>(e),
        },
        final(b).gfx == old(b).gfx,
        final(b).attr == old(b).attr,
{
    let spawn: [u8; 5] = [83, 112, 97, 119, 110];
    let enemy: [u8; 5] = [69, 110, 101, 109, 121];
    let npc: [u8; 3] = [78, 112, 99];
    let item: [u8; 4] = [73, 116, 101, 109];
    let door: [u8; 4] = [68, 111, 111, 114];
    let switch: [u8; 6] = [83, 119, 105, 116, 99, 104];
    assert(spawn@ =~= name_spawn());
    assert(enemy@ =~= class_enemy());
    assert(npc@ =~= class_npc());
    assert(item@ =~= class_item());
    assert(door@ =~= class_door());
    assert(switch@ =~= class_switch());
    let class = o.user_type.as_slice();
    if bytes_eq(o.name.as_slice(), spawn.as_slice()) {
        if b.spawn.is_some() {
            return Err(ConvertError::MultipleSpawns);
        }
        b.spawn = Some((sat_i16(o.x), sat_i16(o.y)));
        Ok(())
    } else if bytes_eq(class, enemy.as_slice()) {
        add_enemy(b, o)
    } else if bytes_eq(class, npc.as_slice()) {
        add_npc(b, o)
    } else if bytes_eq(class, item.as_slice()) {
        add_item(b, o)
    } else if bytes_eq(class, door.as_slice()) {
        add_door(b, o)
    } else if bytes_eq(class, switch.as_slice()) {
        add_switch(b, o)
    } else {
        Ok(())
    }
}

fn add_objects(b: &mut StageBuild, os: &Vec<MapObject>) -> (r: Result<(), ConvertError>)
    requires
        old(b).wf(),
    ensures
        match spec_objects(old(b).sv(), os@) {
            Ok(s) => r is Ok && final(b).wf() && final(b).sv() == s,
            Err(e) => r == Err::<(), ConvertError>(e),
        },
        final(b).gfx == old(b).gfx,
        final(b).attr == old(b).attr,
{
    let mut i: usize = 0;
    assert(os@.take(0) =~= Seq::<MapObject>::empty());
    while i < os.len()
        invariant
            i <= os@.len(),
            b.wf(),
            b.gfx == old(b).gfx,
            b.attr == old(b).attr,
            spec_objects(old(b).sv(), os@.take(i as int)) == Ok::<StageView, ConvertError>(b.sv()),
        decreases os@.len() - i,
    {
        assert(os@.take(i + 1).drop_last() =~= os@.take(i as int));
        let ghost mid = b.sv();
        match add_object(b, &os[i]) {
            Ok(()) => {},
            Err(e) => {
                proof {
                    lemma_objects_stop(old(b).sv(), os@, (i + 1) as int);
                }
                return Err(e);
            },
        }
        i = i + 1;
    }
    assert(os@.take(os@.len() as int) =~= os@);
    Ok(())
}

/// Once converting the first objects fails, converting all of them fails the same way.
proof fn lemma_objects_stop(st: StageView, os: Seq<MapObject>, i: int)
    requires
        0 <= i <= os.len(),
        spec_objects(st, os.take(i)) is Err,
    ensures
        spec_objects(st, os) == spec_objects(st, os.take(i)),
    decreases os.len() - i,
{
    if i < os.len() {
        assert(os.take(i + 1).drop_last() =~= os.take(i));
        lemma_objects_stop(st, os, i + 1);
    } else {
        assert(os.take(i) =~= os);
    }
}

/// Whether a tile layer holds one entry per cell.
pub open spec fn layer_wf(l: MapLayer) -> bool {
    match l.content {
        LayerContent::Tiles { width, height, tiles } => tiles@.len() == width * height,
        _ => true,
    }
}

/// The graphics tile number of a cell: the tileset id plus one, 0 for no tile.
pub open spec fn spec_gfx_value(t: Option<u32>) -> u16 {
    match t {
        Some(id) => (id + 1) as u16,
        None => 0,
    }
}

/// Whether some tile's number (its id plus one) does not fit 16 bits.
pub open spec fn gfx_out_of_range(tiles: Seq<Option<u32>>) -> bool {
    exists|i: int| 0 <= i < tiles.len() && (#[trigger] tiles[i] matches Some(id) && id >= 65535)
}

/// The graphics grid (`w` tiles wide, row major) after drawing a `tw` x `th`
/// tile layer over it from the top-left corner; cells outside either stay.
pub open spec fn spec_draw_gfx(gfx: Seq<u16>, w: int, tiles: Seq<Option<u32>>, tw: int, th: int) -> Seq<u16> {
    Seq::new(
        gfx.len(),
        |c: int|
            {
                let x = c % w;
                let y = c / w;
                if x < tw && y < th {
                    spec_gfx_value(tiles[y * tw + x])
                } else {
                    gfx[c]
                }
            },
    )
}

/// Whether an attribute layer puts a tile on cell (x, y), which already has an attribute.
pub open spec fn attr_conflict(attr: Seq<u8>, tiles: Seq<Option<u32>>, w: int, x: int, y: int) -> bool {
    tiles[y * w + x] is Some && attr[y * w + x] != 0
}

/// Whether (x, y) is the first conflicting cell, going column by column
/// (left to right) and each column top to bottom.
pub open spec fn first_conflict(attr: Seq<u8>, tiles: Seq<Option<u32>>, w: int, h: int, x: int, y: int) -> bool {
    &&& 0 <= x < w
    &&& 0 <= y < h
    &&& attr_conflict(attr, tiles, w, x, y)
    &&& forall|x2: int, y2: int|
        0 <= x2 < w && 0 <= y2 < h && #[trigger] attr_conflict(attr, tiles, w, x2, y2) ==> x < x2 || (x == x2 && y <= y2)
}

/// The attribute grid after an attribute layer gives its tiles' cells `bits`.
pub open spec fn spec_set_attr(attr: Seq<u8>, tiles: Seq<Option<u32>>, bits: u8) -> Seq<u8> {
    Seq::new(attr.len(), |c: int| if tiles[c] is Some { bits } else { attr[c] })
}

/// Converting one layer of a `w` x `h` stage. Every layer must lie on the
/// stage's grid. The "gfx" layer draws the
/// graphics grid. A layer named neither "objs" nor after an attribute is
/// skipped. A tile layer of the stage's size adds its attribute to its
/// tiles' cells (a cell gets at most one attribute); an object layer
/// converts its objects.
pub open spec fn spec_layer_step(st: StageView, l: MapLayer, w: u32, h: u32) -> Result<StageView, ConvertError> {
    if !l.aligned {
        Err(ConvertError::LayerOffset)
    } else if l.name@ == name_gfx() {
        match l.content {
            LayerContent::Tiles { width, height, tiles } => if gfx_out_of_range(tiles@) {
                Err(ConvertError::GfxTileOutOfRange)
            } else {
                Ok(StageView { gfx: spec_draw_gfx(st.gfx, w as int, tiles@, width as int, height as int), ..st })
            },
            _ => Err(ConvertError::GfxLayerNotTiles),
        }
    } else if l.name@ != name_objs() && l.attribute is None {
        Ok(st)
    } else {
        match l.content {
            LayerContent::Tiles { width, height, tiles } => if width != w || height != h {
                Err(ConvertError::LayerSizeMismatch)
            } else {
                match l.attribute {
                    None => if exists|c: int| 0 <= c < tiles@.len() && #[trigger] tiles@[c] is Some {
                        Err(ConvertError::ObjectLayerWithTiles)
                    } else {
                        Ok(st)
                    },
                    Some(bits) => if exists|x: int, y: int|
                        0 <= x < w && 0 <= y < h && #[trigger] attr_conflict(st.attr, tiles@, w as int, x, y) {
                        let p = choose|p: (int, int)| first_conflict(st.attr, tiles@, w as int, h as int, p.0, p.1);
                        Err(ConvertError::MultipleAttributes { x: p.0 as u32, y: p.1 as u32 })
                    } else {
                        Ok(StageView { attr: spec_set_attr(st.attr, tiles@, bits), ..st })
                    },
                }
            },
            LayerContent::Objects(os) => spec_objects(st, os@),
            LayerContent::Unsupported => Err(ConvertError::UnsupportedLayer),
        }
    }
}

/// The layers converted in order; the first failure stops.
pub open spec fn spec_layers(st: StageView, ls: Seq<MapLayer>, w: u32, h: u32) -> Result<StageView, ConvertError>
    decreases ls.len(),
{
    if ls.len() == 0 {
        Ok(st)
    } else {
        match spec_layers(st, ls.drop_last(), w, h) {
            Ok(s) => spec_layer_step(s, ls.last(), w, h),
            Err(e) => Err(e),
        }
    }
}

/// A `w` x `h` stage before any layer: empty grids, nothing found, the ids
/// continuing from `map`.
pub open spec fn spec_initial(map: TiledMap, w: u32, h: u32) -> StageView {
    StageView {
        next_enemy_id: map.next_enemy_id,
        next_npc_id: map.next_npc_id,
        next_item_id: map.next_item_id,
        next_door_id: map.next_door_id,
        next_switch_id: map.next_switch_id,
        gfx: Seq::new((w * h) as nat, |i: int| 0u16),
        attr: Seq::new((w * h) as nat, |i: int| 0u8),
        spawn: None,
        enemies: Seq::empty(),
        npcs: Seq::empty(),
        items: Seq::empty(),
        doors: Seq::empty(),
        switches: Seq::empty(),
        enemy_types: Set::empty(),
        npc_types: Set::empty(),
        item_types: Set::empty(),
    }
}

/// The whole conversion of a `w` x `h` stage: all layers, and a stage needs
/// a spawn point.
pub open spec fn spec_convert_stage(map: TiledMap, w: u32, h: u32, ls: Seq<MapLayer>) -> Result<StageView, ConvertError> {
    match spec_layers(spec_initial(map, w, h), ls, w, h) {
        Ok(s) => if s.spawn is None {
            Err(ConvertError::NoSpawn)
        } else {
            Ok(s)
        },
        Err(e) => Err(e),
    }
}

proof fn lemma_cell_index(x: int, y: int, w: int, h: int)
    requires
        0 <= x < w,
        0 <= y < h,
    ensures
        0 <= y * w + x < w * h,
{
    assert(0 <= y * w) by (nonlinear_arith)
        requires
            0 <= y,
            0 <= w,
    ;
    assert(y * w + x < w * h) by (nonlinear_arith)
        requires
            0 <= x < w,
            0 <= y < h,
    ;
}

proof fn lemma_cell_split(c: int, w: int, h: int)
    requires
        0 <= c < w * h,
        0 < w,
    ensures
        0 <= c % w < w,
        0 <= c / w < h,
        (c / w) * w + c % w == c,
{
    assert(0 <= c / w < h) by (nonlinear_arith)
        requires
            0 <= c < w * h,
            0 < w,
    ;
    assert((c / w) * w + c % w == c) by (nonlinear_arith)
        requires
            0 < w,
    ;
}

/// Whether every tile's number fits 16 bits.
fn gfx_ids_fit(tiles: &Vec<Option<u32>>) -> (r: bool)
    ensures
        r == !gfx_out_of_range(tiles@),
{
    let mut i: usize = 0;
    while i < tiles.len()
        invariant
            i <= tiles@.len(),
            forall|k: int| 0 <= k < i ==> !(#[trigger] tiles@[k] matches Some(id) && id >= 65535),
        decreases tiles@.len() - i,
    {
        if let Some(id) = tiles[i] {
            if id >= 65535 {
                return false;
            }
        }
        i = i + 1;
    }
    true
}

fn draw_gfx(gfx: &mut Vec<u16>, w: u32, h: u32, tiles: &Vec<Option<u32>>, tw: u32, th: u32)
    requires
        old(gfx)@.len() == w * h,
        w * h <= usize::MAX,
        tiles@.len() == tw * th,
        !gfx_out_of_range(tiles@),
    ensures
        final(gfx)@ == spec_draw_gfx(old(gfx)@, w as int, tiles@, tw as int, th as int),
{
    let n = gfx.len();
    let wu = w as usize;
    let tn = tiles.len();
    let ghost g0 = gfx@;
    let mut c: usize = 0;
    while c < n
        invariant
            tn == tiles@.len(),
            n == g0.len(),
            n == w * h,
            wu == w,
            c <= n,
            tiles@.len() == tw * th,
            !gfx_out_of_range(tiles@),
            gfx@.len() == n,
            forall|k: int| 0 <= k < n ==> #[trigger] gfx@[k] == (if k < c {
                spec_draw_gfx(g0, w as int, tiles@, tw as int, th as int)[k]
            } else {
                g0[k]
            }),
        decreases n - c,
    {
        assert(wu > 0) by (nonlinear_arith)
            requires
                c < n,
                n == w * h,
                wu == w,
        ;
        proof {
            lemma_cell_split(c as int, w as int, h as int);
        }
        let x = c % wu;
        let y = c / wu;
        if x < tw as usize && y < th as usize {
            proof {
                lemma_cell_index(x as int, y as int, tw as int, th as int);
            }
            let i = y * (tw as usize) + x;
            let v: u16 = match tiles[i] {
                Some(id) => {
                    assert(!(tiles@[i as int] matches Some(id) && id >= 65535));
                    (id + 1) as u16
                },
                None => 0,
            };
            gfx.set(c, v);
        }
        c = c + 1;
    }
    assert(gfx@ =~= spec_draw_gfx(g0, w as int, tiles@, tw as int, th as int));
}

/// The first cell where an attribute layer conflicts, if any.
fn find_conflict(attr: &Vec<u8>, tiles: &Vec<Option<u32>>, w: u32, h: u32) -> (r: Option<(u32, u32)>)
    requires
        attr@.len() == w * h,
        tiles@.len() == w * h,
        w * h <= usize::MAX,
    ensures
        match r {
            Some(p) => first_conflict(attr@, tiles@, w as int, h as int, p.0 as int, p.1 as int),
            None => forall|x: int, y: int|
                0 <= x < w && 0 <= y < h ==> !#[trigger] attr_conflict(attr@, tiles@, w as int, x, y),
        },
{
    let mut x: u32 = 0;
    while x < w
        invariant
            x <= w,
            attr@.len() == w * h,
            tiles@.len() == w * h,
            w * h <= usize::MAX,
            forall|x2: int, y2: int|
                0 <= x2 < x && 0 <= y2 < h ==> !#[trigger] attr_conflict(attr@, tiles@, w as int, x2, y2),
        decreases w - x,
    {
        let mut y: u32 = 0;
        while y < h
            invariant
                x < w,
                y <= h,
                attr@.len() == w * h,
                tiles@.len() == w * h,
                w * h <= usize::MAX,
                forall|x2: int, y2: int|
                    0 <= x2 < x && 0 <= y2 < h ==> !#[trigger] attr_conflict(attr@, tiles@, w as int, x2, y2),
                forall|y2: int| 0 <= y2 < y ==> !#[trigger] attr_conflict(attr@, tiles@, w as int, x as int, y2),
            decreases h - y,
        {
            proof {
                lemma_cell_index(x as int, y as int, w as int, h as int);
            }
            let c = (y as usize) * (w as usize) + (x as usize);
            if tiles[c].is_some() && attr[c] != 0 {
                assert(attr_conflict(attr@, tiles@, w as int, x as int, y as int));
                return Some((x, y));
            }
            y = y + 1;
        }
        x = x + 1;
    }
    None
}

/// The first conflicting cell is unique.
proof fn lemma_first_conflict_unique(attr: Seq<u8>, tiles: Seq<Option<u32>>, w: int, h: int, p: (int, int), q: (int, int))
    requires
        first_conflict(attr, tiles, w, h, p.0, p.1),
        first_conflict(attr, tiles, w, h, q.0, q.1),
    ensures
        p == q,
{
    assert(attr_conflict(attr, tiles, w, q.0, q.1));
    assert(attr_conflict(attr, tiles, w, p.0, p.1));
}

/// Whether a tile layer holds any tile.
fn has_tiles(tiles: &Vec<Option<u32>>) -> (r: bool)
    ensures
        r == exists|c: int| 0 <= c < tiles@.len() && #[trigger] tiles@[c] is Some,
{
    let mut i: usize = 0;
    while i < tiles.len()
        invariant
            i <= tiles@.len(),
            forall|k: int| 0 <= k < i ==> !(#[trigger] tiles@[k] is Some),
        decreases tiles@.len() - i,
    {
        if tiles[i].is_some() {
            return true;
        }
        i = i + 1;
    }
    false
}

fn set_attr(attr: &mut Vec<u8>, tiles: &Vec<Option<u32>>, bits: u8)
    requires
        old(attr)@.len() == tiles@.len(),
    ensures
        final(attr)@ == spec_set_attr(old(attr)@, tiles@, bits),
{
    let ghost a0 = attr@;
    let mut c: usize = 0;
    while c < attr.len()
        invariant
            c <= attr@.len(),
            attr@.len() == a0.len(),
            a0.len() == tiles@.len(),
            forall|k: int| 0 <= k < a0.len() ==> #[trigger] attr@[k] == (if k < c {
                spec_set_attr(a0, tiles@, bits)[k]
            } else {
                a0[k]
            }),
        decreases a0.len() - c,
    {
        if tiles[c].is_some() {
            attr.set(c, bits);
        }
        c = c + 1;
    }
    assert(attr@ =~= spec_set_attr(a0, tiles@, bits));
}

fn add_layer(b: &mut StageBuild, l: &MapLayer, w: u32, h: u32) -> (r: Result<(), ConvertError>)
    requires
        old(b).wf(),
        old(b).gfx@.len() == w * h,
        old(b).attr@.len() == w * h,
        w * h <= usize::MAX,
        layer_wf(*l),
    ensures
        match spec_layer_step(old(b).sv(), *l, w, h) {
            Ok(s) => r is Ok && final(b).wf() && final(b).sv() == s,
            Err(e) => r == Err::<(), ConvertError>(e),
        },
        final(b).gfx@.len() == w * h,
        final(b).attr@.len() == w * h,
{
    let gfx: [u8; 3] = [103, 102, 120];
    let objs: [u8; 4] = [111, 98, 106, 115];
    assert(gfx@ =~= name_gfx());
    assert(objs@ =~= name_objs());
    if !l.aligned {
        return Err(ConvertError::LayerOffset);
    }
    if bytes_eq(l.name.as_slice(), gfx.as_slice()) {
        return match &l.content {
            LayerContent::Tiles { width, height, tiles } => {
                if !gfx_ids_fit(tiles) {
                    return Err(ConvertError::GfxTileOutOfRange);
                }
                draw_gfx(&mut b.gfx, w, h, tiles, *width, *height);
                Ok(())
            },
            _ => Err(ConvertError::GfxLayerNotTiles),
        };
    }
    if !bytes_eq(l.name.as_slice(), objs.as_slice()) && l.attribute.is_none() {
        return Ok(());
    }
    match &l.content {
        LayerContent::Tiles { width, height, tiles } => {
            if *width != w || *height != h {
                return Err(ConvertError::LayerSizeMismatch);
            }
            match l.attribute {
                None => {
                    if has_tiles(tiles) {
                        return Err(ConvertError::ObjectLayerWithTiles);
                    }
                    Ok(())
                },
                Some(bits) => match find_conflict(&b.attr, tiles, w, h) {
                    Some(p) => {
                        proof {
                            let ghost attr = old(b).attr@;
                            let ghost q = (p.0 as int, p.1 as int);
                            assert(attr_conflict(attr, tiles@, w as int, q.0, q.1));
                            let ghost c = choose|c: (int, int)| first_conflict(attr, tiles@, w as int, h as int, c.0, c.1);
                            lemma_first_conflict_unique(attr, tiles@, w as int, h as int, q, c);
                        }
                        Err(ConvertError::MultipleAttributes { x: p.0, y: p.1 })
                    },
                    None => {
                        set_attr(&mut b.attr, tiles, bits);
                        Ok(())
                    },
                },
            }
        },
        LayerContent::Objects(os) => add_objects(b, os),
        LayerContent::Unsupported => Err(ConvertError::UnsupportedLayer),
    }
}

fn add_layers(b: &mut StageBuild, ls: &Vec<MapLayer>, w: u32, h: u32) -> (r: Result<(), ConvertError>)
    requires
        old(b).wf(),
        old(b).gfx@.len() == w * h,
        old(b).attr@.len() == w * h,
        w * h <= usize::MAX,
        forall|i: int| 0 <= i < ls@.len() ==> layer_wf(#[trigger] ls@[i]),
    ensures
        match spec_layers(old(b).sv(), ls@, w, h) {
            Ok(s) => r is Ok && final(b).wf() && final(b).sv() == s,
            Err(e) => r == Err::<(), ConvertError>(e),
        },
{
    let mut i: usize = 0;
    assert(ls@.take(0) =~= Seq::<MapLayer>::empty());
    while i < ls.len()
        invariant
            i <= ls@.len(),
            b.wf(),
            b.gfx@.len() == w * h,
            b.attr@.len() == w * h,
            w * h <= usize::MAX,
            forall|k: int| 0 <= k < ls@.len() ==> layer_wf(#[trigger] ls@[k]),
            spec_layers(old(b).sv(), ls@.take(i as int), w, h) == Ok::<StageView, ConvertError>(b.sv()),
        decreases ls@.len() - i,
    {
        assert(ls@.take(i + 1).drop_last() =~= ls@.take(i as int));
        assert(layer_wf(ls@[i as int]));
        match add_layer(b, &ls[i], w, h) {
            Ok(()) => {},
            Err(e) => {
                proof {
                    lemma_layers_stop(old(b).sv(), ls@, (i + 1) as int, w, h);
                }
                return Err(e);
            },
        }
        i = i + 1;
    }
    assert(ls@.take(ls@.len() as int) =~= ls@);
    Ok(())
}

/// Once converting the first layers fails, converting all of them fails the same way.
proof fn lemma_layers_stop(st: StageView, ls: Seq<MapLayer>, i: int, w: u32, h: u32)
    requires
        0 <= i <= ls.len(),
        spec_layers(st, ls.take(i), w, h) is Err,
    ensures
        spec_layers(st, ls, w, h) == spec_layers(st, ls.take(i), w, h),
    decreases ls.len() - i,
{
    if i < ls.len() {
        assert(ls.take(i + 1).drop_last() =~= ls.take(i));
        lemma_layers_stop(st, ls, i + 1, w, h);
    } else {
        assert(ls.take(i) =~= ls);
    }
}

/// Converts a `width` x `height` stage whose tileset is `tileset_name`
/// (number `tiles_idx` among the converted tilesets): the layers are
/// converted in order (see `spec_layer_step`), the stage's objects are
/// numbered on from `map`'s next free ids, and the stage must have a spawn
/// point. On success `map`'s ids move past the objects converted; on failure
/// `map` is left as it was and the first reason is returned.
pub fn convert_stage(
    map: &mut TiledMap,
    tileset_name: String,
    tiles_idx: usize,
    width: u32,
    height: u32,
    layers: &Vec<MapLayer>,
) -> (r: Result<(MapSerializationData, ConvertMapResult), ConvertError>)
    requires
        width * height <= usize::MAX,
        forall|i: int| 0 <= i < layers@.len() ==> layer_wf(#[trigger] layers@[i]),
    ensures
        match spec_convert_stage(*old(map), width, height, layers@) {
            Ok(s) => match r {
                Ok((d, c)) => {
                    &&& d.tileset_name == tileset_name
                    &&& d.width == width
                    &&& d.height == height
                    &&& d.gfx_layer@ == s.gfx
                    &&& d.attr_layer@ == s.attr
                    &&& Some(d.player_spawn_position) == s.spawn
                    &&& d.enemies@.map_values(|e: EnemyData| e@) == s.enemies
                    &&& d.npcs@.map_values(|n: NpcData| n@) == s.npcs
                    &&& d.items@.map_values(|i: ItemData| i@) == s.items
                    &&& d.doors@ == s.doors
                    &&& d.switches@ == s.switches
                    &&& d.tiles_idx == tiles_idx
                    &&& c.tileset == tileset_name
                    &&& names_unique(c.enemy_types@) && names_set(c.enemy_types@) == s.enemy_types
                    &&& names_unique(c.npc_types@) && names_set(c.npc_types@) == s.npc_types
                    &&& names_unique(c.item_types@) && names_set(c.item_types@) == s.item_types
                    &&& *final(map) == (TiledMap {
                        next_enemy_id: s.next_enemy_id,
                        next_npc_id: s.next_npc_id,
                        next_item_id: s.next_item_id,
                        next_door_id: s.next_door_id,
                        next_switch_id: s.next_switch_id,
                        ..*old(map)
                    })
                },
                Err(_) => false,
            },
            Err(e) => {
                &&& r == Err::<(MapSerializationData, ConvertMapResult), ConvertError>(e)
                &&& *final(map) == *old(map)
            },
        },
{
    let n = (width as usize) * (height as usize);
    let mut b = StageBuild {
        next_enemy_id: map.next_enemy_id,
        next_npc_id: map.next_npc_id,
        next_item_id: map.next_item_id,
        next_door_id: map.next_door_id,
        next_switch_id: map.next_switch_id,
        gfx: vec![0u16; n],
        attr: vec![0u8; n],
        spawn: None,
        enemies: Vec::new(),
        npcs: Vec::new(),
        items: Vec::new(),
        doors: Vec::new(),
        switches: Vec::new(),
        enemy_types: Vec::new(),
        npc_types: Vec::new(),
        item_types: Vec::new(),
    };
    proof {
        assert(b.gfx@ =~= Seq::new((width * height) as nat, |i: int| 0u16));
        assert(b.attr@ =~= Seq::new((width * height) as nat, |i: int| 0u8));
        assert(b.enemies@.map_values(|e: EnemyData| e@) =~= Seq::empty());
        assert(b.npcs@.map_values(|n: NpcData| n@) =~= Seq::empty());
        assert(b.items@.map_values(|i: ItemData| i@) =~= Seq::empty());
        assert(names_set(b.enemy_types@) =~= Set::empty());
        assert(names_set(b.npc_types@) =~= Set::empty());
        assert(names_set(b.item_types@) =~= Set::empty());
        assert(b.sv() == spec_initial(*map, width, height));
    }
    match add_layers(&mut b, layers, width, height) {
        Ok(()) => {},
        Err(e) => return Err(e),
    }
    let spawn = match b.spawn {
        Some(p) => p,
        None => return Err(ConvertError::NoSpawn),
    };
    map.next_enemy_id = b.next_enemy_id;
    map.next_npc_id = b.next_npc_id;
    map.next_item_id = b.next_item_id;
    map.next_door_id = b.next_door_id;
    map.next_switch_id = b.next_switch_id;
    let result = ConvertMapResult {
        tileset: tileset_name.clone(),
        enemy_types: b.enemy_types,
        npc_types: b.npc_types,
        item_types: b.item_types,
    };
    let data = MapSerializationData {
        tileset_name,
        width: width as usize,
        height: height as usize,
        gfx_layer: b.gfx,
        attr_layer: b.attr,
        player_spawn_position: spawn,
        enemies: b.enemies,
        npcs: b.npcs,
        items: b.items,
        doors: b.doors,
        switches: b.switches,
        tiles_idx,
    };
    Ok((data, result))
}

/// What holds of every stage converted from `st0` (whose lists are empty):
/// each kind of object is numbered consecutively from `st0`'s next id, items,
/// doors and switches never go past 16, every enemy's kind is among the
/// enemy kinds seen, and no miniboss kind occurs twice.
pub open spec fn stage_inv(st0: StageView, st: StageView) -> bool {
    &&& st.next_enemy_id == st0.next_enemy_id + st.enemies.len()
    &&& forall|i: int| 0 <= i < st.enemies.len() ==> (#[trigger] st.enemies[i]).id == st0.next_enemy_id + i
    &&& st.next_npc_id == st0.next_npc_id + st.npcs.len()
    &&& forall|i: int| 0 <= i < st.npcs.len() ==> (#[trigger] st.npcs[i]).id == st0.next_npc_id + i
    &&& st.next_item_id == st0.next_item_id + st.items.len()
    &&& forall|i: int| 0 <= i < st.items.len() ==> (#[trigger] st.items[i]).id == st0.next_item_id + i
    &&& st.next_door_id == st0.next_door_id + st.doors.len()
    &&& forall|i: int| 0 <= i < st.doors.len() ==> (#[trigger] st.doors[i]).id == st0.next_door_id + i
    &&& st.next_switch_id == st0.next_switch_id + st.switches.len()
    &&& forall|i: int| 0 <= i < st.switches.len() ==> (#[trigger] st.switches[i]).id == st0.next_switch_id + i
    &&& st.items.len() > 0 ==> st.next_item_id <= MAX_PLACED
    &&& st.doors.len() > 0 ==> st.next_door_id <= MAX_PLACED
    &&& st.switches.len() > 0 ==> st.next_switch_id <= MAX_PLACED
    &&& forall|i: int| 0 <= i < st.enemies.len() ==> st.enemy_types.contains((#[trigger] st.enemies[i]).kind)
    &&& forall|i: int, j: int|
        0 <= i < st.enemies.len() && 0 <= j < st.enemies.len() && i != j && (#[trigger] st.enemies[i]).kind
            == (#[trigger] st.enemies[j]).kind ==> !spec_is_miniboss(st.enemies[i].kind)
}

proof fn lemma_object_step_inv(st0: StageView, st: StageView, o: MapObject)
    requires
        stage_inv(st0, st),
        spec_object_step(st, o) is Ok,
    ensures
        stage_inv(st0, spec_object_step(st, o)->Ok_0),
{
    let s = spec_object_step(st, o)->Ok_0;
    if o.name@ != name_spawn() && o.user_type@ == class_enemy() {
        let n = st.enemies.len();
        assert forall|i: int, j: int|
            0 <= i < s.enemies.len() && 0 <= j < s.enemies.len() && i != j && (#[trigger] s.enemies[i]).kind
                == (#[trigger] s.enemies[j]).kind implies !spec_is_miniboss(s.enemies[i].kind) by {
            if i < n && j < n {
                assert(s.enemies[i] == st.enemies[i] && s.enemies[j] == st.enemies[j]);
            } else if i < n {
                assert(st.enemy_types.contains(st.enemies[i].kind));
            } else {
                assert(st.enemy_types.contains(st.enemies[j].kind));
            }
        }
        assert forall|i: int| 0 <= i < s.enemies.len() implies s.enemy_types.contains((#[trigger] s.enemies[i]).kind) by {
            if i < n {
                assert(s.enemies[i] == st.enemies[i]);
                assert(st.enemy_types.contains(st.enemies[i].kind));
            }
        }
        assert forall|i: int| 0 <= i < s.enemies.len() implies (#[trigger] s.enemies[i]).id == st0.next_enemy_id + i by {
            if i < n {
                assert(s.enemies[i] == st.enemies[i]);
            }
        }
    } else if o.name@ != name_spawn() && o.user_type@ == class_npc() {
        assert forall|i: int| 0 <= i < s.npcs.len() implies (#[trigger] s.npcs[i]).id == st0.next_npc_id + i by {
            if i < st.npcs.len() {
                assert(s.npcs[i] == st.npcs[i]);
            }
        }
    } else if o.name@ != name_spawn() && o.user_type@ == class_item() {
        assert forall|i: int| 0 <= i < s.items.len() implies (#[trigger] s.items[i]).id == st0.next_item_id + i by {
            if i < st.items.len() {
                assert(s.items[i] == st.items[i]);
            }
        }
    } else if o.name@ != name_spawn() && o.user_type@ == class_door() {
        assert forall|i: int| 0 <= i < s.doors.len() implies (#[trigger] s.doors[i]).id == st0.next_door_id + i by {
            if i < st.doors.len() {
                assert(s.doors[i] == st.doors[i]);
            }
        }
    } else if o.name@ != name_spawn() && o.user_type@ == class_switch() {
        assert forall|i: int| 0 <= i < s.switches.len() implies (#[trigger] s.switches[i]).id == st0.next_switch_id + i by {
            if i < st.switches.len() {
                assert(s.switches[i] == st.switches[i]);
            }
        }
    }
}

proof fn lemma_objects_inv(st0: StageView, st: StageView, os: Seq<MapObject>)
    requires
        stage_inv(st0, st),
        spec_objects(st, os) is Ok,
    ensures
        stage_inv(st0, spec_objects(st, os)->Ok_0),
    decreases os.len(),
{
    if os.len() > 0 {
        lemma_objects_inv(st0, st, os.drop_last());
        lemma_object_step_inv(st0, spec_objects(st, os.drop_last())->Ok_0, os.last());
    }
}

proof fn lemma_layers_inv(st0: StageView, st: StageView, ls: Seq<MapLayer>, w: u32, h: u32)
    requires
        stage_inv(st0, st),
        spec_layers(st, ls, w, h) is Ok,
    ensures
        stage_inv(st0, spec_layers(st, ls, w, h)->Ok_0),
    decreases ls.len(),
{
    if ls.len() > 0 {
        lemma_layers_inv(st0, st, ls.drop_last(), w, h);
        let mid = spec_layers(st, ls.drop_last(), w, h)->Ok_0;
        let l = ls.last();
        if l.aligned && l.name@ != name_gfx() && !(l.name@ != name_objs() && l.attribute is None) {
            if let LayerContent::Objects(os) = l.content {
                lemma_objects_inv(st0, mid, os@);
            }
        }
    }
}

/// The objects of a converted stage are numbered consecutively, each kind
/// from `map`'s next free id on; a stage has at most 16 items, doors and
/// switches; and a miniboss kind occurs at most once among its enemies.
pub proof fn law_converted_objects(map: TiledMap, w: u32, h: u32, ls: Seq<MapLayer>)
    requires
        spec_convert_stage(map, w, h, ls) is Ok,
    ensures
        ({
            let s = spec_convert_stage(map, w, h, ls)->Ok_0;
            &&& forall|i: int| 0 <= i < s.enemies.len() ==> (#[trigger] s.enemies[i]).id == map.next_enemy_id + i
            &&& forall|i: int| 0 <= i < s.npcs.len() ==> (#[trigger] s.npcs[i]).id == map.next_npc_id + i
            &&& forall|i: int| 0 <= i < s.items.len() ==> (#[trigger] s.items[i]).id == map.next_item_id + i
            &&& forall|i: int| 0 <= i < s.doors.len() ==> (#[trigger] s.doors[i]).id == map.next_door_id + i
            &&& forall|i: int| 0 <= i < s.switches.len() ==> (#[trigger] s.switches[i]).id == map.next_switch_id + i
            &&& s.next_enemy_id == map.next_enemy_id + s.enemies.len()
            &&& s.next_item_id == map.next_item_id + s.items.len()
            &&& s.next_door_id == map.next_door_id + s.doors.len()
            &&& s.next_switch_id == map.next_switch_id + s.switches.len()
            &&& s.items.len() > 0 ==> map.next_item_id + s.items.len() <= MAX_PLACED
            &&& s.doors.len() > 0 ==> map.next_door_id + s.doors.len() <= MAX_PLACED
            &&& s.switches.len() > 0 ==> map.next_switch_id + s.switches.len() <= MAX_PLACED
            &&& forall|i: int, j: int|
                0 <= i < s.enemies.len() && 0 <= j < s.enemies.len() && i != j && spec_is_miniboss(
                    (#[trigger] s.enemies[i]).kind,
                ) ==> (#[trigger] s.enemies[j]).kind != s.enemies[i].kind
        }),
{
    let st0 = spec_initial(map, w, h);
    lemma_layers_inv(st0, st0, ls, w, h);
}

} // verus!
