//! Conversion of stages drawn in the Tiled editor: object ids, enemy walk
//! scripts, door orientations, and the data the stage sources are generated
//! from.
use vstd::prelude::*;

use crate::door::Orientation;

verus! {

/// The most items, doors or switches a stage can hold.
pub const MAX_PLACED: u16 = 16;

/// A stage being converted, with the next free id of each object kind.
pub struct TiledMap {
    /// Path of the Tiled file.
    pub path: String,
    /// The stage's identifier (its `MapType`).
    pub identifier: String,
    pub next_enemy_id: u16,
    pub next_npc_id: u16,
    pub next_item_id: u16,
    pub next_door_id: u16,
    pub next_switch_id: u16,
}

impl TiledMap {
    /// A stage with no object numbered yet.
    pub fn new(path: String, identifier: String) -> (r: TiledMap)
        ensures
            r.path == path,
            r.identifier == identifier,
            r.next_enemy_id == 0 && r.next_npc_id == 0 && r.next_item_id == 0,
            r.next_door_id == 0 && r.next_switch_id == 0,
    {
        TiledMap { path, identifier, next_enemy_id: 0, next_npc_id: 0, next_item_id: 0, next_door_id: 0, next_switch_id: 0 }
    }

    /// Numbers the next enemy.
    pub fn next_enemy_id(&mut self) -> (r: u16)
        requires
            old(self).next_enemy_id < u16::MAX,
        ensures
            r == old(self).next_enemy_id,
            *final(self) == (TiledMap { next_enemy_id: (r + 1) as u16, ..*old(self) }),
    {
        let id = self.next_enemy_id;
        self.next_enemy_id = self.next_enemy_id + 1;
        id
    }

    /// Numbers the next NPC.
    pub fn next_npc_id(&mut self) -> (r: u16)
        requires
            old(self).next_npc_id < u16::MAX,
        ensures
            r == old(self).next_npc_id,
            *final(self) == (TiledMap { next_npc_id: (r + 1) as u16, ..*old(self) }),
    {
        let id = self.next_npc_id;
        self.next_npc_id = self.next_npc_id + 1;
        id
    }

    /// Numbers the next item; a stage holds at most 16 items.
    pub fn next_item_id(&mut self) -> (r: u16)
        requires
            old(self).next_item_id < MAX_PLACED,
        ensures
            r == old(self).next_item_id,
            *final(self) == (TiledMap { next_item_id: (r + 1) as u16, ..*old(self) }),
    {
        let id = self.next_item_id;
        self.next_item_id = self.next_item_id + 1;
        id
    }

    /// Numbers the next door; a stage holds at most 16 doors.
    pub fn next_door_id(&mut self) -> (r: u16)
        requires
            old(self).next_door_id < MAX_PLACED,
        ensures
            r == old(self).next_door_id,
            *final(self) == (TiledMap { next_door_id: (r + 1) as u16, ..*old(self) }),
    {
        let id = self.next_door_id;
        self.next_door_id = self.next_door_id + 1;
        id
    }

    /// Numbers the next switch; a stage holds at most 16 switches.
    pub fn next_switch_id(&mut self) -> (r: u16)
        requires
            old(self).next_switch_id < MAX_PLACED,
        ensures
            r == old(self).next_switch_id,
            *final(self) == (TiledMap { next_switch_id: (r + 1) as u16, ..*old(self) }),
    {
        let id = self.next_switch_id;
        self.next_switch_id = self.next_switch_id + 1;
        id
    }
}

/// A step of an enemy's walk script.
#[derive(Clone, Copy, Debug, PartialEq, Eq, Structural)]
pub enum WalkCommand {
    Up,
    Down,
    Left,
    Right,
    Pause,
}

impl WalkCommand {
    /// The command's name in the generated stage source.
    pub fn name(&self) -> (r: &'static str)
        ensures
            r@ == spec_command_name(*self),
    {
        proof {
            reveal_strlit("Up");
            reveal_strlit("Down");
            reveal_strlit("Left");
            reveal_strlit("Right");
            reveal_strlit("Pause");
        }
        match self {
            WalkCommand::Up => "Up",
            WalkCommand::Down => "Down",
            WalkCommand::Left => "Left",
            WalkCommand::Right => "Right",
            WalkCommand::Pause => "Pause",
        }
    }
}

pub open spec fn spec_command_name(c: WalkCommand) -> Seq<char> {
    match c {
        WalkCommand::Up => seq!['U', 'p'],
        WalkCommand::Down => seq!['D', 'o', 'w', 'n'],
        WalkCommand::Left => seq!['L', 'e', 'f', 't'],
        WalkCommand::Right => seq!['R', 'i', 'g', 'h', 't'],
        WalkCommand::Pause => seq!['P', 'a', 'u', 's', 'e'],
    }
}

/// A walk step: a command held for a number of frames.
#[derive(Clone, Copy, Debug, PartialEq, Eq, Structural)]
pub struct WalkData {
    pub command: WalkCommand,
    pub duration: usize,
}

/// The command of a script letter (U, D, L, R, P).
pub open spec fn spec_command(b: u8) -> Option<WalkCommand> {
    if b == 85 {
        Some(WalkCommand::Up)
    } else if b == 68 {
        Some(WalkCommand::Down)
    } else if b == 76 {
        Some(WalkCommand::Left)
    } else if b == 82 {
        Some(WalkCommand::Right)
    } else if b == 80 {
        Some(WalkCommand::Pause)
    } else {
        None
    }
}

pub open spec fn is_digit(b: u8) -> bool {
    48 <= b <= 57
}

/// Whether every byte is a decimal digit.
pub open spec fn all_digits(ds: Seq<u8>) -> bool {
    forall|i: int| 0 <= i < ds.len() ==> is_digit(#[trigger] ds[i])
}

/// The value of a string of decimal digits.
pub open spec fn spec_digits_value(ds: Seq<u8>) -> nat
    decreases ds.len(),
{
    if ds.len() == 0 { 0 } else { spec_digits_value(ds.drop_last()) * 10 + (ds.last() - 48) as nat }
}

/// A duration as Rust reads a `usize`: an optional `+` and at least one
/// digit, with a value that fits.
pub open spec fn spec_duration(d: Seq<u8>) -> Option<usize> {
    let ds = if d.len() > 0 && d[0] == 43 { d.skip(1) } else { d };
    if ds.len() > 0 && all_digits(ds) && spec_digits_value(ds) <= usize::MAX {
        Some(spec_digits_value(ds) as usize)
    } else {
        None
    }
}

/// A script step: a command letter followed by its duration.
pub open spec fn spec_parse_step(t: Seq<u8>) -> Option<WalkData> {
    if t.len() == 0 {
        None
    } else {
        match (spec_command(t[0]), spec_duration(t.skip(1))) {
            (Some(c), Some(d)) => Some(WalkData { command: c, duration: d }),
            _ => None,
        }
    }
}

/// The pieces of `s` between commas (as Rust's `split(",")` gives them).
pub open spec fn spec_split(s: Seq<u8>) -> Seq<Seq<u8>>
    decreases s.len(),
{
    if s.len() == 0 {
        seq![Seq::<u8>::empty()]
    } else {
        let r = spec_split(s.drop_last());
        if s.last() == 44 {
            r.push(Seq::<u8>::empty())
        } else {
            r.update(r.len() - 1, r.last().push(s.last()))
        }
    }
}

proof fn lemma_split_len(s: Seq<u8>)
    ensures
        spec_split(s).len() >= 1,
    decreases s.len(),
{
    if s.len() > 0 {
        lemma_split_len(s.drop_last());
    }
}

/// The walk script `s` ("U10,R5,P30"): `None` when a step is malformed.
pub open spec fn spec_parse_walk(s: Seq<u8>) -> Option<Seq<WalkData>> {
    let ts = spec_split(s);
    if forall|i: int| 0 <= i < ts.len() ==> (#[trigger] spec_parse_step(ts[i])) is Some {
        Some(ts.map_values(|t: Seq<u8>| spec_parse_step(t)->0))
    } else {
        None
    }
}

proof fn lemma_digits_prefix(ds: Seq<u8>, i: int)
    requires
        0 <= i <= ds.len(),
    ensures
        spec_digits_value(ds.take(i)) <= spec_digits_value(ds),
    decreases ds.len() - i,
{
    if i < ds.len() {
        lemma_digits_prefix(ds, i + 1);
        assert(ds.take(i + 1).drop_last() =~= ds.take(i));
    } else {
        assert(ds.take(i) =~= ds);
    }
}

/// Reads the duration in `s[start..end]`.
fn parse_duration(s: &[u8], start: usize, end: usize) -> (r: Option<usize>)
    requires
        start <= end <= s@.len(),
    ensures
        r == spec_duration(s@.subrange(start as int, end as int)),
{
    let ghost d = s@.subrange(start as int, end as int);
    let mut i = start;
    if i < end && s[i] == 43 {
        i = i + 1;
    }
    let ghost ds = if d.len() > 0 && d[0] == 43 { d.skip(1) } else { d };
    assert(ds =~= s@.subrange(i as int, end as int));
    if i == end {
        return None;
    }
    let first = i;
    let mut value: usize = 0;
    while i < end
        invariant
            start <= first <= i <= end <= s@.len(),
            d == s@.subrange(start as int, end as int),
            ds == (if d.len() > 0 && d[0] == 43 { d.skip(1) } else { d }),
            ds =~= s@.subrange(first as int, end as int),
            forall|k: int| 0 <= k < i - first ==> is_digit(#[trigger] ds[k]),
            value == spec_digits_value(ds.take(i - first)),
        decreases end - i,
    {
        proof {
            assert(ds.take(i - first + 1).drop_last() =~= ds.take(i - first));
            lemma_digits_prefix(ds, i - first + 1);
        }
        let b = s[i];
        assert(ds[i - first] == b);
        if b < 48 || b > 57 {
            assert(!is_digit(ds[i - first]));
            assert(0 <= i - first < ds.len());
            assert(!all_digits(ds));
            assert(spec_duration(d) is None);
            return None;
        }
        let digit = (b - 48) as usize;
        assert(ds.take(i - first + 1).last() == b);
        assert(spec_digits_value(ds.take(i - first + 1)) == value * 10 + digit);
        match value.checked_mul(10) {
            Some(v) => match v.checked_add(digit) {
                Some(w) => {
                    value = w;
                },
                None => {
                    assert(spec_digits_value(ds) > usize::MAX);
                    assert(spec_duration(d) is None);
                    return None;
                },
            },
            None => {
                assert(spec_digits_value(ds) > usize::MAX);
                assert(spec_duration(d) is None);
                return None;
            },
        }
        i = i + 1;
    }
    assert(ds.take(end - first) =~= ds);
    Some(value)
}

/// Reads the script step `s[start..end]`.
fn parse_step(s: &[u8], start: usize, end: usize) -> (r: Option<WalkData>)
    requires
        start <= end <= s@.len(),
    ensures
        r == spec_parse_step(s@.subrange(start as int, end as int)),
{
    let ghost t = s@.subrange(start as int, end as int);
    if start == end {
        return None;
    }
    let c = s[start];
    let command = if c == 85 {
        WalkCommand::Up
    } else if c == 68 {
        WalkCommand::Down
    } else if c == 76 {
        WalkCommand::Left
    } else if c == 82 {
        WalkCommand::Right
    } else if c == 80 {
        WalkCommand::Pause
    } else {
        return None;
    };
    assert(t.skip(1) =~= s@.subrange(start + 1, end as int));
    match parse_duration(s, start + 1, end) {
        Some(d) => Some(WalkData { command, duration: d }),
        None => None,
    }
}

/// Reads a walk script such as "U10,R5,P30": steps separated by commas,
/// each a command letter (Up, Down, Left, Right, Pause) followed by the
/// number of frames. `None` when a step is malformed.
pub fn parse_walk_data(commands: &[u8]) -> (r: Option<Vec<WalkData>>)
    ensures
        match r {
            Some(v) => spec_parse_walk(commands@) == Some(v@),
            None => spec_parse_walk(commands@) is None,
        },
{
    let n = commands.len();
    let mut out: Vec<WalkData> = Vec::new();
    let ghost mut done: Seq<Seq<u8>> = Seq::empty();
    let mut start: usize = 0;
    let mut i: usize = 0;
    assert(commands@.take(0) =~= Seq::<u8>::empty());
    while i < n
        invariant
            n == commands@.len(),
            start <= i <= n,
            spec_split(commands@.take(i as int)) == done.push(commands@.subrange(start as int, i as int)),
            out@.len() == done.len(),
            forall|k: int| 0 <= k < done.len() ==> (#[trigger] spec_parse_step(done[k])) == Some(out@[k]),
        decreases n - i,
    {
        assert(commands@.take(i + 1).drop_last() =~= commands@.take(i as int));
        if commands[i] == 44 {
            let step = parse_step(commands, start, i);
            match step {
                Some(w) => {
                    proof {
                        done = done.push(commands@.subrange(start as int, i as int));
                    }
                    out.push(w);
                    start = i + 1;
                    assert(commands@.subrange(start as int, (i + 1) as int) =~= Seq::<u8>::empty());
                },
                None => {
                    proof {
                        let ts = spec_split(commands@);
                        lemma_split_prefix_token(commands@, i as int, start as int, done);
                    }
                    return None;
                },
            }
        } else {
            assert(commands@.subrange(start as int, (i + 1) as int) =~= commands@.subrange(start as int, i as int).push(commands@[i as int]));
        }
        i = i + 1;
    }
    assert(commands@.take(n as int) =~= commands@);
    match parse_step(commands, start, n) {
        Some(w) => {
            out.push(w);
            let ghost all = done.push(commands@.subrange(start as int, n as int));
            assert(all.map_values(|t: Seq<u8>| spec_parse_step(t)->0) =~= out@);
            Some(out)
        },
        None => {
            assert(!(spec_parse_step(spec_split(commands@)[done.len() as int]) is Some));
            None
        },
    }
}

/// A step that ends at a comma before position `i` stays a piece of the
/// whole script's split.
proof fn lemma_split_prefix_token(s: Seq<u8>, i: int, start: int, done: Seq<Seq<u8>>)
    requires
        0 <= start <= i < s.len(),
        s[i] == 44,
        spec_split(s.take(i)) == done.push(s.subrange(start, i)),
    ensures
        spec_split(s).len() > done.len(),
        spec_split(s)[done.len() as int] == s.subrange(start, i),
    decreases s.len() - i,
{
    lemma_split_keeps_prefix(s, i + 1);
    assert(s.take(i + 1).drop_last() =~= s.take(i));
    assert(spec_split(s.take(i + 1)) == done.push(s.subrange(start, i)).push(Seq::<u8>::empty()));
}

/// Splitting a longer script keeps the complete pieces of a shorter prefix
/// (all but the last) and can only extend the last one.
proof fn lemma_split_keeps_prefix(s: Seq<u8>, j: int)
    requires
        0 <= j <= s.len(),
    ensures
        spec_split(s.take(j)).len() <= spec_split(s).len(),
        forall|k: int| 0 <= k < spec_split(s.take(j)).len() - 1 ==> #[trigger] spec_split(s)[k] == spec_split(s.take(j))[k],
    decreases s.len() - j,
{
    lemma_split_len(s.take(j));
    if j < s.len() {
        lemma_split_keeps_prefix(s, j + 1);
        assert(s.take(j + 1).drop_last() =~= s.take(j));
        lemma_split_len(s.take(j + 1));
    } else {
        assert(s.take(j) =~= s);
    }
}

/// Reads a well-formed walk script (see `parse_walk_data`).
pub fn convert_walk_data(commands: &[u8]) -> (r: Vec<WalkData>)
    requires
        spec_parse_walk(commands@) is Some,
    ensures
        spec_parse_walk(commands@) == Some(r@),
{
    match parse_walk_data(commands) {
        Some(v) => v,
        None => Vec::new(),
    }
}

/// The orientation a door object's name ends with (`H` horizontal, `V`
/// vertical); `None` for another ending.
pub fn door_orientation(name: &[u8]) -> (r: Option<Orientation>)
    ensures
        r == (if name@.len() > 0 && name@.last() == 72 {
            Some(Orientation::Horizontal)
        } else if name@.len() > 0 && name@.last() == 86 {
            Some(Orientation::Vertical)
        } else {
            None
        }),
{
    let n = name.len();
    if n > 0 && name[n - 1] == 72 {
        Some(Orientation::Horizontal)
    } else if n > 0 && name[n - 1] == 86 {
        Some(Orientation::Vertical)
    } else {
        None
    }
}

/// "Miniboss" in ASCII.
pub open spec fn miniboss_word() -> Seq<u8> {
    seq![77u8, 105, 110, 105, 98, 111, 115, 115]
}

/// Whether an enemy object's name marks a miniboss (it contains "Miniboss").
pub fn is_miniboss_name(name: &[u8]) -> (r: bool)
    ensures
        r == exists|i: int| 0 <= i && i + 8 <= name@.len() && #[trigger] name@.subrange(i, i + 8) == miniboss_word(),
{
    let word: [u8; 8] = [77, 105, 110, 105, 98, 111, 115, 115];
    assert(word@ =~= miniboss_word());
    let n = name.len();
    if n < 8 {
        return false;
    }
    let mut i: usize = 0;
    while i <= n - 8
        invariant
            n >= 8,
            n == name@.len(),
            word@ == miniboss_word(),
            forall|k: int| 0 <= k < i ==> #[trigger] name@.subrange(k, k + 8) != miniboss_word(),
        decreases n - i,
    {
        let mut j: usize = 0;
        let mut same = true;
        while j < 8
            invariant
                j <= 8,
                n >= 8,
                i <= n - 8,
                n == name@.len(),
                word@ == miniboss_word(),
                same == (forall|k: int| 0 <= k < j ==> name@[i + k] == word@[k]),
            decreases 8 - j,
        {
            if name[i + j] != word[j] {
                same = false;
            }
            j = j + 1;
        }
        if same {
            assert(name@.subrange(i as int, i + 8) =~= miniboss_word());
            return true;
        }
        assert(name@.subrange(i as int, i + 8) != miniboss_word()) by {
            let k = choose|k: int| 0 <= k < 8 && name@[i + k] != word@[k];
            assert(name@.subrange(i as int, i + 8)[k] != miniboss_word()[k]);
        }
        i = i + 1;
    }
    false
}

/// An enemy of a converted stage; `kind` is the object's name.
#[derive(Debug, PartialEq, Eq)]
pub struct EnemyData {
    pub kind: Vec<u8>,
    pub id: u16,
    pub x: u16,
    pub y: u16,
    pub properties: EnemyProperties,
}

/// An NPC of a converted stage; `kind` is the object's name.
#[derive(Debug, PartialEq, Eq)]
pub struct NpcData {
    pub kind: Vec<u8>,
    pub id: u16,
    pub dialogue_id: u16,
    pub x: u16,
    pub y: u16,
}

/// An item of a converted stage; `kind` is the object's name.
#[derive(Debug, PartialEq, Eq)]
pub struct ItemData {
    pub kind: Vec<u8>,
    pub id: u16,
    pub x: u16,
    pub y: u16,
}

/// An enemy of a converted stage, with its name and walk script as sequences.
pub struct EnemyView {
    pub kind: Seq<u8>,
    pub id: u16,
    pub x: u16,
    pub y: u16,
    pub walk: Seq<WalkData>,
    pub speed: Option<i32>,
    pub health: Option<i32>,
    pub strength: Option<i32>,
    pub invulnerable: bool,
    pub flags: Option<i32>,
}

impl View for EnemyData {
    type V = EnemyView;

    open spec fn view(&self) -> EnemyView {
        EnemyView {
            kind: self.kind@,
            id: self.id,
            x: self.x,
            y: self.y,
            walk: self.properties.walk_data@,
            speed: self.properties.speed,
            health: self.properties.health,
            strength: self.properties.strength,
            invulnerable: self.properties.invulnerable,
            flags: self.properties.flags,
        }
    }
}

/// An NPC of a converted stage, with its name as a sequence.
pub struct NpcView {
    pub kind: Seq<u8>,
    pub id: u16,
    pub dialogue_id: u16,
    pub x: u16,
    pub y: u16,
}

impl View for NpcData {
    type V = NpcView;

    open spec fn view(&self) -> NpcView {
        NpcView { kind: self.kind@, id: self.id, dialogue_id: self.dialogue_id, x: self.x, y: self.y }
    }
}

/// An item of a converted stage, with its name as a sequence.
pub struct ItemView {
    pub kind: Seq<u8>,
    pub id: u16,
    pub x: u16,
    pub y: u16,
}

impl View for ItemData {
    type V = ItemView;

    open spec fn view(&self) -> ItemView {
        ItemView { kind: self.kind@, id: self.id, x: self.x, y: self.y }
    }
}

/// A door of a converted stage.
#[derive(Clone, Copy, Debug, PartialEq, Eq, Structural)]
pub struct DoorData {
    pub id: u16,
    pub orientation: Orientation,
    pub locked: bool,
    pub x: u16,
    pub y: u16,
}

/// A switch of a converted stage.
#[derive(Clone, Copy, Debug, PartialEq, Eq, Structural)]
pub struct SwitchData {
    pub id: u16,
    /// The event its stage's switches trigger (the same for all of a stage's switches).
    pub event_id: u16,
    pub x: u16,
    pub y: u16,
}

/// Stage overrides of an enemy's default properties.
#[derive(Debug, PartialEq, Eq)]
pub struct EnemyProperties {
    pub walk_data: Vec<WalkData>,
    pub speed: Option<i32>,
    pub health: Option<i32>,
    pub strength: Option<i32>,
    pub invulnerable: bool,
    pub flags: Option<i32>,
}

/// What a stage source is generated from.
#[derive(Debug, PartialEq, Eq)]
pub struct MapSerializationData {
    pub tileset_name: String,
    /// Size in tiles.
    pub width: usize,
    pub height: usize,
    pub gfx_layer: Vec<u16>,
    pub attr_layer: Vec<u8>,
    pub player_spawn_position: (i16, i16),
    pub enemies: Vec<EnemyData>,
    pub npcs: Vec<NpcData>,
    pub items: Vec<ItemData>,
    pub doors: Vec<DoorData>,
    pub switches: Vec<SwitchData>,
    pub tiles_idx: usize,
}

/// What converting a stage found: its tileset and the kinds of enemies,
/// NPCs and items it uses (each kind once).
#[derive(Debug, PartialEq, Eq)]
pub struct ConvertMapResult {
    pub tileset: String,
    pub enemy_types: Vec<Vec<u8>>,
    pub npc_types: Vec<Vec<u8>>,
    pub item_types: Vec<Vec<u8>>,
}

} // verus!
