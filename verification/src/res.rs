//! Identifiers of the game's assets: stages, items, enemy kinds, palettes,
//! and the animation tables of the sprite sheets the logic refers to.
use vstd::prelude::*;

verus! {

/// The playable stages.
#[derive(Clone, Copy, Debug, PartialEq, Eq, Structural)]
pub enum MapType {
    Forest,
    Volcano,
    Spaceship,
    Arctic,
    BossStage,
}

/// Number of stages.
pub const MAP_COUNT: usize = 5;

/// Position of a stage in the stage list (also its record slot).
pub open spec fn spec_map_index(m: MapType) -> nat {
    match m {
        MapType::Forest => 0,
        MapType::Volcano => 1,
        MapType::Spaceship => 2,
        MapType::Arctic => 3,
        MapType::BossStage => 4,
    }
}

impl MapType {
    /// Position of the stage in the stage list.
    pub fn index(self) -> (r: usize)
        ensures
            r == spec_map_index(self),
            r < MAP_COUNT,
    {
        match self {
            MapType::Forest => 0,
            MapType::Volcano => 1,
            MapType::Spaceship => 2,
            MapType::Arctic => 3,
            MapType::BossStage => 4,
        }
    }

    /// The stage at a position of the stage list.
    pub fn from_index(i: usize) -> (r: Option<MapType>)
        ensures
            i < MAP_COUNT <==> r is Some,
            r matches Some(m) ==> spec_map_index(m) == i,
    {
        match i {
            0 => Some(MapType::Forest),
            1 => Some(MapType::Volcano),
            2 => Some(MapType::Spaceship),
            3 => Some(MapType::Arctic),
            4 => Some(MapType::BossStage),
            _ => None,
        }
    }
}

/// Collectible items.
#[derive(Clone, Copy, Debug, PartialEq, Eq, Structural)]
pub enum ItemType {
    Key,
    Battery,
    Doublejump,
    Dash,
    Walljump,
    Airdash,
}

/// Position of an item kind in the item list (its sprites follow in that order).
pub open spec fn spec_item_index(t: ItemType) -> nat {
    match t {
        ItemType::Key => 0,
        ItemType::Battery => 1,
        ItemType::Doublejump => 2,
        ItemType::Dash => 3,
        ItemType::Walljump => 4,
        ItemType::Airdash => 5,
    }
}

impl ItemType {
    /// Position of the item kind in the item list.
    pub fn index(self) -> (r: u16)
        ensures
            r == spec_item_index(self),
    {
        match self {
            ItemType::Key => 0,
            ItemType::Battery => 1,
            ItemType::Doublejump => 2,
            ItemType::Dash => 3,
            ItemType::Walljump => 4,
            ItemType::Airdash => 5,
        }
    }
}

/// Enemy kinds. Each kind has at most one miniboss instance per game.
#[derive(Clone, Copy, Debug, PartialEq, Eq, Structural)]
pub enum EnemyType {
    Angel,
    AngelMiniboss,
    Blob,
    BlobMiniboss,
    Octopus,
    OctopusMiniboss,
    Orc,
    OrcMiniboss,
    OrcMinion,
    Archer,
    ArcherMiniboss,
    BossHand,
    Goblin,
    GoblinMiniboss,
    Flameboi,
    FlameboiMiniboss,
    Rabbit,
    RabbitMiniboss,
    Boss,
}

/// Position of an enemy kind in the kind list.
pub open spec fn spec_enemy_index(e: EnemyType) -> nat {
    match e {
        EnemyType::Angel => 0,
        EnemyType::AngelMiniboss => 1,
        EnemyType::Blob => 2,
        EnemyType::BlobMiniboss => 3,
        EnemyType::Octopus => 4,
        EnemyType::OctopusMiniboss => 5,
        EnemyType::Orc => 6,
        EnemyType::OrcMiniboss => 7,
        EnemyType::OrcMinion => 8,
        EnemyType::Archer => 9,
        EnemyType::ArcherMiniboss => 10,
        EnemyType::BossHand => 11,
        EnemyType::Goblin => 12,
        EnemyType::GoblinMiniboss => 13,
        EnemyType::Flameboi => 14,
        EnemyType::FlameboiMiniboss => 15,
        EnemyType::Rabbit => 16,
        EnemyType::RabbitMiniboss => 17,
        EnemyType::Boss => 18,
    }
}

impl EnemyType {
    /// The bit that records the defeat of this kind's miniboss in the
    /// defeated-minibosses mask.
    pub fn defeat_bit(self) -> (r: u32)
        ensures
            r == 1u32 << spec_enemy_index(self),
    {
        let i: u32 = match self {
            EnemyType::Angel => 0,
            EnemyType::AngelMiniboss => 1,
            EnemyType::Blob => 2,
            EnemyType::BlobMiniboss => 3,
            EnemyType::Octopus => 4,
            EnemyType::OctopusMiniboss => 5,
            EnemyType::Orc => 6,
            EnemyType::OrcMiniboss => 7,
            EnemyType::OrcMinion => 8,
            EnemyType::Archer => 9,
            EnemyType::ArcherMiniboss => 10,
            EnemyType::BossHand => 11,
            EnemyType::Goblin => 12,
            EnemyType::GoblinMiniboss => 13,
            EnemyType::Flameboi => 14,
            EnemyType::FlameboiMiniboss => 15,
            EnemyType::Rabbit => 16,
            EnemyType::RabbitMiniboss => 17,
            EnemyType::Boss => 18,
        };
        1u32 << i
    }
}

/// Palette sets, one per screen or character.
#[derive(Clone, Copy, Debug, PartialEq, Eq, Structural)]
pub enum PaletteContext {
    Forest,
    Volcano,
    Spaceship,
    Arctic,
    BossStage,
    StageSelect,
    Inventory,
    GameOver,
    PlayerShooter,
    PlayerMelee,
}

/// The palette set of a stage.
pub open spec fn spec_map_palette(m: MapType) -> PaletteContext {
    match m {
        MapType::Forest => PaletteContext::Forest,
        MapType::Volcano => PaletteContext::Volcano,
        MapType::Spaceship => PaletteContext::Spaceship,
        MapType::Arctic => PaletteContext::Arctic,
        MapType::BossStage => PaletteContext::BossStage,
    }
}

/// The palette set of a stage.
pub fn palette_type(map_type: MapType) -> (r: PaletteContext)
    ensures
        r == spec_map_palette(map_type),
{
    match map_type {
        MapType::Forest => PaletteContext::Forest,
        MapType::Volcano => PaletteContext::Volcano,
        MapType::Spaceship => PaletteContext::Spaceship,
        MapType::Arctic => PaletteContext::Arctic,
        MapType::BossStage => PaletteContext::BossStage,
    }
}

// Animation tables of the sprite sheets.

pub const DOOR_ANIM_CLOSED: usize = 0;
pub const DOOR_ANIM_CLOSED_KEYHOLE: usize = 1;
pub const DOOR_ANIM_OPENING: usize = 2;
pub const DOOR_ANIM_OPEN: usize = 3;

pub const SWITCH_ANIM_OFF: usize = 0;
pub const SWITCH_ANIM_ON: usize = 1;

pub const PROJECTILE_ANIM_RIGHT: usize = 0;
pub const PROJECTILE_ANIM_DOWN: usize = 1;
pub const PROJECTILE_ANIM_DIAG: usize = 2;
pub const PROJECTILE_ANIM_EXPLOSION: usize = 3;

pub const ENEMY_ANIM_IDLE: usize = 0;
pub const ENEMY_ANIM_WALK: usize = 1;
pub const ENEMY_ANIM_DAMAGE: usize = 2;
pub const ENEMY_ANIM_DIE: usize = 3;
pub const ENEMY_ANIM_SHOOT: usize = 4;

pub const PLAYER_ANIM_IDLE: usize = 0;
pub const PLAYER_ANIM_WALK: usize = 1;
pub const PLAYER_ANIM_JUMP_UP: usize = 2;
pub const PLAYER_ANIM_JUMP_DOWN: usize = 3;
pub const PLAYER_ANIM_LAND: usize = 4;
pub const PLAYER_ANIM_DASH: usize = 5;
pub const PLAYER_ANIM_DASH_STOP: usize = 6;
pub const PLAYER_ANIM_WALL_SLIDE: usize = 7;
pub const PLAYER_ANIM_WALL_JUMP: usize = 8;
pub const PLAYER_ANIM_ATTACK: usize = 9;
pub const PLAYER_ANIM_DAMAGE: usize = 10;
pub const PLAYER_ANIM_DIE: usize = 11;
pub const PLAYER_ANIM_BEAM: usize = 12;
pub const PLAYER_ANIM_BEAM_STOP: usize = 13;

pub const PLAYER_MELEE_ANIM_ATTACK: usize = 9;
pub const PLAYER_MELEE_ANIM_JUMP_ATTACK: usize = 14;

pub const SWORD_ANIM_OFF: usize = 0;
pub const SWORD_ANIM_SLASH: usize = 1;

pub const EXPLOSION_ANIM_EXPLODE: usize = 0;

pub const LEVEL_DISPLAY_ANIM_EMPTY: usize = 0;
pub const LEVEL_DISPLAY_ANIM_FOREST: usize = 1;
pub const LEVEL_DISPLAY_ANIM_FIRE: usize = 2;
pub const LEVEL_DISPLAY_ANIM_SKY: usize = 3;
pub const LEVEL_DISPLAY_ANIM_WATER: usize = 4;
pub const LEVEL_DISPLAY_ANIM_BOSS: usize = 5;
pub const LEVEL_DISPLAY_ANIM_SHOOTER: usize = 6;
pub const LEVEL_DISPLAY_ANIM_MELEE: usize = 7;

/// The animation of the stage selection frame corners.
pub const SELECTION_ANIM_FLASH: usize = 0;

// Positions of sprite sheets in the tileset table.

pub const SWORD_TILES: usize = 0;
pub const FLAMESWORD_TILES: usize = 1;
pub const DOUBLESWORD_TILES: usize = 2;
pub const STRONGSWORD_TILES: usize = 3;
pub const CHARGED_SHOT_TILES: usize = 4;

} // verus!
