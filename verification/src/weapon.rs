//! Weapons: which character wields them, their limits and the geometry of melee slashes.
use vstd::prelude::*;

use crate::entity::Hitbox;
use crate::player::PlayerType;
use crate::res;

verus! {

#[derive(Clone, Copy, Debug, PartialEq, Eq, Structural)]
pub enum WeaponType {
    /// Basic gun.
    Gun,
    /// Basic sword.
    Sword,
    /// Shoots 3 projectiles.
    ThreeGun,
    /// Gun that deals double damage but can only be used a limited amount of times.
    StrongGun,
    /// Shoots a fireball on slashes.
    FlameSword,
    /// Sword that deals more damage but also damages the player.
    DoubleEdgedSword,
    /// Sword that deals more damage but can only be used a limited amount of times.
    StrongSword,
}

/// The weapons unlocked by default on starting a level, in menu order.
pub open spec fn spec_default_weapons() -> Seq<WeaponType> {
    seq![
        WeaponType::Gun,
        WeaponType::Sword,
        WeaponType::ThreeGun,
        WeaponType::StrongGun,
        WeaponType::FlameSword,
        WeaponType::DoubleEdgedSword,
        WeaponType::StrongSword,
    ]
}

/// The weapons unlocked by default on starting a level, in menu order.
pub fn default_weapons() -> (r: Vec<WeaponType>)
    ensures
        r@ == spec_default_weapons(),
{
    vec![
        WeaponType::Gun,
        WeaponType::Sword,
        WeaponType::ThreeGun,
        WeaponType::StrongGun,
        WeaponType::FlameSword,
        WeaponType::DoubleEdgedSword,
        WeaponType::StrongSword,
    ]
}

pub open spec fn spec_weapon_player_type(w: WeaponType) -> PlayerType {
    match w {
        WeaponType::Gun | WeaponType::ThreeGun | WeaponType::StrongGun => PlayerType::Shooter,
        _ => PlayerType::Melee,
    }
}

pub open spec fn spec_max_uses(w: WeaponType) -> Option<i16> {
    match w {
        WeaponType::StrongSword => Some(3i16),
        WeaponType::StrongGun => Some(3i16),
        _ => None,
    }
}

/// What happens when the player starts an attack with a weapon.
#[derive(Clone, Copy, Debug, PartialEq, Eq, Structural)]
pub enum AttackEffect {
    /// Nothing beyond the attack itself.
    Nothing,
    /// A single shot whose strength depends on how long it was charged.
    Shot,
    /// A fireball.
    Fireball,
    /// A charged shot of damage 2.
    StrongShot,
    /// Three shots fanning out.
    TripleShot,
}

/// What happens to an enemy hit by a melee weapon.
#[derive(Clone, Copy, Debug, PartialEq, Eq, Structural)]
pub enum MeleeHitEffect {
    /// The enemy takes 2 damage.
    Basic,
    /// The enemy takes 3 damage.
    Strong,
    /// The enemy takes 3 damage and the player takes 3 damage too.
    DoubleEdged,
}

/// Raw (not mirrored) offset of a melee weapon sprite for a slash frame.
pub open spec fn spec_melee_offset_raw(strong: bool, frame: int) -> (int, int) {
    if strong {
        if frame == 0 { (-38, -74) }
        else if frame == 2 { (-51, -31) }
        else if frame == 3 { (-11, -70) }
        else if frame == 4 { (19, -61) }
        else if 5 <= frame <= 7 { (19, -58) }
        else { (0, 0) }
    } else {
        if frame == 0 || frame == 1 { (-32, -51) }
        else if frame == 2 { (-40, -36) }
        else if frame == 3 { (-3, -51) }
        else if frame == 4 { (20, -38) }
        else if 5 <= frame <= 7 { (18, -36) }
        else { (0, 0) }
    }
}

/// The tileset of a melee weapon's sprite; `None` for guns.
pub open spec fn spec_tiles_idx(w: WeaponType) -> Option<usize> {
    match w {
        WeaponType::Sword => Some(res::SWORD_TILES),
        WeaponType::FlameSword => Some(res::FLAMESWORD_TILES),
        WeaponType::DoubleEdgedSword => Some(res::DOUBLESWORD_TILES),
        WeaponType::StrongSword => Some(res::STRONGSWORD_TILES),
        _ => None,
    }
}

/// Offset of a melee weapon sprite, mirrored when the player faces left.
pub open spec fn spec_melee_offset(w: WeaponType, frame: int, flip_h: bool) -> (int, int) {
    let strong = w == WeaponType::StrongSword;
    let raw = spec_melee_offset_raw(strong, frame);
    if flip_h {
        (-40 - raw.0 - (if strong { 20int } else { 24int }), raw.1)
    } else {
        raw
    }
}

/// Damaging area of a melee slash frame relative to the player's center (not mirrored).
pub open spec fn spec_melee_hurtbox_raw(strong: bool, frame: int) -> Hitbox {
    if strong {
        if frame == 3 { Hitbox { x: -8i16, y: -76i16, w: 69i16, h: 60i16 } }
        else if frame == 4 { Hitbox { x: 23i16, y: -60i16, w: 54i16, h: 72i16 } }
        else { Hitbox { x: 24i16, y: 4i16, w: 54i16, h: 11i16 } }
    } else {
        if frame == 3 { Hitbox { x: -4i16, y: -52i16, w: 46i16, h: 40i16 } }
        else if frame == 4 { Hitbox { x: 23i16, y: -36i16, w: 36i16, h: 48i16 } }
        else { Hitbox { x: 23i16, y: 5i16, w: 36i16, h: 7i16 } }
    }
}

/// Damaging area of a melee slash frame; only frames 3 to 7 hurt.
pub open spec fn spec_melee_hurtbox(w: WeaponType, frame: int, flip_h: bool) -> Option<Hitbox> {
    if frame < 3 || frame > 7 {
        None
    } else {
        let raw = spec_melee_hurtbox_raw(w == WeaponType::StrongSword, frame);
        if flip_h {
            Some(Hitbox { x: (-raw.x - raw.w) as i16, ..raw })
        } else {
            Some(raw)
        }
    }
}

impl WeaponType {
    /// The name shown in the inventory menu.
    pub fn display_name(&self) -> (r: &'static str)
        ensures
            *self == WeaponType::Gun ==> r@ == "Gun"@,
            *self == WeaponType::Sword ==> r@ == "Sword"@,
            *self == WeaponType::ThreeGun ==> r@ == "3-Gun"@,
            *self == WeaponType::StrongGun ==> r@ == "StrngGun"@,
            *self == WeaponType::FlameSword ==> r@ == "FlameSword"@,
            *self == WeaponType::DoubleEdgedSword ==> r@ == "2-Edge Sword"@,
            *self == WeaponType::StrongSword ==> r@ == "StrngSword"@,
    {
        match self {
            WeaponType::Gun => "Gun",
            WeaponType::Sword => "Sword",
            WeaponType::ThreeGun => "3-Gun",
            WeaponType::StrongGun => "StrngGun",
            WeaponType::FlameSword => "FlameSword",
            WeaponType::DoubleEdgedSword => "2-Edge Sword",
            WeaponType::StrongSword => "StrngSword",
        }
    }

    /// The character type that can wield this weapon.
    pub fn player_type(&self) -> (r: PlayerType)
        ensures
            r == spec_weapon_player_type(*self),
    {
        match self {
            WeaponType::Gun | WeaponType::ThreeGun | WeaponType::StrongGun => PlayerType::Shooter,
            WeaponType::Sword
            | WeaponType::FlameSword
            | WeaponType::DoubleEdgedSword
            | WeaponType::StrongSword => PlayerType::Melee,
        }
    }

    /// The tileset of the weapon's sprite, for the weapons that have one.
    pub fn tiles_idx(&self) -> (r: Option<usize>)
        ensures
            r == spec_tiles_idx(*self),
    {
        match self {
            WeaponType::Sword => Some(res::SWORD_TILES),
            WeaponType::FlameSword => Some(res::FLAMESWORD_TILES),
            WeaponType::DoubleEdgedSword => Some(res::DOUBLESWORD_TILES),
            WeaponType::StrongSword => Some(res::STRONGSWORD_TILES),
            _ => None,
        }
    }

    /// The maximum number of uses, `None` when unlimited.
    pub fn max_uses(&self) -> (r: Option<i16>)
        ensures
            r == spec_max_uses(*self),
    {
        match self {
            WeaponType::StrongSword => Some(3),
            WeaponType::StrongGun => Some(3),
            _ => None,
        }
    }

    /// What starting an attack with this weapon does.
    pub fn on_attack(&self) -> (r: AttackEffect)
        ensures
            r == match *self {
                WeaponType::Gun => AttackEffect::Shot,
                WeaponType::FlameSword => AttackEffect::Fireball,
                WeaponType::StrongGun => AttackEffect::StrongShot,
                WeaponType::ThreeGun => AttackEffect::TripleShot,
                _ => AttackEffect::Nothing,
            },
    {
        match self {
            WeaponType::Gun => AttackEffect::Shot,
            WeaponType::FlameSword => AttackEffect::Fireball,
            WeaponType::StrongGun => AttackEffect::StrongShot,
            WeaponType::ThreeGun => AttackEffect::TripleShot,
            _ => AttackEffect::Nothing,
        }
    }

    /// What hitting an enemy with this weapon does.
    pub fn on_melee_hit(&self) -> (r: MeleeHitEffect)
        ensures
            r == match *self {
                WeaponType::DoubleEdgedSword => MeleeHitEffect::DoubleEdged,
                WeaponType::StrongSword => MeleeHitEffect::Strong,
                _ => MeleeHitEffect::Basic,
            },
    {
        match self {
            WeaponType::DoubleEdgedSword => MeleeHitEffect::DoubleEdged,
            WeaponType::StrongSword => MeleeHitEffect::Strong,
            _ => MeleeHitEffect::Basic,
        }
    }

    /// Offset of the melee weapon sprite for a given slash frame.
    pub fn melee_offset(&self, frame: usize, flip_h: bool) -> (r: (i16, i16))
        ensures
            r.0 == spec_melee_offset(*self, frame as int, flip_h).0,
            r.1 == spec_melee_offset(*self, frame as int, flip_h).1,
    {
        let strong = *self == WeaponType::StrongSword;
        let (mut dx, dy): (i16, i16) = if strong {
            match frame {
                0 => (-38, -74),
                2 => (-51, -31),
                3 => (-11, -70),
                4 => (19, -61),
                5 | 6 | 7 => (19, -58),
                _ => (0, 0),
            }
        } else {
            match frame {
                0 | 1 => (-32, -51),
                2 => (-40, -36),
                3 => (-3, -51),
                4 => (20, -38),
                5 | 6 | 7 => (18, -36),
                _ => (0, 0),
            }
        };
        if flip_h {
            dx = -40 - dx;
            if strong {
                dx = dx - 20;
            } else {
                dx = dx - 24;
            }
        }
        (dx, dy)
    }

    /// The damaging area of the melee weapon for a slash frame, relative to the
    /// player's center; `None` on frames that do not hurt.
    pub fn melee_hurtbox(&self, frame: usize, flip_h: bool) -> (r: Option<Hitbox>)
        ensures
            r == spec_melee_hurtbox(*self, frame as int, flip_h),
    {
        if frame < 3 || frame > 7 {
            return None;
        }
        let strong = *self == WeaponType::StrongSword;
        let mut hurtbox = if strong {
            match frame {
                3 => Hitbox { x: -8, y: -76, w: 69, h: 60 },
                4 => Hitbox { x: 23, y: -60, w: 54, h: 72 },
                _ => Hitbox { x: 24, y: 4, w: 54, h: 11 },
            }
        } else {
            match frame {
                3 => Hitbox { x: -4, y: -52, w: 46, h: 40 },
                4 => Hitbox { x: 23, y: -36, w: 36, h: 48 },
                _ => Hitbox { x: 23, y: 5, w: 36, h: 7 },
            }
        };
        if flip_h {
            hurtbox.x = -hurtbox.x - hurtbox.w;
        }
        Some(hurtbox)
    }
}

/// Damage of a gun shot charged for `charge` frames.
pub fn gun_shot_damage(charge: u16) -> (r: u16)
    ensures
        r == (if charge >= 75 { 3int } else if charge >= 30 { 2int } else { 1int }),
{
    if charge >= 75 {
        3
    } else if charge >= 30 {
        2
    } else {
        1
    }
}

/// Damage dealt to an enemy by a melee hit.
pub fn melee_hit_damage(effect: MeleeHitEffect) -> (r: u16)
    ensures
        r == (if effect == MeleeHitEffect::Basic { 2int } else { 3int }),
{
    match effect {
        MeleeHitEffect::Basic => 2,
        _ => 3,
    }
}

/// Width of the player sprite in pixels.
pub const PLAYER_SPRITE_WIDTH: i16 = 40;

/// Offset of the player's projectile spawn point from the player's sprite corner.
pub fn projectile_weapon_offset(flip_h: bool) -> (r: (i16, i16))
    ensures
        r == (if flip_h { (-2i16, 14i16) } else { (26i16, 14i16) }),
{
    let projectile_size: i16 = 16;
    let hand_x_right: i16 = 34;
    let hand_y: i16 = 22;
    let hand_x = if flip_h {
        PLAYER_SPRITE_WIDTH - hand_x_right
    } else {
        hand_x_right
    };
    (hand_x - projectile_size / 2, hand_y - projectile_size / 2)
}

} // verus!
