//! Doors: they open when the player walks into them, and close and lock
//! behind a player who has walked through (unless opened with a key).
use vstd::prelude::*;

use crate::big_sprite::{clamp_coord, spec_anim_start, spec_anim_step, BigSprite};
use crate::entity::{coord_small, hitbox_small, spec_moved, spec_overlaps, div_trunc, Hitbox};
use crate::res::{self, MapType};

verus! {

/// Door thickness in pixels.
pub const WIDTH: i16 = 16;
/// Door length in pixels.
pub const LENGTH: i16 = 48;

#[derive(Clone, Copy, Debug, PartialEq, Eq, Structural)]
pub enum Orientation {
    Horizontal,
    Vertical,
}

/// Door properties read from the stage.
#[derive(Clone, Copy, Debug, PartialEq, Eq, Structural)]
pub struct DoorProperties {
    /// Unique id within the stage.
    pub id: u16,
    /// Whether the door has a keyhole.
    pub locked: bool,
    pub orientation: Orientation,
}

/// The sprite sheets of doors.
#[derive(Clone, Copy, Debug, PartialEq, Eq, Structural)]
pub enum DoorSheet {
    BlueH,
    BlueV,
    GreenH,
    GreenV,
    WhiteH,
    WhiteV,
    RedH,
    RedV,
}

pub struct Door {
    pub x: i16,
    pub y: i16,
    pub sprite: BigSprite,
    pub id: u16,
    pub locked: bool,
    pub orientation: Orientation,
    pub open: bool,
    /// The side the player entered an open door from.
    pub entry_side: Option<bool>,
}

/// The box of a door at (x, y).
pub open spec fn spec_door_hitbox(x: i16, y: i16, o: Orientation) -> Hitbox {
    match o {
        Orientation::Horizontal => Hitbox { x, y, w: LENGTH, h: WIDTH },
        Orientation::Vertical => Hitbox { x, y, w: WIDTH, h: LENGTH },
    }
}

/// Whether a player touching the door from its sides pushes it open.
pub open spec fn spec_pushes_open(player: Hitbox, door: Hitbox, o: Orientation) -> bool {
    match o {
        Orientation::Vertical => spec_overlaps(spec_moved(player, 1, 0), door) || spec_overlaps(spec_moved(player, -1, 0), door),
        Orientation::Horizontal => spec_overlaps(spec_moved(player, 0, 1), door) || spec_overlaps(spec_moved(player, 0, -1), door),
    }
}

/// Which side of the door the player's center is on.
pub open spec fn spec_side(player: Hitbox, door: Hitbox, o: Orientation) -> bool {
    match o {
        Orientation::Vertical => player.x + div_trunc(player.w as int, 2) > door.x + div_trunc(door.w as int, 2),
        Orientation::Horizontal => player.y + div_trunc(player.h as int, 2) > door.y + div_trunc(door.h as int, 2),
    }
}

/// The door's area grown by 16 pixels on every side.
pub open spec fn spec_near_area(door: Hitbox) -> Hitbox {
    Hitbox { x: (door.x - 16) as i16, y: (door.y - 16) as i16, w: (door.w + 32) as i16, h: (door.h + 32) as i16 }
}

/// Whether an open door locks behind the player: the player left the door on
/// the side opposite to where they entered and is still near, and the door was
/// not opened with a key.
pub open spec fn spec_locks_behind(d: Door, p: Hitbox, unlocked: bool) -> bool {
    match d.entry_side {
        Some(es) => {
            &&& !spec_overlaps(p, d.spec_hitbox())
            &&& !unlocked
            &&& spec_overlaps(p, spec_near_area(d.spec_hitbox()))
            &&& spec_side(p, d.spec_hitbox(), d.orientation) != es
        },
        None => false,
    }
}

/// One door tick from `d0` to `d1` with the player's box `player` (`active`
/// telling whether the player is active, `unlocked` whether the door was
/// opened with a key), `r` telling whether the door locked itself.
pub open spec fn door_tick(d0: Door, d1: Door, player: Hitbox, active: bool, unlocked: bool, r: bool) -> bool {
    &&& d1.wf()
    &&& d1.x == d0.x
    &&& d1.y == d0.y
    &&& d1.id == d0.id
    &&& d1.orientation == d0.orientation
    &&& d1.sprite.anims == d0.sprite.anims
    // The sprite changes only in its animation, which advances every tick.
    &&& d1.sprite == d0.sprite.with_anim(d1.sprite.animation_state)
    &&& !d0.open && d0.locked ==> d1.sprite.animation_state == spec_anim_step(d0.sprite.anims@, d0.sprite.animation_state)
    &&& !d0.open && !d0.locked && d0.sprite.animation_state.current_animation_id == res::DOOR_ANIM_OPENING
        ==> d1.sprite.animation_state == spec_anim_step(d0.sprite.anims@, d0.sprite.animation_state)
    &&& d0.open && !r ==> d1.sprite.animation_state == spec_anim_step(d0.sprite.anims@, d0.sprite.animation_state)
    &&& r ==> d1.locked && !d1.open && d1.entry_side is None
    &&& r ==> d1.sprite.animation_state == spec_anim_step(
        d0.sprite.anims@,
        spec_anim_start(d0.sprite.anims@, res::DOOR_ANIM_CLOSED as int),
    )
    // A locked closed door stays shut.
    &&& !d0.open && d0.locked ==> !r && d1.locked && !d1.open
    // A closed unlocked door finishes opening when its animation ends.
    &&& !d0.open && !d0.locked ==> !r && !d1.locked && d1.open == (
        d0.sprite.animation_state.current_animation_id == res::DOOR_ANIM_OPENING
        && !d0.sprite.anims@[res::DOOR_ANIM_OPENING as int].loops
        && d0.sprite.animation_state.frame_duration_remaining == 0)
    // It starts opening when the active player pushes against it.
    &&& !d0.open && !d0.locked && d0.sprite.animation_state.current_animation_id != res::DOOR_ANIM_OPENING
        ==> d1.sprite.animation_state == (if active && spec_pushes_open(player, d0.spec_hitbox(), d0.orientation) {
            spec_anim_step(d0.sprite.anims@, spec_anim_start(d0.sprite.anims@, res::DOOR_ANIM_OPENING as int))
        } else {
            spec_anim_step(d0.sprite.anims@, d0.sprite.animation_state)
        })
    // Open door: remember the entry side while the player is inside; lock
    // behind a player who came out on the other side (doors opened with a
    // key never lock again); forget the entry side once the player is away.
    &&& d0.open ==> (r <==> spec_locks_behind(d0, player, unlocked))
    &&& d0.open && !r ==> d1.open && d1.locked == d0.locked
    &&& d0.open && !r ==> d1.entry_side == (if spec_overlaps(player, d0.spec_hitbox()) {
        if d0.entry_side is None { Some(spec_side(player, d0.spec_hitbox(), d0.orientation)) } else { d0.entry_side }
    } else if d0.entry_side is Some && !unlocked && !spec_overlaps(player, spec_near_area(d0.spec_hitbox())) {
        None
    } else {
        d0.entry_side
    })
}

/// The sprite sheet of a door on a stage.
pub fn sprite_sheet(map_type: MapType, orientation: Orientation) -> (r: DoorSheet)
    ensures
        r == match (map_type, orientation) {
            (MapType::Arctic, Orientation::Horizontal) => DoorSheet::BlueH,
            (MapType::Arctic, Orientation::Vertical) => DoorSheet::BlueV,
            (MapType::Forest, Orientation::Horizontal) => DoorSheet::GreenH,
            (MapType::Forest, Orientation::Vertical) => DoorSheet::GreenV,
            (MapType::Spaceship, Orientation::Horizontal) => DoorSheet::WhiteH,
            (MapType::Spaceship, Orientation::Vertical) => DoorSheet::WhiteV,
            (_, Orientation::Horizontal) => DoorSheet::RedH,
            (_, Orientation::Vertical) => DoorSheet::RedV,
        },
{
    match (map_type, orientation) {
        (MapType::Arctic, Orientation::Horizontal) => DoorSheet::BlueH,
        (MapType::Arctic, Orientation::Vertical) => DoorSheet::BlueV,
        (MapType::Forest, Orientation::Horizontal) => DoorSheet::GreenH,
        (MapType::Forest, Orientation::Vertical) => DoorSheet::GreenV,
        (MapType::Spaceship, Orientation::Horizontal) => DoorSheet::WhiteH,
        (MapType::Spaceship, Orientation::Vertical) => DoorSheet::WhiteV,
        (_, Orientation::Horizontal) => DoorSheet::RedH,
        (_, Orientation::Vertical) => DoorSheet::RedV,
    }
}

impl Door {
    pub open spec fn wf(self) -> bool {
        &&& self.sprite.wf()
        &&& self.sprite.anims@.len() > res::DOOR_ANIM_OPEN
        &&& coord_small(self.x as int)
        &&& coord_small(self.y as int)
    }

    /// The door's area.
    pub open spec fn spec_hitbox(self) -> Hitbox {
        spec_door_hitbox(self.x, self.y, self.orientation)
    }

    /// A door centered on stage position (`map_x`, `map_y`), showing the open,
    /// keyhole or closed picture.
    pub fn new(
        map_x: i16,
        map_y: i16,
        properties: &DoorProperties,
        open: bool,
        locked: bool,
        sprite: BigSprite,
    ) -> (r: Door)
        requires
            coord_small(map_x + 128 - (if properties.orientation == Orientation::Horizontal { LENGTH / 2 } else { WIDTH / 2 })),
            coord_small(map_y + 128 - (if properties.orientation == Orientation::Horizontal { WIDTH / 2 } else { LENGTH / 2 })),
            sprite.wf(),
            sprite.anims@.len() > res::DOOR_ANIM_OPEN,
        ensures
            r.wf(),
            r.sprite == (BigSprite { x: clamp_coord(r.x, 448) as u16, y: clamp_coord(r.y, 352) as u16, ..sprite }).spec_set_animation(
                (if open { res::DOOR_ANIM_OPEN } else if properties.locked { res::DOOR_ANIM_CLOSED_KEYHOLE } else { res::DOOR_ANIM_CLOSED }),
            ),
            r.x == map_x + 128 - (if properties.orientation == Orientation::Horizontal { LENGTH / 2 } else { WIDTH / 2 }),
            r.y == map_y + 128 - (if properties.orientation == Orientation::Horizontal { WIDTH / 2 } else { LENGTH / 2 }),
            r.id == properties.id,
            r.locked == locked,
            r.open == open,
            r.orientation == properties.orientation,
            r.entry_side is None,
            r.sprite.animation_state == spec_anim_start(
                sprite.anims@,
                (if open { res::DOOR_ANIM_OPEN } else if properties.locked { res::DOOR_ANIM_CLOSED_KEYHOLE } else { res::DOOR_ANIM_CLOSED }) as int,
            ),
    {
        let mut sprite_x = map_x + 128;
        let mut sprite_y = map_y + 128;
        match properties.orientation {
            Orientation::Horizontal => {
                sprite_x = sprite_x - LENGTH / 2;
                sprite_y = sprite_y - WIDTH / 2;
            },
            Orientation::Vertical => {
                sprite_x = sprite_x - WIDTH / 2;
                sprite_y = sprite_y - LENGTH / 2;
            },
        }
        let mut sprite = sprite;
        sprite.set_position(sprite_x, sprite_y);
        let anim = if open {
            res::DOOR_ANIM_OPEN
        } else if properties.locked {
            res::DOOR_ANIM_CLOSED_KEYHOLE
        } else {
            res::DOOR_ANIM_CLOSED
        };
        sprite.set_animation(anim);
        Door {
            x: sprite_x,
            y: sprite_y,
            sprite,
            id: properties.id,
            locked,
            orientation: properties.orientation,
            open,
            entry_side: None,
        }
    }

    /// The door's area.
    pub fn hitbox(&self) -> (r: Hitbox)
        ensures
            r == self.spec_hitbox(),
    {
        match self.orientation {
            Orientation::Horizontal => Hitbox { x: self.x, y: self.y, w: LENGTH, h: WIDTH },
            Orientation::Vertical => Hitbox { x: self.x, y: self.y, w: WIDTH, h: LENGTH },
        }
    }

    /// Removes the lock.
    pub fn unlock(&mut self)
        ensures
            *final(self) == (Door { locked: false, ..*old(self) }),
    {
        self.locked = false;
    }

    /// Starts the opening animation (unless already playing).
    pub fn open(&mut self)
        requires
            old(self).wf(),
        ensures
            final(self).wf(),
            *final(self) == (Door { sprite: old(self).sprite.spec_maybe_set_animation(res::DOOR_ANIM_OPENING), ..*old(self) }),
            final(self).sprite.animation_state == (if old(self).sprite.animation_state.current_animation_id != res::DOOR_ANIM_OPENING {
                spec_anim_start(old(self).sprite.anims@, res::DOOR_ANIM_OPENING as int)
            } else {
                old(self).sprite.animation_state
            }),
    {
        self.sprite.maybe_set_animation(res::DOOR_ANIM_OPENING);
    }

    /// Shuts the door and locks it.
    pub fn close_and_lock(&mut self)
        requires
            old(self).wf(),
        ensures
            final(self).wf(),
            !final(self).open,
            final(self).locked,
            final(self).entry_side is None,
            final(self).sprite.animation_state == spec_anim_start(old(self).sprite.anims@, res::DOOR_ANIM_CLOSED as int),
            final(self).sprite == old(self).sprite.spec_set_animation(res::DOOR_ANIM_CLOSED),
            final(self).sprite.anims == old(self).sprite.anims,
            final(self).x == old(self).x,
            final(self).y == old(self).y,
            final(self).id == old(self).id,
            final(self).orientation == old(self).orientation,
    {
        self.open = false;
        self.locked = true;
        self.entry_side = None;
        self.sprite.set_animation(res::DOOR_ANIM_CLOSED);
    }

    /// Moves the door (and its sprite) to (x, y).
    pub fn set_position(&mut self, x: i16, y: i16)
        ensures
            *final(self) == (Door { x, y, sprite: old(self).sprite.spec_set_position(x, y), ..*old(self) }),
    {
        self.x = x;
        self.y = y;
        self.sprite.set_position(x, y);
    }

    /// Moves the door by (dx, dy).
    pub fn move_relative(&mut self, dx: i16, dy: i16)
        requires
            i16::MIN <= old(self).x + dx <= i16::MAX,
            i16::MIN <= old(self).y + dy <= i16::MAX,
        ensures
            *final(self) == (Door {
                x: (old(self).x + dx) as i16,
                y: (old(self).y + dy) as i16,
                sprite: old(self).sprite.spec_set_position((old(self).x + dx) as i16, (old(self).y + dy) as i16),
                ..*old(self)
            }),
    {
        self.set_position(self.x + dx, self.y + dy);
    }

    /// Runs a door tick with the player's box `player`; `active` tells
    /// whether the player is active (only an active player pushes a door
    /// open) and `unlocked` whether the door was opened with a key. Returns
    /// true when the door closed and locked itself behind the player (see
    /// `door_tick`).
    pub fn update(&mut self, player: Hitbox, active: bool, unlocked: bool) -> (r: bool)
        requires
            old(self).wf(),
            hitbox_small(player),
        ensures
            door_tick(*old(self), *final(self), player, active, unlocked, r),
    {
        let mut closed = false;
        if !self.open && !self.locked {
            if self.sprite.current_animation() == res::DOOR_ANIM_OPENING {
                if self.sprite.is_animation_finished() {
                    self.open = true;
                }
            } else if active {
                let player_hitbox = player;
                let hitbox = self.hitbox();
                let opens = match self.orientation {
                    Orientation::Vertical => {
                        player_hitbox.offset(1, 0).collides(&hitbox)
                            || player_hitbox.offset(-1, 0).collides(&hitbox)
                    },
                    Orientation::Horizontal => {
                        player_hitbox.offset(0, 1).collides(&hitbox)
                            || player_hitbox.offset(0, -1).collides(&hitbox)
                    },
                };
                if opens {
                    self.open();
                }
            }
        } else if self.open {
            {
                let player_hitbox = player;
                let hitbox = self.hitbox();
                let p_center = player_hitbox.center();
                let d_center = hitbox.center();
                let side = match self.orientation {
                    Orientation::Vertical => p_center.0 > d_center.0,
                    Orientation::Horizontal => p_center.1 > d_center.1,
                };
                if player_hitbox.collides(&hitbox) {
                    if self.entry_side.is_none() {
                        self.entry_side = Some(side);
                    }
                } else if let Some(entry_side) = self.entry_side {
                    if !unlocked {
                        let expanded = hitbox.expand(16);
                        if player_hitbox.collides(&expanded) {
                            if side != entry_side {
                                self.close_and_lock();
                                closed = true;
                            }
                        } else {
                            self.entry_side = None;
                        }
                    }
                }
            }
        }
        self.sprite.update();
        closed
    }
}

} // verus!
