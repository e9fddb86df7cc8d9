//! Switches: hitting one triggers its event once.
use vstd::prelude::*;

use crate::big_sprite::{clamp_coord, spec_anim_start, BigSprite};
use crate::entity::{coord_small, Hitbox};
use crate::res;

verus! {

/// Switch size in pixels.
pub const WIDTH: i16 = 16;
pub const HEIGHT: i16 = 16;

/// The events a switch can trigger.
#[derive(Clone, Copy, Debug, PartialEq, Eq, Structural)]
pub enum SwitchEvent {
    /// Kill every enemy on screen.
    RemoveEnemies,
    /// Unlock and open door 0.
    OpenDoor0,
}

/// Number of switch events.
pub const EVENT_COUNT: u16 = 2;

/// The event with the given id.
pub fn event_for(event_id: u16) -> (r: SwitchEvent)
    requires
        event_id < EVENT_COUNT,
    ensures
        r == (if event_id == 0 { SwitchEvent::RemoveEnemies } else { SwitchEvent::OpenDoor0 }),
{
    if event_id == 0 {
        SwitchEvent::RemoveEnemies
    } else {
        SwitchEvent::OpenDoor0
    }
}

/// Switch properties read from the stage.
#[derive(Clone, Copy, Debug, PartialEq, Eq, Structural)]
pub struct SwitchProperties {
    /// Unique id within the stage.
    pub id: u16,
    /// The event the switch triggers.
    pub event_id: u16,
}

pub struct Switch {
    pub x: i16,
    pub y: i16,
    pub sprite: BigSprite,
    pub id: u16,
    /// The event that triggers when this switch is hit.
    pub event_id: u16,
    /// The switch was hit but its event has not run yet.
    pub pending: bool,
}

impl Switch {
    pub open spec fn wf(self) -> bool {
        &&& self.sprite.wf()
        &&& self.sprite.anims@.len() > res::SWITCH_ANIM_ON
        &&& self.event_id < EVENT_COUNT
        &&& coord_small(self.x as int)
        &&& coord_small(self.y as int)
    }

    /// A switch centered on stage position (`map_x`, `map_y`), on when its event already ran.
    pub fn new(
        map_x: i16,
        map_y: i16,
        properties: &SwitchProperties,
        event_completed: bool,
        sprite: BigSprite,
    ) -> (r: Switch)
        requires
            coord_small(map_x + 128 - WIDTH / 2),
            coord_small(map_y + 128 - HEIGHT / 2),
            properties.event_id < EVENT_COUNT,
            sprite.wf(),
            sprite.anims@.len() > res::SWITCH_ANIM_ON,
        ensures
            r.wf(),
            r.sprite == (BigSprite { x: clamp_coord(r.x, 448) as u16, y: clamp_coord(r.y, 352) as u16, ..sprite }).spec_set_animation(
                (if event_completed { res::SWITCH_ANIM_ON } else { res::SWITCH_ANIM_OFF }),
            ),
            r.x == map_x + 128 - WIDTH / 2,
            r.y == map_y + 128 - HEIGHT / 2,
            r.id == properties.id,
            r.event_id == properties.event_id,
            !r.pending,
            r.sprite.animation_state == spec_anim_start(
                sprite.anims@,
                (if event_completed { res::SWITCH_ANIM_ON } else { res::SWITCH_ANIM_OFF }) as int,
            ),
    {
        let sprite_x = map_x + 128 - WIDTH / 2;
        let sprite_y = map_y + 128 - HEIGHT / 2;
        let mut sprite = sprite;
        sprite.set_position(sprite_x, sprite_y);
        sprite.set_animation(if event_completed { res::SWITCH_ANIM_ON } else { res::SWITCH_ANIM_OFF });
        Switch { x: sprite_x, y: sprite_y, sprite, id: properties.id, event_id: properties.event_id, pending: false }
    }

    /// The switch's area.
    pub fn hitbox(&self) -> (r: Hitbox)
        ensures
            r == (Hitbox { x: self.x, y: self.y, w: WIDTH, h: HEIGHT }),
    {
        Hitbox { x: self.x, y: self.y, w: WIDTH, h: HEIGHT }
    }

    /// Runs the pending event, if any: clears the pending flag, switches the
    /// picture on and returns the event to run.
    pub fn trigger(&mut self) -> (r: Option<SwitchEvent>)
        requires
            old(self).wf(),
        ensures
            final(self).wf(),
            !final(self).pending,
            old(self).pending ==> r == Some(if old(self).event_id == 0 { SwitchEvent::RemoveEnemies } else { SwitchEvent::OpenDoor0 }),
            !old(self).pending ==> r is None && *final(self) == *old(self),
            old(self).pending ==> *final(self) == (Switch {
                pending: false,
                sprite: old(self).sprite.spec_maybe_set_animation(res::SWITCH_ANIM_ON),
                ..*old(self)
            }),
            old(self).pending ==> final(self).sprite.animation_state == (if old(self).sprite.animation_state.current_animation_id != res::SWITCH_ANIM_ON {
                spec_anim_start(old(self).sprite.anims@, res::SWITCH_ANIM_ON as int)
            } else {
                old(self).sprite.animation_state
            }),
            final(self).x == old(self).x,
            final(self).y == old(self).y,
            final(self).id == old(self).id,
            final(self).event_id == old(self).event_id,
    {
        if !self.pending {
            return None;
        }
        self.pending = false;
        let e = event_for(self.event_id);
        self.sprite.maybe_set_animation(res::SWITCH_ANIM_ON);
        Some(e)
    }

    /// Moves the switch (and its sprite) to (x, y).
    pub fn set_position(&mut self, x: i16, y: i16)
        ensures
            *final(self) == (Switch { x, y, sprite: old(self).sprite.spec_set_position(x, y), ..*old(self) }),
    {
        self.x = x;
        self.y = y;
        self.sprite.set_position(x, y);
    }

    /// Moves the switch by (dx, dy).
    pub fn move_relative(&mut self, dx: i16, dy: i16)
        requires
            i16::MIN <= old(self).x + dx <= i16::MAX,
            i16::MIN <= old(self).y + dy <= i16::MAX,
        ensures
            *final(self) == (Switch {
                x: (old(self).x + dx) as i16,
                y: (old(self).y + dy) as i16,
                sprite: old(self).sprite.spec_set_position((old(self).x + dx) as i16, (old(self).y + dy) as i16),
                ..*old(self)
            }),
    {
        self.set_position(self.x + dx, self.y + dy);
    }
}

} // verus!
