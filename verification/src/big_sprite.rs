//! Multi-tile sprites made of several hardware sprites, with frame animation.
use vstd::prelude::*;

use crate::resource_state::{State, TileSlice};
use crate::vdp::{spec_apply_flags, spec_size_h, spec_size_w, Renderer, Sprite, Vdp};

verus! {

/// One animation frame.
#[derive(Clone, Copy, Debug, PartialEq, Eq, Structural)]
pub struct Frame {
    /// Offset within the tileset.
    pub tile_offs: u16,
    /// How many screen refreshes the frame stays on screen.
    pub duration: u32,
}

/// A sequence of frames.
#[derive(Debug)]
pub struct Animation {
    pub loops: bool,
    pub frames: Vec<Frame>,
}

/// Progress through the current animation.
#[derive(Clone, Copy, Debug, PartialEq, Eq, Structural)]
pub struct AnimState {
    /// Index of the current animation.
    pub current_animation_id: usize,
    /// Frame index within the current animation.
    pub frame_index: usize,
    /// How much longer the current frame stays on screen; 0 once the animation has finished.
    pub frame_duration_remaining: u32,
}

/// Every animation has at least one frame.
pub open spec fn anims_wf(anims: Seq<Animation>) -> bool {
    forall|i: int| 0 <= i < anims.len() ==> (#[trigger] anims[i]).frames@.len() > 0
}

/// The state at the start of animation `id`.
pub open spec fn spec_anim_start(anims: Seq<Animation>, id: int) -> AnimState {
    AnimState {
        current_animation_id: id as usize,
        frame_index: 0,
        frame_duration_remaining: anims[id].frames@[0].duration,
    }
}

/// One refresh of animation progress.
pub open spec fn spec_anim_step(anims: Seq<Animation>, s: AnimState) -> AnimState {
    if anims.len() == 0 || s.frame_duration_remaining == 0 {
        s
    } else if s.frame_duration_remaining > 1 {
        AnimState { frame_duration_remaining: (s.frame_duration_remaining - 1) as u32, ..s }
    } else {
        let anim = anims[s.current_animation_id as int];
        let n = anim.frames@.len();
        if s.frame_index + 1 < n {
            AnimState {
                frame_index: (s.frame_index + 1) as usize,
                frame_duration_remaining: anim.frames@[s.frame_index + 1].duration,
                ..s
            }
        } else if anim.loops {
            AnimState { frame_index: 0, frame_duration_remaining: anim.frames@[0].duration, ..s }
        } else {
            AnimState { frame_index: (n - 1) as usize, frame_duration_remaining: 0, ..s }
        }
    }
}

impl AnimState {
    /// The state at the start of the first animation (all zero without animations).
    pub fn new(anims: &[Animation]) -> (r: AnimState)
        requires
            anims@.len() > 0 ==> anims@[0].frames@.len() > 0,
        ensures
            anims@.len() == 0 ==> r == (AnimState { current_animation_id: 0, frame_index: 0, frame_duration_remaining: 0 }),
            anims@.len() > 0 ==> r == spec_anim_start(anims@, 0),
    {
        let frame_duration_remaining = if anims.len() == 0 {
            0
        } else {
            anims[0].frames[0].duration
        };
        AnimState { current_animation_id: 0, frame_duration_remaining, frame_index: 0 }
    }
}

/// A sprite made of hardware sprites sharing a block of VRAM tiles.
pub struct BigSprite {
    /// The start of the sprite's tiles in VRAM.
    pub vram_start_tile: u16,
    /// The sprite's tileset.
    pub tiles_idx: usize,
    /// The hardware sprites, positioned relative to the sprite's corner.
    pub sprites: Vec<Sprite>,
    pub anims: Vec<Animation>,
    pub animation_state: AnimState,
    /// Width and height in tiles.
    pub w: u16,
    pub h: u16,
    pub x: u16,
    pub y: u16,
    pub flip_v: bool,
    pub flip_h: bool,
    pub priority: bool,
    /// Whether only one instance is on screen at a time; then only the frame
    /// currently shown is loaded into VRAM.
    pub singleton: bool,
    pub singleton_tile_offs: u16,
    /// Added to the frame's tile offset when rendering, to swap graphics while
    /// keeping the animation state.
    pub tileset_shift: u16,
}

/// A hardware sprite of a big sprite, placed on screen.
pub open spec fn spec_place(b: BigSprite, s: Sprite, animation_offs: u16) -> Sprite {
    let x = if b.flip_h { b.w * 8 - s.x - spec_size_w(s.size) * 8 } else { s.x as int };
    let y = if b.flip_v { b.h * 8 - s.y - spec_size_h(s.size) * 8 } else { s.y as int };
    Sprite {
        x: (x + b.x) as u16,
        y: (y + b.y) as u16,
        flags: crate::vdp::TileFlags(
            spec_apply_flags(
                s.flags.0,
                ((s.flags.0 & 0x7FFu16) + b.vram_start_tile + animation_offs) as u16,
                b.flip_v,
                b.flip_h,
                b.priority,
            ),
        ),
        ..s
    }
}

/// Placing the hardware sprite does not overflow.
pub open spec fn spec_place_ok(b: BigSprite, s: Sprite, animation_offs: u16) -> bool {
    let x = if b.flip_h { b.w * 8 - s.x - spec_size_w(s.size) * 8 } else { s.x as int };
    let y = if b.flip_v { b.h * 8 - s.y - spec_size_h(s.size) * 8 } else { s.y as int };
    &&& b.w * 8 <= u16::MAX
    &&& b.h * 8 <= u16::MAX
    &&& 0 <= x
    &&& x + b.x <= u16::MAX
    &&& 0 <= y
    &&& y + b.y <= u16::MAX
    &&& (s.flags.0 & 0x7FFu16) + b.vram_start_tile + animation_offs <= u16::MAX
}

impl BigSprite {
    /// The animation table is well formed and the animation state points into it.
    pub open spec fn wf(self) -> bool {
        &&& anims_wf(self.anims@)
        &&& self.anims@.len() > 0 ==> {
            &&& self.animation_state.current_animation_id < self.anims@.len()
            &&& self.animation_state.frame_index < self.anims@[self.animation_state.current_animation_id as int].frames@.len()
        }
    }

    /// The sprite with its animation state replaced.
    pub open spec fn with_anim(self, s: AnimState) -> BigSprite {
        BigSprite { animation_state: s, ..self }
    }

    /// The sprite after `set_animation(id)`.
    pub open spec fn spec_set_animation(self, id: usize) -> BigSprite {
        if id < self.anims@.len() { self.with_anim(spec_anim_start(self.anims@, id as int)) } else { self }
    }

    /// The sprite after `maybe_set_animation(id)`.
    pub open spec fn spec_maybe_set_animation(self, id: usize) -> BigSprite {
        if self.animation_state.current_animation_id != id { self.spec_set_animation(id) } else { self }
    }

    /// The sprite after one `update`.
    pub open spec fn spec_update(self) -> BigSprite {
        self.with_anim(spec_anim_step(self.anims@, self.animation_state))
    }

    /// The sprite after `set_position(x, y)`.
    pub open spec fn spec_set_position(self, x: i16, y: i16) -> BigSprite {
        BigSprite { x: clamp_coord(x, 448) as u16, y: clamp_coord(y, 352) as u16, ..self }
    }

    /// Whether a non-looping animation has played to its end.
    pub open spec fn spec_animation_finished(self) -> bool {
        !self.anims@[self.animation_state.current_animation_id as int].loops
            && self.animation_state.frame_duration_remaining == 0
    }

    /// Loads the sprite's tiles (only its first `w * h` tiles for a singleton)
    /// and builds it at (0, 0) showing the first animation.
    pub fn new(
        res_state: &mut State,
        vdp: &mut Vdp,
        tiles_idx: usize,
        w: u16,
        h: u16,
        sprites: Vec<Sprite>,
        anims: Vec<Animation>,
        singleton: bool,
        keep_loaded: bool,
    ) -> (r: BigSprite)
        requires
            old(res_state).wf(),
            tiles_idx < old(res_state).spec_count(),
            w * h <= u16::MAX,
            anims@.len() > 0 ==> anims@[0].frames@.len() > 0,
            old(res_state).spec_start(tiles_idx as int) > 0 ==> !(keep_loaded && old(res_state).spec_evictable(tiles_idx as int)),
            old(res_state).spec_start(tiles_idx as int) == 0 ==> {
                let n = if singleton { w * h } else { old(res_state).spec_tiles(tiles_idx as int).len() as int };
                &&& (keep_loaded ==> old(res_state).spec_next() == old(res_state).spec_first_evictable())
                &&& (singleton ==> w * h <= old(res_state).spec_tiles(tiles_idx as int).len())
                &&& n < u16::MAX
                &&& old(res_state).spec_next() + n <= u16::MAX
            },
        ensures
            final(res_state).wf(),
            anims_wf(anims@) ==> r.wf(),
            r.vram_start_tile == (if old(res_state).spec_start(tiles_idx as int) > 0 {
                old(res_state).spec_start(tiles_idx as int)
            } else {
                old(res_state).spec_next()
            }),
            final(res_state).spec_start(tiles_idx as int) == r.vram_start_tile,
            final(res_state).spec_count() == old(res_state).spec_count(),
            r.tiles_idx == tiles_idx,
            r.w == w,
            r.h == h,
            r.sprites@ == sprites@,
            r.anims@ == anims@,
            anims@.len() > 0 ==> r.animation_state == spec_anim_start(anims@, 0),
            anims@.len() == 0 ==> r.animation_state == (AnimState { current_animation_id: 0, frame_index: 0, frame_duration_remaining: 0 }),
            r.animation_state.current_animation_id == 0,
            r.x == 0,
            r.y == 0,
            !r.flip_v,
            !r.flip_h,
            !r.priority,
            r.singleton == singleton,
            r.singleton_tile_offs == u16::MAX,
            r.tileset_shift == 0,
    {
        let subset_config = if singleton {
            Some(TileSlice { start: 0, len: (w * h) as usize })
        } else {
            None
        };
        let vram_start_tile = res_state.load_tiles_to_vram(vdp, tiles_idx, keep_loaded, subset_config);
        let animation_state = AnimState::new(anims.as_slice());
        BigSprite {
            vram_start_tile,
            tiles_idx,
            w,
            h,
            sprites,
            anims,
            animation_state,
            x: 0,
            y: 0,
            flip_v: false,
            flip_h: false,
            priority: false,
            singleton,
            singleton_tile_offs: u16::MAX,
            tileset_shift: 0,
        }
    }

    /// The index of the current animation.
    pub fn current_animation(&self) -> (r: usize)
        ensures
            r == self.animation_state.current_animation_id,
    {
        self.animation_state.current_animation_id
    }

    /// The first VRAM tile of the sprite's loaded tiles.
    pub fn vram_start_tile(&self) -> (r: u16)
        ensures
            r == self.vram_start_tile,
    {
        self.vram_start_tile
    }

    /// The sprite's size in tiles.
    pub fn tile_dimensions(&self) -> (r: (u16, u16))
        ensures
            r == (self.w, self.h),
    {
        (self.w, self.h)
    }

    /// The current frame index.
    pub fn current_frame_index(&self) -> (r: usize)
        ensures
            r == self.animation_state.frame_index,
    {
        self.animation_state.frame_index
    }

    /// The frame index that will be shown after the next update (before wrapping).
    pub fn next_frame(&self) -> (r: usize)
        requires
            self.animation_state.frame_index < usize::MAX,
        ensures
            r == (if self.animation_state.frame_duration_remaining == 1 {
                self.animation_state.frame_index + 1
            } else {
                self.animation_state.frame_index as int
            }),
    {
        let s = &self.animation_state;
        if s.frame_duration_remaining == 1 {
            return s.frame_index + 1;
        }
        s.frame_index
    }

    /// Whether a non-looping animation has played to its end.
    pub fn is_animation_finished(&self) -> (r: bool)
        requires
            self.wf(),
            self.anims@.len() > 0,
        ensures
            r == (!self.anims@[self.animation_state.current_animation_id as int].loops
                && self.animation_state.frame_duration_remaining == 0),
    {
        let s = &self.animation_state;
        let anim = &self.anims[s.current_animation_id];
        !anim.loops && s.frame_duration_remaining == 0
    }

    /// Starts animation `id` unless it is already playing.
    pub fn maybe_set_animation(&mut self, id: usize)
        requires
            old(self).wf(),
        ensures
            final(self).wf(),
            *final(self) == (if old(self).animation_state.current_animation_id != id && id < old(self).anims@.len() {
                old(self).with_anim(spec_anim_start(old(self).anims@, id as int))
            } else {
                *old(self)
            }),
    {
        if self.animation_state.current_animation_id != id {
            self.set_animation(id);
        }
    }

    /// Restarts the sprite on animation `id`; ids past the table are ignored.
    pub fn set_animation(&mut self, id: usize)
        requires
            old(self).wf(),
        ensures
            final(self).wf(),
            *final(self) == (if id < old(self).anims@.len() {
                old(self).with_anim(spec_anim_start(old(self).anims@, id as int))
            } else {
                *old(self)
            }),
    {
        if id >= self.anims.len() {
            return;
        }
        let d = self.anims[id].frames[0].duration;
        self.animation_state = AnimState {
            current_animation_id: id,
            frame_duration_remaining: d,
            frame_index: 0,
        };
    }

    /// Sets the position, clamped to the hardware sprite range so that
    /// out-of-bounds sprites do not wrap around.
    pub fn set_position(&mut self, x: i16, y: i16)
        ensures
            *final(self) == (BigSprite { x: clamp_coord(x, 448) as u16, y: clamp_coord(y, 352) as u16, ..*old(self) }),
    {
        self.y = if y < 0 {
            0
        } else if y > 224 + 128 {
            224 + 128
        } else {
            y as u16
        };
        self.x = if x < 0 {
            0
        } else if x > 320 + 128 {
            320 + 128
        } else {
            x as u16
        };
    }

    /// Advances the animation by one refresh.
    pub fn update(&mut self)
        requires
            old(self).wf(),
        ensures
            final(self).wf(),
            *final(self) == old(self).with_anim(spec_anim_step(old(self).anims@, old(self).animation_state)),
    {
        if self.anims.len() == 0 {
            return;
        }
        let s = self.animation_state;
        if s.frame_duration_remaining == 0 {
            return;
        }
        let mut next = s;
        next.frame_duration_remaining = s.frame_duration_remaining - 1;
        if next.frame_duration_remaining == 0 {
            let n = self.anims[s.current_animation_id].frames.len();
            if s.frame_index + 1 < n {
                next.frame_index = s.frame_index + 1;
            } else if self.anims[s.current_animation_id].loops {
                next.frame_index = 0;
            } else {
                next.frame_index = n - 1;
                self.animation_state = next;
                return;
            }
            next.frame_duration_remaining = self.anims[s.current_animation_id].frames[next.frame_index].duration;
        }
        self.animation_state = next;
    }

    /// The tile offset of the frame currently shown (plus the tileset shift).
    pub open spec fn spec_frame_offs(self) -> int {
        self.anims@[self.animation_state.current_animation_id as int].frames@[self.animation_state.frame_index as int].tile_offs
            + self.tileset_shift
    }

    /// The offset added to hardware sprite tiles when rendering.
    pub open spec fn spec_animation_offs(self) -> u16 {
        if self.anims@.len() == 0 || self.singleton { 0 } else { self.spec_frame_offs() as u16 }
    }

    /// Adds the sprite's hardware sprites to the renderer. For a singleton, the
    /// tiles of the frame shown are loaded first when the frame changed.
    pub fn render(&mut self, res_state: &State, vdp: &mut Vdp, renderer: &mut Renderer)
        requires
            old(self).wf(),
            old(renderer).wf(),
            old(renderer).num_sprites + old(self).sprites@.len() <= crate::vdp::MAX_SPRITES,
            old(self).anims@.len() > 0 ==> old(self).spec_frame_offs() <= u16::MAX,
            old(self).anims@.len() > 0 && old(self).singleton ==> {
                &&& old(self).tiles_idx < res_state.spec_count()
                &&& res_state.spec_start(old(self).tiles_idx as int) > 0
                &&& old(self).w * old(self).h <= u16::MAX
                &&& old(self).spec_frame_offs() + old(self).w * old(self).h <= res_state.spec_tiles(old(self).tiles_idx as int).len()
            },
            forall|i: int| 0 <= i < old(self).sprites@.len() ==> spec_place_ok(*old(self), #[trigger] old(self).sprites@[i], old(self).spec_animation_offs()),
        ensures
            final(self).wf(),
            *final(self) == (if old(self).anims@.len() > 0 && old(self).singleton {
                BigSprite { singleton_tile_offs: old(self).spec_frame_offs() as u16, ..*old(self) }
            } else {
                *old(self)
            }),
            final(renderer).wf(),
            final(renderer).spec_added() == old(renderer).spec_added() + old(self).sprites@.map_values(
                |s: Sprite| spec_place(*old(self), s, old(self).spec_animation_offs()),
            ),
            final(vdp).plane_a == old(vdp).plane_a,
            final(vdp).plane_b == old(vdp).plane_b,
    {
        let mut animation_offs: u16 = 0;
        if self.anims.len() > 0 {
            let s = self.animation_state;
            let new_offs = self.anims[s.current_animation_id].frames[s.frame_index].tile_offs + self.tileset_shift;
            if self.singleton {
                if self.singleton_tile_offs != new_offs {
                    self.singleton_tile_offs = new_offs;
                    res_state.update_tile_slice(
                        vdp,
                        self.tiles_idx,
                        TileSlice { start: new_offs as usize, len: (self.w * self.h) as usize },
                    );
                }
            } else {
                animation_offs = new_offs;
            }
        }
        let ghost me = *self;
        let mut i: usize = 0;
        while i < self.sprites.len()
            invariant
                *self == me,
                me.wf(),
                renderer.wf(),
                i <= me.sprites@.len(),
                animation_offs == old(self).spec_animation_offs(),
                renderer.num_sprites == old(renderer).num_sprites + i,
                old(renderer).num_sprites + me.sprites@.len() <= crate::vdp::MAX_SPRITES,
                forall|k: int| 0 <= k < me.sprites@.len() ==> spec_place_ok(me, #[trigger] me.sprites@[k], animation_offs),
                renderer.spec_added() == old(renderer).spec_added() + me.sprites@.take(i as int).map_values(
                    |s: Sprite| spec_place(me, s, animation_offs),
                ),
            decreases me.sprites@.len() - i,
        {
            let rs = self.place(self.sprites[i], animation_offs);
            let res = renderer.add_sprite(rs);
            assert(me.sprites@.take(i + 1) =~= me.sprites@.take(i as int).push(me.sprites@[i as int]));
            assert(me.sprites@.take(i + 1).map_values(|s: Sprite| spec_place(me, s, animation_offs))
                =~= me.sprites@.take(i as int).map_values(|s: Sprite| spec_place(me, s, animation_offs)).push(rs));
            i = i + 1;
        }
        assert(me.sprites@.take(i as int) =~= me.sprites@);
    }

    /// Places one hardware sprite of this big sprite on screen.
    fn place(&self, s: Sprite, animation_offs: u16) -> (r: Sprite)
        requires
            spec_place_ok(*self, s, animation_offs),
        ensures
            r == spec_place(*self, s, animation_offs),
    {
        let mut rs = s;
        let base_tile = rs.flags.tile_index();
        rs.flags.set_tile_index(base_tile + self.vram_start_tile + animation_offs);
        rs.flags.set_flip_v(self.flip_v);
        rs.flags.set_flip_h(self.flip_h);
        rs.flags.set_priority(self.priority);
        if self.flip_h {
            rs.x = self.w * 8 - rs.x - rs.w() * 8;
        }
        if self.flip_v {
            rs.y = self.h * 8 - rs.y - rs.h() * 8;
        }
        rs.x = rs.x + self.x;
        rs.y = rs.y + self.y;
        rs
    }
}

/// Clamps a coordinate to `[0, max]`.
pub open spec fn clamp_coord(v: i16, max: int) -> int {
    if v < 0 { 0 } else if v > max { max } else { v as int }
}

} // verus!
