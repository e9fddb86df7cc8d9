//! Game logic of a side-scrolling action game for a 16-bit console: entity
//! geometry, sprite animation, the VRAM tile allocator, the player and enemy
//! state machines, the inventory and pause menu, stage loading and
//! scrolling, the stage-select screen, the fastest-time record keeping, and
//! the conversion of stages drawn in the Tiled editor.
use vstd::prelude::*;

pub mod attacks;
pub mod big_sprite;
pub mod convert;
pub mod door;
pub mod enemy;
pub mod game;
pub mod entity;
pub mod inventory;
pub mod koth;
pub mod map;
pub mod map_data;

pub mod pause_menu;
pub mod player;
pub mod player_update;
pub mod profiling;
pub mod projectile;
pub mod res;
pub mod resource_state;
pub mod stage_convert;
pub mod stage_load;
pub mod stage_select;
pub mod switch;
pub mod ui;
pub mod vdp;
pub mod weapon;

verus! {

/// One of the four cardinal directions.
#[derive(Clone, Copy, Debug, PartialEq, Eq, Structural)]
pub enum Direction {
    Up,
    Down,
    Left,
    Right,
}

/// Unit offset of a direction, y growing downward.
pub open spec fn spec_direction_offset(d: Direction) -> (i16, i16) {
    match d {
        Direction::Up => (0i16, -1i16),
        Direction::Down => (0i16, 1i16),
        Direction::Left => (-1i16, 0i16),
        Direction::Right => (1i16, 0i16),
    }
}

impl Direction {
    /// Returns a coordinate offset for the given direction with a length of 1.
    pub fn to_offset(self) -> (r: (i16, i16))
        ensures
            r == spec_direction_offset(self),
    {
        match self {
            Direction::Up => (0, -1),
            Direction::Down => (0, 1),
            Direction::Left => (-1, 0),
            Direction::Right => (1, 0),
        }
    }
}

/// Side of the square VDP plane, in tiles.
pub const PLANE_TILES: u16 = 64;

/// Side of the square VDP plane, in pixels.
pub const PLANE_PIXELS: i16 = 512;

/// A tile coordinate inside the 64x64 VDP plane.
#[derive(Clone, Copy, Debug, PartialEq, Eq, Structural)]
pub struct PlaneAddress(pub u16, pub u16);

impl PlaneAddress {
    /// Builds an address; both coordinates must lie inside the plane.
    pub fn new(x: u16, y: u16) -> (r: Self)
        requires
            x < 64,
            y < 64,
        ensures
            r == PlaneAddress(x, y),
    {
        PlaneAddress(x, y)
    }

    /// Wraps both coordinates into the plane.
    pub fn normalize(self) -> (r: Self)
        ensures
            r.0 == self.0 % 64,
            r.1 == self.1 % 64,
    {
        PlaneAddress(self.0 % 64, self.1 % 64)
    }

    /// Converts to the flat (row-major, 64 tiles per row) address space.
    pub fn to_address(&self) -> (r: u16)
        requires
            self.0 + self.1 * 64 <= u16::MAX,
        ensures
            r == self.0 + self.1 * 64,
    {
        self.0 + self.1 * 64
    }

    /// Moves the address by a non-negative offset, wrapping around the plane.
    pub fn add_unsigned(self, rhs: (u16, u16)) -> (r: Self)
        requires
            self.0 + rhs.0 <= u16::MAX,
            self.1 + rhs.1 <= u16::MAX,
        ensures
            r.0 == (self.0 + rhs.0) % 64,
            r.1 == (self.1 + rhs.1) % 64,
    {
        PlaneAddress(self.0 + rhs.0, self.1 + rhs.1).normalize()
    }

    /// Moves the address by a signed offset, wrapping around the plane.
    pub fn add_signed(self, rhs: (i16, i16)) -> (r: Self)
        ensures
            r.0 == (self.0 + rhs.0) % 64,
            r.1 == (self.1 + rhs.1) % 64,
    {
        let a = self.0.wrapping_add(rhs.0 as u16);
        let b = self.1.wrapping_add(rhs.1 as u16);
        proof {
            lemma_wrap_mod64(self.0, rhs.0);
            lemma_wrap_mod64(self.1, rhs.1);
        }
        PlaneAddress(a, b).normalize()
    }
}

proof fn lemma_wrap_mod64(a: u16, d: i16)
    ensures
        (vstd::wrapping::u16_specs::wrapping_add(a, d as u16)) % 64 == (a + d) % 64,
{
    let du = d as u16;
    let w = vstd::wrapping::u16_specs::wrapping_add(a, du);
    assert(du == (if d < 0 { d + 65536 } else { d as int })) by (bit_vector)
        requires
            du == d as u16,
    ;
    assert(w % 64 == (a + d) % 64) by (nonlinear_arith)
        requires
            w == (if a + du > 65535 { a + du - 65536 } else { a + du }),
            du == (if d < 0 { d + 65536 } else { d as int }),
    ;
}

/// A view into the VDP plane memory: the current scroll, kept in `[0, 512)` on both axes.
pub struct PlaneWindow {
    scroll: (i16, i16),
}

impl PlaneWindow {
    #[verifier::type_invariant]
    spec fn inv(self) -> bool {
        0 <= self.scroll.0 < 512 && 0 <= self.scroll.1 < 512
    }

    /// Scroll offset in pixels, both coordinates in `[0, 512)`.
    pub closed spec fn spec_scroll(self) -> (int, int) {
        (self.scroll.0 as int, self.scroll.1 as int)
    }

    /// A window at scroll (0, 0).
    pub fn new() -> (r: Self)
        ensures
            r.spec_scroll() == (0int, 0int),
    {
        PlaneWindow { scroll: (0, 0) }
    }

    /// The plane address of the top-left tile for the current scroll.
    pub fn vram_address(&self) -> (r: PlaneAddress)
        ensures
            r.0 == self.spec_scroll().0 / 8,
            r.1 == self.spec_scroll().1 / 8,
            r.0 < 64,
            r.1 < 64,
    {
        proof {
            use_type_invariant(self);
        }
        let x = self.current_scroll_in_tiles();
        PlaneAddress(x.0, x.1)
    }

    /// Scrolls the window by the given amount, wrapping around the plane.
    pub fn scroll(&mut self, dx: i16, dy: i16)
        ensures
            final(self).spec_scroll().0 == (old(self).spec_scroll().0 + dx) % 512,
            final(self).spec_scroll().1 == (old(self).spec_scroll().1 + dy) % 512,
    {
        proof {
            use_type_invariant(&*self);
        }
        let x = wrap_plane(self.scroll.0 as i32 + dx as i32);
        let y = wrap_plane(self.scroll.1 as i32 + dy as i32);
        self.scroll = (x, y);
    }

    /// The current scroll in pixels.
    pub fn current_scroll(&self) -> (r: (u16, u16))
        ensures
            r.0 == self.spec_scroll().0,
            r.1 == self.spec_scroll().1,
            r.0 < 512,
            r.1 < 512,
    {
        proof {
            use_type_invariant(self);
        }
        (self.scroll.0 as u16, self.scroll.1 as u16)
    }

    /// The current scroll in whole tiles (rounding down).
    pub fn current_scroll_in_tiles(&self) -> (r: (u16, u16))
        ensures
            r.0 == self.spec_scroll().0 / 8,
            r.1 == self.spec_scroll().1 / 8,
            r.0 < 64,
            r.1 < 64,
    {
        proof {
            use_type_invariant(self);
        }
        (self.scroll.0 as u16 / 8, self.scroll.1 as u16 / 8)
    }
}

/// Wraps a pixel coordinate into `[0, 512)`.
fn wrap_plane(v: i32) -> (r: i16)
    ensures
        r == v % 512,
        0 <= r < 512,
{
    let mut m = v % 512;
    if m < 0 {
        m = m + 512;
    }
    m as i16
}

} // verus!
