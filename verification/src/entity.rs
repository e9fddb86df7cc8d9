//! Hitboxes: axis-aligned boxes in pixels, their overlap, and the coordinate
//! ranges the game logic works in.
use vstd::prelude::*;

verus! {

/// An axis-aligned rectangle in sprite coordinates (the visible screen starts at (128, 128)).
#[derive(Clone, Copy, Debug, PartialEq, Eq, Structural)]
pub struct Hitbox {
    pub x: i16,
    pub y: i16,
    pub w: i16,
    pub h: i16,
}

/// Whether two rectangles overlap (touching edges do not count).
pub open spec fn spec_overlaps(a: Hitbox, b: Hitbox) -> bool {
    &&& a.x < b.x + b.w
    &&& a.x + a.w > b.x
    &&& a.y < b.y + b.h
    &&& a.y + a.h > b.y
}

/// Division rounding toward zero, as Rust's `/` on signed integers does.
pub open spec fn div_trunc(a: int, b: int) -> int {
    if b < 0 {
        if a >= 0 { -(a / (-b)) } else { (-a) / (-b) }
    } else {
        if a >= 0 { a / b } else { -((-a) / b) }
    }
}

/// Whether all fields of a rectangle translated by (dx, dy) fit into `i16`.
pub open spec fn fits_i16(v: int) -> bool {
    i16::MIN <= v <= i16::MAX
}

impl Hitbox {
    /// The center point (integer division rounds toward zero, as in Rust).
    pub fn center(&self) -> (r: (i16, i16))
        requires
            fits_i16(self.x + div_trunc(self.w as int, 2)),
            fits_i16(self.y + div_trunc(self.h as int, 2)),
        ensures
            r.0 == self.x + div_trunc(self.w as int, 2),
            r.1 == self.y + div_trunc(self.h as int, 2),
    {
        (self.x + self.w / 2, self.y + self.h / 2)
    }

    /// Whether this box overlaps `o`.
    pub fn collides(&self, o: &Hitbox) -> (r: bool)
        requires
            fits_i16(o.x + o.w),
            fits_i16(self.x + self.w),
            fits_i16(o.y + o.h),
            fits_i16(self.y + self.h),
        ensures
            r == spec_overlaps(*self, *o),
    {
        self.x < o.x + o.w && self.x + self.w > o.x && self.y < o.y + o.h && self.y + self.h > o.y
    }

    /// The box moved by (dx, dy).
    pub fn offset(&self, dx: i16, dy: i16) -> (r: Hitbox)
        requires
            fits_i16(self.x + dx),
            fits_i16(self.y + dy),
        ensures
            r == spec_moved(*self, dx as int, dy as int),
    {
        Hitbox { x: self.x + dx, y: self.y + dy, w: self.w, h: self.h }
    }

    /// The box grown by `amount` on every side.
    pub fn expand(&self, amount: i16) -> (r: Hitbox)
        requires
            fits_i16(self.x - amount),
            fits_i16(self.y - amount),
            fits_i16(amount * 2),
            fits_i16(self.w + amount * 2),
            fits_i16(self.h + amount * 2),
        ensures
            r == (Hitbox {
                x: (self.x - amount) as i16,
                y: (self.y - amount) as i16,
                w: (self.w + amount * 2) as i16,
                h: (self.h + amount * 2) as i16,
            }),
    {
        Hitbox { x: self.x - amount, y: self.y - amount, w: self.w + amount * 2, h: self.h + amount * 2 }
    }

    /// The smallest box covering both this box and the box moved by (dx, dy).
    pub fn extend_by(&self, dx: i16, dy: i16) -> (r: Hitbox)
        requires
            fits_i16(self.x + dx),
            fits_i16(self.y + dy),
            fits_i16(self.x + self.w),
            fits_i16(self.y + self.h),
            fits_i16(self.x + dx + self.w),
            fits_i16(self.y + dy + self.h),
            fits_i16(self.w + (if dx < 0 { -dx } else { dx as int })),
            fits_i16(self.h + (if dy < 0 { -dy } else { dy as int })),
        ensures
            r == spec_extend(*self, dx as int, dy as int),
    {
        let new_x = self.x + dx;
        let new_y = self.y + dy;
        let x_min = if self.x < new_x { self.x } else { new_x };
        let y_min = if self.y < new_y { self.y } else { new_y };
        let x_max = if self.x + self.w > new_x + self.w { self.x + self.w } else { new_x + self.w };
        let y_max = if self.y + self.h > new_y + self.h { self.y + self.h } else { new_y + self.h };
        Hitbox { x: x_min, y: y_min, w: x_max - x_min, h: y_max - y_min }
    }
}

/// The smallest box covering `b` and `b` moved by (dx, dy).
pub open spec fn spec_extend(b: Hitbox, dx: int, dy: int) -> Hitbox {
    let x_min = if dx < 0 { b.x + dx } else { b.x as int };
    let y_min = if dy < 0 { b.y + dy } else { b.y as int };
    let x_max = if dx > 0 { b.x + dx + b.w } else { b.x + b.w };
    let y_max = if dy > 0 { b.y + dy + b.h } else { b.y + b.h };
    Hitbox { x: x_min as i16, y: y_min as i16, w: (x_max - x_min) as i16, h: (y_max - y_min) as i16 }
}

/// `b` moved by (dx, dy).
pub open spec fn spec_moved(b: Hitbox, dx: int, dy: int) -> Hitbox {
    Hitbox { x: (b.x + dx) as i16, y: (b.y + dy) as i16, w: b.w, h: b.h }
}

/// Whether point (px, py) lies inside box `b`.
pub open spec fn contains_point(b: Hitbox, px: int, py: int) -> bool {
    b.x <= px < b.x + b.w && b.y <= py < b.y + b.h
}

/// Coordinates within a few screens of the visible area and modest sizes:
/// offsets, expansions and overlap tests on such boxes cannot overflow.
pub open spec fn hitbox_small(b: Hitbox) -> bool {
    coord_small(b.x as int) && coord_small(b.y as int) && 0 <= b.w <= 1024 && 0 <= b.h <= 1024
}

/// A coordinate within a few screens of the visible area.
pub open spec fn coord_small(v: int) -> bool {
    -16383 <= v <= 16383
}

/// A coordinate that stays small after a step of up to 512 pixels.
pub open spec fn coord_inner(v: int) -> bool {
    -15871 <= v <= 15871
}

/// A stage position that stays a small coordinate after moving it onto the
/// screen and centering an object of up to a few hundred pixels on it.
pub open spec fn map_coord_ok(v: int) -> bool {
    -15000 <= v <= 15000
}

/// Overlap is symmetric: `a` collides with `b` exactly when `b` collides with `a`.
pub proof fn law_collides_symmetric(a: Hitbox, b: Hitbox)
    ensures
        spec_overlaps(a, b) == spec_overlaps(b, a),
{
}

/// The extended box covers every point of the box before and after the move.
pub proof fn law_extend_covers(b: Hitbox, dx: i16, dy: i16, px: int, py: int)
    requires
        fits_i16(b.x + dx),
        fits_i16(b.y + dy),
        fits_i16(b.w + (if dx < 0 { -dx } else { dx as int })),
        fits_i16(b.h + (if dy < 0 { -dy } else { dy as int })),
        contains_point(b, px, py) || contains_point(spec_moved(b, dx as int, dy as int), px, py),
    ensures
        contains_point(spec_extend(b, dx as int, dy as int), px, py),
{
}

} // verus!
