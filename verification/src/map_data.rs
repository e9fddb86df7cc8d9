//! Stage layout: the graphics and attribute grids, which attributes an object
//! touches, and drawing the stage's tiles into plane A.
use vstd::prelude::*;

use crate::entity::{coord_small, div_trunc, Hitbox};
use crate::resource_state::State;
use crate::vdp::{spec_palette_index, Palette, Plane, TileFlags, Vdp};
use crate::PlaneAddress;

verus! {

/// Width of the visible map area in tiles.
pub const WIDTH: usize = 40;
/// Height of the visible map area in tiles.
pub const HEIGHT: usize = 28;

/// Tile attribute bits.
pub const TILE_NONE: u8 = 0;
pub const TILE_WALL: u8 = 1;
pub const TILE_SPIKE: u8 = 2;
pub const TILE_ALL: u8 = 0xFF;

/// A row-major grid of values.
pub struct Array2d<T> {
    pub data: Vec<T>,
    pub width: usize,
    pub height: usize,
}

impl<T: Copy> Array2d<T> {
    /// A grid over `data`, which holds exactly `width * height` values.
    pub fn new(data: Vec<T>, width: usize, height: usize) -> (r: Self)
        requires
            data@.len() == width * height,
        ensures
            r.data@ == data@,
            r.width == width,
            r.height == height,
    {
        Array2d { data, width, height }
    }

    /// The value at (x, y), `None` outside the grid.
    pub fn get(&self, x: usize, y: usize) -> (r: Option<T>)
        requires
            self.data@.len() == self.width * self.height,
        ensures
            r == (if x < self.width && y < self.height { Some(self.data@[x + y * self.width]) } else { None::<T> }),
    {
        if x < self.width && y < self.height {
            let n = self.data.len();
            proof {
                assert(x + y * self.width < self.width * self.height) by (nonlinear_arith)
                    requires
                        x < self.width,
                        y < self.height,
                ;
                assert(x + y * self.width < n);
            }
            Some(self.data[x + y * self.width])
        } else {
            None
        }
    }
}

/// Which tile attributes an object hit.
#[derive(Clone, Copy, Debug, PartialEq, Eq, Structural)]
pub struct HitTiles {
    /// Attributes of at least one touched tile.
    pub any_hit_bitmask: u8,
    /// Attributes of all touched tiles (none when nothing was touched).
    pub all_hit_bitmask: u8,
}

impl HitTiles {
    /// Whether the object touches a tile with one of the given attributes.
    pub fn touches_tile(self, tile_type: u8) -> (r: bool)
        ensures
            r == (self.any_hit_bitmask & tile_type != 0),
    {
        self.any_hit_bitmask & tile_type != 0
    }

    /// Whether all tiles the object touches share one of the given attributes.
    pub fn immersed_in_tile(self, tile_type: u8) -> (r: bool)
        ensures
            r == (self.all_hit_bitmask & tile_type != 0),
    {
        self.all_hit_bitmask & tile_type != 0
    }
}

/// Bit `b` of a byte.
pub open spec fn has_bit(v: u8, b: u8) -> bool {
    v & (1u8 << b) != 0
}

/// The tile column (or row) of sample `d` of an object spanning `len`
/// pixels from `start`: samples are 8 pixels apart, the last one at the far edge.
pub open spec fn spec_sample_tile(start: int, len: int, d: int) -> int {
    div_trunc(start + (if d * 8 < len { d * 8 } else { len }) - 128, 8)
}

pub struct MapData {
    pub width: usize,
    pub height: usize,
    /// VRAM position of the stage's tileset, once loaded.
    pub start_tile: Option<u16>,
    /// The stage's tileset.
    pub tiles_idx: usize,
    /// Tile numbers of the stage's graphics (tileset index plus one, 0 for none).
    pub gfx_layer: Array2d<u16>,
    pub attr_layer: Array2d<u8>,
    pub palette: Palette,
    pub player_spawn_position: (i16, i16),
}

impl MapData {
    pub open spec fn wf(self) -> bool {
        &&& self.attr_layer.data@.len() == self.attr_layer.width * self.attr_layer.height
        &&& self.gfx_layer.data@.len() == self.gfx_layer.width * self.gfx_layer.height
    }

    /// The attribute of tile (tx, ty) if it lies on the map.
    pub open spec fn spec_attr(self, tx: int, ty: int) -> Option<u8> {
        if 0 <= tx < self.attr_layer.width && 0 <= ty < self.attr_layer.height {
            Some(self.attr_layer.data@[tx + ty * self.attr_layer.width])
        } else {
            None
        }
    }

    /// The attribute of sample (dx, dy) of a box at (x, y) of size (w, h).
    pub open spec fn spec_sample(self, x: int, y: int, w: int, h: int, dx: int, dy: int) -> Option<u8> {
        let tx = spec_sample_tile(x, w, dx);
        let ty = spec_sample_tile(y, h, dy);
        if tx < 0 || ty < 0 { None } else { self.spec_attr(tx, ty) }
    }

    /// Sample (dx, dy) is on the map and has attribute bit `b`.
    pub open spec fn spec_sample_has(self, x: int, y: int, w: int, h: int, dx: int, dy: int, b: u8) -> bool {
        match self.spec_sample(x, y, w, h, dx, dy) {
            Some(a) => has_bit(a, b),
            None => false,
        }
    }

    /// Sample (dx, dy) is off the map or has attribute bit `b`.
    pub open spec fn spec_sample_ok(self, x: int, y: int, w: int, h: int, dx: int, dy: int, b: u8) -> bool {
        match self.spec_sample(x, y, w, h, dx, dy) {
            Some(a) => has_bit(a, b),
            None => true,
        }
    }

    /// Some sample on the map has attribute bit `b`.
    pub open spec fn spec_any_bit(self, x: int, y: int, w: int, h: int, b: u8) -> bool {
        exists|dx: int, dy: int|
            0 <= dx <= (w + 7) / 8 && 0 <= dy <= (h + 7) / 8 && #[trigger] self.spec_sample_has(x, y, w, h, dx, dy, b)
    }

    /// Every sample on the map has attribute bit `b`.
    pub open spec fn spec_all_bit(self, x: int, y: int, w: int, h: int, b: u8) -> bool {
        forall|dx: int, dy: int|
            0 <= dx <= (w + 7) / 8 && 0 <= dy <= (h + 7) / 8 ==> #[trigger] self.spec_sample_ok(x, y, w, h, dx, dy, b)
    }

    /// A stage drawn with tileset `tiles_idx` in palette `palette`, with the
    /// given graphics and attribute grids and spawn point; its tileset is not
    /// in VRAM yet.
    pub fn new(
        tiles_idx: usize,
        width: usize,
        height: usize,
        gfx_layer: Array2d<u16>,
        attr_layer: Array2d<u8>,
        palette: Palette,
        player_spawn_position: (i16, i16),
    ) -> (r: MapData)
        requires
            gfx_layer.data@.len() == gfx_layer.width * gfx_layer.height,
            attr_layer.data@.len() == attr_layer.width * attr_layer.height,
        ensures
            r.wf(),
            r == (MapData { width, height, start_tile: None, tiles_idx, gfx_layer, attr_layer, palette, player_spawn_position }),
    {
        MapData { width, height, start_tile: None, tiles_idx, gfx_layer, attr_layer, palette, player_spawn_position }
    }

    /// The attributes hit by a box moved by `offset`, sampling its edges and
    /// every 8 pixels in between (sprite coordinates: the map's top-left tile
    /// is at (128, 128)). An attribute is in `all_hit_bitmask` when every
    /// sampled tile on the map has it and at least one tile was sampled.
    pub fn get_hit_tiles(&self, hitbox: &Hitbox, offset: (i16, i16)) -> (r: HitTiles)
        requires
            self.wf(),
            coord_small(hitbox.x + offset.0),
            coord_small(hitbox.y + offset.1),
            0 <= hitbox.w <= 1024,
            0 <= hitbox.h <= 1024,
        ensures
            forall|b: u8| b < 8 ==> (#[trigger] has_bit(r.any_hit_bitmask, b) <==> self.spec_any_bit(
                hitbox.x + offset.0, hitbox.y + offset.1, hitbox.w as int, hitbox.h as int, b)),
            forall|b: u8| b < 8 ==> (#[trigger] has_bit(r.all_hit_bitmask, b) <==> (self.spec_any_bit(
                hitbox.x + offset.0, hitbox.y + offset.1, hitbox.w as int, hitbox.h as int, b) && self.spec_all_bit(
                hitbox.x + offset.0, hitbox.y + offset.1, hitbox.w as int, hitbox.h as int, b))),
    {
        let x = hitbox.x + offset.0;
        let y = hitbox.y + offset.1;
        let w = hitbox.w;
        let h = hitbox.h;
        let ghost gx = x as int;
        let ghost gy = y as int;
        let ghost gw = w as int;
        let ghost gh = h as int;
        let mut any: u8 = TILE_NONE;
        let mut all: u8 = TILE_ALL;
        proof {
            assert forall|b: u8| b < 8 implies !#[trigger] has_bit(0u8, b) by {
                assert(0u8 & (1u8 << b) == 0) by (bit_vector) requires b < 8;
            }
            assert forall|b: u8| b < 8 implies #[trigger] has_bit(0xFFu8, b) by {
                assert(0xFFu8 & (1u8 << b) != 0) by (bit_vector) requires b < 8;
            }
        }
        let nx = (w + 7) / 8;
        let ny = (h + 7) / 8;
        let mut dx: i16 = 0;
        while dx <= nx
            invariant
                self.wf(),
                gx == x, gy == y, gw == w, gh == h,
                coord_small(gx),
                coord_small(gy),
                0 <= gw <= 1024,
                0 <= gh <= 1024,
                nx == (gw + 7) / 8,
                ny == (gh + 7) / 8,
                0 <= dx <= nx + 1,
                forall|b: u8| b < 8 ==> (#[trigger] has_bit(any, b) <==> exists|i: int, j: int|
                    0 <= i < dx && 0 <= j <= ny && #[trigger] self.spec_sample_has(gx, gy, gw, gh, i, j, b)),
                forall|b: u8| b < 8 ==> (#[trigger] has_bit(all, b) <==> forall|i: int, j: int|
                    0 <= i < dx && 0 <= j <= ny ==> #[trigger] self.spec_sample_ok(gx, gy, gw, gh, i, j, b)),
            decreases nx + 1 - dx,
        {
            let px = x + if dx * 8 < w { dx * 8 } else { w };
            let tx = div_i16(px - 128, 8);
            assert(tx == spec_sample_tile(gx, gw, dx as int));
            let mut dy: i16 = 0;
            while dy <= ny
                invariant
                    self.wf(),
                    gx == x, gy == y, gw == w, gh == h,
                    coord_small(gx),
                    coord_small(gy),
                    0 <= gw <= 1024,
                    0 <= gh <= 1024,
                    nx == (gw + 7) / 8,
                    ny == (gh + 7) / 8,
                    0 <= dx <= nx,
                    0 <= dy <= ny + 1,
                    tx == spec_sample_tile(gx, gw, dx as int),
                    forall|b: u8| b < 8 ==> (#[trigger] has_bit(any, b) <==> exists|i: int, j: int|
                        ((0 <= i < dx && 0 <= j <= ny) || (i == dx && 0 <= j < dy)) && #[trigger] self.spec_sample_has(gx, gy, gw, gh, i, j, b)),
                    forall|b: u8| b < 8 ==> (#[trigger] has_bit(all, b) <==> forall|i: int, j: int|
                        ((0 <= i < dx && 0 <= j <= ny) || (i == dx && 0 <= j < dy)) ==> #[trigger] self.spec_sample_ok(gx, gy, gw, gh, i, j, b)),
                decreases ny + 1 - dy,
            {
                let py = y + if dy * 8 < h { dy * 8 } else { h };
                let ty = div_i16(py - 128, 8);
                assert(ty == spec_sample_tile(gy, gh, dy as int));
                let cur: Option<u8> = if tx >= 0 && ty >= 0 {
                    self.attr_layer.get(tx as usize, ty as usize)
                } else {
                    None
                };
                assert(cur == self.spec_sample(gx, gy, gw, gh, dx as int, dy as int));
                let ghost old_any = any;
                let ghost old_all = all;
                let ghost cdx = dx as int;
                let ghost cdy = dy as int;
                if let Some(attr) = cur {
                    any = any | attr;
                    all = all & attr;
                    proof {
                        assert forall|b: u8| b < 8 implies #[trigger] has_bit(any, b) == (has_bit(old_any, b) || has_bit(attr, b)) by {
                            assert((old_any | attr) & (1u8 << b) != 0 <==> (old_any & (1u8 << b) != 0 || attr & (1u8 << b) != 0)) by (bit_vector)
                                requires b < 8;
                        }
                        assert forall|b: u8| b < 8 implies #[trigger] has_bit(all, b) == (has_bit(old_all, b) && has_bit(attr, b)) by {
                            assert((old_all & attr) & (1u8 << b) != 0 <==> (old_all & (1u8 << b) != 0 && attr & (1u8 << b) != 0)) by (bit_vector)
                                requires b < 8;
                        }
                    }
                }
                proof {
                    assert forall|b: u8| b < 8 implies (#[trigger] has_bit(any, b) <==> exists|i: int, j: int|
                        ((0 <= i < cdx && 0 <= j <= ny) || (i == cdx && 0 <= j < cdy + 1)) && #[trigger] self.spec_sample_has(gx, gy, gw, gh, i, j, b)) by {
                        if has_bit(any, b) {
                            if !has_bit(old_any, b) {
                                assert(self.spec_sample_has(gx, gy, gw, gh, cdx, cdy, b));
                            }
                        }
                        if exists|i: int, j: int| ((0 <= i < cdx && 0 <= j <= ny) || (i == cdx && 0 <= j < cdy + 1)) && #[trigger] self.spec_sample_has(gx, gy, gw, gh, i, j, b) {
                            let (i, j) = choose|i: int, j: int| ((0 <= i < cdx && 0 <= j <= ny) || (i == cdx && 0 <= j < cdy + 1)) && #[trigger] self.spec_sample_has(gx, gy, gw, gh, i, j, b);
                            if i == cdx && j == cdy {
                            } else {
                                assert(has_bit(old_any, b));
                            }
                        }
                    }
                    assert forall|b: u8| b < 8 implies (#[trigger] has_bit(all, b) <==> forall|i: int, j: int|
                        ((0 <= i < cdx && 0 <= j <= ny) || (i == cdx && 0 <= j < cdy + 1)) ==> #[trigger] self.spec_sample_ok(gx, gy, gw, gh, i, j, b)) by {
                        if has_bit(all, b) {
                            assert(has_bit(old_all, b));
                            assert forall|i: int, j: int| ((0 <= i < cdx && 0 <= j <= ny) || (i == cdx && 0 <= j < cdy + 1)) implies #[trigger] self.spec_sample_ok(gx, gy, gw, gh, i, j, b) by {
                                if i == cdx && j == cdy {
                                } else {
                                }
                            }
                        } else {
                            if has_bit(old_all, b) {
                                assert(!self.spec_sample_ok(gx, gy, gw, gh, cdx, cdy, b));
                            } else {
                                let (i, j) = choose|i: int, j: int| ((0 <= i < cdx && 0 <= j <= ny) || (i == cdx && 0 <= j < cdy)) && !#[trigger] self.spec_sample_ok(gx, gy, gw, gh, i, j, b);
                                assert(!self.spec_sample_ok(gx, gy, gw, gh, i, j, b));
                            }
                        }
                    }
                }
                dy = dy + 1;
            }
            proof {
                let cdx = dx as int;
                assert forall|b: u8| b < 8 implies (#[trigger] has_bit(any, b) <==> exists|i: int, j: int|
                    0 <= i < cdx + 1 && 0 <= j <= ny && #[trigger] self.spec_sample_has(gx, gy, gw, gh, i, j, b)) by {
                    if has_bit(any, b) {
                        let (i, j) = choose|i: int, j: int| ((0 <= i < cdx && 0 <= j <= ny) || (i == cdx && 0 <= j < ny + 1)) && #[trigger] self.spec_sample_has(gx, gy, gw, gh, i, j, b);
                        assert(self.spec_sample_has(gx, gy, gw, gh, i, j, b));
                    }
                    if exists|i: int, j: int| 0 <= i < cdx + 1 && 0 <= j <= ny && #[trigger] self.spec_sample_has(gx, gy, gw, gh, i, j, b) {
                        let (i, j) = choose|i: int, j: int| 0 <= i < cdx + 1 && 0 <= j <= ny && #[trigger] self.spec_sample_has(gx, gy, gw, gh, i, j, b);
                        assert((0 <= i < cdx && 0 <= j <= ny) || (i == cdx && 0 <= j < ny + 1));
                    }
                }
                assert forall|b: u8| b < 8 implies (#[trigger] has_bit(all, b) <==> forall|i: int, j: int|
                    0 <= i < cdx + 1 && 0 <= j <= ny ==> #[trigger] self.spec_sample_ok(gx, gy, gw, gh, i, j, b)) by {
                    if has_bit(all, b) {
                        assert forall|i: int, j: int| 0 <= i < cdx + 1 && 0 <= j <= ny implies #[trigger] self.spec_sample_ok(gx, gy, gw, gh, i, j, b) by {
                            assert((0 <= i < cdx && 0 <= j <= ny) || (i == cdx && 0 <= j < ny + 1));
                        }
                    } else {
                        let (i, j) = choose|i: int, j: int| ((0 <= i < cdx && 0 <= j <= ny) || (i == cdx && 0 <= j < ny + 1)) && !#[trigger] self.spec_sample_ok(gx, gy, gw, gh, i, j, b);
                        assert(!self.spec_sample_ok(gx, gy, gw, gh, i, j, b));
                    }
                }
            }
            dx = dx + 1;
        }
        let ghost pre_all = all;
        all = all & any;
        proof {
            assert forall|b: u8| b < 8 implies #[trigger] has_bit(all, b) == (has_bit(pre_all, b) && has_bit(any, b)) by {
                assert((pre_all & any) & (1u8 << b) != 0 <==> (pre_all & (1u8 << b) != 0 && any & (1u8 << b) != 0)) by (bit_vector)
                    requires b < 8;
            }
        }
        HitTiles { any_hit_bitmask: any, all_hit_bitmask: all }
    }
}

/// Rust's `/` on `i16` values (rounds toward zero).
pub(crate) fn div_i16(a: i16, b: i16) -> (r: i16)
    requires
        b > 0,
        a > i16::MIN,
    ensures
        r == div_trunc(a as int, b as int),
{
    if a >= 0 {
        a / b
    } else {
        -((-a) / b)
    }
}

/// The tile number at map tile (column, row), if it lies on the graphics grid.
pub open spec fn spec_gfx_at(g: Array2d<u16>, column: int, row: int) -> Option<u16> {
    if 0 <= column < g.width && 0 <= row < g.height {
        Some(g.data@[column + row * g.width])
    } else {
        None
    }
}

/// The plane cell showing map tile (column, row) with the stage's tileset at
/// VRAM position `start`: tile number `t` shows tileset tile `start + t - 1`
/// in the stage's palette; no tile (0) and tiles off the map are empty cells.
pub open spec fn spec_map_cell(md: MapData, column: int, row: int, start: u16) -> TileFlags {
    match spec_gfx_at(md.gfx_layer, column, row) {
        Some(t) => if t != 0 {
            TileFlags((((start + t - 1) as u16) & 0x7FFu16) | ((spec_palette_index(md.palette) as u16) << 13u16))
        } else {
            TileFlags(0)
        },
        None => TileFlags(0),
    }
}

/// Whether every tile number of the stage fits after VRAM position `start`.
pub open spec fn gfx_fits(md: MapData, start: u16) -> bool {
    forall|i: int| 0 <= i < md.gfx_layer.data@.len() ==> start + #[trigger] md.gfx_layer.data@[i] <= 65536
}

/// The VRAM position of the stage's tileset once `init_tiles` ran.
pub open spec fn spec_init_start(md: MapData, res: State) -> u16 {
    match md.start_tile {
        Some(s) => s,
        None => if res.spec_start(md.tiles_idx as int) > 0 {
            res.spec_start(md.tiles_idx as int)
        } else {
            res.spec_next()
        },
    }
}

/// Whether the stage's tileset can be brought into VRAM when it is not yet.
pub open spec fn tiles_loadable(md: MapData, res: State) -> bool {
    md.start_tile is None ==> {
        &&& res.wf()
        &&& md.tiles_idx < res.spec_count()
        &&& res.spec_start(md.tiles_idx as int) == 0 ==> {
            &&& res.spec_tiles(md.tiles_idx as int).len() < u16::MAX
            &&& res.spec_next() + res.spec_tiles(md.tiles_idx as int).len() <= u16::MAX
        }
    }
}

/// Plane A after drawing the visible part of the stage from map tile
/// (column, row) on: screen row `y` (0 to 28) and column `x` (0 to 40) show
/// map tile (column + x, row + y); rows above the map are left as they were.
pub open spec fn spec_screen_plane(plane: Seq<TileFlags>, md: MapData, column: int, row: int, start: u16) -> Seq<TileFlags> {
    Seq::new(
        plane.len(),
        |k: int|
            if k % 64 <= WIDTH && k / 64 <= HEIGHT && row + k / 64 >= 0 {
                spec_map_cell(md, column + k % 64, row + k / 64, start)
            } else {
                plane[k]
            },
    )
}

/// Plane A after drawing map column `column` from row `row` on into the
/// plane column at `off`: plane row `off.1 + y` (wrapping) shows map tile
/// (column, row + y) for y from 0 to 28, except rows above the map.
pub open spec fn spec_column_plane(plane: Seq<TileFlags>, md: MapData, column: int, row: int, off: PlaneAddress, start: u16) -> Seq<TileFlags> {
    Seq::new(
        plane.len(),
        |k: int|
            {
                let y = (k / 64 - off.1) % 64;
                if k < 4096 && k % 64 == off.0 % 64 && y <= HEIGHT && row + y >= 0 {
                    spec_map_cell(md, column, row + y, start)
                } else {
                    plane[k]
                }
            },
    )
}

/// Plane A after drawing map row `row` from column `column` on into the
/// plane row at `off`: plane column `off.0 + x` (wrapping) shows map tile
/// (column + x, row) for x from 0 to 40, except columns left of the map.
pub open spec fn spec_row_plane(plane: Seq<TileFlags>, md: MapData, column: int, row: int, off: PlaneAddress, start: u16) -> Seq<TileFlags> {
    Seq::new(
        plane.len(),
        |k: int|
            {
                let x = (k % 64 - off.0) % 64;
                if k < 4096 && k / 64 == off.1 % 64 && x <= WIDTH && column + x >= 0 {
                    spec_map_cell(md, column + x, row, start)
                } else {
                    plane[k]
                }
            },
    )
}

/// The flat plane position of (a, b) with both below 64.
proof fn lemma_plane_position(k: int, a: int, b: int)
    requires
        0 <= a < 64,
        0 <= b < 64,
    ensures
        (k == a + b * 64) <==> (0 <= k < 4096 && k % 64 == a && k / 64 == b),
{
    if k == a + b * 64 {
        assert(0 <= k < 4096) by (nonlinear_arith)
            requires
                k == a + b * 64,
                0 <= a < 64,
                0 <= b < 64,
        ;
        assert(k % 64 == a && k / 64 == b) by (nonlinear_arith)
            requires
                k == a + b * 64,
                0 <= a < 64,
                0 <= b < 64,
        ;
    }
    if 0 <= k < 4096 && k % 64 == a && k / 64 == b {
        assert(k == (k / 64) * 64 + k % 64) by (nonlinear_arith)
            requires
                0 <= k,
        ;
    }
}

/// Position `k` lies in the 41 cells written from row `y`'s start exactly
/// when it is in row `y` and in one of its first 41 columns.
proof fn lemma_row_span(k: int, y: int)
    requires
        0 <= k,
        0 <= y,
    ensures
        (y * 64 <= k < y * 64 + WIDTH + 1) <==> (k / 64 == y && k % 64 <= WIDTH),
        k / 64 >= 0,
{
    assert((y * 64 <= k < y * 64 + WIDTH + 1) <==> (k / 64 == y && k % 64 <= WIDTH)) by (nonlinear_arith)
        requires
            0 <= k,
            0 <= y,
            WIDTH == 40,
    ;
}

/// Stepping `d` (0 to 63) from `o` around a 64-wrap and back.
proof fn lemma_wrap_step(o: int, d: int, v: int)
    requires
        0 <= d < 64,
        0 <= v < 64,
        0 <= o,
    ensures
        (v == (o + d) % 64) <==> ((v - o) % 64 == d),
{
    assert((v == (o + d) % 64) <==> ((v - o) % 64 == d)) by (nonlinear_arith)
        requires
            0 <= d < 64,
            0 <= v < 64,
            0 <= o,
    ;
}

impl MapData {
    /// Brings the stage's tileset into VRAM unless it is there already, and
    /// returns its VRAM position.
    fn init_tiles(&mut self, vdp: &mut Vdp, res_state: &mut State) -> (r: u16)
        requires
            tiles_loadable(*old(self), *old(res_state)),
        ensures
            r == spec_init_start(*old(self), *old(res_state)),
            *final(self) == (MapData { start_tile: Some(r), ..*old(self) }),
            final(vdp).plane_a == old(vdp).plane_a,
            old(self).start_tile is Some ==> *final(vdp) == *old(vdp) && *final(res_state) == *old(res_state),
    {
        match self.start_tile {
            Some(s) => s,
            None => {
                let s = res_state.load_tiles_to_vram(vdp, self.tiles_idx, false, None);
                self.start_tile = Some(s);
                s
            },
        }
    }

    /// Draws the visible part of the stage from map tile (column, row) on
    /// into plane A (see `spec_screen_plane`), bringing the tileset into VRAM
    /// first if needed.
    pub fn load_to_vram(&mut self, column_index: i16, row_index: i16, vdp: &mut Vdp, res_state: &mut State)
        requires
            old(self).wf(),
            tiles_loadable(*old(self), *old(res_state)),
            gfx_fits(*old(self), spec_init_start(*old(self), *old(res_state))),
            column_index + WIDTH <= i16::MAX,
            row_index + HEIGHT <= i16::MAX,
        ensures
            *final(self) == (MapData { start_tile: Some(spec_init_start(*old(self), *old(res_state))), ..*old(self) }),
            final(vdp).plane_a@ == spec_screen_plane(
                old(vdp).plane_a@,
                *old(self),
                column_index as int,
                row_index as int,
                spec_init_start(*old(self), *old(res_state)),
            ),
    {
        let start = self.init_tiles(vdp, res_state);
        let ghost p0 = vdp.plane_a@;
        let ghost md = *self;
        let mut y: i16 = 0;
        while y <= HEIGHT as i16
            invariant
                0 <= y <= HEIGHT + 1,
                md.wf(),
                *self == md,
                gfx_fits(md, start),
                column_index + WIDTH <= i16::MAX,
                row_index + HEIGHT <= i16::MAX,
                vdp.plane_a@.len() == p0.len(),
                forall|k: int| 0 <= k < p0.len() ==> #[trigger] vdp.plane_a@[k] == (if k / 64 < y {
                    spec_screen_plane(p0, md, column_index as int, row_index as int, start)[k]
                } else {
                    p0[k]
                }),
            decreases HEIGHT + 1 - y,
        {
            if row_index + y >= 0 {
                let mut tiles: Vec<TileFlags> = Vec::new();
                let mut x: i16 = 0;
                while x <= WIDTH as i16
                    invariant
                        0 <= x <= WIDTH + 1,
                        0 <= y <= HEIGHT,
                        md.wf(),
                        *self == md,
                        gfx_fits(md, start),
                        column_index + WIDTH <= i16::MAX,
                        row_index + y >= 0,
                        row_index + HEIGHT <= i16::MAX,
                        tiles@.len() == x,
                        forall|j: int| 0 <= j < x ==> #[trigger] tiles@[j] == spec_map_cell(md, column_index + j, row_index + y, start),
                    decreases WIDTH + 1 - x,
                {
                    tiles.push(self.map_cell(column_index + x, row_index + y, start));
                    x = x + 1;
                }
                let ghost before = vdp.plane_a@;
                vdp.set_plane_tiles(Plane::A, (y * 64) as u16, tiles.as_slice());
                proof {
                    assert forall|k: int| 0 <= k < p0.len() implies #[trigger] vdp.plane_a@[k] == (if k / 64 < y + 1 {
                        spec_screen_plane(p0, md, column_index as int, row_index as int, start)[k]
                    } else {
                        p0[k]
                    }) by {
                        lemma_row_span(k, y as int);
                    }
                }
            } else {
                proof {
                    assert forall|k: int| 0 <= k < p0.len() implies #[trigger] vdp.plane_a@[k] == (if k / 64 < y + 1 {
                        spec_screen_plane(p0, md, column_index as int, row_index as int, start)[k]
                    } else {
                        p0[k]
                    }) by {
                        lemma_row_span(k, y as int);
                    }
                }
            }
            y = y + 1;
        }
        proof {
            assert forall|k: int| 0 <= k < p0.len() implies #[trigger] vdp.plane_a@[k]
                == spec_screen_plane(p0, md, column_index as int, row_index as int, start)[k] by {
                if k / 64 > HEIGHT {
                    assert(!(k / 64 <= HEIGHT));
                }
            }
        }
        assert(vdp.plane_a@ =~= spec_screen_plane(p0, md, column_index as int, row_index as int, start));
    }

    /// Draws map column `column_index` from row `row_index` on into the plane
    /// column at `vram_offset` (see `spec_column_plane`), bringing the tileset
    /// into VRAM first if needed.
    pub fn load_tile_column(
        &mut self,
        column_index: i16,
        row_index: i16,
        vram_offset: PlaneAddress,
        vdp: &mut Vdp,
        res_state: &mut State,
    )
        requires
            old(self).wf(),
            tiles_loadable(*old(self), *old(res_state)),
            gfx_fits(*old(self), spec_init_start(*old(self), *old(res_state))),
            row_index + HEIGHT <= i16::MAX,
        ensures
            *final(self) == (MapData { start_tile: Some(spec_init_start(*old(self), *old(res_state))), ..*old(self) }),
            final(vdp).plane_a@ == spec_column_plane(
                old(vdp).plane_a@,
                *old(self),
                column_index as int,
                row_index as int,
                vram_offset,
                spec_init_start(*old(self), *old(res_state)),
            ),
    {
        let start = self.init_tiles(vdp, res_state);
        let ghost p0 = vdp.plane_a@;
        let ghost md = *self;
        let ghost o0 = vram_offset.0 % 64;
        let mut y: i16 = 0;
        while y <= HEIGHT as i16
            invariant
                0 <= y <= HEIGHT + 1,
                md.wf(),
                *self == md,
                gfx_fits(md, start),
                row_index + HEIGHT <= i16::MAX,
                o0 == vram_offset.0 % 64,
                vdp.plane_a@.len() == p0.len(),
                forall|k: int| 0 <= k < p0.len() ==> #[trigger] vdp.plane_a@[k] == (if (k / 64 - vram_offset.1) % 64 < y {
                    spec_column_plane(p0, md, column_index as int, row_index as int, vram_offset, start)[k]
                } else {
                    p0[k]
                }),
            decreases HEIGHT + 1 - y,
        {
            if row_index + y >= 0 {
                let cell = self.map_cell(column_index, row_index + y, start);
                let a = vram_offset.add_signed((0, y));
                let addr = a.to_address();
                vdp.set_plane_tiles(Plane::A, addr, &[cell]);
                proof {
                    assert forall|k: int| 0 <= k < p0.len() implies #[trigger] vdp.plane_a@[k] == (if (k / 64 - vram_offset.1) % 64 < y + 1 {
                        spec_column_plane(p0, md, column_index as int, row_index as int, vram_offset, start)[k]
                    } else {
                        p0[k]
                    }) by {
                        lemma_plane_position(k, a.0 as int, a.1 as int);
                        if k < 4096 {
                            lemma_wrap_step(vram_offset.1 as int, y as int, k / 64);
                        }
                    }
                }
            } else {
                proof {
                    assert forall|k: int| 0 <= k < p0.len() implies #[trigger] vdp.plane_a@[k] == (if (k / 64 - vram_offset.1) % 64 < y + 1 {
                        spec_column_plane(p0, md, column_index as int, row_index as int, vram_offset, start)[k]
                    } else {
                        p0[k]
                    }) by {
                        if k < 4096 && (k / 64 - vram_offset.1) % 64 == y {
                            assert(row_index + (k / 64 - vram_offset.1) % 64 < 0);
                        }
                    }
                }
            }
            y = y + 1;
        }
        assert(vdp.plane_a@ =~= spec_column_plane(p0, md, column_index as int, row_index as int, vram_offset, start));
    }

    /// Draws map row `row_index` from column `column_index` on into the plane
    /// row at `vram_offset` (see `spec_row_plane`), bringing the tileset into
    /// VRAM first if needed; a row above the map draws nothing.
    pub fn load_tile_row(
        &mut self,
        column_index: i16,
        row_index: i16,
        vram_offset: PlaneAddress,
        vdp: &mut Vdp,
        res_state: &mut State,
    )
        requires
            old(self).wf(),
            tiles_loadable(*old(self), *old(res_state)),
            gfx_fits(*old(self), spec_init_start(*old(self), *old(res_state))),
            column_index + WIDTH <= i16::MAX,
        ensures
            row_index < 0 ==> *final(self) == *old(self) && *final(vdp) == *old(vdp) && *final(res_state) == *old(res_state),
            row_index >= 0 ==> {
                &&& *final(self) == (MapData { start_tile: Some(spec_init_start(*old(self), *old(res_state))), ..*old(self) })
                &&& final(vdp).plane_a@ == spec_row_plane(
                    old(vdp).plane_a@,
                    *old(self),
                    column_index as int,
                    row_index as int,
                    vram_offset,
                    spec_init_start(*old(self), *old(res_state)),
                )
            },
    {
        if row_index < 0 {
            return;
        }
        let start = self.init_tiles(vdp, res_state);
        let ghost p0 = vdp.plane_a@;
        let ghost md = *self;
        let mut x: i16 = 0;
        while x <= WIDTH as i16
            invariant
                0 <= x <= WIDTH + 1,
                row_index >= 0,
                md.wf(),
                *self == md,
                gfx_fits(md, start),
                column_index + WIDTH <= i16::MAX,
                vdp.plane_a@.len() == p0.len(),
                forall|k: int| 0 <= k < p0.len() ==> #[trigger] vdp.plane_a@[k] == (if (k % 64 - vram_offset.0) % 64 < x {
                    spec_row_plane(p0, md, column_index as int, row_index as int, vram_offset, start)[k]
                } else {
                    p0[k]
                }),
            decreases WIDTH + 1 - x,
        {
            if column_index + x >= 0 {
                let cell = self.map_cell(column_index + x, row_index, start);
                let a = vram_offset.add_signed((x, 0));
                let addr = a.to_address();
                vdp.set_plane_tiles(Plane::A, addr, &[cell]);
                proof {
                    assert forall|k: int| 0 <= k < p0.len() implies #[trigger] vdp.plane_a@[k] == (if (k % 64 - vram_offset.0) % 64 < x + 1 {
                        spec_row_plane(p0, md, column_index as int, row_index as int, vram_offset, start)[k]
                    } else {
                        p0[k]
                    }) by {
                        lemma_plane_position(k, a.0 as int, a.1 as int);
                        lemma_wrap_step(vram_offset.0 as int, x as int, k % 64);
                    }
                }
            } else {
                proof {
                    assert forall|k: int| 0 <= k < p0.len() implies #[trigger] vdp.plane_a@[k] == (if (k % 64 - vram_offset.0) % 64 < x + 1 {
                        spec_row_plane(p0, md, column_index as int, row_index as int, vram_offset, start)[k]
                    } else {
                        p0[k]
                    }) by {
                        if (k % 64 - vram_offset.0) % 64 == x {
                            assert(column_index + (k % 64 - vram_offset.0) % 64 < 0);
                        }
                    }
                }
            }
            x = x + 1;
        }
        assert(vdp.plane_a@ =~= spec_row_plane(p0, md, column_index as int, row_index as int, vram_offset, start));
    }

    /// The plane cell for map tile (column, row).
    fn map_cell(&self, column: i16, row: i16, start: u16) -> (r: TileFlags)
        requires
            self.wf(),
            gfx_fits(*self, start),
        ensures
            r == spec_map_cell(*self, column as int, row as int, start),
    {
        if column < 0 || row < 0 {
            return TileFlags::new();
        }
        match self.gfx_layer.get(column as usize, row as usize) {
            Some(t) => {
                if t != 0 {
                    proof {
                        let w = self.gfx_layer.width as int;
                        let h = self.gfx_layer.height as int;
                        assert(column + row * w < w * h) by (nonlinear_arith)
                            requires
                                0 <= column < w,
                                0 <= row < h,
                        ;
                        assert(start + self.gfx_layer.data@[column + row * w] <= 65536);
                    }
                    TileFlags::for_tile(start + (t - 1), self.palette)
                } else {
                    TileFlags::new()
                }
            },
            None => TileFlags::new(),
        }
    }
}

} // verus!
