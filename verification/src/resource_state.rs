//! The VRAM tile allocator: which tilesets are loaded and where.
//!
//! Tiles are handed out from position 1 upward. Tilesets loaded with
//! `keep_loaded` must come first; they stay loaded for the rest of the game,
//! while everything loaded after them is dropped by `reset`.
use vstd::prelude::*;

use crate::big_sprite::BigSprite;
use crate::vdp::{spec_write_at, Plane, Tile, TileFlags, Vdp, PLANE_CELLS};

verus! {

/// The status of one tileset.
pub struct Usage {
    pub tiles: Vec<Tile>,
    /// Index into VRAM where this tileset is loaded; 0 when it is not loaded.
    pub start_index: u16,
    /// Whether `reset` unloads the tileset.
    pub evictable: bool,
}

/// A sub-range of a tileset: `len` tiles from `start`.
#[derive(Clone, Copy, Debug, PartialEq, Eq, Structural)]
pub struct TileSlice {
    pub start: usize,
    pub len: usize,
}

/// Sets the VRAM position of one tileset entry.
fn set_start(tiles: &mut Vec<Usage>, i: usize, start: u16)
    requires
        i < old(tiles)@.len(),
    ensures
        final(tiles)@.len() == old(tiles)@.len(),
        final(tiles)@[i as int].start_index == start,
        final(tiles)@[i as int].evictable == old(tiles)@[i as int].evictable,
        final(tiles)@[i as int].tiles@ == old(tiles)@[i as int].tiles@,
        forall|k: int| 0 <= k < old(tiles)@.len() && k != i ==> #[trigger] final(tiles)@[k] == old(tiles)@[k],
{
    let mut u = tiles.remove(i);
    u.start_index = start;
    tiles.insert(i, u);
}

/// Sets the VRAM position and the evictable flag of one tileset entry.
fn set_usage(tiles: &mut Vec<Usage>, i: usize, start: u16, evictable: bool)
    requires
        i < old(tiles)@.len(),
    ensures
        final(tiles)@.len() == old(tiles)@.len(),
        final(tiles)@[i as int].start_index == start,
        final(tiles)@[i as int].evictable == evictable,
        final(tiles)@[i as int].tiles@ == old(tiles)@[i as int].tiles@,
        forall|k: int| 0 <= k < old(tiles)@.len() && k != i ==> #[trigger] final(tiles)@[k] == old(tiles)@[k],
{
    let mut u = tiles.remove(i);
    u.start_index = start;
    u.evictable = evictable;
    tiles.insert(i, u);
}

/// Keeps track of the loaded tilesets and their VRAM positions.
pub struct State {
    tiles: Vec<Usage>,
    next_tile_pos: u16,
    /// First position that is evictable: everything before it survives `reset`.
    first_evictable_pos: u16,
}

impl State {
    /// Number of tilesets.
    pub closed spec fn spec_count(self) -> nat {
        self.tiles@.len()
    }

    /// VRAM position of tileset `i`, 0 when not loaded.
    pub closed spec fn spec_start(self, i: int) -> u16 {
        self.tiles@[i].start_index
    }

    /// Whether tileset `i` is dropped on reset.
    pub closed spec fn spec_evictable(self, i: int) -> bool {
        self.tiles@[i].evictable
    }

    /// The tiles of tileset `i`.
    pub closed spec fn spec_tiles(self, i: int) -> Seq<Tile> {
        self.tiles@[i].tiles@
    }

    /// The next free VRAM position.
    pub closed spec fn spec_next(self) -> u16 {
        self.next_tile_pos
    }

    /// The first VRAM position that `reset` frees.
    pub closed spec fn spec_first_evictable(self) -> u16 {
        self.first_evictable_pos
    }

    /// Positions grow from 1; the kept region precedes the evictable one.
    pub closed spec fn wf(self) -> bool {
        1 <= self.first_evictable_pos <= self.next_tile_pos
    }

    /// Loaded positions start at 1, and the kept tiles come before the
    /// evictable ones: `1 <= spec_first_evictable() <= spec_next()`.
    pub proof fn lemma_positions(self)
        requires
            self.wf(),
        ensures
            1 <= self.spec_first_evictable() <= self.spec_next(),
    {
    }

    /// A state over the given tilesets with nothing loaded.
    pub fn init(tilesets: Vec<Vec<Tile>>) -> (r: State)
        ensures
            r.wf(),
            r.spec_count() == tilesets@.len(),
            r.spec_next() == 1,
            r.spec_first_evictable() == 1,
            forall|i: int| 0 <= i < tilesets@.len() ==> {
                &&& #[trigger] r.spec_start(i) == 0
                &&& !r.spec_evictable(i)
                &&& r.spec_tiles(i) == tilesets@[i]@
            },
    {
        let mut tiles: Vec<Usage> = Vec::new();
        let mut sets = tilesets;
        let ghost orig = sets@;
        let mut rev: Vec<Usage> = Vec::new();
        while sets.len() > 0
            invariant
                sets@.len() + rev@.len() == orig.len(),
                forall|k: int| 0 <= k < sets@.len() ==> #[trigger] sets@[k] == orig[k],
                forall|k: int|
                    0 <= k < rev@.len() ==> {
                        &&& (#[trigger] rev@[k]).start_index == 0
                        &&& !rev@[k].evictable
                        &&& rev@[k].tiles@ == orig[orig.len() - 1 - k]@
                    },
            decreases sets@.len(),
        {
            let t = sets.pop().unwrap();
            rev.push(Usage { tiles: t, start_index: 0, evictable: false });
        }
        while rev.len() > 0
            invariant
                tiles@.len() + rev@.len() == orig.len(),
                forall|k: int|
                    0 <= k < rev@.len() ==> {
                        &&& (#[trigger] rev@[k]).start_index == 0
                        &&& !rev@[k].evictable
                        &&& rev@[k].tiles@ == orig[orig.len() - 1 - k]@
                    },
                forall|k: int|
                    0 <= k < tiles@.len() ==> {
                        &&& (#[trigger] tiles@[k]).start_index == 0
                        &&& !tiles@[k].evictable
                        &&& tiles@[k].tiles@ == orig[k]@
                    },
            decreases rev@.len(),
        {
            let u = rev.pop().unwrap();
            tiles.push(u);
        }
        State { tiles, next_tile_pos: 1, first_evictable_pos: 1 }
    }

    /// Loads tileset `tiles_idx` (or only the slice `tile_slice` of it) into VRAM
    /// and returns its VRAM position. A tileset that is already loaded is not
    /// loaded again. With `keep_loaded` the tileset survives `reset`; such
    /// tilesets must be loaded before any evictable one.
    pub fn load_tiles_to_vram(
        &mut self,
        vdp: &mut Vdp,
        tiles_idx: usize,
        keep_loaded: bool,
        tile_slice: Option<TileSlice>,
    ) -> (r: u16)
        requires
            old(self).wf(),
            tiles_idx < old(self).spec_count(),
            old(self).spec_start(tiles_idx as int) > 0 ==> !(keep_loaded && old(self).spec_evictable(
                tiles_idx as int,
            )),
            old(self).spec_start(tiles_idx as int) == 0 ==> {
                let n = match tile_slice {
                    Some(s) => s.len as int,
                    None => old(self).spec_tiles(tiles_idx as int).len() as int,
                };
                &&& (keep_loaded ==> old(self).spec_next() == old(self).spec_first_evictable())
                &&& (tile_slice is Some ==> tile_slice->0.start + tile_slice->0.len <= old(self).spec_tiles(tiles_idx as int).len())
                &&& n < u16::MAX
                &&& old(self).spec_next() + n <= u16::MAX
            },
        ensures
            final(self).wf(),
            r >= 1,
            final(self).spec_start(tiles_idx as int) == r,
            final(self).spec_count() == old(self).spec_count(),
            forall|i: int| 0 <= i < old(self).spec_count() ==> #[trigger] final(self).spec_tiles(i) == old(self).spec_tiles(i),
            old(self).spec_start(tiles_idx as int) > 0 ==> {
                &&& r == old(self).spec_start(tiles_idx as int)
                &&& *final(self) == *old(self)
                &&& *final(vdp) == *old(vdp)
            },
            old(self).spec_start(tiles_idx as int) == 0 ==> {
                let loaded = match tile_slice {
                    Some(s) => old(self).spec_tiles(tiles_idx as int).subrange(s.start as int, s.start + s.len),
                    None => old(self).spec_tiles(tiles_idx as int),
                };
                &&& r == old(self).spec_next()
                &&& final(self).spec_start(tiles_idx as int) == old(self).spec_next()
                &&& final(self).spec_evictable(tiles_idx as int) == !keep_loaded
                &&& final(self).spec_next() == old(self).spec_next() + loaded.len()
                &&& final(self).spec_first_evictable() == (if keep_loaded {
                    old(self).spec_first_evictable() + loaded.len()
                } else {
                    old(self).spec_first_evictable() as int
                })
                &&& forall|i: int| 0 <= i < old(self).spec_count() && i != tiles_idx ==> {
                    &&& #[trigger] final(self).spec_start(i) == old(self).spec_start(i)
                    &&& final(self).spec_evictable(i) == old(self).spec_evictable(i)
                }
                &&& final(vdp).tiles@ == spec_write_at(old(vdp).tiles@, old(self).spec_next() as int, loaded)
                &&& final(vdp).plane_a == old(vdp).plane_a
                &&& final(vdp).plane_b == old(vdp).plane_b
            },
    {
        let start = self.tiles[tiles_idx].start_index;
        if start > 0 {
            return start;
        }
        let pos = self.next_tile_pos;
        let mut usage = self.tiles.remove(tiles_idx);
        let n: usize;
        match tile_slice {
            Some(slice) => {
                let total = usage.tiles.len();
                assert(slice.start + slice.len <= total);
                let part = vstd::slice::slice_subrange(
                    usage.tiles.as_slice(),
                    slice.start,
                    slice.start + slice.len,
                );
                vdp.set_tiles(pos, part);
                n = slice.len;
            },
            None => {
                vdp.set_tiles(pos, usage.tiles.as_slice());
                n = usage.tiles.len();
            },
        }
        usage.start_index = pos;
        usage.evictable = !keep_loaded;
        self.tiles.insert(tiles_idx, usage);
        self.next_tile_pos = pos + n as u16;
        if keep_loaded {
            self.first_evictable_pos = self.first_evictable_pos + n as u16;
        }
        pos
    }

    /// Loads another slice of an already loaded tileset at its VRAM position.
    pub fn update_tile_slice(&self, vdp: &mut Vdp, tiles_idx: usize, tile_slice: TileSlice)
        requires
            tiles_idx < self.spec_count(),
            self.spec_start(tiles_idx as int) > 0,
            tile_slice.start + tile_slice.len <= self.spec_tiles(tiles_idx as int).len(),
        ensures
            final(vdp).tiles@ == spec_write_at(
                old(vdp).tiles@,
                self.spec_start(tiles_idx as int) as int,
                self.spec_tiles(tiles_idx as int).subrange(
                    tile_slice.start as int,
                    tile_slice.start + tile_slice.len,
                ),
            ),
            final(vdp).plane_a == old(vdp).plane_a,
            final(vdp).plane_b == old(vdp).plane_b,
            final(vdp).sprites == old(vdp).sprites,
            final(vdp).num_sprites == old(vdp).num_sprites,
    {
        let usage = &self.tiles[tiles_idx];
        let total = usage.tiles.len();
        assert(tile_slice.start + tile_slice.len <= total);
        let part = vstd::slice::slice_subrange(
            usage.tiles.as_slice(),
            tile_slice.start,
            tile_slice.start + tile_slice.len,
        );
        vdp.set_tiles(usage.start_index, part);
    }

    /// Unloads every evictable tileset; the kept ones stay where they are.
    pub fn reset(&mut self)
        requires
            old(self).wf(),
        ensures
            final(self).wf(),
            final(self).spec_count() == old(self).spec_count(),
            final(self).spec_next() == old(self).spec_first_evictable(),
            final(self).spec_first_evictable() == old(self).spec_first_evictable(),
            forall|i: int| 0 <= i < old(self).spec_count() ==> {
                &&& #[trigger] final(self).spec_start(i) == (if old(self).spec_evictable(i) {
                    0
                } else {
                    old(self).spec_start(i)
                })
                &&& final(self).spec_evictable(i) == old(self).spec_evictable(i)
                &&& final(self).spec_tiles(i) == old(self).spec_tiles(i)
            },
    {
        let mut i: usize = 0;
        while i < self.tiles.len()
            invariant
                i <= self.tiles@.len(),
                self.tiles@.len() == old(self).tiles@.len(),
                self.next_tile_pos == old(self).next_tile_pos,
                self.first_evictable_pos == old(self).first_evictable_pos,
                forall|k: int| 0 <= k < self.tiles@.len() ==> {
                    &&& (#[trigger] self.tiles@[k]).start_index == (if k < i && old(self).tiles@[k].evictable {
                        0
                    } else {
                        old(self).tiles@[k].start_index
                    })
                    &&& self.tiles@[k].evictable == old(self).tiles@[k].evictable
                    &&& self.tiles@[k].tiles@ == old(self).tiles@[k].tiles@
                },
            decreases self.tiles@.len() - i,
        {
            if self.tiles[i].evictable {
                set_start(&mut self.tiles, i, 0);
            }
            i = i + 1;
        }
        self.next_tile_pos = self.first_evictable_pos;
    }

    /// Fills the given planes with empty cells.
    pub fn clear_screen(vdp: &mut Vdp, planes: &[Plane])
        requires
            old(vdp).wf(),
        ensures
            final(vdp).wf(),
            final(vdp).tiles == old(vdp).tiles,
            forall|k: int|
                0 <= k < PLANE_CELLS ==> #[trigger] final(vdp).plane_a@[k] == (if planes@.contains(
                    Plane::A,
                ) {
                    TileFlags(0)
                } else {
                    old(vdp).plane_a@[k]
                }),
            forall|k: int|
                0 <= k < PLANE_CELLS ==> #[trigger] final(vdp).plane_b@[k] == (if planes@.contains(
                    Plane::B,
                ) {
                    TileFlags(0)
                } else {
                    old(vdp).plane_b@[k]
                }),
    {
        let empty = vec![TileFlags(0); PLANE_CELLS];
        let mut i: usize = 0;
        while i < planes.len()
            invariant
                i <= planes@.len(),
                empty@.len() == PLANE_CELLS,
                forall|k: int| 0 <= k < PLANE_CELLS ==> #[trigger] empty@[k] == TileFlags(0),
                vdp.wf(),
                vdp.tiles == old(vdp).tiles,
                forall|k: int|
                    0 <= k < PLANE_CELLS ==> #[trigger] vdp.plane_a@[k] == (if planes@.take(
                        i as int,
                    ).contains(Plane::A) {
                        TileFlags(0)
                    } else {
                        old(vdp).plane_a@[k]
                    }),
                forall|k: int|
                    0 <= k < PLANE_CELLS ==> #[trigger] vdp.plane_b@[k] == (if planes@.take(
                        i as int,
                    ).contains(Plane::B) {
                        TileFlags(0)
                    } else {
                        old(vdp).plane_b@[k]
                    }),
            decreases planes@.len() - i,
        {
            let p = planes[i];
            vdp.set_plane_tiles(p, 0, empty.as_slice());
            proof {
                let t1 = planes@.take(i + 1);
                let t0 = planes@.take(i as int);
                assert(t1 =~= t0.push(p));
                assert forall|q: Plane| t1.contains(q) <==> (t0.contains(q) || q == p) by {
                    if t1.contains(q) {
                        let j = choose|j: int| 0 <= j < t1.len() && t1[j] == q;
                        if j < t0.len() {
                            assert(t0[j] == q);
                        }
                    }
                    if t0.contains(q) {
                        let j = choose|j: int| 0 <= j < t0.len() && t0[j] == q;
                        assert(t1[j] == q);
                    }
                    if q == p {
                        assert(t1[i as int] == q);
                    }
                }
            }
            i = i + 1;
        }
        assert(planes@.take(planes@.len() as int) =~= planes@);
    }

    /// Hands a singleton sprite's VRAM slot over to another tileset of the same
    /// dimensions, usage included: the new tileset takes the old one's VRAM
    /// position and evictable flag (so `reset` unloads it exactly when it
    /// would have unloaded the old one), and the old tileset is unloaded. The
    /// new tiles are drawn on the sprite's next frame change.
    pub fn switch_sprite_tiles(&mut self, sprite: &mut BigSprite, new_tiles_idx: usize)
        requires
            old(sprite).singleton,
            old(sprite).tiles_idx < old(self).spec_count(),
            new_tiles_idx < old(self).spec_count(),
        ensures
            final(self).spec_count() == old(self).spec_count(),
            final(self).spec_next() == old(self).spec_next(),
            final(self).spec_first_evictable() == old(self).spec_first_evictable(),
            final(self).spec_start(new_tiles_idx as int) == old(self).spec_start(old(sprite).tiles_idx as int),
            old(sprite).tiles_idx != new_tiles_idx ==> final(self).spec_start(old(sprite).tiles_idx as int) == 0,
            forall|i: int|
                0 <= i < old(self).spec_count() && i != new_tiles_idx && i != old(sprite).tiles_idx ==> #[trigger] final(self).spec_start(i)
                    == old(self).spec_start(i),
            final(self).spec_evictable(new_tiles_idx as int) == old(self).spec_evictable(old(sprite).tiles_idx as int),
            forall|i: int| 0 <= i < old(self).spec_count() && i != new_tiles_idx ==>
                #[trigger] final(self).spec_evictable(i) == old(self).spec_evictable(i),
            forall|i: int| 0 <= i < old(self).spec_count() ==> #[trigger] final(self).spec_tiles(i) == old(self).spec_tiles(i),
            *final(sprite) == (BigSprite { tiles_idx: new_tiles_idx, ..*old(sprite) }),
    {
        let old_idx = sprite.tiles_idx;
        let start_index = self.tiles[old_idx].start_index;
        let evictable = self.tiles[old_idx].evictable;
        set_start(&mut self.tiles, old_idx, 0);
        set_usage(&mut self.tiles, new_tiles_idx, start_index, evictable);
        sprite.tiles_idx = new_tiles_idx;
    }
}

} // verus!
