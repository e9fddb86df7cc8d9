//! The video display processor, sprite renderer and controllers as the game
//! logic sees them: plain in-memory state that the hardware layer mirrors.
use vstd::prelude::*;

verus! {

/// The two scroll planes and the window plane.
#[derive(Clone, Copy, Debug, PartialEq, Eq, Structural)]
pub enum Plane {
    A,
    B,
    Window,
}

/// The four palette lines.
#[derive(Clone, Copy, Debug, PartialEq, Eq, Structural)]
pub enum Palette {
    A,
    B,
    C,
    D,
}

pub open spec fn spec_palette_index(p: Palette) -> nat {
    match p {
        Palette::A => 0,
        Palette::B => 1,
        Palette::C => 2,
        Palette::D => 3,
    }
}

impl Palette {
    /// Index of the palette line.
    pub fn index(self) -> (r: usize)
        ensures
            r == spec_palette_index(self),
            r < 4,
    {
        match self {
            Palette::A => 0,
            Palette::B => 1,
            Palette::C => 2,
            Palette::D => 3,
        }
    }
}

/// Size of a scroll plane in cells.
#[derive(Clone, Copy, Debug, PartialEq, Eq, Structural)]
pub enum ScrollSize {
    Cell32,
    Cell64,
    Cell128,
}

impl ScrollSize {
    /// Number of cells along the axis.
    pub fn cells(self) -> (r: u16)
        ensures
            r == match self {
                ScrollSize::Cell32 => 32u16,
                ScrollSize::Cell64 => 64u16,
                ScrollSize::Cell128 => 128u16,
            },
    {
        match self {
            ScrollSize::Cell32 => 32,
            ScrollSize::Cell64 => 64,
            ScrollSize::Cell128 => 128,
        }
    }
}

/// A plane cell: bit 15 priority, bits 13-14 palette, bit 12 vertical flip,
/// bit 11 horizontal flip, bits 0-10 tile index.
#[derive(Clone, Copy, Debug, PartialEq, Eq, Structural)]
pub struct TileFlags(pub u16);

impl TileFlags {
    /// An empty cell (tile 0, palette A, no flags).
    pub fn new() -> (r: Self)
        ensures
            r.0 == 0,
    {
        TileFlags(0)
    }

    /// A cell showing `tile` in palette `palette`.
    pub fn for_tile(tile: u16, palette: Palette) -> (r: Self)
        ensures
            r.0 == (tile & 0x7FFu16) | ((spec_palette_index(palette) as u16) << 13u16),
    {
        let p = palette.index() as u16;
        TileFlags((tile & 0x7FF) | (p << 13u16))
    }

    /// The tile index.
    pub fn tile_index(&self) -> (r: u16)
        ensures
            r == self.0 & 0x7FFu16,
            r < 0x800,
    {
        let v = self.0;
        assert(v & 0x7FFu16 < 0x800) by (bit_vector);
        v & 0x7FF
    }

    /// The palette line.
    pub fn palette(&self) -> (r: u16)
        ensures
            r == (self.0 >> 13u16) & 3u16,
    {
        (self.0 >> 13u16) & 3
    }

    /// Replaces the tile index (keeping the other bits).
    pub fn set_tile_index(&mut self, tile: u16)
        ensures
            final(self).0 == (old(self).0 & 0xF800u16) | (tile & 0x7FFu16),
    {
        self.0 = (self.0 & 0xF800) | (tile & 0x7FF);
    }

    /// Sets or clears vertical flipping.
    pub fn set_flip_v(&mut self, on: bool)
        ensures
            final(self).0 == spec_with_bit(old(self).0, 0x1000u16, on),
    {
        self.0 = with_bit(self.0, 0x1000, on);
    }

    /// Sets or clears horizontal flipping.
    pub fn set_flip_h(&mut self, on: bool)
        ensures
            final(self).0 == spec_with_bit(old(self).0, 0x0800u16, on),
    {
        self.0 = with_bit(self.0, 0x0800, on);
    }

    /// Sets or clears priority.
    pub fn set_priority(&mut self, on: bool)
        ensures
            final(self).0 == spec_with_bit(old(self).0, 0x8000u16, on),
    {
        self.0 = with_bit(self.0, 0x8000, on);
    }

    /// Whether the cell is drawn in front of sprites without priority.
    pub fn priority(&self) -> (r: bool)
        ensures
            r == (self.0 & 0x8000u16 != 0),
    {
        self.0 & 0x8000 != 0
    }
}

/// Sets or clears the bits of `mask` in `v`.
pub open spec fn spec_with_bit(v: u16, mask: u16, on: bool) -> u16 {
    if on { v | mask } else { v & !mask }
}

/// Sets or clears the bits of `mask` in `v`.
pub fn with_bit(v: u16, mask: u16, on: bool) -> (r: u16)
    ensures
        r == spec_with_bit(v, mask, on),
{
    if on { v | mask } else { v & !mask }
}

/// A cell with the given flags applied.
pub open spec fn spec_apply_flags(f: u16, tile: u16, flip_v: bool, flip_h: bool, priority: bool) -> u16 {
    spec_with_bit(
        spec_with_bit(spec_with_bit((f & 0xF800u16) | (tile & 0x7FFu16), 0x1000u16, flip_v), 0x0800u16, flip_h),
        0x8000u16,
        priority,
    )
}

/// One 8x8 tile of 4-bit pixels.
#[derive(Clone, Copy, Debug)]
pub struct Tile(pub [u8; 32]);

/// The sixteen hardware sprite sizes, in tiles (width x height).
#[derive(Clone, Copy, Debug, PartialEq, Eq, Structural)]
pub enum SpriteSize {
    Size1x1,
    Size1x2,
    Size1x3,
    Size1x4,
    Size2x1,
    Size2x2,
    Size2x3,
    Size2x4,
    Size3x1,
    Size3x2,
    Size3x3,
    Size3x4,
    Size4x1,
    Size4x2,
    Size4x3,
    Size4x4,
}

pub open spec fn spec_size_w(s: SpriteSize) -> u16 {
    match s {
        SpriteSize::Size1x1 | SpriteSize::Size1x2 | SpriteSize::Size1x3 | SpriteSize::Size1x4 => 1,
        SpriteSize::Size2x1 | SpriteSize::Size2x2 | SpriteSize::Size2x3 | SpriteSize::Size2x4 => 2,
        SpriteSize::Size3x1 | SpriteSize::Size3x2 | SpriteSize::Size3x3 | SpriteSize::Size3x4 => 3,
        _ => 4,
    }
}

pub open spec fn spec_size_h(s: SpriteSize) -> u16 {
    match s {
        SpriteSize::Size1x1 | SpriteSize::Size2x1 | SpriteSize::Size3x1 | SpriteSize::Size4x1 => 1,
        SpriteSize::Size1x2 | SpriteSize::Size2x2 | SpriteSize::Size3x2 | SpriteSize::Size4x2 => 2,
        SpriteSize::Size1x3 | SpriteSize::Size2x3 | SpriteSize::Size3x3 | SpriteSize::Size4x3 => 3,
        _ => 4,
    }
}

impl SpriteSize {
    /// Width in tiles.
    pub fn w(self) -> (r: u16)
        ensures
            r == spec_size_w(self),
            1 <= r <= 4,
    {
        match self {
            SpriteSize::Size1x1 | SpriteSize::Size1x2 | SpriteSize::Size1x3 | SpriteSize::Size1x4 => 1,
            SpriteSize::Size2x1 | SpriteSize::Size2x2 | SpriteSize::Size2x3 | SpriteSize::Size2x4 => 2,
            SpriteSize::Size3x1 | SpriteSize::Size3x2 | SpriteSize::Size3x3 | SpriteSize::Size3x4 => 3,
            _ => 4,
        }
    }

    /// Height in tiles.
    pub fn h(self) -> (r: u16)
        ensures
            r == spec_size_h(self),
            1 <= r <= 4,
    {
        match self {
            SpriteSize::Size1x1 | SpriteSize::Size2x1 | SpriteSize::Size3x1 | SpriteSize::Size4x1 => 1,
            SpriteSize::Size1x2 | SpriteSize::Size2x2 | SpriteSize::Size3x2 | SpriteSize::Size4x2 => 2,
            SpriteSize::Size1x3 | SpriteSize::Size2x3 | SpriteSize::Size3x3 | SpriteSize::Size4x3 => 3,
            _ => 4,
        }
    }
}

/// A hardware sprite: position (128 = left/top screen edge), size, link and cell flags.
#[derive(Clone, Copy, Debug, PartialEq, Eq, Structural)]
pub struct Sprite {
    pub y: u16,
    pub size: SpriteSize,
    pub link: u8,
    pub flags: TileFlags,
    pub x: u16,
}

impl Sprite {
    /// A 1x1 sprite at (0, 0) showing tile 0.
    pub fn const_default() -> (r: Self)
        ensures
            r == (Sprite { y: 0, size: SpriteSize::Size1x1, link: 0, flags: TileFlags(0), x: 0 }),
    {
        Sprite { y: 0, size: SpriteSize::Size1x1, link: 0, flags: TileFlags(0), x: 0 }
    }

    /// Width in tiles.
    pub fn w(&self) -> (r: u16)
        ensures
            r == spec_size_w(self.size),
    {
        self.size.w()
    }

    /// Height in tiles.
    pub fn h(&self) -> (r: u16)
        ensures
            r == spec_size_h(self.size),
    {
        self.size.h()
    }
}

/// Number of tiles in VRAM.
pub const VRAM_TILES: usize = 0x800;

/// Number of cells in a plane.
pub const PLANE_CELLS: usize = 4096;

/// Number of hardware sprites.
pub const MAX_SPRITES: usize = 80;

/// Error of the sprite renderer.
#[derive(Clone, Copy, Debug, PartialEq, Eq, Structural)]
pub enum Error {
    BufferSizeExceeded,
}

/// Contents of VRAM, the planes, the palettes and the sprite table.
pub struct Vdp {
    pub tiles: Vec<Tile>,
    pub plane_a: Vec<TileFlags>,
    pub plane_b: Vec<TileFlags>,
    pub window: Vec<TileFlags>,
    pub palettes: Vec<[u16; 16]>,
    pub scroll_size: (ScrollSize, ScrollSize),
    pub sprites: Vec<Sprite>,
    pub num_sprites: usize,
}

/// `target` after writing `values` from position `first`, writes past the end dropped.
pub open spec fn spec_write_at<T>(target: Seq<T>, first: int, values: Seq<T>) -> Seq<T> {
    Seq::new(
        target.len(),
        |k: int|
            if first <= k < first + values.len() {
                values[k - first]
            } else {
                target[k]
            },
    )
}

/// Writes `values` into `target` from position `first`, dropping writes past the end.
fn write_at<T: Copy>(target: &mut Vec<T>, first: usize, values: &[T])
    ensures
        final(target)@ == spec_write_at(old(target)@, first as int, values@),
{
    let mut i: usize = 0;
    while i < values.len()
        invariant
            i <= values@.len(),
            target@.len() == old(target)@.len(),
            forall|k: int|
                0 <= k < target@.len() ==> #[trigger] target@[k] == (if first <= k < first + i {
                    values@[k - first]
                } else {
                    old(target)@[k]
                }),
        decreases values@.len() - i,
    {
        if first < target.len() && i < target.len() - first {
            target.set(first + i, values[i]);
        }
        i = i + 1;
    }
    assert(target@ =~= spec_write_at(old(target)@, first as int, values@));
}

impl Vdp {
    /// The sizes the tables have on the hardware.
    pub open spec fn wf(self) -> bool {
        &&& self.tiles@.len() == VRAM_TILES
        &&& self.plane_a@.len() == PLANE_CELLS
        &&& self.plane_b@.len() == PLANE_CELLS
        &&& self.window@.len() == PLANE_CELLS
        &&& self.palettes@.len() == 4
        &&& self.sprites@.len() == MAX_SPRITES
        &&& self.num_sprites <= MAX_SPRITES
    }

    /// Blank VRAM, planes and palettes; 32x32 planes; no sprites.
    pub fn new() -> (r: Self)
        ensures
            r.wf(),
            r.num_sprites == 0,
            forall|i: int| 0 <= i < PLANE_CELLS ==> #[trigger] r.plane_a@[i] == TileFlags(0),
            forall|i: int| 0 <= i < PLANE_CELLS ==> #[trigger] r.plane_b@[i] == TileFlags(0),
            r.scroll_size == (ScrollSize::Cell32, ScrollSize::Cell32),
    {
        Vdp {
            tiles: vec![Tile([0u8; 32]); VRAM_TILES],
            plane_a: vec![TileFlags(0); PLANE_CELLS],
            plane_b: vec![TileFlags(0); PLANE_CELLS],
            window: vec![TileFlags(0); PLANE_CELLS],
            palettes: vec![[0u16; 16]; 4],
            scroll_size: (ScrollSize::Cell32, ScrollSize::Cell32),
            sprites: vec![Sprite::const_default(); MAX_SPRITES],
            num_sprites: 0,
        }
    }

    /// Writes tiles into VRAM from `start_idx`, dropping those past the end.
    pub fn set_tiles(&mut self, start_idx: u16, tiles: &[Tile])
        ensures
            final(self).tiles@ == spec_write_at(old(self).tiles@, start_idx as int, tiles@),
            final(self).plane_a == old(self).plane_a,
            final(self).plane_b == old(self).plane_b,
            final(self).window == old(self).window,
            final(self).palettes == old(self).palettes,
            final(self).scroll_size == old(self).scroll_size,
            final(self).sprites == old(self).sprites,
            final(self).num_sprites == old(self).num_sprites,
    {
        write_at(&mut self.tiles, start_idx as usize, tiles);
    }

    /// Writes cells into a plane from `first_index`, dropping those past the end.
    pub fn set_plane_tiles(&mut self, plane: Plane, first_index: u16, values: &[TileFlags])
        ensures
            final(self).plane_a@ == (if plane == Plane::A {
                spec_write_at(old(self).plane_a@, first_index as int, values@)
            } else {
                old(self).plane_a@
            }),
            final(self).plane_b@ == (if plane == Plane::B {
                spec_write_at(old(self).plane_b@, first_index as int, values@)
            } else {
                old(self).plane_b@
            }),
            final(self).window@ == (if plane == Plane::Window {
                spec_write_at(old(self).window@, first_index as int, values@)
            } else {
                old(self).window@
            }),
            final(self).tiles == old(self).tiles,
            final(self).palettes == old(self).palettes,
            final(self).scroll_size == old(self).scroll_size,
            final(self).sprites == old(self).sprites,
            final(self).num_sprites == old(self).num_sprites,
    {
        match plane {
            Plane::A => write_at(&mut self.plane_a, first_index as usize, values),
            Plane::B => write_at(&mut self.plane_b, first_index as usize, values),
            Plane::Window => write_at(&mut self.window, first_index as usize, values),
        }
    }

    /// The screen resolution in pixels.
    pub fn resolution(&self) -> (r: (u16, u16))
        ensures
            r == (320u16, 224u16),
    {
        (320, 224)
    }

    /// Sets the plane size.
    pub fn set_plane_size(&mut self, x: ScrollSize, y: ScrollSize)
        ensures
            final(self).scroll_size == (x, y),
            final(self).tiles == old(self).tiles,
            final(self).plane_a == old(self).plane_a,
            final(self).plane_b == old(self).plane_b,
            final(self).window == old(self).window,
            final(self).palettes == old(self).palettes,
            final(self).sprites == old(self).sprites,
            final(self).num_sprites == old(self).num_sprites,
    {
        self.scroll_size = (x, y);
    }

    /// Loads a palette line.
    pub fn set_palette(&mut self, index: Palette, palette: &[u16; 16])
        requires
            old(self).palettes@.len() == 4,
        ensures
            final(self).palettes@ == old(self).palettes@.update(spec_palette_index(index) as int, *palette),
            final(self).tiles == old(self).tiles,
            final(self).plane_a == old(self).plane_a,
            final(self).plane_b == old(self).plane_b,
            final(self).window == old(self).window,
            final(self).scroll_size == old(self).scroll_size,
            final(self).sprites == old(self).sprites,
            final(self).num_sprites == old(self).num_sprites,
    {
        let i = index.index();
        self.palettes.set(i, *palette);
    }
}

/// The sprite list being built for the next frame.
pub struct Renderer {
    pub num_sprites: usize,
    pub sprites: Vec<Sprite>,
}

impl Renderer {
    pub open spec fn wf(self) -> bool {
        self.sprites@.len() == MAX_SPRITES && self.num_sprites <= MAX_SPRITES
    }

    /// The sprites added since the last clear.
    pub open spec fn spec_added(self) -> Seq<Sprite> {
        self.sprites@.take(self.num_sprites as int)
    }

    /// An empty sprite list.
    pub fn new() -> (r: Self)
        ensures
            r.wf(),
            r.num_sprites == 0,
    {
        Renderer { num_sprites: 0, sprites: vec![Sprite::const_default(); MAX_SPRITES] }
    }

    /// Empties the sprite list.
    pub fn clear(&mut self)
        ensures
            final(self).num_sprites == 0,
            final(self).sprites == old(self).sprites,
    {
        self.num_sprites = 0;
    }

    /// Appends a sprite; fails when the list is full.
    pub fn add_sprite(&mut self, sprite: Sprite) -> (r: Result<(), Error>)
        requires
            old(self).wf(),
        ensures
            final(self).wf(),
            old(self).num_sprites < MAX_SPRITES <==> r is Ok,
            r is Ok ==> final(self).spec_added() == old(self).spec_added().push(sprite),
            r is Ok ==> final(self).num_sprites == old(self).num_sprites + 1,
            r is Err ==> *final(self) == *old(self),
    {
        if self.num_sprites < self.sprites.len() {
            self.sprites.set(self.num_sprites, sprite);
            self.num_sprites = self.num_sprites + 1;
            assert(self.spec_added() =~= old(self).spec_added().push(sprite));
            Ok(())
        } else {
            Err(Error::BufferSizeExceeded)
        }
    }

    /// Copies the sprite list into the VDP's sprite table.
    pub fn render(&self, vdp: &mut Vdp)
        requires
            self.wf(),
            old(vdp).wf(),
        ensures
            final(vdp).wf(),
            final(vdp).num_sprites == self.num_sprites,
            final(vdp).sprites@.take(self.num_sprites as int) == self.spec_added(),
            final(vdp).tiles == old(vdp).tiles,
            final(vdp).plane_a == old(vdp).plane_a,
            final(vdp).plane_b == old(vdp).plane_b,
    {
        vdp.num_sprites = self.num_sprites;
        let mut i: usize = 0;
        while i < self.num_sprites
            invariant
                self.wf(),
                vdp.wf(),
                i <= self.num_sprites,
                vdp.num_sprites == self.num_sprites,
                vdp.tiles == old(vdp).tiles,
                vdp.plane_a == old(vdp).plane_a,
                vdp.plane_b == old(vdp).plane_b,
                forall|k: int| 0 <= k < i ==> #[trigger] vdp.sprites@[k] == self.sprites@[k],
            decreases self.num_sprites - i,
        {
            vdp.sprites.set(i, self.sprites[i]);
            i = i + 1;
        }
        assert(vdp.sprites@.take(self.num_sprites as int) =~= self.spec_added());
    }
}

/// Controller buttons.
#[derive(Clone, Copy, Debug, PartialEq, Eq, Structural)]
pub enum Button {
    Up,
    Down,
    Left,
    Right,
    A,
    B,
    C,
    Start,
    X,
    Y,
    Z,
    Mode,
}

pub open spec fn spec_button_index(b: Button) -> u16 {
    match b {
        Button::Up => 0,
        Button::Down => 1,
        Button::Left => 2,
        Button::Right => 3,
        Button::A => 4,
        Button::B => 5,
        Button::C => 6,
        Button::Start => 7,
        Button::X => 8,
        Button::Y => 9,
        Button::Z => 10,
        Button::Mode => 11,
    }
}

/// The bit of a button in a button set.
pub open spec fn spec_button_bit(b: Button) -> u16 {
    1u16 << spec_button_index(b)
}

/// Whether button `b` is in the button set `set`.
pub open spec fn has_button(set: u16, b: Button) -> bool {
    set & spec_button_bit(b) != 0
}

/// The bit of a button in a button set.
pub fn button_bit(b: Button) -> (r: u16)
    ensures
        r == spec_button_bit(b),
{
    let i: u16 = match b {
        Button::Up => 0,
        Button::Down => 1,
        Button::Left => 2,
        Button::Right => 3,
        Button::A => 4,
        Button::B => 5,
        Button::C => 6,
        Button::Start => 7,
        Button::X => 8,
        Button::Y => 9,
        Button::Z => 10,
        Button::Mode => 11,
    };
    1u16 << i
}

/// The buttons of one controller: held, newly pressed this frame, and pressed
/// since the last frame (which become "newly pressed" on the next update).
#[derive(Clone, Copy, Debug, PartialEq, Eq, Structural)]
pub struct ControllerState {
    pub pressed: u16,
    pub just_pressed: u16,
    pub pending_just_pressed: u16,
    pub is_6button: bool,
}

/// A six-button pad with no button held.
pub open spec fn spec_idle_controller() -> ControllerState {
    ControllerState { pressed: 0, just_pressed: 0, pending_just_pressed: 0, is_6button: true }
}

impl ControllerState {
    /// No button held, a six-button pad.
    pub fn new() -> (r: Self)
        ensures
            r == spec_idle_controller(),
    {
        ControllerState { pressed: 0, just_pressed: 0, pending_just_pressed: 0, is_6button: true }
    }

    pub fn is_6button(&self) -> (r: bool)
        ensures
            r == self.is_6button,
    {
        self.is_6button
    }

    /// Whether `btn` is held.
    pub fn is_pressed(&self, btn: Button) -> (r: bool)
        ensures
            r == has_button(self.pressed, btn),
    {
        self.pressed & button_bit(btn) != 0
    }

    /// Whether `btn` went down this frame.
    pub fn just_pressed(&self, btn: Button) -> (r: bool)
        ensures
            r == has_button(self.just_pressed, btn),
    {
        self.just_pressed & button_bit(btn) != 0
    }
}

/// A controller after pressing (or releasing) a button.
pub open spec fn spec_after_press(o: ControllerState, btn: Button, pressed: bool) -> ControllerState {
    if pressed {
        ControllerState {
            pressed: o.pressed | spec_button_bit(btn),
            pending_just_pressed: o.pending_just_pressed | spec_button_bit(btn),
            ..o
        }
    } else {
        ControllerState { pressed: o.pressed & !spec_button_bit(btn), ..o }
    }
}

/// A controller with its newly pressed buttons forgotten.
pub open spec fn spec_forget_presses(o: ControllerState) -> ControllerState {
    ControllerState { just_pressed: 0, pending_just_pressed: 0, ..o }
}

/// A controller at the start of the next frame.
pub open spec fn spec_next_frame(o: ControllerState) -> ControllerState {
    ControllerState { just_pressed: o.pending_just_pressed, pending_just_pressed: 0, ..o }
}

/// Number of controller ports.
pub const CONTROLLER_PORTS: usize = 4;

/// The four controller ports.
pub struct Controllers {
    pub states: Vec<ControllerState>,
}

impl Controllers {
    pub open spec fn wf(self) -> bool {
        self.states@.len() == CONTROLLER_PORTS
    }

    /// Four idle six-button pads.
    pub fn new() -> (r: Self)
        ensures
            r.wf(),
            forall|i: int| 0 <= i < CONTROLLER_PORTS ==> #[trigger] r.states@[i] == spec_idle_controller(),
    {
        Controllers { states: vec![ControllerState::new(); CONTROLLER_PORTS] }
    }

    /// Presses or releases a button; a press becomes "newly pressed" on the next update.
    pub fn set_pressed(&mut self, idx: usize, btn: Button, pressed: bool)
        ensures
            final(self).states@.len() == old(self).states@.len(),
            forall|i: int|
                0 <= i < old(self).states@.len() && i != idx ==> #[trigger] final(self).states@[i]
                    == old(self).states@[i],
            idx < old(self).states@.len() ==> final(self).states@[idx as int] == spec_after_press(
                old(self).states@[idx as int],
                btn,
                pressed,
            ),
    {
        if idx < self.states.len() {
            let mut s = self.states[idx];
            let bit = button_bit(btn);
            if pressed {
                s.pressed = s.pressed | bit;
                s.pending_just_pressed = s.pending_just_pressed | bit;
            } else {
                s.pressed = s.pressed & !bit;
            }
            self.states.set(idx, s);
        }
    }

    /// Forgets newly pressed buttons of a controller.
    pub fn clear_just_pressed(&mut self, idx: usize)
        ensures
            final(self).states@.len() == old(self).states@.len(),
            forall|i: int|
                0 <= i < old(self).states@.len() && i != idx ==> #[trigger] final(self).states@[i]
                    == old(self).states@[i],
            idx < old(self).states@.len() ==> final(self).states@[idx as int] == spec_forget_presses(
                old(self).states@[idx as int],
            ),
    {
        if idx < self.states.len() {
            let mut s = self.states[idx];
            s.just_pressed = 0;
            s.pending_just_pressed = 0;
            self.states.set(idx, s);
        }
    }

    /// The state of a controller port.
    pub fn controller_state(&self, controller_idx: usize) -> (r: Option<&ControllerState>)
        ensures
            controller_idx < self.states@.len() <==> r is Some,
            r matches Some(s) ==> *s == self.states@[controller_idx as int],
    {
        if controller_idx < self.states.len() {
            Some(&self.states[controller_idx])
        } else {
            None
        }
    }

    /// Starts a new frame: the buttons pressed since the last frame become newly pressed.
    pub fn update(&mut self)
        ensures
            final(self).states@.len() == old(self).states@.len(),
            forall|i: int|
                0 <= i < old(self).states@.len() ==> #[trigger] final(self).states@[i]
                    == spec_next_frame(old(self).states@[i]),
    {
        let mut i: usize = 0;
        while i < self.states.len()
            invariant
                i <= self.states@.len(),
                self.states@.len() == old(self).states@.len(),
                forall|k: int|
                    0 <= k < self.states@.len() ==> #[trigger] self.states@[k] == (if k < i {
                        spec_next_frame(old(self).states@[k])
                    } else {
                        old(self).states@[k]
                    }),
            decreases self.states@.len() - i,
        {
            let mut s = self.states[i];
            s.just_pressed = s.pending_just_pressed;
            s.pending_just_pressed = 0;
            self.states.set(i, s);
            i = i + 1;
        }
    }
}

/// A hardware sprite coordinate (the screen starting at 128) as a tile
/// coordinate: the 16-bit difference to 128, read as a signed number, divided
/// by 8 rounding toward zero.
pub open spec fn spec_tile_pos(v: u16) -> int {
    let w = if v >= 128 { v - 128 } else { v + 65536 - 128 };
    let s = if w >= 32768 { w - 65536 } else { w };
    if s >= 0 { s / 8 } else { -((-s) / 8) }
}

/// The tile coordinate of a hardware sprite coordinate (see `spec_tile_pos`).
fn tile_pos(v: u16) -> (r: i16)
    ensures
        r == spec_tile_pos(v),
{
    let w: u16 = v.wrapping_sub(128);
    if w < 32768 {
        (w / 8) as i16
    } else {
        let m: u16 = (65535 - w) + 1;
        -((m / 8) as i16)
    }
}

/// The letter a hardware sprite shows in the text picture of the screen:
/// `P` for a tile of 1 to 127 in palette line 0 (the player), `i` for other
/// palette-0 tiles, `E` for the other palette lines.
pub open spec fn spec_sprite_symbol(s: Sprite) -> char {
    let palette = (s.flags.0 >> 13u16) & 3u16;
    let tile = s.flags.0 & 0x7FFu16;
    if palette == 0 && tile > 0 && tile < 128 {
        'P'
    } else if palette == 0 {
        'i'
    } else {
        'E'
    }
}

/// Whether sprite `s` shows at text cell (x, y) of a picture `width` by
/// `height` cells wide (the bounds compared as 16-bit numbers).
pub open spec fn spec_sprite_covers(s: Sprite, x: int, y: int, width: usize, height: usize) -> bool {
    let xp = spec_tile_pos(s.x);
    let yp = spec_tile_pos(s.y);
    &&& xp <= x < xp + spec_size_w(s.size)
    &&& yp <= y < yp + spec_size_h(s.size)
    &&& x < #[verifier::truncate] (width as i16)
    &&& y < #[verifier::truncate] (height as i16)
}

/// The letter of the last of the first `n` sprites that shows at (x, y).
pub open spec fn spec_top_sprite(sprites: Seq<Sprite>, n: int, x: int, y: int, width: usize, height: usize) -> Option<char>
    decreases n,
{
    if n <= 0 {
        None
    } else if spec_sprite_covers(sprites[n - 1], x, y, width, height) {
        Some(spec_sprite_symbol(sprites[n - 1]))
    } else {
        spec_top_sprite(sprites, n - 1, x, y, width, height)
    }
}

/// Text cell (x, y) of the picture of the screen: the letter of the last
/// sprite over it, else `.` where plane A shows a tile other than 0, else a
/// space.
pub open spec fn spec_ascii_cell(v: Vdp, width: usize, height: usize, x: int, y: int) -> char {
    match spec_top_sprite(v.sprites@, v.num_sprites as int, x, y, width, height) {
        Some(c) => c,
        None => {
            let idx = y * (match v.scroll_size.0 {
                ScrollSize::Cell32 => 32int,
                ScrollSize::Cell64 => 64,
                ScrollSize::Cell128 => 128,
            }) + x;
            if idx < v.plane_a@.len() && v.plane_a@[idx].0 & 0x7FFu16 != 0 {
                '.'
            } else {
                ' '
            }
        },
    }
}

/// The picture of the screen as text: `height` lines of `width` cells
/// (see `spec_ascii_cell`), each ended by a line break.
pub open spec fn spec_render_ascii(v: Vdp, width: usize, height: usize) -> Seq<char> {
    Seq::new(
        ((width + 1) * height) as nat,
        |k: int|
            {
                let x = k % (width + 1);
                let y = k / (width + 1);
                if x == width {
                    '\n'
                } else {
                    spec_ascii_cell(v, width, height, x, y)
                }
            },
    )
}

/// `String::push`: appends a character at the end of the string.
#[verifier::external_body]
fn string_push(s: &mut String, c: char)
    ensures
        final(s)@ == old(s)@.push(c),
{
    s.push(c);
}

impl Vdp {
    /// Renders plane A and the sprites as text, `height` lines of `width`
    /// characters (see `spec_render_ascii`).
    pub fn render_ascii(&self, width: usize, height: usize) -> (r: String)
        requires
            self.wf(),
            height * 128 + width <= usize::MAX,
            (width + 1) * height <= usize::MAX,
        ensures
            r@ == spec_render_ascii(*self, width, height),
    {
        let cells = self.scroll_size.0.cells() as usize;
        let ghost full = spec_render_ascii(*self, width, height);
        let mut out = String::new();
        let mut y: usize = 0;
        while y < height
            invariant
                self.wf(),
                height * 128 + width <= usize::MAX,
                (width + 1) * height <= usize::MAX,
                full == spec_render_ascii(*self, width, height),
                cells == (match self.scroll_size.0 {
                    ScrollSize::Cell32 => 32int,
                    ScrollSize::Cell64 => 64,
                    ScrollSize::Cell128 => 128,
                }),
                y <= height,
                out@ == full.take(y * (width + 1)),
            decreases height - y,
        {
            proof {
                assert(y * (width + 1) + width + 1 <= (width + 1) * height) by (nonlinear_arith)
                    requires
                        y < height,
                ;
                assert(y * cells + width <= height * 128 + width) by (nonlinear_arith)
                    requires
                        y < height,
                        cells <= 128,
                ;
            }
            let mut x: usize = 0;
            while x < width
                invariant
                    self.wf(),
                    full == spec_render_ascii(*self, width, height),
                    cells == (match self.scroll_size.0 {
                        ScrollSize::Cell32 => 32int,
                        ScrollSize::Cell64 => 64,
                        ScrollSize::Cell128 => 128,
                    }),
                    y < height,
                    x <= width,
                    y * (width + 1) + width + 1 <= (width + 1) * height,
                    y * cells + width <= usize::MAX,
                    out@ == full.take(y * (width + 1) + x),
                decreases width - x,
            {
                let idx = y * cells + x;
                let mut ch = ' ';
                if idx < self.plane_a.len() && self.plane_a[idx].tile_index() != 0 {
                    ch = '.';
                }
                let ghost base = ch;
                let mut i: usize = 0;
                while i < self.num_sprites
                    invariant
                        self.wf(),
                        x < width,
                        y < height,
                        i <= self.num_sprites,
                        ch == (match spec_top_sprite(self.sprites@, i as int, x as int, y as int, width, height) {
                            Some(c) => c,
                            None => base,
                        }),
                    decreases self.num_sprites - i,
                {
                    let s = self.sprites[i];
                    let x_pos = tile_pos(s.x);
                    let y_pos = tile_pos(s.y);
                    let w = s.w() as i16;
                    let h = s.h() as i16;
                    if x < 8192 && y < 8192 && x_pos <= x as i16 && (x as i16) < x_pos + w && y_pos <= y as i16 && (y as i16) < y_pos + h
                        && (x as i16) < #[verifier::truncate] (width as i16) && (y as i16) < #[verifier::truncate] (height as i16) {
                        let palette = s.flags.palette();
                        let tile_idx = s.flags.tile_index();
                        ch = if palette == 0 && tile_idx > 0 && tile_idx < 128 {
                            'P'
                        } else if palette == 0 {
                            'i'
                        } else {
                            'E'
                        };
                    }
                    i = i + 1;
                }
                string_push(&mut out, ch);
                proof {
                    let k = y * (width + 1) + x;
                    vstd::arithmetic::div_mod::lemma_fundamental_div_mod_converse(k as int, (width + 1) as int, y as int, x as int);
                    assert(full[k] == spec_ascii_cell(*self, width, height, x as int, y as int));
                    assert(out@ =~= full.take(k + 1));
                }
                x = x + 1;
            }
            string_push(&mut out, '\n');
            proof {
                let k = y * (width + 1) + width;
                vstd::arithmetic::div_mod::lemma_fundamental_div_mod_converse(k as int, (width + 1) as int, y as int, width as int);
                assert(out@ =~= full.take(k + 1));
                assert(k + 1 == (y + 1) * (width + 1)) by (nonlinear_arith)
                    requires
                        k == y * (width + 1) + width,
                ;
            }
            y = y + 1;
        }
        assert(full.take(height * (width + 1)) =~= full) by {
            assert(height * (width + 1) == (width + 1) * height) by (nonlinear_arith);
        }
        out
    }
}

impl Default for Vdp {
    /// Blank VRAM, planes and palettes; 32x32 planes; no sprites.
    fn default() -> (r: Self)
        ensures
            r.wf(),
            r.num_sprites == 0,
            forall|i: int| 0 <= i < PLANE_CELLS ==> #[trigger] r.plane_a@[i] == TileFlags(0),
            forall|i: int| 0 <= i < PLANE_CELLS ==> #[trigger] r.plane_b@[i] == TileFlags(0),
            r.scroll_size == (ScrollSize::Cell32, ScrollSize::Cell32),
    {
        Vdp::new()
    }
}

impl Default for Renderer {
    /// An empty sprite list.
    fn default() -> (r: Self)
        ensures
            r.wf(),
            r.num_sprites == 0,
    {
        Renderer::new()
    }
}

impl Default for ControllerState {
    /// No button held, a six-button pad.
    fn default() -> (r: Self)
        ensures
            r == spec_idle_controller(),
    {
        ControllerState::new()
    }
}

} // verus!
