//! The heads-up display: health bars, flag count and cycle counter, drawn
//! with the text font.
use vstd::prelude::*;

verus! {

/// Where the player's health bar ends (tile column and bottom row).
pub const PLAYER_HEALTH_BAR_X: u16 = 1;
pub const PLAYER_HEALTH_BAR_Y: u16 = 11;
/// Where the boss's health bar ends.
pub const BOSS_HEALTH_BAR_X: u16 = 38;
pub const BOSS_HEALTH_BAR_Y: u16 = 21;

/// The tile of an ASCII character in the font image; unprintable characters
/// show the question mark (tile 82).
pub open spec fn spec_char_tile(c: u8) -> u16 {
    if c == 9 { 95 }
    else if c == 10 { 96 }
    else if c == 11 { 98 }
    else if c == 12 { 99 }
    else if c == 13 { 97 }
    else if c == 32 { 94 }
    else if 33 <= c <= 47 { (c - 33 + 62) as u16 }
    else if 48 <= c <= 57 { (c - 48) as u16 }
    else if 58 <= c <= 64 { (c - 58 + 77) as u16 }
    else if 65 <= c <= 90 { (c - 65 + 36) as u16 }
    else if 91 <= c <= 96 { (c - 91 + 84) as u16 }
    else if 97 <= c <= 122 { (c - 97 + 10) as u16 }
    else if 123 <= c <= 126 { (c - 123 + 90) as u16 }
    else { 82 }
}

/// The tile of an ASCII character in the font image.
pub fn char_tile(c: u8) -> (r: u16)
    ensures
        r == spec_char_tile(c),
{
    if c == 9 {
        95
    } else if c == 10 {
        96
    } else if c == 11 {
        98
    } else if c == 12 {
        99
    } else if c == 13 {
        97
    } else if c == 32 {
        94
    } else if 33 <= c && c <= 47 {
        (c - 33 + 62) as u16
    } else if 48 <= c && c <= 57 {
        (c - 48) as u16
    } else if 58 <= c && c <= 64 {
        (c - 58 + 77) as u16
    } else if 65 <= c && c <= 90 {
        (c - 65 + 36) as u16
    } else if 91 <= c && c <= 96 {
        (c - 91 + 84) as u16
    } else if 97 <= c && c <= 122 {
        (c - 97 + 10) as u16
    } else if 123 <= c && c <= 126 {
        (c - 123 + 90) as u16
    } else {
        82
    }
}

/// A font tile placed at a tile position.
#[derive(Clone, Copy, Debug, PartialEq, Eq, Structural)]
pub struct PlacedTile {
    pub tile: u16,
    pub x: u16,
    pub y: u16,
}

/// The tiles that draw `text` starting at tile (x, y), one per byte, left to right.
pub fn text_tiles(text: &[u8], x: u16, y: u16) -> (r: Vec<PlacedTile>)
    requires
        x + text@.len() <= u16::MAX + 1,
    ensures
        r@.len() == text@.len(),
        forall|i: int| 0 <= i < text@.len() ==> #[trigger] r@[i] == (PlacedTile { tile: spec_char_tile(text@[i]), x: (x + i) as u16, y }),
{
    let mut r: Vec<PlacedTile> = Vec::new();
    let mut i: usize = 0;
    while i < text.len()
        invariant
            i <= text@.len(),
            x + text@.len() <= u16::MAX + 1,
            r@.len() == i,
            forall|k: int| 0 <= k < i ==> #[trigger] r@[k] == (PlacedTile { tile: spec_char_tile(text@[k]), x: (x + k) as u16, y }),
        decreases text@.len() - i,
    {
        r.push(PlacedTile { tile: char_tile(text[i]), x: x + i as u16, y });
        i = i + 1;
    }
    r
}

/// Cells of a health bar to redraw: the cells `from .. to` (counted up from
/// the bar's bottom), drawn full or empty.
#[derive(Clone, Copy, Debug, PartialEq, Eq, Structural)]
pub struct BarUpdate {
    pub from: u16,
    pub to: u16,
    pub filled: bool,
}

/// The cells to redraw when a bar goes from `last` to `now`.
pub open spec fn spec_bar_update(last: u16, now: u16) -> Option<BarUpdate> {
    if now < last {
        Some(BarUpdate { from: now, to: last, filled: false })
    } else if now > last {
        Some(BarUpdate { from: last, to: now, filled: true })
    } else {
        None
    }
}

/// The cells to redraw when a bar goes from `last` to `now`.
pub fn bar_update(last: u16, now: u16) -> (r: Option<BarUpdate>)
    ensures
        r == spec_bar_update(last, now),
{
    if now < last {
        Some(BarUpdate { from: now, to: last, filled: false })
    } else if now > last {
        Some(BarUpdate { from: last, to: now, filled: true })
    } else {
        None
    }
}

/// What the display showed last, so that only changes are redrawn.
#[derive(Clone, Copy, Debug, PartialEq, Eq, Structural)]
pub struct RenderState {
    pub first_render_done: bool,
    /// The player's health shown, `None` while the player was not active.
    pub last_health: Option<u16>,
    /// The boss's health shown, `None` while no boss was on the stage.
    pub last_boss_health: Option<u16>,
    pub last_captured_flags: u16,
    pub last_frame: u32,
}

/// What a frame of the display draws.
#[derive(Clone, Copy, Debug, PartialEq, Eq, Structural)]
pub struct HudUpdate {
    /// Whether the whole display is drawn anew (cleared, with the bar bottom
    /// and the flag icon).
    pub first: bool,
    pub health: Option<BarUpdate>,
    pub boss_health: Option<BarUpdate>,
    /// The flag count to write, if it changed.
    pub flags: Option<u16>,
    /// The cycle count to write, if it changed.
    pub cycles: Option<u32>,
}

/// The state of a display that has not drawn anything.
pub open spec fn spec_fresh_render_state() -> RenderState {
    RenderState { first_render_done: false, last_health: None, last_boss_health: None, last_captured_flags: 0, last_frame: u32::MAX }
}

/// The display's redraws for a frame and the state it leaves.
pub open spec fn spec_hud(s: RenderState, player_health: Option<u16>, boss_health: Option<u16>, captured_flags: u16, frame: u32)
    -> (RenderState, HudUpdate)
{
    let health = match player_health {
        Some(h) => spec_bar_update(match s.last_health { Some(l) => l, None => 0 }, h),
        None => None,
    };
    let last_health = match player_health { Some(h) => Some(h), None => s.last_health };
    let boss = match boss_health {
        Some(h) => spec_bar_update(match s.last_boss_health { Some(l) => l, None => 0 }, h),
        None => None,
    };
    let last_boss = match boss_health { Some(h) => Some(h), None => s.last_boss_health };
    let flags = if s.last_captured_flags != captured_flags { Some(captured_flags) } else { None };
    let cycles = if !s.first_render_done || s.last_frame != frame { Some(frame) } else { None };
    (RenderState {
        first_render_done: true,
        last_health,
        last_boss_health: last_boss,
        last_captured_flags: captured_flags,
        last_frame: if cycles is Some { frame } else { s.last_frame },
    }, HudUpdate { first: !s.first_render_done, health, boss_health: boss, flags, cycles })
}

/// The heads-up display.
pub struct UI {
    pub render_state: RenderState,
}

impl UI {
    /// The font tile that draws character `chr` at tile (x, y).
    pub fn draw_text_char(chr: u8, x: u16, y: u16) -> (r: PlacedTile)
        ensures
            r == (PlacedTile { tile: spec_char_tile(chr), x, y }),
    {
        PlacedTile { tile: char_tile(chr), x, y }
    }

    /// The font tiles that draw `text` starting at tile (x, y).
    pub fn draw_text(text: &[u8], x: u16, y: u16) -> (r: Vec<PlacedTile>)
        requires
            x + text@.len() <= u16::MAX + 1,
        ensures
            r@.len() == text@.len(),
            forall|i: int| 0 <= i < text@.len() ==> #[trigger] r@[i] == (PlacedTile { tile: spec_char_tile(text@[i]), x: (x + i) as u16, y }),
    {
        text_tiles(text, x, y)
    }

    /// The tile positions to clear to erase text of `len` characters drawn at (x, y).
    pub fn clear_text(len: usize, x: u16, y: u16) -> (r: Vec<(u16, u16)>)
        requires
            x + len <= u16::MAX + 1,
        ensures
            r@.len() == len,
            forall|i: int| 0 <= i < len ==> #[trigger] r@[i] == ((x + i) as u16, y),
    {
        let mut r: Vec<(u16, u16)> = Vec::new();
        let mut i: usize = 0;
        while i < len
            invariant
                i <= len,
                x + len <= u16::MAX + 1,
                r@.len() == i,
                forall|k: int| 0 <= k < i ==> #[trigger] r@[k] == ((x + k) as u16, y),
            decreases len - i,
        {
            r.push((x + i as u16, y));
            i = i + 1;
        }
        r
    }

    /// A display that draws everything on its next render.
    pub fn new() -> (r: UI)
        ensures
            r.render_state == spec_fresh_render_state(),
    {
        UI {
            render_state: RenderState {
                first_render_done: false,
                last_health: None,
                last_boss_health: None,
                last_captured_flags: 0,
                last_frame: u32::MAX,
            },
        }
    }

    /// Forgets what was drawn, so that the next render draws everything.
    pub fn clear(&mut self)
        ensures
            final(self).render_state == spec_fresh_render_state(),
    {
        self.render_state = RenderState {
            first_render_done: false,
            last_health: None,
            last_boss_health: None,
            last_captured_flags: 0,
            last_frame: u32::MAX,
        };
    }

    /// The redraws of a frame: the player's health bar (when the player is
    /// active; `player_health` is `None` otherwise), the boss's health bar
    /// (while a boss is on the stage; `boss_health` is `None` otherwise, and
    /// then the bar is left as it is), the flag
    /// count when it changed and the cycle counter when the frame changed.
    pub fn render(&mut self, player_health: Option<u16>, boss_health: Option<u16>, captured_flags: u16, frame: u32) -> (r: HudUpdate)
        ensures
            (final(self).render_state, r) == spec_hud(old(self).render_state, player_health, boss_health, captured_flags, frame),
    {
        let s = self.render_state;
        let first = !s.first_render_done;
        let mut health: Option<BarUpdate> = None;
        if let Some(h) = player_health {
            let last = match s.last_health {
                Some(l) => l,
                None => 0,
            };
            health = bar_update(last, h);
            self.render_state.last_health = Some(h);
        }
        let mut boss: Option<BarUpdate> = None;
        if let Some(h) = boss_health {
            let last = match s.last_boss_health {
                Some(l) => l,
                None => 0,
            };
            self.render_state.last_boss_health = Some(h);
            boss = bar_update(last, h);
        }
        let mut flags: Option<u16> = None;
        if s.last_captured_flags != captured_flags {
            flags = Some(captured_flags);
            self.render_state.last_captured_flags = captured_flags;
        }
        let mut cycles: Option<u32> = None;
        if !s.first_render_done || s.last_frame != frame {
            cycles = Some(frame);
            self.render_state.last_frame = frame;
        }
        self.render_state.first_render_done = true;
        HudUpdate { first, health, boss_health: boss, flags, cycles }
    }
}

/// Number of cells of a `[####----]` bar.
pub const BAR_LEN: u16 = 8;

/// The filled cells of a bar showing `amount` out of `max`.
pub open spec fn spec_bar_fill(amount: u16, max: u16) -> u16 {
    if max == 0 {
        0
    } else {
        let f = (amount * BAR_LEN) as int / max as int;
        if f < BAR_LEN { f as u16 } else { BAR_LEN }
    }
}

/// The filled cells of a bar showing `amount` out of `max`.
pub fn bar_fill(amount: u16, max: u16) -> (r: u16)
    requires
        amount * BAR_LEN <= u16::MAX,
    ensures
        r == spec_bar_fill(amount, max),
        r <= BAR_LEN,
{
    if max == 0 {
        0
    } else {
        let f = amount * BAR_LEN / max;
        if f < BAR_LEN { f } else { BAR_LEN }
    }
}

/// The column where text of `len` characters starts to be centered on the
/// 40-column screen.
pub open spec fn spec_centered_x(len: nat) -> u16 {
    if len as u16 >= 40 { 0 } else { ((40 - len as u16) / 2) as u16 }
}

/// The column where text of `len` characters starts to be centered on the
/// 40-column screen (text as long as the screen starts at 0).
pub fn centered_x(len: usize) -> (r: u16)
    ensures
        r == spec_centered_x(len as nat),
{
    let l = len as u16;
    (40u16.saturating_sub(l)) / 2
}

} // verus!
