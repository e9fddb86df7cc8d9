//! The stage selection screen: a 3x3 grid of stages, then the choice of
//! character.
use vstd::prelude::*;

use crate::big_sprite::BigSprite;
use crate::player::PlayerType;
use crate::player_update::{held, tapped};
use crate::res::{self, MapType};
use crate::vdp::{Button, ControllerState};

verus! {

/// Size of the stage grid.
pub const GRID_W: u16 = 3;
pub const GRID_H: u16 = 3;

/// What the stage selection asks of the game after a frame.
#[derive(Clone, Copy, Debug, PartialEq, Eq, Structural)]
pub enum StageAction {
    /// Keep showing the screen.
    Stay,
    /// Reset the console for a fresh timed run.
    ResetConsole,
    /// Start a stage with a character.
    LoadMap { map: MapType, player_type: PlayerType },
}

/// The stage behind a grid cell; the center cell holds the boss stage once
/// it is unlocked.
pub open spec fn spec_map_for_selection(g: (u16, u16), boss_unlocked: bool) -> Option<MapType> {
    if g == (1u16, 0u16) {
        Some(MapType::Arctic)
    } else if g == (0u16, 1u16) {
        Some(MapType::Forest)
    } else if g == (2u16, 1u16) {
        Some(MapType::Spaceship)
    } else if g == (1u16, 2u16) {
        Some(MapType::Volcano)
    } else if g == (1u16, 1u16) && boss_unlocked {
        Some(MapType::BossStage)
    } else {
        None
    }
}

/// The stage behind a grid cell.
pub fn map_for_selection(grid_pos: (u16, u16), boss_unlocked: bool) -> (r: Option<MapType>)
    ensures
        r == spec_map_for_selection(grid_pos, boss_unlocked),
{
    match grid_pos {
        (1, 0) => Some(MapType::Arctic),
        (0, 1) => Some(MapType::Forest),
        (2, 1) => Some(MapType::Spaceship),
        (1, 2) => Some(MapType::Volcano),
        (1, 1) => if boss_unlocked { Some(MapType::BossStage) } else { None },
        _ => None,
    }
}

/// The size of a grid cell in pixels: the middle row and column are wider.
pub open spec fn spec_cell_dimensions(g: (u16, u16)) -> (u16, u16) {
    (if g.0 == GRID_W / 2 { 76u16 } else { 24u16 }, if g.1 == GRID_H / 2 { 76u16 } else { 24u16 })
}

/// The size of a grid cell in pixels.
pub fn cell_dimensions(grid_pos: (u16, u16)) -> (r: (u16, u16))
    ensures
        r == spec_cell_dimensions(grid_pos),
{
    (if grid_pos.0 == GRID_W / 2 { 76 } else { 24 }, if grid_pos.1 == GRID_H / 2 { 76 } else { 24 })
}

/// The distance from the grid's edge to column (or row) `n`: the cells before
/// it with 22 pixels between cells.
pub open spec fn spec_grid_offset(n: int) -> int
    decreases n,
{
    if n <= 0 { 0 } else { spec_grid_offset(n - 1) + (if n - 1 == 1 { 76int } else { 24int }) + 22 }
}

proof fn lemma_grid_offset(n: int)
    requires
        0 <= n,
    ensures
        spec_grid_offset(n) == 46 * n + (if n >= 2 { 52int } else { 0int }),
    decreases n,
{
    if n > 0 {
        lemma_grid_offset(n - 1);
    }
}

/// The position of corner `idx` (0: top left, 1: top right, 2: bottom left,
/// 3: bottom right) of the frame around grid cell `g`, in sprite coordinates.
pub open spec fn spec_selection_pos(idx: int, g: (u16, u16)) -> (int, int) {
    let d = spec_cell_dimensions(g);
    (64 + spec_grid_offset(g.0 as int) + (idx % 2) * d.0 + 128, 16 + spec_grid_offset(g.1 as int) + (idx / 2) * d.1 + 128)
}

/// The position of corner `idx` of the selection frame around grid cell `grid_pos`.
pub fn selection_pos(idx: usize, grid_pos: (u16, u16)) -> (r: (u16, u16))
    requires
        idx < 4,
        grid_pos.0 <= 1000,
        grid_pos.1 <= 1000,
    ensures
        r.0 == spec_selection_pos(idx as int, grid_pos).0,
        r.1 == spec_selection_pos(idx as int, grid_pos).1,
{
    let mut x: u16 = 64;
    let mut y: u16 = 16;
    let mut i: u16 = 0;
    while i < grid_pos.0
        invariant
            i <= grid_pos.0 <= 1000,
            x == 64 + spec_grid_offset(i as int),
        decreases grid_pos.0 - i,
    {
        proof {
            lemma_grid_offset(i as int);
        }
        x = x + cell_dimensions((i, 0)).0 + 22;
        i = i + 1;
    }
    let mut j: u16 = 0;
    while j < grid_pos.1
        invariant
            j <= grid_pos.1 <= 1000,
            y == 16 + spec_grid_offset(j as int),
        decreases grid_pos.1 - j,
    {
        proof {
            lemma_grid_offset(j as int);
        }
        y = y + cell_dimensions((0, j)).1 + 22;
        j = j + 1;
    }
    proof {
        lemma_grid_offset(grid_pos.0 as int);
        lemma_grid_offset(grid_pos.1 as int);
    }
    let (w, h) = cell_dimensions(grid_pos);
    let ix = idx as u16;
    (x + (ix % 2) * w + 128, y + (ix / 2) * h + 128)
}

/// The level display picture of a stage.
pub open spec fn spec_stage_picture(m: MapType) -> usize {
    match m {
        MapType::Arctic => res::LEVEL_DISPLAY_ANIM_WATER,
        MapType::Forest => res::LEVEL_DISPLAY_ANIM_FOREST,
        MapType::Volcano => res::LEVEL_DISPLAY_ANIM_FIRE,
        MapType::Spaceship => res::LEVEL_DISPLAY_ANIM_SKY,
        MapType::BossStage => res::LEVEL_DISPLAY_ANIM_BOSS,
    }
}

/// Whether the display shows a character, i.e. a stage was chosen and the
/// character is being chosen.
pub open spec fn spec_selecting_player(d: Option<BigSprite>) -> bool {
    d matches Some(s) && (s.animation_state.current_animation_id == res::LEVEL_DISPLAY_ANIM_SHOOTER
        || s.animation_state.current_animation_id == res::LEVEL_DISPLAY_ANIM_MELEE)
}

/// The character chosen on the display (the shooter unless the melee
/// character shows).
pub open spec fn spec_player_choice(d: Option<BigSprite>) -> PlayerType {
    if d matches Some(s) && s.animation_state.current_animation_id == res::LEVEL_DISPLAY_ANIM_MELEE {
        PlayerType::Melee
    } else {
        PlayerType::Shooter
    }
}

/// The display after showing picture `id`.
pub open spec fn spec_show(d: Option<BigSprite>, id: usize) -> Option<BigSprite> {
    match d {
        Some(s) => Some(s.spec_set_animation(id)),
        None => None,
    }
}

/// Whether the input asks for a console reset: Start pressed with A and C
/// held, or with Mode held on a six-button pad.
pub open spec fn spec_reset_chord(s: ControllerState) -> bool {
    &&& tapped(s, Button::Start)
    &&& (held(s, Button::A) && held(s, Button::C)) || (s.is_6button && held(s, Button::Mode))
}

/// The selection, the display and the action after the input of a frame,
/// and whether the frame ends there (no sprite animation).
pub open spec fn spec_stage_input(sel: (u16, u16), boss: bool, d: Option<BigSprite>, s: ControllerState)
    -> ((u16, u16), Option<BigSprite>, StageAction, bool)
{
    let confirm = tapped(s, Button::A) || tapped(s, Button::Start);
    if spec_reset_chord(s) {
        (sel, d, StageAction::ResetConsole, true)
    } else if spec_selecting_player(d) {
        if confirm {
            match spec_map_for_selection(sel, boss) {
                Some(m) => (sel, d, StageAction::LoadMap { map: m, player_type: spec_player_choice(d) }, true),
                None => (sel, d, StageAction::Stay, false),
            }
        } else if tapped(s, Button::Left) || tapped(s, Button::Right) {
            let cur = d->0.animation_state.current_animation_id;
            (sel, spec_show(d, if cur == res::LEVEL_DISPLAY_ANIM_SHOOTER { res::LEVEL_DISPLAY_ANIM_MELEE } else { res::LEVEL_DISPLAY_ANIM_SHOOTER }),
                StageAction::Stay, false)
        } else {
            (sel, d, StageAction::Stay, false)
        }
    } else {
        let moved = if confirm {
            (sel, true)
        } else if tapped(s, Button::Left) && sel.0 > 0 {
            (((sel.0 - 1) as u16, sel.1), true)
        } else if tapped(s, Button::Right) && sel.0 + 1 < GRID_W {
            (((sel.0 + 1) as u16, sel.1), true)
        } else if tapped(s, Button::Up) && sel.1 > 0 {
            ((sel.0, (sel.1 - 1) as u16), true)
        } else if tapped(s, Button::Down) && sel.1 + 1 < GRID_H {
            ((sel.0, (sel.1 + 1) as u16), true)
        } else {
            (sel, false)
        };
        let sel2 = moved.0;
        let d2 = if confirm && spec_map_for_selection(sel, boss) is Some { spec_show(d, res::LEVEL_DISPLAY_ANIM_SHOOTER) } else { d };
        if moved.1 && boss {
            (sel2, d2, StageAction::Stay, true)
        } else if moved.1 && !spec_selecting_player(d2) && spec_map_for_selection(sel2, boss) is Some {
            (sel2, spec_show(d2, spec_stage_picture(spec_map_for_selection(sel2, boss)->0)), StageAction::Stay, false)
        } else {
            (sel2, d2, StageAction::Stay, false)
        }
    }
}

/// While choosing the stage, Down alone (no other button went down this
/// frame) moves the selection one row down when there is a row below, and
/// Up alone moves it one row up when there is a row above; the column stays
/// and the screen stays.
pub proof fn law_up_down_move_rows(sel: (u16, u16), boss: bool, d: Option<BigSprite>, s: ControllerState)
    requires
        !spec_selecting_player(d),
        !tapped(s, Button::Start),
        !tapped(s, Button::A),
        !tapped(s, Button::Left),
        !tapped(s, Button::Right),
        tapped(s, Button::Up) != tapped(s, Button::Down),
    ensures
        tapped(s, Button::Down) && sel.1 + 1 < GRID_H ==> spec_stage_input(sel, boss, d, s).0 == (sel.0, (sel.1 + 1) as u16),
        tapped(s, Button::Up) && sel.1 > 0 ==> spec_stage_input(sel, boss, d, s).0 == (sel.0, (sel.1 - 1) as u16),
        tapped(s, Button::Down) && sel.1 + 1 >= GRID_H ==> spec_stage_input(sel, boss, d, s).0 == sel,
        tapped(s, Button::Up) && sel.1 == 0 ==> spec_stage_input(sel, boss, d, s).0 == sel,
        spec_stage_input(sel, boss, d, s).2 == StageAction::Stay,
{
}

/// The stage selection screen.
pub struct StageSelect {
    pub boss_unlocked: bool,
    /// Whether the screen still has to be set up.
    pub first_render: bool,
    /// The selected grid cell.
    pub selection: (u16, u16),
    /// The four corners of the frame around the selected cell.
    pub selection_sprites: Vec<Option<BigSprite>>,
    /// The display showing the chosen stage or character.
    pub level_display_sprite: Option<BigSprite>,
}

impl StageSelect {
    pub open spec fn wf(self) -> bool {
        &&& self.selection.0 < GRID_W
        &&& self.selection.1 < GRID_H
        &&& self.selection_sprites@.len() == 4
        &&& forall|i: int| 0 <= i < 4 ==> (#[trigger] self.selection_sprites@[i] matches Some(s) ==> s.wf())
        &&& self.level_display_sprite matches Some(s) ==> s.wf() && s.anims@.len() > res::LEVEL_DISPLAY_ANIM_MELEE
    }

    /// A fresh screen with the top-left cell selected.
    pub fn with_boss_unlock_status(boss_unlocked: bool) -> (r: StageSelect)
        ensures
            r.wf(),
            r.boss_unlocked == boss_unlocked,
            r.first_render,
            r.selection == (0u16, 0u16),
            forall|i: int| 0 <= i < 4 ==> #[trigger] r.selection_sprites@[i] is None,
            r.level_display_sprite is None,
    {
        let mut selection_sprites: Vec<Option<BigSprite>> = Vec::new();
        let mut i: usize = 0;
        while i < 4
            invariant
                i <= 4,
                selection_sprites@.len() == i,
                forall|k: int| 0 <= k < i ==> #[trigger] selection_sprites@[k] is None,
            decreases 4 - i,
        {
            selection_sprites.push(None);
            i = i + 1;
        }
        StageSelect { boss_unlocked, first_render: true, selection: (0, 0), selection_sprites, level_display_sprite: None }
    }

    /// Whether a stage was chosen and the character is being chosen.
    pub fn is_selecting_player(&self) -> (r: bool)
        ensures
            r == spec_selecting_player(self.level_display_sprite),
    {
        match &self.level_display_sprite {
            Some(s) => {
                let anim = s.current_animation();
                anim == res::LEVEL_DISPLAY_ANIM_SHOOTER || anim == res::LEVEL_DISPLAY_ANIM_MELEE
            },
            None => false,
        }
    }

    /// The character shown on the display.
    pub fn selected_player_type(&self) -> (r: PlayerType)
        ensures
            r == spec_player_choice(self.level_display_sprite),
    {
        if let Some(s) = &self.level_display_sprite {
            if s.current_animation() == res::LEVEL_DISPLAY_ANIM_MELEE {
                return PlayerType::Melee;
            }
        }
        PlayerType::Shooter
    }

    fn show(&mut self, id: usize)
        requires
            old(self).wf(),
            id <= res::LEVEL_DISPLAY_ANIM_MELEE,
        ensures
            final(self).wf(),
            *final(self) == (StageSelect { level_display_sprite: spec_show(old(self).level_display_sprite, id), ..*old(self) }),
    {
        let mut d: Option<BigSprite> = None;
        std::mem::swap(&mut d, &mut self.level_display_sprite);
        let d2 = match d {
            Some(mut s) => {
                s.set_animation(id);
                Some(s)
            },
            None => None,
        };
        self.level_display_sprite = d2;
    }

    /// Sets the screen up on its first render with the level display (showing
    /// the boss stage when unlocked, else nothing) and the four corners of
    /// the selection frame.
    pub fn set_up(&mut self, display: BigSprite, corners: Vec<BigSprite>)
        requires
            old(self).wf(),
            display.wf(),
            display.anims@.len() > res::LEVEL_DISPLAY_ANIM_MELEE,
            corners@.len() == 4,
            forall|i: int| 0 <= i < 4 ==> (#[trigger] corners@[i]).wf() && corners@[i].anims@.len() > res::SELECTION_ANIM_FLASH,
        ensures
            final(self).wf(),
            !final(self).first_render,
            final(self).boss_unlocked == old(self).boss_unlocked,
            final(self).selection == old(self).selection,
            final(self).level_display_sprite == Some(BigSprite {
                x: 232,
                y: 184,
                priority: true,
                ..display.spec_set_animation(if old(self).boss_unlocked { res::LEVEL_DISPLAY_ANIM_BOSS } else { res::LEVEL_DISPLAY_ANIM_EMPTY })
            }),
            forall|i: int| 0 <= i < 4 ==> #[trigger] final(self).selection_sprites@[i] == Some(BigSprite {
                flip_h: i % 2 == 1,
                flip_v: i / 2 == 1,
                priority: true,
                x: spec_selection_pos(i, old(self).selection).0 as u16,
                y: spec_selection_pos(i, old(self).selection).1 as u16,
                ..corners@[i].spec_set_animation(res::SELECTION_ANIM_FLASH)
            }),
    {
        self.first_render = false;
        let mut s = display;
        s.set_animation(if self.boss_unlocked { res::LEVEL_DISPLAY_ANIM_BOSS } else { res::LEVEL_DISPLAY_ANIM_EMPTY });
        s.x = 232;
        s.y = 184;
        s.priority = true;
        self.level_display_sprite = Some(s);
        let ghost cs = corners@;
        let mut corners = corners;
        let mut k: usize = 4;
        while k > 0
            invariant
                k <= 4,
                corners@.len() == k,
                forall|i: int| 0 <= i < k ==> corners@[i] == cs[i],
                forall|i: int| 0 <= i < 4 ==> (#[trigger] cs[i]).wf() && cs[i].anims@.len() > res::SELECTION_ANIM_FLASH,
                self.selection == old(self).selection,
                self.selection.0 < GRID_W,
                self.selection.1 < GRID_H,
                self.selection_sprites@.len() == 4,
                forall|i: int| 0 <= i < 4 ==> (#[trigger] self.selection_sprites@[i] matches Some(s) ==> s.wf()),
                forall|i: int| k <= i < 4 ==> #[trigger] self.selection_sprites@[i] == Some(BigSprite {
                    flip_h: i % 2 == 1,
                    flip_v: i / 2 == 1,
                    priority: true,
                    x: spec_selection_pos(i, old(self).selection).0 as u16,
                    y: spec_selection_pos(i, old(self).selection).1 as u16,
                    ..cs[i].spec_set_animation(res::SELECTION_ANIM_FLASH)
                }),
                !self.first_render,
                self.boss_unlocked == old(self).boss_unlocked,
                self.level_display_sprite == Some(BigSprite {
                    x: 232,
                    y: 184,
                    priority: true,
                    ..display.spec_set_animation(if old(self).boss_unlocked { res::LEVEL_DISPLAY_ANIM_BOSS } else { res::LEVEL_DISPLAY_ANIM_EMPTY })
                }),
                display.wf(),
                display.anims@.len() > res::LEVEL_DISPLAY_ANIM_MELEE,
            decreases k,
        {
            let mut c = corners.pop().unwrap();
            k = k - 1;
            assert(c == cs[k as int]);
            assert(cs[k as int].wf());
            c.set_animation(res::SELECTION_ANIM_FLASH);
            c.flip_h = k % 2 == 1;
            c.flip_v = k / 2 == 1;
            c.priority = true;
            let (x, y) = selection_pos(k, self.selection);
            c.x = x;
            c.y = y;
            self.selection_sprites.set(k, Some(c));
        }
    }

    /// One frame of the screen. Start pressed with A and C held (or with
    /// Mode held, on a six-button pad) resets the console.
    /// While choosing the stage, the direction buttons move the selection
    /// within the grid and A or Start chooses a stage (the display turns to
    /// the character choice); while choosing the character, Left/Right
    /// switch the character and A or Start starts the stage. The display
    /// shows the selected stage unless the boss stage is unlocked. The
    /// selection frame follows the selection and the sprites animate.
    pub fn update(&mut self, input: Option<&ControllerState>) -> (r: StageAction)
        requires
            old(self).wf(),
        ensures
            final(self).wf(),
            spec_stage_select_step(*old(self), match input {
                Some(s) => Some(*s),
                None => None,
            }, *final(self), r),
            final(self).boss_unlocked == old(self).boss_unlocked,
            final(self).first_render == old(self).first_render,
            match input {
                None => {
                    &&& r == StageAction::Stay
                    &&& final(self).selection == old(self).selection
                    &&& final(self).level_display_sprite == spec_display_step(old(self).level_display_sprite)
                    &&& final(self).selection_sprites@ == spec_corners_step(old(self).selection_sprites@, old(self).selection)
                },
                Some(s) => {
                    let t = spec_stage_input(old(self).selection, old(self).boss_unlocked, old(self).level_display_sprite, *s);
                    &&& r == t.2
                    &&& final(self).selection == t.0
                    &&& final(self).level_display_sprite == (if t.3 { t.1 } else { spec_display_step(t.1) })
                    &&& final(self).selection_sprites@ == (if t.3 { old(self).selection_sprites@ } else { spec_corners_step(old(self).selection_sprites@, t.0) })
                },
            },
    {
        if let Some(s) = input {
            let (action, stop) = self.handle_input(s);
            if stop {
                return action;
            }
        }
        self.animate();
        StageAction::Stay
    }

    fn handle_input(&mut self, s: &ControllerState) -> (r: (StageAction, bool))
        requires
            old(self).wf(),
        ensures
            final(self).wf(),
            ({
                let t = spec_stage_input(old(self).selection, old(self).boss_unlocked, old(self).level_display_sprite, *s);
                &&& r == (t.2, t.3)
                &&& *final(self) == (StageSelect { selection: t.0, level_display_sprite: t.1, ..*old(self) })
            }),
    {
        let chord = (s.is_pressed(Button::A) && s.is_pressed(Button::C)) || (s.is_6button() && s.is_pressed(Button::Mode));
        if s.just_pressed(Button::Start) && chord {
            return (StageAction::ResetConsole, true);
        }
        let confirm = s.just_pressed(Button::A) || s.just_pressed(Button::Start);
        if self.is_selecting_player() {
            if confirm {
                if let Some(map) = map_for_selection(self.selection, self.boss_unlocked) {
                    return (StageAction::LoadMap { map, player_type: self.selected_player_type() }, true);
                }
            } else if s.just_pressed(Button::Left) || s.just_pressed(Button::Right) {
                let cur = match &self.level_display_sprite {
                    Some(d) => d.current_animation(),
                    None => 0,
                };
                self.show(if cur == res::LEVEL_DISPLAY_ANIM_SHOOTER { res::LEVEL_DISPLAY_ANIM_MELEE } else { res::LEVEL_DISPLAY_ANIM_SHOOTER });
            }
            return (StageAction::Stay, false);
        }
        let mut level_changed = true;
        if confirm {
            if map_for_selection(self.selection, self.boss_unlocked).is_some() {
                self.show(res::LEVEL_DISPLAY_ANIM_SHOOTER);
            }
        } else if s.just_pressed(Button::Left) && self.selection.0 > 0 {
            self.selection.0 = self.selection.0 - 1;
        } else if s.just_pressed(Button::Right) && self.selection.0 + 1 < GRID_W {
            self.selection.0 = self.selection.0 + 1;
        } else if s.just_pressed(Button::Up) && self.selection.1 > 0 {
            self.selection.1 = self.selection.1 - 1;
        } else if s.just_pressed(Button::Down) && self.selection.1 + 1 < GRID_H {
            self.selection.1 = self.selection.1 + 1;
        } else {
            level_changed = false;
        }
        if level_changed {
            if self.boss_unlocked {
                return (StageAction::Stay, true);
            }
            if !self.is_selecting_player() {
                if let Some(map) = map_for_selection(self.selection, self.boss_unlocked) {
                    let pic = match map {
                        MapType::Arctic => res::LEVEL_DISPLAY_ANIM_WATER,
                        MapType::Forest => res::LEVEL_DISPLAY_ANIM_FOREST,
                        MapType::Volcano => res::LEVEL_DISPLAY_ANIM_FIRE,
                        MapType::Spaceship => res::LEVEL_DISPLAY_ANIM_SKY,
                        MapType::BossStage => res::LEVEL_DISPLAY_ANIM_BOSS,
                    };
                    self.show(pic);
                }
            }
        }
        (StageAction::Stay, false)
    }

    /// The selection frame follows the selection; all sprites animate.
    fn animate(&mut self)
        requires
            old(self).wf(),
        ensures
            final(self).wf(),
            *final(self) == (StageSelect {
                selection_sprites: final(self).selection_sprites,
                level_display_sprite: spec_display_step(old(self).level_display_sprite),
                ..*old(self)
            }),
            final(self).selection_sprites@ == spec_corners_step(old(self).selection_sprites@, old(self).selection),
    {
        let ghost me = *self;
        let mut i: usize = 0;
        while i < 4
            invariant
                i <= 4,
                me.wf(),
                *self == (StageSelect { selection_sprites: self.selection_sprites, ..me }),
                self.selection_sprites@.len() == 4,
                forall|k: int| 0 <= k < 4 ==> #[trigger] self.selection_sprites@[k] == (
                    if k < i { spec_corners_step(me.selection_sprites@, me.selection)[k] } else { me.selection_sprites@[k] }),
            decreases 4 - i,
        {
            let mut slot: Option<BigSprite> = None;
            self.selection_sprites.set_and_swap(i, &mut slot);
            let next = match slot {
                Some(mut s) => {
                    let (x, y) = selection_pos(i, self.selection);
                    s.x = x;
                    s.y = y;
                    s.update();
                    Some(s)
                },
                None => None,
            };
            self.selection_sprites.set(i, next);
            i = i + 1;
        }
        assert(self.selection_sprites@ =~= spec_corners_step(me.selection_sprites@, me.selection));
        let mut d: Option<BigSprite> = None;
        std::mem::swap(&mut d, &mut self.level_display_sprite);
        let d2 = match d {
            Some(mut s) => {
                s.update();
                Some(s)
            },
            None => None,
        };
        self.level_display_sprite = d2;
    }
}

/// A frame of the stage selection screen: from `old`, with the controller
/// state `input` (none without a controller), the screen becomes `new` and
/// asks the game for `action` (see `StageSelect::update`).
pub open spec fn spec_stage_select_step(old: StageSelect, input: Option<ControllerState>, new: StageSelect, action: StageAction) -> bool {
    &&& new.boss_unlocked == old.boss_unlocked
    &&& new.first_render == old.first_render
    &&& match input {
        None => {
            &&& action == StageAction::Stay
            &&& new.selection == old.selection
            &&& new.level_display_sprite == spec_display_step(old.level_display_sprite)
            &&& new.selection_sprites@ == spec_corners_step(old.selection_sprites@, old.selection)
        },
        Some(s) => {
            let t = spec_stage_input(old.selection, old.boss_unlocked, old.level_display_sprite, s);
            &&& action == t.2
            &&& new.selection == t.0
            &&& new.level_display_sprite == (if t.3 { t.1 } else { spec_display_step(t.1) })
            &&& new.selection_sprites@ == (if t.3 { old.selection_sprites@ } else { spec_corners_step(old.selection_sprites@, t.0) })
        },
    }
}

/// The display after a frame of animation.
pub open spec fn spec_display_step(d: Option<BigSprite>) -> Option<BigSprite> {
    match d {
        Some(s) => Some(s.spec_update()),
        None => None,
    }
}

/// The selection frame corners after a frame: at the frame around `sel`, animated.
pub open spec fn spec_corners_step(c: Seq<Option<BigSprite>>, sel: (u16, u16)) -> Seq<Option<BigSprite>> {
    Seq::new(c.len(), |i: int| match c[i] {
        Some(s) => Some(BigSprite {
            x: spec_selection_pos(i, sel).0 as u16,
            y: spec_selection_pos(i, sel).1 as u16,
            ..s
        }.spec_update()),
        None => None,
    })
}

} // verus!
