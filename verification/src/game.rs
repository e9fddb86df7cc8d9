//! Game-level rules: the game's states and their transitions, the boss
//! unlock, flags earned from the recorded solves, miniboss defeats and the
//! end screens.
use vstd::prelude::*;

use crate::enemy::{enemy_tick_ok, Enemy, EnemyTick, Status as EnemyStatus};
use crate::koth::{challenge_id, may_record, recordable_within, Portal, KOTH_FRAMES_MAX, KOTH_NO_RECORD};
use crate::entity::coord_small;
use crate::map::{
    enemies_culled, enemies_get, enemies_ticked, enemy_list, law_flags_monotone, projectile_list, projectile_ready, rest_frame_done, spec_flags_for_maps,
    StageMap,
};
use crate::player::{Player, PlayerType};
use crate::res::{self, spec_map_index, spec_map_palette, MapType, PaletteContext, MAP_COUNT};
use crate::stage_select::{spec_stage_select_step, StageAction, StageSelect};
use crate::ui::spec_centered_x;
use crate::vdp::{has_button, Button, ControllerState, Palette};

verus! {

/// The number of flags that unlocks the boss stage.
pub const FLAGS_FOR_BOSS: u16 = 1;

/// Frames between two saves of the persistent state (10 s).
pub const SAVE_INTERVAL_FRAMES: u32 = 500;

/// The screen the game is on.
#[derive(Clone, Copy, Debug, PartialEq, Eq, Structural)]
pub enum GameState {
    StageSelect,
    Playing,
    Paused,
    Dialogue,
    GameOver,
    Win,
}

/// Whether the boss stage is unlocked with `captured_flags` flags.
pub fn boss_unlocked(captured_flags: u16) -> (r: bool)
    ensures
        r == (captured_flags >= FLAGS_FOR_BOSS),
{
    captured_flags >= FLAGS_FOR_BOSS
}

/// The next frame number (wrapping around) and whether the persistent state
/// is saved on it.
pub fn advance_frame(frame: u32) -> (r: (u32, bool))
    ensures
        r.0 == (if frame == u32::MAX { 0 } else { frame + 1 }),
        r.1 == (r.0 % SAVE_INTERVAL_FRAMES == 0),
{
    let next = frame.wrapping_add(1);
    (next, next % SAVE_INTERVAL_FRAMES == 0)
}

/// What the game does after a frame of play.
#[derive(Clone, Copy, Debug, PartialEq, Eq, Structural)]
pub enum PlayOutcome {
    /// Start was pressed: open the pause menu.
    Pause,
    /// The player is still beaming in: the stage stays frozen.
    Frozen,
    /// The player died: show the game over screen.
    GameOver,
    /// The reset combination was pressed: back to the stage selection.
    StageSelect,
    /// Play on.
    Continue,
}

/// The decision after a frame of play: pausing comes first (before the
/// player moves), then the stage stays frozen while the player beams in,
/// then a dead player ends the game, then the reset combination returns to
/// the stage selection.
pub fn play_outcome(start_pressed: bool, beaming_in: bool, player_dead: bool, reset_pressed: bool) -> (r: PlayOutcome)
    ensures
        r == (if start_pressed {
            PlayOutcome::Pause
        } else if beaming_in {
            PlayOutcome::Frozen
        } else if player_dead {
            PlayOutcome::GameOver
        } else if reset_pressed {
            PlayOutcome::StageSelect
        } else {
            PlayOutcome::Continue
        }),
{
    if start_pressed {
        PlayOutcome::Pause
    } else if beaming_in {
        PlayOutcome::Frozen
    } else if player_dead {
        PlayOutcome::GameOver
    } else if reset_pressed {
        PlayOutcome::StageSelect
    } else {
        PlayOutcome::Continue
    }
}

/// The palette set in use: the menu, stage selection and end screens have
/// their own; on a stage, palette A is the player's and the others the
/// stage's.
pub open spec fn spec_palette_type(
    state: GameState,
    stage_select: bool,
    end_screen: bool,
    palette: Palette,
    player: PaletteContext,
    map: MapType,
) -> PaletteContext {
    if state == GameState::Paused {
        PaletteContext::Inventory
    } else if stage_select {
        PaletteContext::StageSelect
    } else if end_screen {
        PaletteContext::GameOver
    } else if palette == Palette::A {
        player
    } else {
        spec_map_palette(map)
    }
}

/// The palette set in use (see `spec_palette_type`); `stage_select` tells
/// whether the stage selection is showing, `end_screen` whether the game
/// over or win screen is.
pub fn palette_type(
    state: GameState,
    stage_select: bool,
    end_screen: bool,
    palette: Palette,
    player: PaletteContext,
    map: MapType,
) -> (r: PaletteContext)
    ensures
        r == spec_palette_type(state, stage_select, end_screen, palette, player, map),
{
    if state == GameState::Paused {
        return PaletteContext::Inventory;
    }
    if stage_select {
        return PaletteContext::StageSelect;
    }
    if end_screen {
        return PaletteContext::GameOver;
    }
    if palette == Palette::A {
        return player;
    }
    res::palette_type(map)
}

/// Whether the stage with record slot `i` has a recorded solve.
pub open spec fn spec_solved(portal: Portal, i: int) -> bool {
    portal.koth.spec_records()[i] != KOTH_NO_RECORD
}

/// The flags earned, from the recorded solves of the five stages and the
/// flags of each stage's enemy placements (in stage order).
pub fn flags_from_records(portal: &Portal, stage_flags: &Vec<Vec<Option<u16>>>) -> (r: u16)
    requires
        stage_flags@.len() == MAP_COUNT,
        spec_flags_for_maps(seq![spec_solved(*portal, 0), spec_solved(*portal, 1), spec_solved(*portal, 2), spec_solved(*portal, 3), spec_solved(*portal, 4)],
            stage_flags@.map_values(|v: Vec<Option<u16>>| v@)) <= u16::MAX,
    ensures
        r == spec_flags_for_maps(seq![spec_solved(*portal, 0), spec_solved(*portal, 1), spec_solved(*portal, 2), spec_solved(*portal, 3), spec_solved(*portal, 4)],
            stage_flags@.map_values(|v: Vec<Option<u16>>| v@)),
{
    proof {
        portal.koth.lemma_records_len();
    }
    let forest = portal.get_challenge_record(challenge_id(MapType::Forest)) != KOTH_NO_RECORD;
    let volcano = portal.get_challenge_record(challenge_id(MapType::Volcano)) != KOTH_NO_RECORD;
    let spaceship = portal.get_challenge_record(challenge_id(MapType::Spaceship)) != KOTH_NO_RECORD;
    let arctic = portal.get_challenge_record(challenge_id(MapType::Arctic)) != KOTH_NO_RECORD;
    let boss = portal.get_challenge_record(challenge_id(MapType::BossStage)) != KOTH_NO_RECORD;
    StageMap::get_flags_for_maps(forest, volcano, spaceship, arctic, boss, stage_flags)
}

/// Makes sure a run is timed from a cleared game state: a console that has
/// already counted frames is reset.
pub fn attest_clean_boot(portal: &mut Portal)
    ensures
        old(portal).koth.spec_frames() != 0 ==> final(portal).koth.spec_frames() == 0 && final(portal).koth.spec_mask() == u16::MAX,
        old(portal).koth.spec_frames() == 0 ==> *final(portal) == *old(portal),
        final(portal).koth.spec_records() == old(portal).koth.spec_records(),
        final(portal).storage == old(portal).storage,
{
    if portal.get_frame_count() != 0 {
        portal.request_console_reset();
    }
}

/// Entering a stage: the boss stage needs enough flags; entering it gives up
/// recording any other challenge. Returns false (changing nothing) when the
/// boss stage is still locked.
pub fn enter_stage(portal: &mut Portal, map: MapType, captured_flags: u16) -> (r: bool)
    ensures
        r == !(map == MapType::BossStage && captured_flags < FLAGS_FOR_BOSS),
        !r ==> *final(portal) == *old(portal),
        r ==> final(portal).koth.spec_mask() == old(portal).koth.spec_mask() & (if map == MapType::BossStage {
            1u16 << spec_map_index(map) as u16
        } else {
            u16::MAX
        }),
        final(portal).koth.spec_records() == old(portal).koth.spec_records(),
        final(portal).koth.spec_frames() == old(portal).koth.spec_frames(),
{
    if map == MapType::BossStage && captured_flags < FLAGS_FOR_BOSS {
        return false;
    }
    portal.restrict_challenges(recordable_within(map));
    true
}

/// The flags of all five stages together.
pub open spec fn spec_all_flags(stage_flags: Seq<Vec<Option<u16>>>) -> int {
    spec_flags_for_maps(seq![true, true, true, true, true], stage_flags.map_values(|v: Vec<Option<u16>>| v@))
}

/// What finishing a miniboss's death sequence changes.
#[derive(Clone, Copy, Debug, PartialEq, Eq, Structural)]
pub struct DefeatOutcome {
    /// The challenge solved (to be recorded), if this is the first defeat of
    /// a miniboss kind.
    pub solved: Option<u8>,
    /// Whether the game is won (the boss was defeated).
    pub won: bool,
}

/// Records that an enemy's death sequence ended on `frame` on stage `map`:
/// the first defeat of a miniboss of a kind (`defeat_bit` is the kind's bit)
/// marks the kind as defeated, keeps the stage's fastest flag frame, solves
/// the stage's challenge, and wins the game when it is the boss.
pub fn record_defeat(
    defeated_minibosses: &mut u32,
    flag_frames: &mut Vec<u32>,
    map: MapType,
    frame: u32,
    is_miniboss: bool,
    defeat_bit: u32,
    is_boss: bool,
) -> (r: DefeatOutcome)
    requires
        old(flag_frames)@.len() == MAP_COUNT,
    ensures
        final(flag_frames)@.len() == MAP_COUNT,
        ({
            let first = is_miniboss && *old(defeated_minibosses) & defeat_bit == 0;
            let i = spec_map_index(map) as int;
            &&& r == (if first {
                DefeatOutcome { solved: Some(spec_map_index(map) as u8), won: is_boss }
            } else {
                DefeatOutcome { solved: None, won: false }
            })
            &&& *final(defeated_minibosses) == (if first { *old(defeated_minibosses) | defeat_bit } else { *old(defeated_minibosses) })
            &&& final(flag_frames)@ == (if first && (old(flag_frames)@[i] == 0 || old(flag_frames)@[i] > frame) {
                old(flag_frames)@.update(i, frame)
            } else {
                old(flag_frames)@
            })
        }),
{
    if is_miniboss && *defeated_minibosses & defeat_bit == 0 {
        *defeated_minibosses = *defeated_minibosses | defeat_bit;
        let i = map.index();
        if flag_frames[i] == 0 || flag_frames[i] > frame {
            flag_frames.set(i, frame);
        }
        return DefeatOutcome { solved: Some(challenge_id(map)), won: is_boss };
    }
    DefeatOutcome { solved: None, won: false }
}

/// The colors the win screen cycles through.
pub open spec fn spec_win_color(i: int) -> u16 {
    if i == 0 { 0x00F } else if i == 1 { 0x0FF } else if i == 2 { 0x0F0 } else if i == 3 { 0xFF0 } else if i == 4 { 0xF00 } else { 0xF0F }
}

fn win_color(i: usize) -> (r: u16)
    requires
        i < 6,
    ensures
        r == spec_win_color(i as int),
{
    match i {
        0 => 0x00F,
        1 => 0x0FF,
        2 => 0x0F0,
        3 => 0xFF0,
        4 => 0xF00,
        _ => 0xF0F,
    }
}

/// The palette the game starts with.
pub open spec fn spec_default_palette() -> Seq<u16> {
    seq![0x000u16, 0xFFF, 0xF00, 0x0F0, 0x00B, 0xFF0, 0xF0F, 0x0FF, 0x666, 0xBBB, 0x800, 0x080, 0x008, 0x880, 0x808, 0x088]
}

/// The palette the game starts with.
pub fn default_palette() -> (r: [u16; 16])
    ensures
        r@ == spec_default_palette(),
{
    let r = [0x000u16, 0xFFF, 0xF00, 0x0F0, 0x00B, 0xFF0, 0xF0F, 0x0FF, 0x666, 0xBBB, 0x800, 0x080, 0x008, 0x880, 0x808, 0x088];
    assert(r@ =~= spec_default_palette());
    r
}

/// The win screen.
pub struct YouWin {
    /// The frames the run took.
    pub cycles: u32,
    pub rendered: bool,
    pub frame: u16,
    pub current_palette: [u16; 16],
}

impl YouWin {
    /// The win screen for a run of `cycles` frames.
    pub fn new(cycles: u32) -> (r: YouWin)
        ensures
            r.cycles == cycles,
            !r.rendered,
            r.frame == 0,
            r.current_palette@ == spec_default_palette(),
    {
        YouWin { cycles, rendered: false, frame: 0, current_palette: default_palette() }
    }

    /// One frame of the win screen: the colors of palette B (but the first)
    /// cycle through the win colors, moving on every ten frames.
    pub fn animate(&mut self)
        requires
            old(self).frame < u16::MAX,
        ensures
            final(self).frame == old(self).frame + 1,
            final(self).cycles == old(self).cycles,
            final(self).rendered == old(self).rendered,
            final(self).current_palette@[0] == old(self).current_palette@[0],
            forall|i: int| 1 <= i < 16 ==> #[trigger] final(self).current_palette@[i]
                == spec_win_color((i + final(self).frame / 10) % 6),
    {
        self.frame = self.frame + 1;
        let mut i: usize = 1;
        while i < 16
            invariant
                1 <= i <= 16,
                self.frame == old(self).frame + 1,
                self.cycles == old(self).cycles,
                self.rendered == old(self).rendered,
                self.current_palette@[0] == old(self).current_palette@[0],
                forall|k: int| 1 <= k < i ==> #[trigger] self.current_palette@[k] == spec_win_color((k + self.frame / 10) % 6),
            decreases 16 - i,
        {
            self.current_palette[i] = win_color((i + (self.frame as usize) / 10) % 6);
            i = i + 1;
        }
    }

    /// The column where the message with the run's cycle count starts,
    /// centering "You beat the boss in N cycles!" on the screen.
    pub fn message_column(&self) -> (r: u16)
        ensures
            r == spec_centered_x((30 + spec_decimal_len(self.cycles as nat)) as nat),
    {
        crate::ui::centered_x(30 + decimal_len(self.cycles))
    }
}

/// The number of decimal digits of `n`.
pub open spec fn spec_decimal_len(n: nat) -> nat
    decreases n,
{
    if n < 10 { 1 } else { 1 + spec_decimal_len(n / 10) }
}

pub open spec fn pow10(k: nat) -> nat
    decreases k,
{
    if k == 0 { 1 } else { 10 * pow10((k - 1) as nat) }
}

pub(crate) proof fn lemma_decimal_len_bound(n: nat, k: nat)
    requires
        1 <= k,
        n < pow10(k),
    ensures
        1 <= spec_decimal_len(n) <= k,
    decreases k,
{
    if n >= 10 {
        assert(k >= 2) by {
            if k == 1 {
                assert(pow10(0) == 1);
                assert(pow10(1) == 10 * pow10(0));
            }
        }
        let p = pow10((k - 1) as nat);
        assert(n / 10 < p) by (nonlinear_arith)
            requires
                n < 10 * p,
        ;
        lemma_decimal_len_bound(n / 10, (k - 1) as nat);
    }
}

/// The number of decimal digits of `n`.
pub fn decimal_len(n: u32) -> (r: usize)
    ensures
        r == spec_decimal_len(n as nat),
        r <= 10,
{
    proof {
        reveal_with_fuel(pow10, 11);
        assert(pow10(10) == 10_000_000_000);
        lemma_decimal_len_bound(n as nat, 10);
    }
    let mut v = n;
    let mut len: usize = 1;
    while v >= 10
        invariant
            1 <= len,
            len + spec_decimal_len(v as nat) == spec_decimal_len(n as nat) + 1,
            spec_decimal_len(n as nat) <= 10,
            spec_decimal_len(v as nat) >= 1,
        decreases v,
    {
        v = v / 10;
        len = len + 1;
    }
    len
}

/// The game over screen.
pub struct GameOver {
    pub rendered: bool,
}

impl GameOver {
    pub fn new() -> (r: GameOver)
        ensures
            !r.rendered,
    {
        GameOver { rendered: false }
    }
}

/// The flags earned from the recorded solves of the five stages, each
/// paying out the flags of its enemy placements (see `flags_from_records`).
pub open spec fn spec_captured_flags(portal: Portal, stage_flags: Seq<Vec<Option<u16>>>) -> int {
    spec_flags_for_maps(
        seq![spec_solved(portal, 0), spec_solved(portal, 1), spec_solved(portal, 2), spec_solved(portal, 3), spec_solved(portal, 4)],
        stage_flags.map_values(|v: Vec<Option<u16>>| v@),
    )
}

/// The words saved to the persistent storage.
pub open spec fn spec_save_words() -> Seq<u16> {
    seq![0x1234u16, 0x5678, 0x9ABC, 0xDEF0]
}

/// Whether `s` is a stage selection screen as it opens.
pub open spec fn spec_fresh_stage_select(s: StageSelect, boss_unlocked: bool) -> bool {
    &&& s.wf()
    &&& s.boss_unlocked == boss_unlocked
    &&& s.first_render
    &&& s.selection == (0u16, 0u16)
    &&& forall|i: int| 0 <= i < 4 ==> #[trigger] s.selection_sprites@[i] is None
    &&& s.level_display_sprite is None
}

/// Whether `w2` is the win screen `w` one animation frame later.
pub open spec fn spec_win_step(w: YouWin, w2: YouWin) -> bool {
    &&& w2.frame == w.frame + 1
    &&& w2.cycles == w.cycles
    &&& w2.rendered == w.rendered
    &&& w2.current_palette@[0] == w.current_palette@[0]
    &&& forall|i: int| 1 <= i < 16 ==> #[trigger] w2.current_palette@[i] == spec_win_color((i + w2.frame / 10) % 6)
}

/// Whether A or Start went down this frame on the first controller.
pub open spec fn spec_confirm(input: Option<ControllerState>) -> bool {
    input matches Some(s) && (has_button(s.just_pressed, Button::A) || has_button(s.just_pressed, Button::Start))
}

/// Whether Start went down this frame on the first controller.
pub open spec fn spec_start(input: Option<ControllerState>) -> bool {
    input matches Some(s) && has_button(s.just_pressed, Button::Start)
}

/// A frame of the stage selection (see `Game::update`): the screen's own
/// frame, then the console reset or the stage entry it asks for.
pub open spec fn spec_stage_select_frame(old: Game, inp: Option<ControllerState>, new: Game, action: GameAction) -> bool {
    match old.stage_select_scene {
        None => action == GameAction::Stay && new == old,
        Some(s) => exists|s2: StageSelect, a: StageAction| {
            &&& #[trigger] spec_stage_select_step(s, inp, s2, a)
            &&& match a {
                StageAction::Stay => action == GameAction::Stay
                    && new == (Game { stage_select_scene: Some(s2), ..old }),
                StageAction::ResetConsole => {
                    &&& action == GameAction::ConsoleReset
                    &&& new == (Game { stage_select_scene: Some(s2), portal: new.portal, ..old })
                    &&& new.portal.koth.spec_frames() == 0
                    &&& new.portal.koth.spec_mask() == u16::MAX
                    &&& new.portal.koth.spec_records() == old.portal.koth.spec_records()
                    &&& new.portal.storage == old.portal.storage
                },
                StageAction::LoadMap { map, player_type } => {
                    &&& action == GameAction::LoadMap { map, player_type }
                    &&& new == (Game {
                        portal: new.portal,
                        stage_select_scene: None,
                        state: GameState::Playing,
                        map_type: map,
                        ..old
                    })
                    &&& new.portal.koth.spec_mask() == old.portal.koth.spec_mask() & (if map == MapType::BossStage {
                        1u16 << spec_map_index(map) as u16
                    } else {
                        u16::MAX
                    })
                    &&& new.portal.koth.spec_records() == old.portal.koth.spec_records()
                    &&& new.portal.koth.spec_frames() == old.portal.koth.spec_frames()
                    &&& new.portal.storage == old.portal.storage
                },
            }
        },
    }
}

/// A frame of the game's screens (see `Game::update`): from `old`, with the
/// first controller's state `inp`, the game becomes `new` and asks the caller
/// for `action`.
pub open spec fn spec_game_frame(old: Game, inp: Option<ControllerState>, new: Game, action: GameAction) -> bool {
    match old.state {
        GameState::Paused => if spec_start(inp) {
            action == GameAction::Resumed && new == (Game { state: GameState::Playing, ..old })
        } else {
            action == GameAction::Stay && new == old
        },
        GameState::Playing => if spec_start(inp) {
            action == GameAction::Paused && new == (Game { state: GameState::Paused, ..old })
        } else {
            action == GameAction::Play && new == old
        },
        GameState::Dialogue => action == GameAction::Dialogue && new == old,
        GameState::GameOver | GameState::Win => if spec_confirm(inp) {
            &&& action == GameAction::ToStageSelect
            &&& new.stage_select_scene matches Some(s) && spec_fresh_stage_select(s, old.captured_flags >= FLAGS_FOR_BOSS)
            &&& new == (Game {
                state: GameState::StageSelect,
                game_over_scene: None,
                win_scene: None,
                stage_select_scene: new.stage_select_scene,
                ..old
            })
        } else {
            &&& action == GameAction::Stay
            &&& new == (Game { win_scene: new.win_scene, ..old })
            &&& match old.win_scene {
                Some(w) => old.state == GameState::Win ==> (new.win_scene matches Some(w2) && spec_win_step(w, w2)),
                None => new.win_scene is None,
            }
            &&& old.state == GameState::GameOver ==> new.win_scene == old.win_scene
        },
        GameState::StageSelect => spec_stage_select_frame(old, inp, new, action),
    }
}

/// What the caller does after a frame of the game's screens.
#[derive(Clone, Copy, Debug, PartialEq, Eq, Structural)]
pub enum GameAction {
    /// Nothing more this frame.
    Stay,
    /// Run a frame of play: the player, then (unless the player is beaming
    /// in) the stage, then `Game::after_play`.
    Play,
    /// Run the dialogue; `Game::end_dialogue` when it ends.
    Dialogue,
    /// The pause menu opened: fade out, hide the sprites, draw the menu.
    Paused,
    /// The pause menu closed: leave it, show the sprites, fade in.
    Resumed,
    /// The console was reset for a fresh timed run.
    ConsoleReset,
    /// A stage was entered with a character: build the player and the stage.
    LoadMap { map: MapType, player_type: PlayerType },
    /// The game over screen opened.
    GameOver,
    /// Back to the stage selection.
    ToStageSelect,
}

/// The game across its screens: the cartridge portal, the frame counter,
/// the flags and defeated minibosses, the fastest flag frame of each stage,
/// the screen shown and its scene, and the stage loaded. The hardware, the
/// player and the stage itself are run by the caller.
/// Whether `g1` is `g0` after `finish_enemy_death` on the enemy `e` and its
/// tick `tick` (see that function).
pub open spec fn death_recorded(g0: Game, e: Enemy, tick: EnemyTick, stage_flags: Seq<Vec<Option<u16>>>, g1: Game) -> bool {
    let first = tick.death_finished && e.flags > 0 && g0.defeated_minibosses & (1u32 << res::spec_enemy_index(e.enemy_type)) == 0;
    &&& !first ==> g1 == g0
    &&& first ==> {
        let i = spec_map_index(g0.map_type) as int;
        let k = g0.portal.koth;
        let boss = e.enemy_type == res::EnemyType::Boss;
        &&& g1.defeated_minibosses == g0.defeated_minibosses | (1u32 << res::spec_enemy_index(e.enemy_type))
        &&& g1.flag_frames@ == (if g0.flag_frames@[i] == 0 || g0.flag_frames@[i] > g0.frame {
            g0.flag_frames@.update(i, g0.frame)
        } else {
            g0.flag_frames@
        })
        &&& g1.portal.storage == g0.portal.storage
        &&& g1.portal.koth.spec_frames() == k.spec_frames()
        &&& g1.portal.koth.spec_mask() == k.spec_mask()
        &&& g1.portal.koth.spec_records() == (if may_record(k.spec_mask(), i) && k.spec_frames() < k.spec_records()[i] {
            k.spec_records().update(i, k.spec_frames())
        } else {
            k.spec_records()
        })
        &&& g1.captured_flags == spec_captured_flags(g1.portal, stage_flags) as u16
        &&& g1.state == (if boss { GameState::Win } else { g0.state })
        &&& boss ==> (g1.win_scene matches Some(w) && w.cycles == g0.frame && !w.rendered && w.frame == 0)
        &&& !boss ==> g1.win_scene == g0.win_scene
        &&& g1.frame == g0.frame
        &&& g1.map_type == g0.map_type
        &&& g1.stage_select_scene == g0.stage_select_scene
        &&& g1.game_over_scene == g0.game_over_scene
    }
}

/// Whether games `gs` record, one after another, the deaths that the ticks
/// `ticks` of the enemies `es` report (see `death_recorded`).
pub open spec fn deaths_recorded(gs: Seq<Game>, es: Seq<Enemy>, ticks: Seq<EnemyTick>, stage_flags: Seq<Vec<Option<u16>>>) -> bool {
    &&& gs.len() == ticks.len() + 1
    &&& forall|k: int| 0 <= k < ticks.len() ==> #[trigger] death_recorded(gs[k], es[k], ticks[k], stage_flags, gs[k + 1])
}

/// Whether a frame of the stage's enemies takes stage `m0`, player `pl0` and
/// game `g0` to `m2`, `pl1` and `g1` with the ticks `ticks`: the enemies
/// tick (to `m1`), each finished death is recorded in turn, and the
/// finished enemies go.
pub open spec fn enemies_frame_done(
    g0: Game,
    m0: StageMap,
    pl0: Player,
    walks: Seq<(i16, i16)>,
    stage_flags: Seq<Vec<Option<u16>>>,
    ticks: Seq<EnemyTick>,
    g1: Game,
    m2: StageMap,
    pl1: Player,
) -> bool {
    exists|m1: StageMap, gs: Seq<Game>| {
        &&& #[trigger] enemies_ticked(m0, pl0, walks, g0.frame, m1, pl1, ticks)
        &&& enemies_culled(m1, m2)
        &&& #[trigger] deaths_recorded(gs, enemy_list(m1.enemies), ticks, stage_flags)
        &&& gs[0] == g0
        &&& gs.last() == g1
    }
}

/// Whether game `g0`, stage `m0` and player `pl0` become `g1`, `m6` and
/// `pl6` by a frame of the stage: the enemies' frame (to stage `m2` and
/// player `pl1`; see `enemies_frame_done`), then the rest of the stage's
/// frame (see `rest_frame_done`).
pub open spec fn stage_frame_done(
    g0: Game,
    m0: StageMap,
    pl0: Player,
    walks: Seq<(i16, i16)>,
    stage_flags: Seq<Vec<Option<u16>>>,
    wall_bit: u8,
    ticks: Seq<EnemyTick>,
    locks: Seq<bool>,
    g1: Game,
    m6: StageMap,
    pl6: Player,
) -> bool {
    exists|m2: StageMap, pl1: Player| {
        &&& #[trigger] enemies_frame_done(g0, m0, pl0, walks, stage_flags, ticks, g1, m2, pl1)
        &&& rest_frame_done(m2, pl1, wall_bit, locks, m6, pl6)
    }
}

pub struct Game {
    pub portal: Portal,
    pub frame: u32,
    pub captured_flags: u16,
    /// Minibosses already defeated, one bit per kind.
    pub defeated_minibosses: u32,
    pub flag_frames: Vec<u32>,
    pub state: GameState,
    pub stage_select_scene: Option<StageSelect>,
    pub game_over_scene: Option<GameOver>,
    pub win_scene: Option<YouWin>,
    pub map_type: MapType,
}

impl Game {
    pub open spec fn wf(self) -> bool {
        &&& self.portal.wf()
        &&& self.flag_frames@.len() == MAP_COUNT
        &&& self.stage_select_scene matches Some(s) ==> s.wf()
    }

    /// The game at power-on: the run's timing starts from a cleared state
    /// (a console that already counted frames is reset), the flags come from
    /// the recorded solves, and the stage selection shows (the volcano
    /// stage is loaded behind it).
    pub fn new(portal: Portal, stage_flags: &Vec<Vec<Option<u16>>>) -> (r: Game)
        requires
            portal.wf(),
            stage_flags@.len() == MAP_COUNT,
            spec_captured_flags(portal, stage_flags@) <= u16::MAX,
        ensures
            r.wf(),
            r.portal.koth.spec_records() == portal.koth.spec_records(),
            r.portal.storage == portal.storage,
            portal.koth.spec_frames() != 0 ==> r.portal.koth.spec_frames() == 0 && r.portal.koth.spec_mask() == u16::MAX,
            portal.koth.spec_frames() == 0 ==> r.portal == portal,
            r.captured_flags == spec_captured_flags(portal, stage_flags@),
            r.frame == 0,
            r.defeated_minibosses == 0,
            r.flag_frames@ == Seq::new(MAP_COUNT as nat, |i: int| 0u32),
            r.state == GameState::StageSelect,
            r.stage_select_scene matches Some(s) && spec_fresh_stage_select(s, r.captured_flags >= FLAGS_FOR_BOSS),
            r.game_over_scene is None,
            r.win_scene is None,
            r.map_type == MapType::Volcano,
    {
        let mut portal = portal;
        attest_clean_boot(&mut portal);
        let captured_flags = flags_from_records(&portal, stage_flags);
        let flag_frames = vec![0u32; MAP_COUNT];
        assert(flag_frames@ =~= Seq::new(MAP_COUNT as nat, |i: int| 0u32));
        Game {
            portal,
            frame: 0,
            captured_flags,
            defeated_minibosses: 0,
            flag_frames,
            state: GameState::StageSelect,
            stage_select_scene: Some(StageSelect::with_boss_unlock_status(boss_unlocked(captured_flags))),
            game_over_scene: None,
            win_scene: None,
            map_type: MapType::Volcano,
        }
    }

    /// Whether the boss stage is unlocked.
    pub fn boss_unlocked(&self) -> (r: bool)
        ensures
            r == (self.captured_flags >= FLAGS_FOR_BOSS),
    {
        boss_unlocked(self.captured_flags)
    }

    /// Recounts the flags from the recorded solves.
    pub fn recompute_captured_flags(&mut self, stage_flags: &Vec<Vec<Option<u16>>>)
        requires
            old(self).wf(),
            stage_flags@.len() == MAP_COUNT,
            spec_captured_flags(old(self).portal, stage_flags@) <= u16::MAX,
        ensures
            final(self).wf(),
            *final(self) == (Game { captured_flags: spec_captured_flags(old(self).portal, stage_flags@) as u16, ..*old(self) }),
    {
        self.captured_flags = flags_from_records(&self.portal, stage_flags);
    }

    /// Starts the next frame: the frame counter moves on (wrapping around),
    /// the portal counts the frame, and every 500 frames the persistent
    /// state is saved.
    pub fn next_cycle(&mut self)
        requires
            old(self).wf(),
        ensures
            final(self).wf(),
            *final(self) == (Game { frame: final(self).frame, portal: final(self).portal, ..*old(self) }),
            final(self).frame == (if old(self).frame == u32::MAX { 0 } else { old(self).frame + 1 }),
            final(self).portal.koth.spec_frames() == (if old(self).portal.koth.spec_frames() < KOTH_FRAMES_MAX {
                old(self).portal.koth.spec_frames() + 1
            } else {
                old(self).portal.koth.spec_frames() as int
            }),
            final(self).portal.koth.spec_records() == old(self).portal.koth.spec_records(),
            final(self).portal.koth.spec_mask() == old(self).portal.koth.spec_mask(),
            final(self).portal.storage@ == (if final(self).frame % SAVE_INTERVAL_FRAMES == 0 {
                Seq::new(old(self).portal.storage@.len(), |i: int| if i < 4 { spec_save_words()[i] } else { old(self).portal.storage@[i] })
            } else {
                old(self).portal.storage@
            }),
    {
        let (next, save) = advance_frame(self.frame);
        self.frame = next;
        self.portal.inform_game_tick();
        if save {
            let words: [u16; 4] = [0x1234, 0x5678, 0x9ABC, 0xDEF0];
            assert(words@ =~= spec_save_words());
            let ghost before = self.portal.storage@;
            self.portal.save_to_persistent_storage(words.as_slice());
            assert(self.portal.storage@ =~= Seq::new(before.len(), |i: int| if i < 4 { spec_save_words()[i] } else { before[i] }));
        }
    }

    /// Back to the stage selection: the end screens close and a fresh
    /// selection screen opens (offering the boss stage when unlocked).
    pub fn switch_to_stage_select(&mut self)
        requires
            old(self).wf(),
        ensures
            final(self).wf(),
            final(self).state == GameState::StageSelect,
            final(self).game_over_scene is None,
            final(self).win_scene is None,
            final(self).stage_select_scene matches Some(s) && spec_fresh_stage_select(s, old(self).captured_flags >= FLAGS_FOR_BOSS),
            *final(self) == (Game {
                state: GameState::StageSelect,
                game_over_scene: None,
                win_scene: None,
                stage_select_scene: final(self).stage_select_scene,
                ..*old(self)
            }),
    {
        self.game_over_scene = None;
        self.win_scene = None;
        self.state = GameState::StageSelect;
        self.stage_select_scene = Some(StageSelect::with_boss_unlock_status(self.boss_unlocked()));
    }

    /// A frame of the stage's enemies on game frame `frame`: they tick
    /// (enemy `i` walking by `walks[i]`, see `StageMap::update_enemies`),
    /// each finished death is recorded in turn (see `finish_enemy_death`),
    /// and the enemies whose death sequence ended go (see
    /// `StageMap::cull_enemies`). Returns the ticks.
    pub fn update_enemies(
        &mut self,
        map: &mut StageMap,
        walks: &Vec<(i16, i16)>,
        player: &mut Player,
        stage_flags: &Vec<Vec<Option<u16>>>,
    ) -> (r: Vec<EnemyTick>)
        requires
            old(self).wf(),
            stage_flags@.len() == MAP_COUNT,
            spec_all_flags(stage_flags@) <= u16::MAX,
            old(map).wf(),
            walks@.len() == enemy_list(old(map).enemies).len(),
            old(player).wf(),
            old(player).x + 8 <= i16::MAX,
            old(player).y + 8 <= i16::MAX,
            forall|i: int| 0 <= i < walks@.len() ==> {
                let e = #[trigger] enemy_list(old(map).enemies)[i];
                &&& e.status matches EnemyStatus::Dying { cooldown } ==> cooldown < u16::MAX
                &&& enemy_tick_ok(e, walks@[i], old(self).frame, old(player).x, old(player).y, old(player).spec_hitbox())
            },
        ensures
            final(self).wf(),
            final(map).wf(),
            final(player).wf(),
            enemies_frame_done(*old(self), *old(map), *old(player), walks@, stage_flags@, r@, *final(self), *final(map), *final(player)),
            *final(map) == (StageMap {
                enemies: final(map).enemies,
                enemies_defeated: final(map).enemies_defeated,
                enemies_loaded: final(map).enemies_loaded,
                ..*old(map)
            }),
            final(player).x == old(player).x,
            final(player).y == old(player).y,
    {
        let ghost g0 = *self;
        let ghost m0 = *map;
        let ghost pl0 = *player;
        let ticks = map.update_enemies(walks, self.frame, player);
        let ghost m1 = *map;
        let ghost es1 = enemy_list(m1.enemies);
        let ghost mut gs: Seq<Game> = seq![*self];
        let n = ticks.len();
        let mut i: usize = 0;
        while i < n
            invariant
                n == ticks@.len(),
                n == es1.len(),
                i <= n,
                *map == m1,
                es1 == enemy_list(m1.enemies),
                self.wf(),
                stage_flags@.len() == MAP_COUNT,
                spec_all_flags(stage_flags@) <= u16::MAX,
                gs.len() == i + 1,
                gs[0] == g0,
                gs[i as int] == *self,
                forall|k: int| 0 <= k < i ==> #[trigger] death_recorded(gs[k], es1[k], ticks@[k], stage_flags@, gs[k + 1]),
            decreases n - i,
        {
            let e = enemies_get(&map.enemies, i);
            let ghost g_i = *self;
            self.finish_enemy_death(e, ticks[i], stage_flags);
            proof {
                assert(death_recorded(g_i, es1[i as int], ticks@[i as int], stage_flags@, *self));
                gs = gs.push(*self);
                assert forall|k: int| 0 <= k < i + 1 implies #[trigger] death_recorded(gs[k], es1[k], ticks@[k], stage_flags@, gs[k + 1]) by {
                    if k < i {
                        assert(gs[k] == gs.drop_last()[k] && gs[k + 1] == gs.drop_last()[k + 1]);
                    }
                }
            }
            i = i + 1;
        }
        map.cull_enemies();
        proof {
            assert(deaths_recorded(gs, es1, ticks@, stage_flags@));
            assert(enemies_ticked(m0, pl0, walks@, g0.frame, m1, *player, ticks@));
            assert(enemies_culled(m1, *map));
            assert(enemies_frame_done(g0, m0, pl0, walks@, stage_flags@, ticks@, *self, *map, *player));
        }
        ticks
    }

    /// A frame of the stage (the parts of it this library holds): the
    /// enemies' frame with their finished deaths recorded (see
    /// `update_enemies`), then the switches, the doors and the projectiles
    /// (see `StageMap::update_rest`), the walls being the map tiles whose
    /// attributes hold bit `wall_bit`. Returns the enemies' ticks and which
    /// doors locked themselves.
    pub fn update_stage(
        &mut self,
        map: &mut StageMap,
        walks: &Vec<(i16, i16)>,
        player: &mut Player,
        stage_flags: &Vec<Vec<Option<u16>>>,
        wall_bit: u8,
    ) -> (r: (Vec<EnemyTick>, Vec<bool>))
        requires
            old(self).wf(),
            stage_flags@.len() == MAP_COUNT,
            spec_all_flags(stage_flags@) <= u16::MAX,
            old(map).wf(),
            old(map).map_data.wf(),
            walks@.len() == enemy_list(old(map).enemies).len(),
            old(player).wf(),
            coord_small(old(player).x as int),
            coord_small(old(player).y as int),
            coord_small(old(player).x + 8),
            coord_small(old(player).y + 8),
            wall_bit < 8,
            forall|i: int| 0 <= i < walks@.len() ==> {
                let e = #[trigger] enemy_list(old(map).enemies)[i];
                &&& e.status matches EnemyStatus::Dying { cooldown } ==> cooldown < u16::MAX
                &&& enemy_tick_ok(e, walks@[i], old(self).frame, old(player).x, old(player).y, old(player).spec_hitbox())
            },
            forall|i: int| 0 <= i < projectile_list(old(map).projectiles).len() ==> #[trigger] projectile_ready(*old(map), i),
        ensures
            final(self).wf(),
            final(map).wf(),
            final(player).wf(),
            stage_frame_done(*old(self), *old(map), *old(player), walks@, stage_flags@, wall_bit, r.0@, r.1@, *final(self), *final(map), *final(player)),
    {
        let ghost g0 = *self;
        let ghost m0 = *map;
        let ghost pl0 = *player;
        let ticks = self.update_enemies(map, walks, player, stage_flags);
        let ghost g1 = *self;
        let ghost m2 = *map;
        let ghost pl1 = *player;
        proof {
            assert forall|i: int| 0 <= i < projectile_list(m2.projectiles).len() implies #[trigger] projectile_ready(m2, i) by {
                assert(projectile_ready(m0, i));
            }
        }
        let locks = map.update_rest(player, wall_bit);
        proof {
            assert(enemies_frame_done(g0, m0, pl0, walks@, stage_flags@, ticks@, g1, m2, pl1));
            assert(stage_frame_done(g0, m0, pl0, walks@, stage_flags@, wall_bit, ticks@, locks@, *self, *map, *player));
        }
        (ticks, locks)
    }

    /// The end of an enemy's death sequence as a stage tick reports it
    /// (`tick`, for the enemy `e` after the tick; see
    /// `StageMap::update_enemy`): when the sequence ended and `e` is a
    /// miniboss of a kind not defeated before, the kind is marked defeated,
    /// the stage's fastest flag frame is kept (see `record_defeat`), the
    /// stage's challenge is recorded as solved on the portal, the flags are
    /// counted again from the records, and defeating the boss wins the game.
    /// Returns whether this was such a first defeat.
    pub fn finish_enemy_death(&mut self, e: &Enemy, tick: EnemyTick, stage_flags: &Vec<Vec<Option<u16>>>) -> (r: bool)
        requires
            old(self).wf(),
            stage_flags@.len() == MAP_COUNT,
            spec_all_flags(stage_flags@) <= u16::MAX,
        ensures
            final(self).wf(),
            r == (tick.death_finished && e.flags > 0 && old(self).defeated_minibosses & (1u32 << res::spec_enemy_index(e.enemy_type)) == 0),
            !r ==> *final(self) == *old(self),
            r ==> {
                let i = spec_map_index(old(self).map_type) as int;
                let k = old(self).portal.koth;
                let boss = e.enemy_type == res::EnemyType::Boss;
                &&& final(self).defeated_minibosses == old(self).defeated_minibosses | (1u32 << res::spec_enemy_index(e.enemy_type))
                &&& final(self).flag_frames@ == (if old(self).flag_frames@[i] == 0 || old(self).flag_frames@[i] > old(self).frame {
                    old(self).flag_frames@.update(i, old(self).frame)
                } else {
                    old(self).flag_frames@
                })
                &&& final(self).portal.storage == old(self).portal.storage
                &&& final(self).portal.koth.spec_frames() == k.spec_frames()
                &&& final(self).portal.koth.spec_mask() == k.spec_mask()
                &&& final(self).portal.koth.spec_records() == (if may_record(k.spec_mask(), i) && k.spec_frames() < k.spec_records()[i] {
                    k.spec_records().update(i, k.spec_frames())
                } else {
                    k.spec_records()
                })
                &&& final(self).captured_flags == spec_captured_flags(final(self).portal, stage_flags@) as u16
                &&& final(self).state == (if boss { GameState::Win } else { old(self).state })
                &&& boss ==> (final(self).win_scene matches Some(w) && w.cycles == old(self).frame && !w.rendered && w.frame == 0)
                &&& !boss ==> final(self).win_scene == old(self).win_scene
                &&& final(self).frame == old(self).frame
                &&& final(self).map_type == old(self).map_type
                &&& final(self).stage_select_scene == old(self).stage_select_scene
                &&& final(self).game_over_scene == old(self).game_over_scene
            },
    {
        if !(tick.death_finished && e.is_miniboss() && self.defeated_minibosses & e.enemy_type.defeat_bit() == 0) {
            return false;
        }
        let out = record_defeat(
            &mut self.defeated_minibosses,
            &mut self.flag_frames,
            self.map_type,
            self.frame,
            e.is_miniboss(),
            e.enemy_type.defeat_bit(),
            e.is_boss(),
        );
        let ghost first = tick.death_finished && e.flags > 0 && old(self).defeated_minibosses & (1u32 << res::spec_enemy_index(e.enemy_type)) == 0;
        assert(out.solved is Some <==> first);
        match out.solved {
            Some(challenge) => {
                assert(challenge == spec_map_index(old(self).map_type));
                self.portal.mark_challenge_solved(challenge);
                proof {
                    let p = self.portal;
                    law_flags_monotone(
                        seq![spec_solved(p, 0), spec_solved(p, 1), spec_solved(p, 2), spec_solved(p, 3), spec_solved(p, 4)],
                        seq![true, true, true, true, true],
                        stage_flags@.map_values(|v: Vec<Option<u16>>| v@),
                    );
                }
                self.recompute_captured_flags(stage_flags);
                if out.won {
                    self.trigger_win();
                }
                true
            },
            None => false,
        }
    }

    /// The boss was defeated: the win screen shows the frames the run took.
    pub fn trigger_win(&mut self)
        requires
            old(self).wf(),
        ensures
            final(self).wf(),
            final(self).win_scene matches Some(w) && w.cycles == old(self).frame && !w.rendered && w.frame == 0
                && w.current_palette@ == spec_default_palette(),
            *final(self) == (Game { state: GameState::Win, win_scene: final(self).win_scene, ..*old(self) }),
    {
        self.state = GameState::Win;
        self.win_scene = Some(YouWin::new(self.frame));
    }

    /// Enters stage `map`: recording permission narrows to what the stage
    /// allows (see `recordable_within`), the selection screen closes and play
    /// starts. The boss stage needs its flags.
    pub fn load_map(&mut self, map: MapType)
        requires
            old(self).wf(),
            !(map == MapType::BossStage && old(self).captured_flags < FLAGS_FOR_BOSS),
        ensures
            final(self).wf(),
            *final(self) == (Game {
                portal: final(self).portal,
                stage_select_scene: None,
                state: GameState::Playing,
                map_type: map,
                ..*old(self)
            }),
            final(self).portal.koth.spec_mask() == old(self).portal.koth.spec_mask() & (if map == MapType::BossStage {
                1u16 << spec_map_index(map) as u16
            } else {
                u16::MAX
            }),
            final(self).portal.koth.spec_records() == old(self).portal.koth.spec_records(),
            final(self).portal.koth.spec_frames() == old(self).portal.koth.spec_frames(),
            final(self).portal.storage == old(self).portal.storage,
    {
        self.portal.restrict_challenges(recordable_within(map));
        self.stage_select_scene = None;
        self.state = GameState::Playing;
        self.map_type = map;
    }

    /// A dialogue starts.
    pub fn start_dialogue(&mut self)
        ensures
            *final(self) == (Game { state: GameState::Dialogue, ..*old(self) }),
    {
        self.state = GameState::Dialogue;
    }

    /// The dialogue ended: play goes on.
    pub fn end_dialogue(&mut self)
        ensures
            *final(self) == (Game { state: GameState::Playing, ..*old(self) }),
    {
        self.state = GameState::Playing;
    }

    /// The palette set in use for palette line `palette`: the pause menu,
    /// the selection screen and the end screens have their own; during play
    /// line A is the player's (`player`) and the others the stage's.
    pub fn palette_type(&self, palette: Palette, player: PaletteContext) -> (r: PaletteContext)
        ensures
            r == spec_palette_type(
                self.state,
                self.stage_select_scene is Some,
                self.game_over_scene is Some || self.win_scene is Some,
                palette,
                player,
                self.map_type,
            ),
    {
        palette_type(
            self.state,
            self.stage_select_scene.is_some(),
            self.game_over_scene.is_some() || self.win_scene.is_some(),
            palette,
            player,
            self.map_type,
        )
    }

    /// After a frame of play (the player beamed in): a dead player ends the
    /// game, the reset combination returns to the stage selection.
    pub fn after_play(&mut self, player_dead: bool, reset_pressed: bool) -> (r: GameAction)
        requires
            old(self).wf(),
        ensures
            final(self).wf(),
            player_dead ==> r == GameAction::GameOver && *final(self) == (Game {
                state: GameState::GameOver,
                game_over_scene: Some(GameOver { rendered: false }),
                ..*old(self)
            }),
            !player_dead && reset_pressed ==> {
                &&& r == GameAction::ToStageSelect
                &&& final(self).stage_select_scene matches Some(s) && spec_fresh_stage_select(s, old(self).captured_flags >= FLAGS_FOR_BOSS)
                &&& *final(self) == (Game {
                    state: GameState::StageSelect,
                    game_over_scene: None,
                    win_scene: None,
                    stage_select_scene: final(self).stage_select_scene,
                    ..*old(self)
                })
            },
            !player_dead && !reset_pressed ==> r == GameAction::Stay && *final(self) == *old(self),
    {
        if player_dead {
            self.state = GameState::GameOver;
            self.game_over_scene = Some(GameOver::new());
            GameAction::GameOver
        } else if reset_pressed {
            self.switch_to_stage_select();
            GameAction::ToStageSelect
        } else {
            GameAction::Stay
        }
    }

    /// A frame of the game's screens, after `next_cycle`, with the first
    /// controller's state `input`. While paused (the menu's frame runs
    /// before), Start resumes play; during play, Start pauses, else a frame
    /// of play is due; in the selection screen, the screen's frame may reset
    /// the console or enter a stage; on the end screens A or Start returns
    /// to the selection, and the win screen animates.
    pub fn update(&mut self, input: Option<&ControllerState>) -> (r: GameAction)
        requires
            old(self).wf(),
            old(self).stage_select_scene matches Some(s) && s.boss_unlocked ==> old(self).captured_flags >= FLAGS_FOR_BOSS,
            old(self).state == GameState::Win ==> (old(self).win_scene matches Some(w) ==> w.frame < u16::MAX),
        ensures
            final(self).wf(),
            spec_game_frame(*old(self), match input {
                Some(s) => Some(*s),
                None => None,
            }, *final(self), r),
    {
        let start = match input {
            Some(s) => s.just_pressed(Button::Start),
            None => false,
        };
        let confirm = match input {
            Some(s) => s.just_pressed(Button::A) || s.just_pressed(Button::Start),
            None => false,
        };
        match self.state {
            GameState::Paused => {
                if start {
                    self.state = GameState::Playing;
                    return GameAction::Resumed;
                }
                GameAction::Stay
            },
            GameState::Playing => {
                if start {
                    self.state = GameState::Paused;
                    return GameAction::Paused;
                }
                GameAction::Play
            },
            GameState::Dialogue => GameAction::Dialogue,
            GameState::GameOver | GameState::Win => {
                if confirm {
                    self.switch_to_stage_select();
                    return GameAction::ToStageSelect;
                }
                if let GameState::Win = self.state {
                    let mut w: Option<YouWin> = None;
                    std::mem::swap(&mut w, &mut self.win_scene);
                    let w2 = match w {
                        Some(mut scene) => {
                            scene.animate();
                            Some(scene)
                        },
                        None => None,
                    };
                    self.win_scene = w2;
                }
                GameAction::Stay
            },
            GameState::StageSelect => self.update_stage_select(input),
        }
    }

    fn update_stage_select(&mut self, input: Option<&ControllerState>) -> (r: GameAction)
        requires
            old(self).wf(),
            old(self).state == GameState::StageSelect,
            old(self).stage_select_scene matches Some(s) && s.boss_unlocked ==> old(self).captured_flags >= FLAGS_FOR_BOSS,
        ensures
            final(self).wf(),
            spec_stage_select_frame(*old(self), match input {
                Some(s) => Some(*s),
                None => None,
            }, *final(self), r),
    {
        let mut scene: Option<StageSelect> = None;
        std::mem::swap(&mut scene, &mut self.stage_select_scene);
        match scene {
            None => GameAction::Stay,
            Some(mut sc) => {
                let ghost s0 = sc;
                let action = sc.update(input);
                let ghost s2 = sc;
                self.stage_select_scene = Some(sc);
                match action {
                    StageAction::Stay => {
                        assert(spec_stage_select_step(s0, match input { Some(s) => Some(*s), None => None }, s2, action));
                        GameAction::Stay
                    },
                    StageAction::ResetConsole => {
                        self.portal.request_console_reset();
                        assert(spec_stage_select_step(s0, match input { Some(s) => Some(*s), None => None }, s2, action));
                        GameAction::ConsoleReset
                    },
                    StageAction::LoadMap { map, player_type } => {
                        proof {
                            lemma_stage_offer(s0, match input { Some(s) => Some(*s), None => None }, s2, action);
                        }
                        self.load_map(map);
                        assert(spec_stage_select_step(s0, match input { Some(s) => Some(*s), None => None }, s2, action));
                        GameAction::LoadMap { map, player_type }
                    },
                }
            },
        }
    }
}

/// The selection screen offers the boss stage only when it was opened with
/// the boss unlocked.
proof fn lemma_stage_offer(s: StageSelect, input: Option<ControllerState>, s2: StageSelect, a: StageAction)
    requires
        spec_stage_select_step(s, input, s2, a),
    ensures
        a matches StageAction::LoadMap { map, player_type } && map == MapType::BossStage ==> s.boss_unlocked,
{
}

/// Start pauses play and Start again resumes it, leaving the game as it was.
pub proof fn law_pause_then_resume(g1: Game, inp: Option<ControllerState>, g2: Game, r1: GameAction, g3: Game, r2: GameAction)
    requires
        g1.state == GameState::Playing,
        spec_start(inp),
        spec_game_frame(g1, inp, g2, r1),
        spec_game_frame(g2, inp, g3, r2),
    ensures
        r1 == GameAction::Paused,
        r2 == GameAction::Resumed,
        g3 == g1,
{
}

/// The selection screen enters the boss stage only when the boss was
/// unlocked as it opened.
pub proof fn law_boss_entry_needs_unlock(g1: Game, inp: Option<ControllerState>, g2: Game, player_type: PlayerType)
    requires
        g1.state == GameState::StageSelect,
        spec_game_frame(g1, inp, g2, GameAction::LoadMap { map: MapType::BossStage, player_type }),
    ensures
        g1.stage_select_scene matches Some(s) && s.boss_unlocked,
{
    if let Some(s) = g1.stage_select_scene {
        assert forall|s2: StageSelect, a: StageAction|
            #[trigger] spec_stage_select_step(s, inp, s2, a) && a == (StageAction::LoadMap { map: MapType::BossStage, player_type }) implies s.boss_unlocked by {
            lemma_stage_offer(s, inp, s2, a);
        }
    }
}

/// No frame of the game hands back a recording permission, except the
/// attested console reset: the challenges recordable afterwards were
/// recordable before.
pub proof fn law_permissions_only_shrink(g1: Game, inp: Option<ControllerState>, g2: Game, r: GameAction)
    requires
        spec_game_frame(g1, inp, g2, r),
        r != GameAction::ConsoleReset,
    ensures
        g2.portal.koth.spec_mask() & !g1.portal.koth.spec_mask() == 0,
{
    let m1 = g1.portal.koth.spec_mask();
    let m2 = g2.portal.koth.spec_mask();
    assert(m1 & !m1 == 0) by (bit_vector);
    if g1.state == GameState::StageSelect && g1.stage_select_scene is Some && r != GameAction::Stay {
        let x: u16 = if let GameAction::LoadMap { map, player_type } = r {
            if map == MapType::BossStage { 1u16 << spec_map_index(map) as u16 } else { u16::MAX }
        } else {
            0
        };
        assert((m1 & x) & !m1 == 0) by (bit_vector);
    }
}

} // verus!
