use hackceler8::big_sprite::{AnimState, Animation, BigSprite, Frame};
use hackceler8::game::{
    advance_frame, attest_clean_boot, boss_unlocked, decimal_len, default_palette, enter_stage,
    flags_from_records, palette_type, play_outcome, record_defeat, DefeatOutcome, Game, GameAction,
    GameOver, GameState, PlayOutcome, YouWin,
};
use hackceler8::enemy::{harmless_stats, Enemy, EnemyProperties, EnemyTick, Status as EnemyStatus, REGULAR_DEATH_COOLDOWN};
use hackceler8::map::StageMap;
use hackceler8::map_data::{Array2d, MapData};
use hackceler8::koth::{challenge_id, Portal};
use hackceler8::res::EnemyType;
use hackceler8::player::{Player, PlayerType};
use hackceler8::res::{MapType, PaletteContext};
use hackceler8::stage_select::{
    cell_dimensions, map_for_selection, selection_pos, StageAction, StageSelect,
};
use hackceler8::vdp::{ControllerState, Palette};

fn sprite(n: usize) -> BigSprite {
    let mut a = Vec::new();
    for _ in 0..n {
        a.push(Animation { loops: true, frames: vec![Frame { tile_offs: 0, duration: 4 }] });
    }
    BigSprite {
        vram_start_tile: 0,
        tiles_idx: 0,
        sprites: vec![],
        animation_state: AnimState::new(&a),
        anims: a,
        w: 2,
        h: 2,
        x: 0,
        y: 0,
        flip_v: false,
        flip_h: false,
        priority: false,
        singleton: false,
        singleton_tile_offs: 0,
        tileset_shift: 0,
    }
}

fn input(pressed: u16, just_pressed: u16) -> ControllerState {
    ControllerState { pressed, just_pressed, pending_just_pressed: 0, is_6button: true }
}

const RIGHT: u16 = 1 << 3;
const A: u16 = 1 << 4;
const C: u16 = 1 << 6;
const START: u16 = 1 << 7;

#[test]
fn one_flag_unlocks_the_boss() {
    assert!(!boss_unlocked(0));
    assert!(boss_unlocked(1));
}

#[test]
fn saves_happen_every_five_hundred_frames() {
    assert_eq!(advance_frame(0), (1, false));
    assert_eq!(advance_frame(499), (500, true));
    assert_eq!(advance_frame(u32::MAX), (0, true));
}

#[test]
fn pausing_wins_over_everything() {
    assert_eq!(play_outcome(true, true, true, true), PlayOutcome::Pause);
    assert_eq!(play_outcome(false, true, true, true), PlayOutcome::Frozen);
    assert_eq!(play_outcome(false, false, true, true), PlayOutcome::GameOver);
    assert_eq!(play_outcome(false, false, false, true), PlayOutcome::StageSelect);
    assert_eq!(play_outcome(false, false, false, false), PlayOutcome::Continue);
}

#[test]
fn palettes_follow_the_screen() {
    let p = PaletteContext::Forest;
    assert_eq!(palette_type(GameState::Paused, true, true, Palette::B, p, MapType::Arctic), PaletteContext::Inventory);
    assert_eq!(palette_type(GameState::StageSelect, true, false, Palette::B, p, MapType::Arctic), PaletteContext::StageSelect);
    assert_eq!(palette_type(GameState::GameOver, false, true, Palette::B, p, MapType::Arctic), PaletteContext::GameOver);
    assert_eq!(palette_type(GameState::Playing, false, false, Palette::A, p, MapType::Arctic), PaletteContext::Forest);
    assert_eq!(palette_type(GameState::Playing, false, false, Palette::C, p, MapType::Arctic), PaletteContext::Arctic);
}

#[test]
fn flags_count_only_solved_stages() {
    let mut portal = Portal::new();
    let stage_flags = vec![
        vec![None, Some(0), Some(2), Some(5)],
        vec![Some(1)],
        vec![],
        vec![Some(3)],
        vec![Some(4)],
    ];
    assert_eq!(flags_from_records(&portal, &stage_flags), 0);
    portal.inform_game_tick();
    portal.mark_challenge_solved(challenge_id(MapType::Forest));
    assert_eq!(flags_from_records(&portal, &stage_flags), 2);
    portal.mark_challenge_solved(challenge_id(MapType::Arctic));
    assert_eq!(flags_from_records(&portal, &stage_flags), 5);
}

#[test]
fn a_clean_boot_resets_a_running_counter() {
    let mut portal = Portal::new();
    attest_clean_boot(&mut portal);
    assert_eq!(portal.get_frame_count(), 0);
    portal.inform_game_tick();
    portal.restrict_challenges(1);
    attest_clean_boot(&mut portal);
    assert_eq!(portal.get_frame_count(), 0);
    assert_eq!(portal.get_allowed_challenges(), u16::MAX);
}

#[test]
fn the_boss_stage_needs_a_flag() {
    let mut portal = Portal::new();
    assert!(!enter_stage(&mut portal, MapType::BossStage, 0));
    assert_eq!(portal.get_allowed_challenges(), u16::MAX);
    assert!(enter_stage(&mut portal, MapType::Forest, 0));
    assert_eq!(portal.get_allowed_challenges(), u16::MAX);
    assert!(enter_stage(&mut portal, MapType::BossStage, 1));
    assert_eq!(portal.get_allowed_challenges(), 1 << 4);
}

#[test]
fn only_the_first_miniboss_defeat_counts() {
    let mut defeated = 0u32;
    let mut frames = vec![0u32; 5];
    let r = record_defeat(&mut defeated, &mut frames, MapType::Volcano, 300, true, 4, false);
    assert_eq!(r, DefeatOutcome { solved: Some(1), won: false });
    assert_eq!(defeated, 4);
    assert_eq!(frames, vec![0, 300, 0, 0, 0]);
    let r = record_defeat(&mut defeated, &mut frames, MapType::Volcano, 200, true, 4, false);
    assert_eq!(r, DefeatOutcome { solved: None, won: false });
    assert_eq!(frames, vec![0, 300, 0, 0, 0]);
    let r = record_defeat(&mut defeated, &mut frames, MapType::Volcano, 200, false, 8, false);
    assert_eq!(r, DefeatOutcome { solved: None, won: false });
    let r = record_defeat(&mut defeated, &mut frames, MapType::BossStage, 900, true, 16, true);
    assert_eq!(r, DefeatOutcome { solved: Some(4), won: true });
    assert_eq!(frames, vec![0, 300, 0, 0, 900]);
}

#[test]
fn the_win_screen_cycles_colors() {
    let mut w = YouWin::new(12345);
    assert_eq!(w.current_palette, default_palette());
    assert_eq!(w.message_column(), 2);
    for _ in 0..10 {
        w.animate();
    }
    assert_eq!(w.frame, 10);
    assert_eq!(w.current_palette[0], 0x000);
    assert_eq!(w.current_palette[1], 0x0F0);
    assert_eq!(w.current_palette[5], 0x00F);
    assert!(!GameOver::new().rendered);
}

#[test]
fn decimal_lengths() {
    assert_eq!(decimal_len(0), 1);
    assert_eq!(decimal_len(9), 1);
    assert_eq!(decimal_len(10), 2);
    assert_eq!(decimal_len(u32::MAX), 10);
}

#[test]
fn the_stage_grid() {
    assert_eq!(map_for_selection((1, 0), false), Some(MapType::Arctic));
    assert_eq!(map_for_selection((0, 1), false), Some(MapType::Forest));
    assert_eq!(map_for_selection((2, 1), false), Some(MapType::Spaceship));
    assert_eq!(map_for_selection((1, 2), false), Some(MapType::Volcano));
    assert_eq!(map_for_selection((1, 1), false), None);
    assert_eq!(map_for_selection((1, 1), true), Some(MapType::BossStage));
    assert_eq!(map_for_selection((0, 0), true), None);
    assert_eq!(cell_dimensions((1, 0)), (76, 24));
    assert_eq!(selection_pos(0, (0, 0)), (192, 144));
    assert_eq!(selection_pos(3, (1, 1)), (314, 266));
    assert_eq!(selection_pos(1, (2, 0)), (64 + 46 + 76 + 22 + 24 + 128, 144));
}

#[test]
fn choosing_a_stage_and_a_character() {
    let mut s = StageSelect::with_boss_unlock_status(false);
    s.set_up(sprite(8), vec![sprite(1), sprite(1), sprite(1), sprite(1)]);
    assert!(!s.first_render);
    assert_eq!(s.level_display_sprite.as_ref().unwrap().current_animation(), 0);
    assert_eq!(s.selection_sprites[3].as_ref().unwrap().x, 192 + 24);
    assert_eq!(s.update(Some(&input(RIGHT, RIGHT))), StageAction::Stay);
    assert_eq!(s.selection, (1, 0));
    assert_eq!(s.level_display_sprite.as_ref().unwrap().current_animation(), 4);
    assert_eq!(s.update(Some(&input(A, A))), StageAction::Stay);
    assert!(s.is_selecting_player());
    assert_eq!(s.selected_player_type(), PlayerType::Shooter);
    assert_eq!(s.update(Some(&input(RIGHT, RIGHT))), StageAction::Stay);
    assert_eq!(s.selected_player_type(), PlayerType::Melee);
    assert_eq!(
        s.update(Some(&input(START, START))),
        StageAction::LoadMap { map: MapType::Arctic, player_type: PlayerType::Melee }
    );
}

#[test]
fn a_and_c_with_start_resets_the_console() {
    let mut s = StageSelect::with_boss_unlock_status(true);
    s.set_up(sprite(8), vec![sprite(1), sprite(1), sprite(1), sprite(1)]);
    assert_eq!(s.level_display_sprite.as_ref().unwrap().current_animation(), 5);
    assert_eq!(s.update(Some(&input(A | C, START))), StageAction::ResetConsole);
    assert_eq!(s.update(None), StageAction::Stay);
    assert_eq!(s.selection, (0, 0));
}

fn game() -> Game {
    let stage_flags = vec![vec![Some(1)], vec![], vec![], vec![], vec![]];
    Game::new(Portal::new(), &stage_flags)
}

#[test]
fn the_game_boots_into_the_stage_selection() {
    let g = game();
    assert_eq!(g.state, GameState::StageSelect);
    assert_eq!(g.captured_flags, 0);
    assert!(!g.boss_unlocked());
    assert!(!g.stage_select_scene.as_ref().unwrap().boss_unlocked);
    assert_eq!(g.frame, 0);
    assert_eq!(g.flag_frames, vec![0; 5]);
    assert_eq!(g.map_type, MapType::Volcano);
}

#[test]
fn the_state_is_saved_every_five_hundred_frames() {
    let mut g = game();
    for _ in 0..499 {
        g.next_cycle();
    }
    assert_eq!(g.portal.storage[0], 0);
    g.next_cycle();
    assert_eq!(g.frame, 500);
    assert_eq!(g.portal.get_frame_count(), 500);
    assert_eq!(&g.portal.storage[0..5], &[0x1234, 0x5678, 0x9ABC, 0xDEF0, 0]);
}

#[test]
fn start_pauses_and_resumes_play() {
    let mut g = game();
    g.load_map(MapType::Forest);
    assert_eq!(g.state, GameState::Playing);
    assert!(g.stage_select_scene.is_none());
    assert_eq!(g.update(Some(&input(0, 0))), GameAction::Play);
    assert_eq!(g.update(Some(&input(START, START))), GameAction::Paused);
    assert_eq!(g.state, GameState::Paused);
    assert_eq!(g.update(None), GameAction::Stay);
    assert_eq!(g.update(Some(&input(START, START))), GameAction::Resumed);
    assert_eq!(g.state, GameState::Playing);
    g.start_dialogue();
    assert_eq!(g.update(None), GameAction::Dialogue);
    g.end_dialogue();
    assert_eq!(g.state, GameState::Playing);
}

#[test]
fn dying_shows_the_game_over_screen_until_confirmed() {
    let mut g = game();
    g.load_map(MapType::Forest);
    assert_eq!(g.after_play(false, false), GameAction::Stay);
    assert_eq!(g.after_play(true, true), GameAction::GameOver);
    assert_eq!(g.state, GameState::GameOver);
    assert!(g.game_over_scene.is_some());
    assert_eq!(g.update(Some(&input(0, 0))), GameAction::Stay);
    assert_eq!(g.update(Some(&input(A, A))), GameAction::ToStageSelect);
    assert_eq!(g.state, GameState::StageSelect);
    assert!(g.game_over_scene.is_none());
}

#[test]
fn the_reset_combination_returns_to_the_selection() {
    let mut g = game();
    g.load_map(MapType::Forest);
    assert_eq!(g.after_play(false, true), GameAction::ToStageSelect);
    assert_eq!(g.state, GameState::StageSelect);
}

#[test]
fn winning_shows_the_run_length() {
    let mut g = game();
    g.next_cycle();
    g.next_cycle();
    g.trigger_win();
    assert_eq!(g.state, GameState::Win);
    assert_eq!(g.win_scene.as_ref().unwrap().cycles, 2);
    assert_eq!(g.update(None), GameAction::Stay);
    assert_eq!(g.win_scene.as_ref().unwrap().frame, 1);
    assert_eq!(g.update(Some(&input(START, START))), GameAction::ToStageSelect);
    assert!(g.win_scene.is_none());
}

#[test]
fn a_stage_is_entered_from_the_selection() {
    let mut g = game();
    g.stage_select_scene.as_mut().unwrap().set_up(sprite(8), vec![sprite(1), sprite(1), sprite(1), sprite(1)]);
    assert_eq!(g.update(Some(&input(RIGHT, RIGHT))), GameAction::Stay);
    assert_eq!(g.update(Some(&input(A, A))), GameAction::Stay);
    assert_eq!(
        g.update(Some(&input(A, A))),
        GameAction::LoadMap { map: MapType::Arctic, player_type: PlayerType::Shooter }
    );
    assert_eq!(g.state, GameState::Playing);
    assert_eq!(g.map_type, MapType::Arctic);
    assert_eq!(g.portal.get_allowed_challenges(), u16::MAX);
    assert_eq!(g.palette_type(Palette::B, PaletteContext::PlayerShooter), PaletteContext::Arctic);
    assert_eq!(g.palette_type(Palette::A, PaletteContext::PlayerShooter), PaletteContext::PlayerShooter);
}

#[test]
fn the_selection_can_reset_the_console() {
    let mut g = game();
    g.next_cycle();
    assert_eq!(g.portal.get_frame_count(), 1);
    assert_eq!(g.update(Some(&input(A | C, START))), GameAction::ConsoleReset);
    assert_eq!(g.portal.get_frame_count(), 0);
}

#[test]
fn recorded_solves_unlock_the_boss() {
    let mut g = game();
    g.portal.inform_game_tick();
    g.portal.mark_challenge_solved(0);
    let stage_flags = vec![vec![Some(1)], vec![], vec![], vec![], vec![]];
    g.recompute_captured_flags(&stage_flags);
    assert_eq!(g.captured_flags, 1);
    assert!(g.boss_unlocked());
    g.switch_to_stage_select();
    assert!(g.stage_select_scene.as_ref().unwrap().boss_unlocked);
    g.load_map(MapType::BossStage);
    assert_eq!(g.portal.get_allowed_challenges(), 1 << 4);
}

#[test]
fn a_miniboss_defeat_is_recorded_once_and_the_boss_wins() {
    let stage_flags = vec![vec![Some(1)], vec![], vec![], vec![], vec![]];
    let mut g = Game::new(Portal::new(), &stage_flags);
    g.load_map(MapType::Forest);
    g.frame = 300;
    let props = EnemyProperties { id: 0, speed: None, health: None, strength: None, invulnerable: false, flags: Some(1) };
    let e = Enemy::new(EnemyType::BlobMiniboss, 0, 0, &props, harmless_stats(), sprite(5));
    let ended = EnemyTick { hit_player: None, shot: None, death_finished: true, defeated: true };
    let dying = EnemyTick { death_finished: false, ..ended };
    assert!(!g.finish_enemy_death(&e, dying, &stage_flags));
    assert_eq!(g.defeated_minibosses, 0);
    assert!(g.finish_enemy_death(&e, ended, &stage_flags));
    assert_eq!(g.defeated_minibosses, 1 << 3);
    assert_eq!(g.flag_frames[0], 300);
    assert_eq!(g.portal.get_challenge_record(challenge_id(MapType::Forest)), 0);
    assert_eq!(g.captured_flags, 1);
    assert_eq!(g.state, GameState::Playing);
    // The same kind again: nothing more is recorded.
    assert!(!g.finish_enemy_death(&e, ended, &stage_flags));
    // The boss ends the game.
    let boss = Enemy::new(EnemyType::Boss, 0, 0, &props, harmless_stats(), sprite(5));
    assert!(g.finish_enemy_death(&boss, ended, &stage_flags));
    assert_eq!(g.state, GameState::Win);
}

#[test]
fn mode_with_start_resets_the_console_on_a_six_button_pad() {
    let mode: u16 = 1 << 11;
    let mut s = StageSelect::with_boss_unlock_status(true);
    s.set_up(sprite(8), vec![sprite(1), sprite(1), sprite(1), sprite(1)]);
    assert_eq!(s.update(Some(&input(mode, START))), StageAction::ResetConsole);
    let three_button = ControllerState { pressed: mode, just_pressed: START, pending_just_pressed: 0, is_6button: false };
    assert_ne!(s.update(Some(&three_button)), StageAction::ResetConsole);
}

#[test]
fn a_frame_of_enemies_records_a_finished_miniboss_death() {
    let stage_flags = vec![vec![Some(1)], vec![], vec![], vec![], vec![]];
    let mut g = Game::new(Portal::new(), &stage_flags);
    g.load_map(MapType::Forest);
    g.frame = 300;
    let mut p = Player::new(PlayerType::Shooter, sprite(15), None);
    let md = MapData::new(0, 100, 50, Array2d::new(vec![0u16; 5000], 100, 50), Array2d::new(vec![0u8; 5000], 100, 50), Palette::A, (400, 300));
    let mut m = StageMap::new(MapType::Forest, md, &mut p);
    let props = EnemyProperties { id: 2, speed: None, health: None, strength: None, invulnerable: false, flags: Some(1) };
    let mut e = Enemy::new(EnemyType::BlobMiniboss, 0, 0, &props, harmless_stats(), sprite(5));
    e.status = EnemyStatus::Dying { cooldown: REGULAR_DEATH_COOLDOWN - 1 };
    let _ = m.enemies.push(e);
    let ticks = g.update_enemies(&mut m, &vec![(0i16, 0i16)], &mut p, &stage_flags);
    assert!(ticks[0].death_finished);
    assert_eq!(g.defeated_minibosses, 1 << 3);
    assert_eq!(g.flag_frames[0], 300);
    assert_eq!(g.captured_flags, 1);
    assert!(m.enemies.is_empty());
    assert!(m.enemies_defeated.is_set(2));
}

#[test]
fn a_stage_frame_records_deaths_and_moves_the_shots() {
    let stage_flags = vec![vec![Some(1)], vec![], vec![], vec![], vec![]];
    let mut g = Game::new(Portal::new(), &stage_flags);
    g.load_map(MapType::Forest);
    g.frame = 120;
    let mut p = Player::new(PlayerType::Shooter, sprite(15), None);
    let md = MapData::new(0, 100, 50, Array2d::new(vec![0u16; 5000], 100, 50), Array2d::new(vec![0u8; 5000], 100, 50), Palette::A, (400, 300));
    let mut m = StageMap::new(MapType::Forest, md, &mut p);
    let props = EnemyProperties { id: 2, speed: None, health: None, strength: None, invulnerable: false, flags: Some(1) };
    let mut e = Enemy::new(EnemyType::BlobMiniboss, 0, 0, &props, harmless_stats(), sprite(5));
    e.status = EnemyStatus::Dying { cooldown: REGULAR_DEATH_COOLDOWN - 1 };
    let _ = m.enemies.push(e);
    let _ = m.projectiles.push(hackceler8::projectile::Projectile::new(300, 300, 10, 0, 10, 1, sprite(4), true));
    let (ticks, locks) = g.update_stage(&mut m, &vec![(0i16, 0i16)], &mut p, &stage_flags, 0);
    assert!(ticks[0].death_finished && locks.is_empty());
    assert_eq!(g.defeated_minibosses, 1 << 3);
    assert_eq!(g.flag_frames[0], 120);
    assert!(m.enemies.is_empty());
    assert_eq!(m.projectiles[0].x, 310);
}
