use hackceler8::entity::Hitbox;
use hackceler8::koth::{
    challenge_id, random_in_range, recordable_within, server_state_from_bits, KothShadow, Portal,
    ServerState, KOTH_FRAMES_MAX, KOTH_NO_RECORD,
};
use hackceler8::profiling::{function_id, fvn1a, fvn1a_trace_id, ProfilingGuard};
use hackceler8::res::MapType;
use hackceler8::vdp::{button_bit, Button, Controllers, Palette, ScrollSize, TileFlags};
use hackceler8::{Direction, PlaneAddress, PlaneWindow};

#[test]
fn fnv_hashes_of_known_strings() {
    assert_eq!(fvn1a(b""), 0x811c9dc5);
    assert_eq!(fvn1a(b"a"), 0xe40c292c);
    assert_eq!(fvn1a_trace_id(b"a"), 0xcd20);
}

#[test]
fn function_ids_join_owner_and_name() {
    assert_eq!(function_id(b"", b"update"), 0x1474);
    assert_eq!(function_id(b"Player", b"update"), 0x777d);
    assert_eq!(ProfilingGuard::for_function_id(0x1474).0, 0x9474);
}

#[test]
fn records_only_improve_and_respect_the_mask() {
    let mut k = KothShadow::new();
    assert_eq!(k.get_challenge_record(3), KOTH_NO_RECORD);
    for _ in 0..10 {
        k.tick();
    }
    k.mark_challenge_solved(3);
    assert_eq!(k.get_challenge_record(3), 10);
    k.tick();
    k.mark_challenge_solved(3);
    assert_eq!(k.get_challenge_record(3), 10);
    k.reset();
    assert_eq!(k.get_frame_count(), 0);
    k.tick();
    k.restrict_challenges(1 << 5);
    assert_eq!(k.get_allowed_challenges(), 1 << 5);
    k.mark_challenge_solved(3);
    assert_eq!(k.get_challenge_record(3), 10);
    k.mark_challenge_solved(5);
    assert_eq!(k.get_challenge_record(5), 1);
    k.mark_challenge_solved(200);
    assert_eq!(k.get_challenge_record(200), KOTH_NO_RECORD);
}

#[test]
fn restricting_twice_keeps_the_intersection() {
    let mut k = KothShadow::new();
    k.restrict_challenges(0b1110);
    k.restrict_challenges(0b0111);
    assert_eq!(k.get_allowed_challenges(), 0b0110);
}

#[test]
fn frame_counter_saturates() {
    let mut p = Portal::new();
    p.inform_game_tick();
    assert_eq!(p.get_frame_count(), 1);
    assert!(KOTH_FRAMES_MAX < KOTH_NO_RECORD);
}

#[test]
fn server_state_bits() {
    assert_eq!(server_state_from_bits(0), ServerState::NotStarted);
    assert_eq!(server_state_from_bits(2), ServerState::NotStarted);
    assert_eq!(server_state_from_bits(1), ServerState::Running);
    assert_eq!(server_state_from_bits(3), ServerState::Paused);
}

#[test]
fn portal_storage_round_trip() {
    let mut p = Portal::new();
    p.save_to_persistent_storage(&[7, 8, 9]);
    let mut buf = vec![1u16; 5];
    p.load_from_persistent_storage(&mut buf);
    assert_eq!(buf, vec![7, 8, 9, 0, 0]);
    assert_eq!(p.cartridge_id(), 0);
    assert_eq!(p.get_random_int(), 42);
    assert_eq!(p.get_random_range(0, 9), 2);
    assert_eq!(random_in_range(10, -5, 5), 5);
}

#[test]
fn the_boss_stage_records_only_itself() {
    let id = challenge_id(MapType::BossStage);
    assert_eq!(recordable_within(MapType::BossStage), 1u16 << id);
    assert_eq!(recordable_within(MapType::Forest), u16::MAX);
}

#[test]
fn hitboxes_overlap_symmetrically() {
    let a = Hitbox { x: 0, y: 0, w: 10, h: 10 };
    let b = Hitbox { x: 9, y: 9, w: 5, h: 5 };
    let c = Hitbox { x: 10, y: 0, w: 5, h: 5 };
    assert!(a.collides(&b) && b.collides(&a));
    assert!(!a.collides(&c) && !c.collides(&a));
    assert_eq!(a.center(), (5, 5));
    assert_eq!(Hitbox { x: 0, y: 0, w: -3, h: 3 }.center(), (-1, 1));
}

#[test]
fn extending_a_hitbox_covers_both_positions() {
    let a = Hitbox { x: 10, y: 20, w: 4, h: 6 };
    assert_eq!(a.extend_by(-3, 5), Hitbox { x: 7, y: 20, w: 7, h: 11 });
    assert_eq!(a.offset(1, -1), Hitbox { x: 11, y: 19, w: 4, h: 6 });
    assert_eq!(a.expand(2), Hitbox { x: 8, y: 18, w: 8, h: 10 });
}

#[test]
fn directions_are_unit_offsets() {
    assert_eq!(Direction::Up.to_offset(), (0, -1));
    assert_eq!(Direction::Down.to_offset(), (0, 1));
    assert_eq!(Direction::Left.to_offset(), (-1, 0));
    assert_eq!(Direction::Right.to_offset(), (1, 0));
}

#[test]
fn plane_addresses_wrap() {
    let a = PlaneAddress::new(63, 2);
    assert_eq!(a.to_address(), 63 + 2 * 64);
    assert_eq!(a.add_unsigned((1, 0)), PlaneAddress(0, 2));
    assert_eq!(a.add_signed((0, -3)), PlaneAddress(63, 63));
    assert_eq!(PlaneAddress(130, 65).normalize(), PlaneAddress(2, 1));
}

#[test]
fn the_plane_window_wraps_its_scroll() {
    let mut w = PlaneWindow::new();
    w.scroll(-8, 20);
    assert_eq!(w.current_scroll(), (504, 20));
    assert_eq!(w.current_scroll_in_tiles(), (63, 2));
    assert_eq!(w.vram_address(), PlaneAddress(63, 2));
    w.scroll(16, 500);
    assert_eq!(w.current_scroll(), (8, 8));
}

#[test]
fn tile_flags_pack_their_fields() {
    let mut f = TileFlags::for_tile(0x905, Palette::C);
    assert_eq!(f.tile_index(), 0x105);
    assert_eq!(f.palette(), 2);
    f.set_priority(true);
    assert!(f.priority());
    f.set_flip_h(true);
    f.set_flip_v(true);
    assert_eq!(f.0, 0x8000 | 0x4000 | 0x1000 | 0x0800 | 0x105);
    f.set_tile_index(7);
    assert_eq!(f.tile_index(), 7);
    f.set_priority(false);
    assert!(!f.priority());
    assert_eq!(TileFlags::new().0, 0);
    assert_eq!(ScrollSize::Cell64.cells(), 64);
}

#[test]
fn presses_show_up_on_the_next_frame() {
    let mut c = Controllers::new();
    c.set_pressed(0, Button::A, true);
    assert!(c.controller_state(0).unwrap().is_pressed(Button::A));
    assert!(!c.controller_state(0).unwrap().just_pressed(Button::A));
    c.update();
    assert!(c.controller_state(0).unwrap().just_pressed(Button::A));
    c.update();
    assert!(!c.controller_state(0).unwrap().just_pressed(Button::A));
    c.set_pressed(0, Button::A, false);
    assert!(!c.controller_state(0).unwrap().is_pressed(Button::A));
    assert!(c.controller_state(4).is_none());
    assert_eq!(button_bit(Button::Mode), 1 << 11);
}

#[test]
fn cleared_presses_are_forgotten() {
    let mut c = Controllers::new();
    c.set_pressed(1, Button::Start, true);
    c.clear_just_pressed(1);
    c.update();
    assert!(!c.controller_state(1).unwrap().just_pressed(Button::Start));
    assert!(c.controller_state(1).unwrap().is_pressed(Button::Start));
}

#[test]
fn a_record_is_the_fastest_permitted_solve_across_resets() {
    let mut k = KothShadow::new();
    for _ in 0..5 {
        k.tick();
    }
    k.mark_challenge_solved(2);
    assert_eq!(k.get_challenge_record(2), 5);
    k.tick();
    k.mark_challenge_solved(2);
    assert_eq!(k.get_challenge_record(2), 5);
    k.reset();
    k.tick();
    k.tick();
    k.restrict_challenges(!(1u16 << 2));
    k.mark_challenge_solved(2);
    assert_eq!(k.get_challenge_record(2), 5);
    k.reset();
    k.tick();
    k.mark_challenge_solved(2);
    assert_eq!(k.get_challenge_record(2), 1);
    assert_eq!(k.get_challenge_record(3), 0xFFFF_FFFF);
}
