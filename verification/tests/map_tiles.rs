use hackceler8::map_data::{Array2d, MapData};
use hackceler8::resource_state::State;
use hackceler8::vdp::{Palette, Tile, TileFlags, Vdp};
use hackceler8::PlaneAddress;

fn stage() -> MapData {
    let gfx = Array2d::new(vec![1u16, 0, 2, 0, 3, 0], 3, 2);
    MapData::new(0, 3, 2, gfx, Array2d::new(vec![0u8; 6], 3, 2), Palette::B, (0, 0))
}

fn res_state() -> State {
    State::init(vec![vec![Tile([0u8; 32]); 5]])
}

fn cell(t: u16) -> TileFlags {
    TileFlags(t | 0x2000)
}

#[test]
fn the_screen_shows_the_stage_from_its_corner() {
    let mut md = stage();
    let mut vdp = Vdp::new();
    let mut res = res_state();
    md.load_to_vram(0, 0, &mut vdp, &mut res);
    assert_eq!(md.start_tile, Some(1));
    assert_eq!(vdp.plane_a[0], cell(1));
    assert_eq!(vdp.plane_a[1], TileFlags(0));
    assert_eq!(vdp.plane_a[2], cell(2));
    assert_eq!(vdp.plane_a[3], TileFlags(0));
    assert_eq!(vdp.plane_a[65], cell(3));
    md.load_to_vram(-1, 0, &mut vdp, &mut res);
    assert_eq!(vdp.plane_a[0], TileFlags(0));
    assert_eq!(vdp.plane_a[1], cell(1));
}

#[test]
fn a_column_wraps_around_the_plane() {
    let mut md = stage();
    let mut vdp = Vdp::new();
    let mut res = res_state();
    vdp.plane_a[63] = TileFlags(7);
    vdp.plane_a[27 * 64 + 63] = TileFlags(7);
    md.load_tile_column(2, 0, PlaneAddress(63, 62), &mut vdp, &mut res);
    assert_eq!(vdp.plane_a[62 * 64 + 63], cell(2));
    assert_eq!(vdp.plane_a[63 * 64 + 63], TileFlags(0));
    assert_eq!(vdp.plane_a[63], TileFlags(0));
    assert_eq!(vdp.plane_a[27 * 64 + 63], TileFlags(7));
}

#[test]
fn a_row_wraps_around_the_plane() {
    let mut md = stage();
    let mut vdp = Vdp::new();
    let mut res = res_state();
    vdp.plane_a[5 * 64 + 39] = TileFlags(7);
    md.load_tile_row(0, -1, PlaneAddress(62, 5), &mut vdp, &mut res);
    assert_eq!(md.start_tile, None);
    md.load_tile_row(0, 1, PlaneAddress(62, 5), &mut vdp, &mut res);
    assert_eq!(md.start_tile, Some(1));
    assert_eq!(vdp.plane_a[5 * 64 + 62], TileFlags(0));
    assert_eq!(vdp.plane_a[5 * 64 + 63], cell(3));
    assert_eq!(vdp.plane_a[5 * 64], TileFlags(0));
    assert_eq!(vdp.plane_a[5 * 64 + 39], TileFlags(7));
}
