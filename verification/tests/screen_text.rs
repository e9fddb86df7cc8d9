use hackceler8::vdp::{ControllerState, Renderer, Sprite, SpriteSize, TileFlags, Vdp};

fn sprite(x: u16, y: u16, size: SpriteSize, flags: u16) -> Sprite {
    Sprite { y, size, link: 0, flags: TileFlags(flags), x }
}

#[test]
fn the_screen_as_text() {
    let mut vdp = Vdp::new();
    vdp.plane_a[0] = TileFlags(1);
    vdp.plane_a[32 + 1] = TileFlags(5);
    vdp.plane_a[2 * 32 + 4] = TileFlags(0x2000);
    vdp.sprites[0] = sprite(144, 136, SpriteSize::Size2x1, 3);
    vdp.sprites[1] = sprite(128, 128, SpriteSize::Size1x1, 0x2000 | 9);
    // Half off the left edge of the screen.
    vdp.sprites[2] = sprite(120, 144, SpriteSize::Size2x1, 0);
    vdp.num_sprites = 3;
    assert_eq!(vdp.render_ascii(5, 3), "E    \n .PP \ni    \n");
}

#[test]
fn later_sprites_cover_earlier_ones() {
    let mut vdp = Vdp::new();
    vdp.sprites[0] = sprite(128, 128, SpriteSize::Size2x2, 0x2000);
    vdp.sprites[1] = sprite(136, 136, SpriteSize::Size1x1, 200);
    vdp.num_sprites = 2;
    assert_eq!(vdp.render_ascii(3, 2), "EE \nEi \n");
    // Sprites past the number in use are not drawn.
    vdp.num_sprites = 1;
    assert_eq!(vdp.render_ascii(3, 2), "EE \nEE \n");
    assert_eq!(vdp.render_ascii(0, 2), "\n\n");
    assert_eq!(vdp.render_ascii(4, 0), "");
}

#[test]
fn default_hardware_state_is_blank() {
    let v = Vdp::default();
    assert_eq!(v.num_sprites, 0);
    assert_eq!(v.plane_a.len(), 4096);
    assert!(v.plane_a.iter().all(|c| c.0 == 0));
    assert_eq!(v.render_ascii(2, 1), "  \n");
    let r = Renderer::default();
    assert_eq!(r.num_sprites, 0);
    let c = ControllerState::default();
    assert_eq!((c.pressed, c.just_pressed, c.is_6button), (0, 0, true));
}
