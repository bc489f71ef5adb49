use lib::snes::ppu::Ppu;

fn write(p: &mut Ppu, addr: usize, value: u8) {
    p.write_byte(addr, value);
}

fn write_vram_word(p: &mut Ppu, word: u16, low: u8, high: u8) {
    write(p, 0x2115, 0x80);
    write(p, 0x2116, (word & 0xFF) as u8);
    write(p, 0x2117, (word >> 8) as u8);
    write(p, 0x2118, low);
    write(p, 0x2119, high);
}

fn write_color(p: &mut Ppu, index: u8, color: u16) {
    write(p, 0x2121, index);
    write(p, 0x2122, (color & 0xFF) as u8);
    write(p, 0x2122, (color >> 8) as u8);
}

#[test]
fn background_slice_of_a_2bpp_tile() {
    let mut p = Ppu::default();
    // Mode 0, BG1 tilemap at word 0, tiles at word 0x1000
    write(&mut p, 0x2105, 0x00);
    write(&mut p, 0x2107, 0x00);
    write(&mut p, 0x210B, 0x01);
    // Tile 1 with priority at the top left
    write_vram_word(&mut p, 0x0000, 0x01, 0x20);
    // First row of tile 1: low plane 11110000, high plane 00001111
    write_vram_word(&mut p, 0x1008, 0xF0, 0x0F);
    write_color(&mut p, 1, 0x001F);
    write_color(&mut p, 2, 0x03E0);
    let (pixels, offset) = p.get_background_slice(0, (0, 0), 2);
    assert_eq!(offset, 0);
    for i in 0..4 {
        assert_eq!(pixels[i], Some((0x001F, true)));
    }
    for i in 4..8 {
        assert_eq!(pixels[i], Some((0x03E0, true)));
    }
    // Scrolled by 3 pixels the same row starts at column 3
    write(&mut p, 0x210D, 0x03);
    write(&mut p, 0x210D, 0x00);
    let (_, offset) = p.get_background_slice(0, (0, 0), 2);
    assert_eq!(offset, 3);
}

#[test]
fn background_slice_flipped() {
    let mut p = Ppu::default();
    write(&mut p, 0x210B, 0x01);
    // Tile 1, flipped horizontally
    write_vram_word(&mut p, 0x0000, 0x01, 0x40);
    write_vram_word(&mut p, 0x1008, 0x80, 0x00);
    write_color(&mut p, 1, 0x1234);
    let (pixels, _) = p.get_background_slice(0, (0, 0), 2);
    assert_eq!(pixels[7], Some((0x1234, false)));
    for i in 0..7 {
        assert_eq!(pixels[i], None);
    }
}

#[test]
fn sprite_line_pixels() {
    let mut p = Ppu::default();
    // Row 0 of sprite tile 0: palette value 1 everywhere
    write_vram_word(&mut p, 0x0000, 0xFF, 0x00);
    write_color(&mut p, 0x81, 0x7C00);
    p.oam_sprites[0].x = 10;
    p.oam_sprites[0].y = 5;
    p.oam_sprites[0].priority = 2;
    let line = p.sprite_line(5);
    assert_eq!(line.len(), 0x400);
    for c in 10..18 {
        assert_eq!(line[0x200 + c], Some(0x7C00));
        assert_eq!(line[c], None);
    }
    assert_eq!(line[0x200 + 9], None);
    assert_eq!(line[0x200 + 18], None);
    // The other sprites sit at the top left; column 0 is never drawn
    assert_eq!(line[0], None);
    assert_eq!(line[1], None);
    let top = p.sprite_line(0);
    assert_eq!(top[0], None);
    assert_eq!(top[1], Some(0x7C00));
}

#[test]
fn composed_pixels() {
    let mut p = Ppu::default();
    write_color(&mut p, 0, 0x1234);
    let none = [None, None, None, None];
    assert_eq!(p.compose_pixel(5, &[None; 4], &none), 0x1234);
    // BG1 on the main screen
    write(&mut p, 0x212C, 0x01);
    let bgs = [Some((0x0421u16, false)), None, None, None];
    assert_eq!(p.compose_pixel(5, &bgs, &none), 0x0421);
    // A sprite of priority 3 is in front
    let sprites = [None, None, None, Some(0x7FFF)];
    write(&mut p, 0x212C, 0x11);
    assert_eq!(p.compose_pixel(5, &bgs, &sprites), 0x7FFF);
    // Color math adds the fixed color to BG1
    write(&mut p, 0x212C, 0x01);
    write(&mut p, 0x2131, 0x01);
    write(&mut p, 0x2132, 0xE1);
    assert_eq!(p.compose_pixel(5, &bgs, &none), 0x0842);
    // The color window hides the main screen everywhere
    write(&mut p, 0x2130, 0xC0);
    assert_eq!(p.compose_pixel(5, &bgs, &none), 0);
}
