use lib::snes::ppu::Ppu;
use lib::snes::ppu_line::Screen;

fn write(p: &mut Ppu, addr: usize, value: u8) {
    p.write_byte(addr, value);
}

fn set_color(p: &mut Ppu, index: u8, color: u16) {
    write(p, 0x2121, index);
    write(p, 0x2122, (color & 0xFF) as u8);
    write(p, 0x2122, (color >> 8) as u8);
}

/// Background 1 with its characters at word 0x1000 and one dot set in the top row of
/// tile 0, shown on the main screen.
fn one_dot_ppu() -> Ppu {
    let mut p = Ppu::default();
    write(&mut p, 0x210B, 0x01);
    write(&mut p, 0x2115, 0x80);
    write(&mut p, 0x2116, 0x00);
    write(&mut p, 0x2117, 0x10);
    write(&mut p, 0x2118, 0x80);
    write(&mut p, 0x2119, 0x00);
    set_color(&mut p, 1, 0x03E0);
    write(&mut p, 0x212C, 0x01);
    p
}

#[test]
fn blank_line_shows_the_backdrop() {
    let mut p = Ppu::default();
    set_color(&mut p, 0, 0x1234);
    let mut screen = Screen::new();
    assert!(screen.draw_line(&p, 5));
    for x in 0..256 {
        assert_eq!(screen.pixels[256 * 5 + x], 0x1234);
        assert_eq!(screen.pixels[256 * 4 + x], 0);
        assert_eq!(screen.pixels[256 * 6 + x], 0);
    }
}

#[test]
fn tile_dot_repeats_with_the_tilemap() {
    let p = one_dot_ppu();
    let mut screen = Screen::new();
    assert!(screen.draw_line(&p, 0));
    for x in 0..256 {
        let expected = if x % 8 == 0 { 0x03E0 } else { 0 };
        assert_eq!(screen.pixels[x], expected);
    }
    // the second row of the tile is empty
    assert!(screen.draw_line(&p, 1));
    for x in 0..256 {
        assert_eq!(screen.pixels[256 + x], 0);
    }
}

#[test]
fn horizontal_scroll_moves_the_dots() {
    let mut p = one_dot_ppu();
    write(&mut p, 0x210D, 0x03);
    write(&mut p, 0x210D, 0x00);
    let line = p.render_line(0, &vec![None; 0x400], &mut vec![None; 0x400]);
    for x in 0..256 {
        let expected = if (x + 3) % 8 == 0 { 0x03E0 } else { 0 };
        assert_eq!(line[x], expected);
    }
}

#[test]
fn mosaic_repeats_the_first_pixel_of_a_block() {
    let mut p = one_dot_ppu();
    write(&mut p, 0x2106, 0x11);
    let mut mosaic = vec![None; 0x400];
    let line = p.render_line(0, &vec![None; 0x400], &mut mosaic);
    for x in 0..256 {
        let expected = if x % 8 < 2 { 0x03E0 } else { 0 };
        assert_eq!(line[x], expected);
    }
    assert_eq!(mosaic[0], Some((0x03E0, false)));
}

#[test]
fn sprites_cover_backgrounds() {
    let mut p = one_dot_ppu();
    write(&mut p, 0x212C, 0x11);
    let mut sprites = vec![None; 0x400];
    sprites[0x300 + 8] = Some(0x7C00);
    let line = p.render_line(0, &sprites, &mut vec![None; 0x400]);
    assert_eq!(line[0], 0x03E0);
    assert_eq!(line[8], 0x7C00);
    // without the sprite layer on the main screen the background shows
    write(&mut p, 0x212C, 0x01);
    let line = p.render_line(0, &sprites, &mut vec![None; 0x400]);
    assert_eq!(line[8], 0x03E0);
}

#[test]
fn background_unused_by_the_mode_stops_drawing() {
    let mut p = Ppu::default();
    write(&mut p, 0x2105, 0x01);
    write(&mut p, 0x212C, 0x08);
    assert!(!p.line_is_drawable());
    let mut screen = Screen::new();
    assert!(!screen.draw_line(&p, 0));
    assert_eq!(screen.pixels[0], 0);
}

#[test]
fn mode_seven_is_not_drawn_from_tiles() {
    let mut p = Ppu::default();
    write(&mut p, 0x2105, 0x07);
    assert!(!p.line_is_drawable());
}


fn dot_at(x: usize, y: usize) -> usize {
    4 * (22 + 341 * y + x)
}

#[test]
fn dots_are_drawn_where_the_ppu_is() {
    let p = one_dot_ppu();
    let mut screen = Screen::new();
    assert!(screen.draw_dot(&p, dot_at(0, 0)));
    assert!(screen.draw_dot(&p, dot_at(8, 0)));
    assert!(screen.draw_dot(&p, dot_at(9, 0)));
    assert_eq!(screen.pixels[0], 0x03E0);
    assert_eq!(screen.pixels[8], 0x03E0);
    assert_eq!(screen.pixels[9], 0);
    // only every fourth master clock is a dot
    assert!(!screen.draw_dot(&p, dot_at(16, 0) + 1));
    assert_eq!(screen.pixels[16], 0);
    // horizontal blanking and the lines below the picture are not drawn
    assert!(!screen.draw_dot(&p, dot_at(300, 0)));
    assert!(!screen.draw_dot(&p, dot_at(0, 250)));
    // a new line gathers its sprites and draws from its own tile row
    assert!(screen.draw_dot(&p, dot_at(0, 1)));
    assert_eq!(screen.pixels[256], 0);
}

#[test]
fn mode_seven_dots_are_not_drawn_from_tiles() {
    let mut p = one_dot_ppu();
    write(&mut p, 0x2105, 0x07);
    let mut screen = Screen::new();
    assert!(!screen.draw_dot(&p, dot_at(0, 0)));
    assert_eq!(screen.pixels[0], 0);
}
