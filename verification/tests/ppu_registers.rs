use lib::snes::ppu::Ppu;

fn write(p: &mut Ppu, addr: usize, value: u8) {
    p.write_byte(addr, value);
}

#[test]
fn cgram_word_is_written_after_two_bytes() {
    let mut p = Ppu::default();
    write(&mut p, 0x2121, 0x10);
    write(&mut p, 0x2122, 0x34);
    assert_eq!(p.cgram[0x10], 0);
    assert_eq!(p.cgram_latch, Some(0x34));
    write(&mut p, 0x2122, 0x12);
    assert_eq!(p.cgram[0x10], 0x1234);
    assert_eq!(p.cgram_addr, 0x11);
    assert_eq!(p.cgram_latch, None);
}

#[test]
fn cgram_address_wraps() {
    let mut p = Ppu::default();
    write(&mut p, 0x2121, 0xFF);
    write(&mut p, 0x2122, 0x01);
    write(&mut p, 0x2122, 0x02);
    assert_eq!(p.cgram[0xFF], 0x0201);
    assert_eq!(p.cgram_addr, 0);
}

#[test]
fn vram_word_write_then_read_back() {
    let mut p = Ppu::default();
    // Increment after the high byte, by one word
    write(&mut p, 0x2115, 0x80);
    write(&mut p, 0x2116, 0x00);
    write(&mut p, 0x2117, 0x10);
    assert_eq!(p.vram_addr, 0x1000);
    write(&mut p, 0x2118, 0xAB);
    assert_eq!(p.vram_addr, 0x1000);
    write(&mut p, 0x2119, 0xCD);
    assert_eq!(p.vram[0x2000], 0xAB);
    assert_eq!(p.vram[0x2001], 0xCD);
    assert_eq!(p.vram_addr, 0x1001);
    // Decoded row: low 0xAB = 1010_1011, high 0xCD = 1100_1101
    assert_eq!(p.vram_cache_2bpp[0x1000], [3, 2, 1, 0, 3, 2, 1, 3]);
    // Setting the address loads the read latches
    write(&mut p, 0x2116, 0x00);
    assert_eq!(p.vram_addr, 0x1000);
    assert_eq!(p.read_byte(0x213A, 0), 0xCD);
    assert_eq!(p.vram_addr, 0x1000);
    assert_eq!(p.read_byte(0x2139, 0), 0xAB);
    assert_eq!(p.vram_addr, 0x1001);
}

#[test]
fn vram_increment_on_low_byte() {
    let mut p = Ppu::default();
    write(&mut p, 0x2115, 0x01);
    assert_eq!(p.vram_increment_amount, 32);
    write(&mut p, 0x2116, 0x05);
    write(&mut p, 0x2118, 0x77);
    assert_eq!(p.vram[0x000A], 0x77);
    assert_eq!(p.vram_addr, 0x0025);
}

#[test]
fn vram_address_high_keeps_fifteen_bits() {
    let mut p = Ppu::default();
    write(&mut p, 0x2116, 0x34);
    write(&mut p, 0x2117, 0xFF);
    assert_eq!(p.vram_addr, 0x7F34);
}

#[test]
fn multiplication_result_bytes() {
    let mut p = Ppu::default();
    write(&mut p, 0x211B, 0x00);
    write(&mut p, 0x211B, 0x01);
    assert_eq!(p.matrix.a, 0x0100);
    write(&mut p, 0x211C, 0x02);
    assert_eq!(p.matrix.b, 0x0201);
    assert_eq!(p.multi_res, 0x100);
    assert_eq!(p.read_byte(0x2134, 0xAA), 0x00);
    assert_eq!(p.read_byte(0x2135, 0xAA), 0x01);
    assert_eq!(p.read_byte(0x2136, 0xAA), 0x00);
}

#[test]
fn negative_multiplication_result_bytes() {
    let mut p = Ppu::default();
    write(&mut p, 0x211B, 0x00);
    write(&mut p, 0x211B, 0xFF);
    write(&mut p, 0x211C, 0x02);
    assert_eq!(p.multi_res, -256 * 255);
    write(&mut p, 0x211C, 0x00);
    assert_eq!(p.matrix.b, 0x0002);
    assert_eq!(p.multi_res, -512);
    assert_eq!(p.read_byte(0x2134, 0), 0x00);
    assert_eq!(p.read_byte(0x2135, 0), 0xFE);
    assert_eq!(p.read_byte(0x2136, 0), 0xFF);
}

#[test]
fn mode7_center_is_thirteen_bit_signed() {
    let mut p = Ppu::default();
    write(&mut p, 0x211F, 0xFF);
    write(&mut p, 0x211F, 0x1F);
    assert_eq!(p.matrix.center_x, -1);
    write(&mut p, 0x2120, 0x34);
    write(&mut p, 0x2120, 0x02);
    assert_eq!(p.matrix.center_y, 0x0234);
}

#[test]
fn oam_low_table_is_written_in_pairs() {
    let mut p = Ppu::default();
    write(&mut p, 0x2102, 0x00);
    write(&mut p, 0x2103, 0x00);
    write(&mut p, 0x2104, 0x10);
    assert_eq!(p.oam_sprites[0].x, 0);
    write(&mut p, 0x2104, 0x20);
    assert_eq!(p.oam_sprites[0].x, 0x10);
    assert_eq!(p.oam_sprites[0].y, 0x20);
    write(&mut p, 0x2104, 0x05);
    write(&mut p, 0x2104, 0xF3);
    assert_eq!(p.oam_sprites[0].tile_index, 5);
    assert!(p.oam_sprites[0].flip_y);
    assert!(p.oam_sprites[0].flip_x);
    assert_eq!(p.oam_sprites[0].priority, 3);
    assert_eq!(p.oam_sprites[0].palette_index, 1);
    assert_eq!(p.oam_sprites[0].name_select, 1);
    assert_eq!(p.oam_addr, 4);
}

#[test]
fn oam_high_table_sets_two_bits_per_sprite() {
    let mut p = Ppu::default();
    write(&mut p, 0x2102, 0x00);
    write(&mut p, 0x2103, 0x01);
    assert_eq!(p.oam_addr, 0x200);
    write(&mut p, 0x2104, 0b1110_0001);
    assert!(p.oam_sprites[0].msb_x);
    assert_eq!(p.oam_sprites[0].size_select, 0);
    assert!(!p.oam_sprites[1].msb_x);
    assert_eq!(p.oam_sprites[2].size_select, 1);
    assert!(!p.oam_sprites[2].msb_x);
    assert!(p.oam_sprites[3].msb_x);
    assert_eq!(p.oam_sprites[3].size_select, 1);
}

#[test]
fn object_select_sets_sizes_and_names() {
    let mut p = Ppu::default();
    write(&mut p, 0x2101, 0b1010_1011);
    assert_eq!(p.oam_sizes, [(32, 32), (64, 64)]);
    assert_eq!(p.oam_name_addr, 0x6000);
    assert_eq!(p.oam_name_select, 0x2000);
}

#[test]
fn background_mode_and_tile_sizes() {
    let mut p = Ppu::default();
    write(&mut p, 0x2105, 0x19);
    assert_eq!(p.bg_mode, 1);
    assert!(p.bg3_prio);
    assert_eq!(p.backgrounds[0].tile_size, 16);
    assert_eq!(p.backgrounds[1].tile_size, 8);
}

#[test]
fn scroll_registers_use_previous_bytes() {
    let mut p = Ppu::default();
    write(&mut p, 0x210D, 0x12);
    write(&mut p, 0x210D, 0x01);
    assert_eq!(p.backgrounds[0].h_off, 0x0100 + (0x12 & !7) + (0x12 & 7));
    write(&mut p, 0x210E, 0x34);
    write(&mut p, 0x210E, 0x02);
    assert_eq!(p.backgrounds[0].v_off, 0x0234);
    assert_eq!(p.m7_v_off, 0x0234);
}

#[test]
fn window_registers() {
    let mut p = Ppu::default();
    write(&mut p, 0x2126, 10);
    write(&mut p, 0x2127, 20);
    write(&mut p, 0x2129, 30);
    assert_eq!(p.windows[0].left, 10);
    assert_eq!(p.windows[0].right, 20);
    assert_eq!(p.windows[1].right, 30);
    write(&mut p, 0x2125, 0b0010_0011);
    assert!(p.windows[0].invert_sprite);
    assert!(p.windows[0].enabled_sprite);
    assert!(p.windows[0].enabled_color);
    assert!(!p.windows[1].enabled_color);
}

#[test]
fn fixed_color_components() {
    let mut p = Ppu::default();
    write(&mut p, 0x2132, 0b1010_0101);
    assert_eq!(p.fixed_color, [5, 0, 5]);
    write(&mut p, 0x2132, 0b0100_0011);
    assert_eq!(p.fixed_color, [5, 3, 5]);
}

#[test]
fn unknown_registers_change_nothing() {
    let mut p = Ppu::default();
    write(&mut p, 0x2140, 0xFF);
    assert_eq!(p.read_byte(0x2140, 0x5A), 0x5A);
    assert_eq!(p.read_byte(0x2138, 0x5A), 0);
}

#[test]
fn status_read_resets_counter_latches() {
    let mut p = Ppu::default();
    p.h_latch = 0x123;
    p.v_latch = 0x45;
    assert_eq!(p.read_byte(0x213C, 0xFF), 0x23);
    assert_eq!(p.read_byte(0x213C, 0xFF), 0xFF);
    assert_eq!(p.read_byte(0x213D, 0x00), 0x45);
    assert_eq!(p.read_byte(0x213D, 0x00), 0x00);
    p.interlace_field = true;
    assert_eq!(p.read_byte(0x213F, 0), 0x80);
    assert_eq!(p.h_latch, 0);
    assert!(!p.ophct_latch);
}

#[test]
fn peek_matches_read() {
    let mut p = Ppu::default();
    write(&mut p, 0x2116, 0x00);
    let peeked = p.peek_byte(0x2139, 7);
    assert_eq!(p.read_byte(0x2139, 7), peeked);
}

#[test]
fn master_clock_reaches_vblank() {
    let mut p = Ppu::default();
    assert!(!p.vblank);
    let dots_to_vblank = 4 * (225 * 341 + 22);
    p.advance_master_clock(dots_to_vblank as u32);
    assert_eq!(p.dot, dots_to_vblank);
    assert!(p.vblank);
    assert_eq!(p.cursor_y(), 225);
    assert_eq!(p.cursor_x(), 0);
}

#[test]
fn frame_start_ends_vblank_and_flips_field() {
    let mut p = Ppu::default();
    p.vblank = true;
    p.dot = 4 * 22 - 1;
    p.advance_master_clock(1);
    assert!(!p.vblank);
    assert!(p.interlace_field);
}

#[test]
fn nmi_flag_read_clears_the_flag() {
    let mut p = Ppu::default();
    p.vblank = true;
    assert_eq!(p.read_byte_mut(0x4210, 0xFF), 0xF0);
    assert!(!p.vblank);
    assert_eq!(p.read_byte_mut(0x4210, 0xFF), 0x70);
    assert_eq!(p.read_byte_mut(0x4210, 0x0F), 0x00);
    p.vblank = true;
    assert_eq!(p.read_byte_mut(0x2137, 0xFF), 0);
    assert!(p.vblank);
}

#[test]
fn oam_bytes_fill_sprite_entries() {
    let mut p = Ppu::default();
    p.write_oam_byte(4, 0x40);
    p.write_oam_byte(5, 0x20);
    p.write_oam_byte(6, 0x07);
    p.write_oam_byte(7, 0xF3);
    let s = p.oam_sprites[1];
    assert_eq!(s.x, 0x40);
    assert_eq!(s.y, 0x20);
    assert_eq!(s.tile_index, 0x07);
    assert_eq!(s.name_select, 1);
    assert_eq!(s.palette_index, 1);
    assert_eq!(s.priority, 3);
    assert!(s.flip_x);
    assert!(s.flip_y);
    // high table: two bits per sprite, sprite 1 in bits 2 and 3
    p.write_oam_byte(0x200, 0b1100);
    let s = p.oam_sprites[1];
    assert!(s.msb_x);
    assert_eq!(s.size_select, 1);
    assert!(!p.oam_sprites[0].msb_x);
    // the address wraps at 0x220
    p.write_oam_byte(0x220, 0x11);
    assert_eq!(p.oam_sprites[0].x, 0x11);
}

#[test]
fn master_clocks_add_up() {
    let mut a = Ppu::default();
    a.advance_master_clock(100_000);
    a.advance_master_clock(234_567);
    let mut b = Ppu::default();
    b.advance_master_clock(334_567);
    assert_eq!(a.dot, b.dot);
    assert_eq!(a.vblank, b.vblank);
    assert_eq!(a.interlace_field, b.interlace_field);
    assert_eq!(a.mosaic_v_latch, b.mosaic_v_latch);
}

#[test]
fn a_frame_of_clocks_brings_the_dot_back() {
    let frame = 4 * 341 * 262;
    let mut p = Ppu::default();
    write(&mut p, 0x2121, 0x05);
    let d = p.dot;
    p.advance_master_clock(frame);
    assert_eq!(p.dot, d);
    p.advance_master_clock(10);
    assert_eq!(p.dot, (d + 10) % frame as usize);
    // the registers stay
    assert_eq!(p.cgram_addr, 0x05);
}
