use rusty_boy::ppu::PPU;

/// A video unit whose background is shade 3 everywhere (tile 0 is empty
/// and the background palette maps colour 0 to shade 3). Tile 1 has the
/// colour numbers 3 2 1 0 3 2 1 0 in its first row, tile 2 has colour 1
/// all along its first row, tile 3 colour 2.
fn stage() -> PPU {
    let mut ppu = PPU::new();
    ppu.write_byte(0x8010, 0xAA);
    ppu.write_byte(0x8011, 0xCC);
    ppu.write_byte(0x8020, 0xFF);
    ppu.write_byte(0x8021, 0x00);
    ppu.write_byte(0x8030, 0x00);
    ppu.write_byte(0x8031, 0xFF);
    ppu.write_byte(0xFF47, 0x03);
    ppu.write_byte(0xFF48, 0xE4);
    ppu.write_byte(0xFF49, 0x0C);
    ppu
}

fn place(ppu: &mut PPU, index: u16, y: u8, x: u8, tile: u8, attributes: u8) {
    ppu.write_byte(0xFE00 + 4 * index, y);
    ppu.write_byte(0xFE00 + 4 * index + 1, x);
    ppu.write_byte(0xFE00 + 4 * index + 2, tile);
    ppu.write_byte(0xFE00 + 4 * index + 3, attributes);
}

/// Switches the display on and draws the first `lines` lines.
fn draw(ppu: &mut PPU, control: u8, lines: u32) {
    ppu.write_byte(0xFF40, control);
    ppu.update(456 * (lines - 1) + 252);
}

#[test]
fn object_is_drawn_over_the_background() {
    let mut ppu = stage();
    place(&mut ppu, 0, 16, 24, 1, 0x00);
    draw(&mut ppu, 0x93, 1);
    assert_eq!(&ppu.framebuffer()[14..26], &[3, 3, 3, 2, 1, 3, 3, 2, 1, 3, 3, 3]);
}

#[test]
fn object_colour_zero_is_transparent() {
    let mut ppu = stage();
    // With this palette colour 0 would be shade 1, were it drawn.
    ppu.write_byte(0xFF48, 0xE5);
    place(&mut ppu, 0, 16, 8, 1, 0x00);
    draw(&mut ppu, 0x93, 1);
    assert_eq!(&ppu.framebuffer()[0..8], &[3, 2, 1, 3, 3, 2, 1, 3]);
}

#[test]
fn objects_are_off_without_control_bit_1() {
    let mut ppu = stage();
    place(&mut ppu, 0, 16, 8, 2, 0x00);
    draw(&mut ppu, 0x91, 1);
    assert_eq!(&ppu.framebuffer()[0..8], &[3; 8]);
}

#[test]
fn object_flipped_left_to_right() {
    let mut ppu = stage();
    place(&mut ppu, 0, 16, 8, 1, 0x20);
    draw(&mut ppu, 0x93, 1);
    assert_eq!(&ppu.framebuffer()[0..8], &[3, 1, 2, 3, 3, 1, 2, 3]);
}

#[test]
fn object_flipped_top_to_bottom() {
    let mut ppu = stage();
    // Row 7 of tile 2 holds colour 3.
    ppu.write_byte(0x802E, 0xFF);
    ppu.write_byte(0x802F, 0xFF);
    place(&mut ppu, 0, 16, 8, 2, 0x40);
    draw(&mut ppu, 0x93, 8);
    assert_eq!(&ppu.framebuffer()[0..8], &[3; 8]);
    assert_eq!(&ppu.framebuffer()[7 * 160..7 * 160 + 8], &[1; 8]);
}

#[test]
fn object_uses_the_palette_its_attributes_choose() {
    let mut ppu = stage();
    place(&mut ppu, 0, 16, 8, 2, 0x10);
    place(&mut ppu, 1, 16, 24, 2, 0x00);
    draw(&mut ppu, 0x93, 1);
    // The second palette maps colour 1 to shade 3, the first to shade 1.
    assert_eq!(&ppu.framebuffer()[0..8], &[3; 8]);
    assert_eq!(&ppu.framebuffer()[16..24], &[1; 8]);
}

#[test]
fn object_behind_the_background() {
    let mut ppu = stage();
    ppu.write_byte(0xFF47, 0xE4);
    ppu.write_byte(0x9800, 0x01);
    place(&mut ppu, 0, 16, 8, 2, 0x80);
    place(&mut ppu, 1, 16, 16, 2, 0x80);
    draw(&mut ppu, 0x93, 1);
    // Over the tile the object shows only where the background has colour
    // 0; beside it the background is colour 0 throughout.
    assert_eq!(&ppu.framebuffer()[0..8], &[3, 2, 1, 1, 3, 2, 1, 1]);
    assert_eq!(&ppu.framebuffer()[8..16], &[1; 8]);
}

#[test]
fn leftmost_object_wins_where_two_overlap() {
    let mut ppu = stage();
    place(&mut ppu, 0, 16, 12, 2, 0x10);
    place(&mut ppu, 1, 16, 8, 2, 0x00);
    draw(&mut ppu, 0x93, 1);
    assert_eq!(&ppu.framebuffer()[0..8], &[1; 8]);
    assert_eq!(&ppu.framebuffer()[8..12], &[3; 4]);
}

#[test]
fn earlier_object_wins_in_the_same_column() {
    let mut ppu = stage();
    ppu.write_byte(0xFF49, 0x08);
    place(&mut ppu, 3, 16, 8, 2, 0x10);
    place(&mut ppu, 7, 16, 8, 2, 0x00);
    draw(&mut ppu, 0x93, 1);
    // Object 3 uses the second palette, which maps colour 1 to shade 2.
    assert_eq!(&ppu.framebuffer()[0..8], &[2; 8]);
}

#[test]
fn ten_objects_to_a_line() {
    let mut ppu = stage();
    // Eleven objects side by side; the one furthest right comes first in
    // object attribute memory and is the one left out.
    place(&mut ppu, 0, 16, 88, 2, 0x00);
    for i in 1..11u16 {
        place(&mut ppu, i, 16, 8 * i as u8, 2, 0x00);
    }
    draw(&mut ppu, 0x93, 1);
    assert_eq!(&ppu.framebuffer()[0..80], &[1; 80]);
    assert_eq!(&ppu.framebuffer()[80..88], &[3; 8]);
}

#[test]
fn objects_on_other_lines_do_not_count() {
    let mut ppu = stage();
    for i in 0..10u16 {
        place(&mut ppu, i, 24, 8 * (i as u8 + 1), 2, 0x00);
    }
    place(&mut ppu, 10, 16, 96, 2, 0x00);
    draw(&mut ppu, 0x93, 1);
    assert_eq!(&ppu.framebuffer()[0..80], &[3; 80]);
    assert_eq!(&ppu.framebuffer()[88..96], &[1; 8]);
}

#[test]
fn tall_objects_use_two_tiles() {
    let mut ppu = stage();
    place(&mut ppu, 0, 16, 8, 3, 0x00);
    draw(&mut ppu, 0x97, 9);
    // The upper half is tile 2, the lower half tile 3.
    assert_eq!(&ppu.framebuffer()[0..8], &[1; 8]);
    assert_eq!(&ppu.framebuffer()[8 * 160..8 * 160 + 8], &[2; 8]);
}

#[test]
fn tall_object_flipped_top_to_bottom() {
    let mut ppu = stage();
    place(&mut ppu, 0, 16, 8, 2, 0x40);
    draw(&mut ppu, 0x97, 16);
    // Row 0 of the upper tile ends up on line 15, row 0 of the lower tile
    // on line 7.
    assert_eq!(&ppu.framebuffer()[15 * 160..15 * 160 + 8], &[1; 8]);
    assert_eq!(&ppu.framebuffer()[7 * 160..7 * 160 + 8], &[2; 8]);
    assert_eq!(&ppu.framebuffer()[0..8], &[3; 8]);
}

#[test]
fn short_objects_end_after_eight_lines() {
    let mut ppu = stage();
    place(&mut ppu, 0, 16, 8, 2, 0x00);
    draw(&mut ppu, 0x93, 9);
    assert_eq!(&ppu.framebuffer()[0..8], &[1; 8]);
    assert_eq!(&ppu.framebuffer()[8 * 160..8 * 160 + 8], &[3; 8]);
}

#[test]
fn object_partly_off_the_left_edge() {
    let mut ppu = stage();
    place(&mut ppu, 0, 16, 4, 1, 0x00);
    draw(&mut ppu, 0x93, 1);
    // Columns 4..7 of the tile fall on screen columns 0..3.
    assert_eq!(&ppu.framebuffer()[0..6], &[3, 2, 1, 3, 3, 3]);
}

#[test]
fn object_above_the_screen_is_hidden() {
    let mut ppu = stage();
    place(&mut ppu, 0, 0, 8, 2, 0x00);
    place(&mut ppu, 1, 8, 24, 2, 0x00);
    draw(&mut ppu, 0x93, 1);
    assert_eq!(&ppu.framebuffer()[0..32], &[3; 32]);
}
