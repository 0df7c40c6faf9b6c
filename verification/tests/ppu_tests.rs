use rusty_boy::machine::{Gameboy, LoadError};
use rusty_boy::memory::MMU;
use rusty_boy::ppu::PPU;

fn running_ppu() -> PPU {
    let mut ppu = PPU::new();
    ppu.write_byte(0xFF40, 0x80);
    ppu
}

#[test]
fn ppu_scanline_cadence() {
    let mut ppu = running_ppu();
    assert_eq!(ppu.line(), 0);
    assert_eq!(ppu.mode(), 2);
    assert_eq!(ppu.mode_clock(), 0);
    ppu.update(456);
    assert_eq!(ppu.line(), 1);
    assert_eq!(ppu.mode(), 2);
    assert_eq!(ppu.mode_clock(), 0);
    assert_eq!(ppu.read_byte(0xFF44), 1);
    assert_eq!(ppu.read_byte(0xFF41) & 0x03, 2);
}

#[test]
fn ppu_modes_within_a_line() {
    let mut ppu = running_ppu();
    ppu.update(79);
    assert_eq!((ppu.mode(), ppu.mode_clock()), (2, 79));
    ppu.update(1);
    assert_eq!((ppu.mode(), ppu.mode_clock()), (3, 0));
    ppu.update(171);
    assert_eq!((ppu.mode(), ppu.mode_clock()), (3, 171));
    ppu.update(1);
    assert_eq!((ppu.mode(), ppu.mode_clock()), (0, 0));
    ppu.update(203);
    assert_eq!((ppu.mode(), ppu.line()), (0, 0));
    ppu.update(1);
    assert_eq!((ppu.mode(), ppu.line()), (2, 1));
}

#[test]
fn ppu_cadence_does_not_depend_on_the_step() {
    let mut whole = running_ppu();
    whole.update(70224 + 1000);
    let mut pieces = running_ppu();
    let mut done = 0u32;
    for step in [4u32, 8, 12, 16, 20, 24].iter().cycle() {
        if done + step > 70224 + 1000 {
            break;
        }
        pieces.update(*step);
        done += step;
    }
    pieces.update(70224 + 1000 - done);
    assert_eq!(pieces.line(), whole.line());
    assert_eq!(pieces.mode(), whole.mode());
    assert_eq!(pieces.mode_clock(), whole.mode_clock());
}

#[test]
fn ppu_enters_vertical_blank_at_line_144() {
    let mut ppu = running_ppu();
    let irq = ppu.update(456 * 144 - 1);
    assert_eq!(irq & 0x01, 0);
    assert_eq!((ppu.line(), ppu.mode()), (143, 0));
    let irq = ppu.update(1);
    assert_eq!(irq & 0x01, 0x01);
    assert_eq!((ppu.line(), ppu.mode()), (144, 1));
    let irq = ppu.update(456 * 9);
    assert_eq!(irq, 0);
    assert_eq!((ppu.line(), ppu.mode()), (153, 1));
    ppu.update(455);
    assert_eq!((ppu.line(), ppu.mode()), (153, 1));
    ppu.update(1);
    assert_eq!((ppu.line(), ppu.mode(), ppu.mode_clock()), (0, 2, 0));
}

#[test]
fn ppu_line_stays_in_range() {
    let mut ppu = running_ppu();
    for _ in 0..4000 {
        ppu.update(37);
        assert!(ppu.line() <= 153);
        assert!(ppu.mode() <= 3);
        assert_eq!(ppu.mode() == 1, ppu.line() >= 144);
        let limit = match ppu.mode() {
            2 => 80,
            3 => 172,
            0 => 204,
            _ => 456,
        };
        assert!(ppu.mode_clock() < limit);
    }
}

#[test]
fn vertical_blank_request_reaches_the_bus() {
    let mut mmu = MMU::new();
    mmu.write_byte(0xFF40, 0x80);
    mmu.update(456 * 144 - 4);
    assert_eq!(mmu.read_byte(0xFF0F) & 0x01, 0x00);
    mmu.update(4);
    assert_eq!(mmu.read_byte(0xFF0F) & 0x01, 0x01);
    assert_eq!(mmu.read_byte(0xFF44), 144);
}

#[test]
fn status_interrupt_sources() {
    // Horizontal blank.
    let mut ppu = running_ppu();
    ppu.write_byte(0xFF41, 0x08);
    assert_eq!(ppu.update(251), 0);
    assert_eq!(ppu.update(1), 0x02);
    // Object attribute scan of the next line.
    let mut ppu = running_ppu();
    ppu.write_byte(0xFF41, 0x20);
    assert_eq!(ppu.update(455), 0);
    assert_eq!(ppu.update(1), 0x02);
    // Vertical blank, together with the vertical-blank interrupt itself.
    let mut ppu = running_ppu();
    ppu.write_byte(0xFF41, 0x10);
    assert_eq!(ppu.update(456 * 144 - 1), 0);
    assert_eq!(ppu.update(1), 0x03);
    // Coincidence of the line with its compare value.
    let mut ppu = running_ppu();
    ppu.write_byte(0xFF41, 0x40);
    ppu.write_byte(0xFF45, 2);
    assert_eq!(ppu.update(456), 0);
    assert_eq!(ppu.read_byte(0xFF41) & 0x04, 0x00);
    assert_eq!(ppu.update(456), 0x02);
    assert_eq!(ppu.read_byte(0xFF41) & 0x04, 0x04);
    // Nothing enabled: nothing requested but vertical blank.
    let mut ppu = running_ppu();
    assert_eq!(ppu.update(456 * 143), 0);
}

#[test]
fn status_register_layout() {
    let mut ppu = running_ppu();
    ppu.write_byte(0xFF41, 0xFF);
    // Enables in bits 6..3, coincidence in bit 2 (line 0 equals compare
    // value 0), mode 2 in the low bits.
    assert_eq!(ppu.read_byte(0xFF41), 0x78 | 0x04 | 0x02);
    ppu.write_byte(0xFF45, 5);
    assert_eq!(ppu.read_byte(0xFF41), 0x78 | 0x02);
    ppu.update(80);
    assert_eq!(ppu.read_byte(0xFF41), 0x78 | 0x03);
}

#[test]
fn line_register_is_read_only() {
    let mut ppu = running_ppu();
    ppu.update(456 * 3);
    ppu.write_byte(0xFF44, 0x55);
    assert_eq!(ppu.read_byte(0xFF44), 3);
}

#[test]
fn switching_the_display_off_and_on() {
    let mut ppu = running_ppu();
    ppu.update(456 * 10 + 100);
    assert_eq!((ppu.line(), ppu.mode()), (10, 3));
    ppu.write_byte(0xFF40, 0x00);
    assert_eq!((ppu.line(), ppu.mode(), ppu.mode_clock()), (0, 0, 0));
    // Nothing moves and nothing is requested while the display is off.
    assert_eq!(ppu.update(456 * 200), 0);
    assert_eq!((ppu.line(), ppu.mode(), ppu.mode_clock()), (0, 0, 0));
    ppu.write_byte(0xFF40, 0x80);
    assert_eq!((ppu.line(), ppu.mode(), ppu.mode_clock()), (0, 2, 0));
    // Writing the control register again does not restart the frame.
    ppu.update(100);
    ppu.write_byte(0xFF40, 0x91);
    assert_eq!((ppu.line(), ppu.mode(), ppu.mode_clock()), (0, 3, 20));
}

#[test]
fn a_new_ppu_is_off() {
    let mut ppu = PPU::new();
    assert_eq!((ppu.line(), ppu.mode(), ppu.mode_clock()), (0, 0, 0));
    assert_eq!(ppu.update(1000), 0);
    assert_eq!(ppu.read_byte(0xFF40), 0);
    assert!(!ppu.dma_active());
    assert!(ppu.framebuffer().iter().all(|shade| *shade == 0));
}

#[test]
fn display_registers_keep_their_values() {
    let mut ppu = PPU::new();
    for (i, addr) in [0xFF42u16, 0xFF43, 0xFF45, 0xFF47, 0xFF48, 0xFF49, 0xFF4A, 0xFF4B]
        .iter()
        .enumerate()
    {
        ppu.write_byte(*addr, 0x10 + i as u8);
    }
    for (i, addr) in [0xFF42u16, 0xFF43, 0xFF45, 0xFF47, 0xFF48, 0xFF49, 0xFF4A, 0xFF4B]
        .iter()
        .enumerate()
    {
        assert_eq!(ppu.read_byte(*addr), 0x10 + i as u8);
    }
    ppu.write_byte(0x9FFF, 0xAB);
    assert_eq!(ppu.read_byte(0x9FFF), 0xAB);
    ppu.write_byte(0xFE9F, 0xCD);
    assert_eq!(ppu.read_byte(0xFE9F), 0xCD);
    ppu.dma_write(3, 0xEF);
    assert_eq!(ppu.dma_read(3), 0xEF);
    assert_eq!(ppu.read_byte(0xFE03), 0xEF);
}

/// A video unit with one tile (number 1) whose first row holds the colour
/// numbers 3 2 1 0 3 2 1 0, placed at the top left of the low tile map.
fn ppu_with_tile() -> PPU {
    let mut ppu = PPU::new();
    ppu.write_byte(0x8010, 0xAA);
    ppu.write_byte(0x8011, 0xCC);
    ppu.write_byte(0x9800, 0x01);
    ppu.write_byte(0xFF47, 0xE4);
    ppu
}

#[test]
fn background_line_is_drawn_at_the_end_of_pixel_transfer() {
    let mut ppu = ppu_with_tile();
    ppu.write_byte(0xFF40, 0x91);
    ppu.update(251);
    assert!(ppu.framebuffer().iter().all(|shade| *shade == 0));
    ppu.update(1);
    assert_eq!(&ppu.framebuffer()[0..10], &[3, 2, 1, 0, 3, 2, 1, 0, 0, 0]);
    assert!(ppu.framebuffer()[10..].iter().all(|shade| *shade == 0));
}

#[test]
fn background_palette_maps_colours_to_shades() {
    let mut ppu = ppu_with_tile();
    ppu.write_byte(0xFF47, 0x1B);
    ppu.write_byte(0xFF40, 0x91);
    ppu.update(252);
    assert_eq!(&ppu.framebuffer()[0..10], &[0, 1, 2, 3, 0, 1, 2, 3, 3, 3]);
}

#[test]
fn background_scrolls_modulo_256() {
    let mut ppu = ppu_with_tile();
    ppu.write_byte(0xFF43, 4);
    ppu.write_byte(0xFF40, 0x91);
    ppu.update(252);
    assert_eq!(&ppu.framebuffer()[0..6], &[3, 2, 1, 0, 0, 0]);
    // Scrolled by 250 the tile comes round again at column 6.
    let mut ppu = ppu_with_tile();
    ppu.write_byte(0xFF43, 250);
    ppu.write_byte(0xFF40, 0x91);
    ppu.update(252);
    assert_eq!(&ppu.framebuffer()[4..16], &[0, 0, 3, 2, 1, 0, 3, 2, 1, 0, 0, 0]);
    // Scrolled down by one line the first row is off screen on line 0 and
    // comes round on line 255 of the plane, which is never on screen.
    let mut ppu = ppu_with_tile();
    ppu.write_byte(0xFF42, 1);
    ppu.write_byte(0xFF40, 0x91);
    ppu.update(252);
    assert_eq!(&ppu.framebuffer()[0..4], &[0, 0, 0, 0]);
}

#[test]
fn signed_tile_addressing() {
    // With control bit 4 clear tile 0 lies at offset 0x1000 and tile 0x80
    // at offset 0x0800.
    let mut ppu = PPU::new();
    ppu.write_byte(0x9000, 0xFF);
    ppu.write_byte(0x9001, 0x00);
    ppu.write_byte(0x8800, 0x00);
    ppu.write_byte(0x8801, 0xFF);
    ppu.write_byte(0x9801, 0x80);
    ppu.write_byte(0xFF47, 0xE4);
    ppu.write_byte(0xFF40, 0x81);
    ppu.update(252);
    assert_eq!(&ppu.framebuffer()[0..8], &[1; 8]);
    assert_eq!(&ppu.framebuffer()[8..16], &[2; 8]);
}

#[test]
fn high_tile_map() {
    let mut ppu = ppu_with_tile();
    ppu.write_byte(0x9C00, 0x00);
    ppu.write_byte(0x9C01, 0x01);
    ppu.write_byte(0xFF40, 0x99);
    ppu.update(252);
    assert_eq!(&ppu.framebuffer()[0..8], &[0; 8]);
    assert_eq!(&ppu.framebuffer()[8..16], &[3, 2, 1, 0, 3, 2, 1, 0]);
}

#[test]
fn second_line_uses_the_second_row_of_the_tile() {
    let mut ppu = ppu_with_tile();
    ppu.write_byte(0x8012, 0x0F);
    ppu.write_byte(0x8013, 0x00);
    ppu.write_byte(0xFF40, 0x91);
    ppu.update(456 + 252);
    assert_eq!(&ppu.framebuffer()[160..170], &[0, 0, 0, 0, 1, 1, 1, 1, 0, 0]);
    assert_eq!(&ppu.framebuffer()[0..4], &[3, 2, 1, 0]);
}

#[test]
fn window_overlays_the_background() {
    let mut ppu = ppu_with_tile();
    // The window uses the high map, whose first tile is tile 1; it starts
    // at column 20 of line 0.
    ppu.write_byte(0x9C00, 0x01);
    ppu.write_byte(0xFF4A, 0);
    ppu.write_byte(0xFF4B, 27);
    ppu.write_byte(0xFF40, 0x91 | 0x20 | 0x40);
    ppu.update(252);
    assert_eq!(&ppu.framebuffer()[0..8], &[3, 2, 1, 0, 3, 2, 1, 0]);
    assert_eq!(&ppu.framebuffer()[18..30], &[0, 0, 3, 2, 1, 0, 3, 2, 1, 0, 0, 0]);
}

#[test]
fn window_below_the_current_line_is_not_drawn() {
    let mut ppu = ppu_with_tile();
    ppu.write_byte(0x9C00, 0x01);
    ppu.write_byte(0xFF4A, 1);
    ppu.write_byte(0xFF4B, 27);
    ppu.write_byte(0xFF40, 0x91 | 0x20 | 0x40);
    ppu.update(252);
    assert_eq!(&ppu.framebuffer()[20..28], &[0; 8]);
    ppu.update(456);
    assert_eq!(&ppu.framebuffer()[160 + 20..160 + 28], &[3, 2, 1, 0, 3, 2, 1, 0]);
}

#[test]
fn frame_buffer_colours() {
    let mut ppu = ppu_with_tile();
    ppu.write_byte(0xFF40, 0x91);
    ppu.update(252);
    let colours = ppu.get_frame_buffer();
    assert_eq!(colours.len(), 160 * 144);
    assert_eq!(&colours[0..5], &[0x000000FF, 0x555555FF, 0xAAAAAAFF, 0xFFFFFFFF, 0x000000FF]);
    assert_eq!(colours[160 * 144 - 1], 0xFFFFFFFF);
}

#[test]
fn machine_without_a_boot_image() {
    let mut rom = vec![0u8; 0x8000];
    rom[0x100..0x103].copy_from_slice(&[0x3E, 0x42, 0x10]);
    let mut gameboy = Gameboy::new(None, rom).unwrap();
    assert_eq!(gameboy.processor().pc, 0x0100);
    assert_eq!(gameboy.processor().a, 0x01);
    assert_eq!(gameboy.update(), Ok(8));
    assert_eq!(gameboy.processor().a, 0x42);
    assert!(!gameboy.is_stopped());
    assert_eq!(gameboy.update(), Ok(4));
    assert!(gameboy.is_stopped());
    // A stopped machine does nothing.
    assert_eq!(gameboy.update(), Ok(0));
    assert_eq!(gameboy.processor().pc, 0x0103);
    assert_eq!(gameboy.memory().timer().read_byte(0xFF04), 0);
}

#[test]
fn machine_with_a_boot_image() {
    let mut image = vec![0u8; 256];
    // LD A,0x77; LDH (0x50),A
    image[0..4].copy_from_slice(&[0x3E, 0x77, 0xE0, 0x50]);
    let rom = vec![0x3Cu8; 0x8000];
    let mut gameboy = Gameboy::new(Some(image), rom).unwrap();
    assert_eq!(gameboy.processor().pc, 0x0000);
    assert_eq!(gameboy.update(), Ok(8));
    assert_eq!(gameboy.processor().a, 0x77);
    assert_eq!(gameboy.update(), Ok(12));
    // The overlay is off: the cartridge's INC A runs next.
    assert_eq!(gameboy.update(), Ok(4));
    assert_eq!(gameboy.processor().a, 0x78);
}

#[test]
fn machine_rejects_a_boot_image_of_the_wrong_size() {
    assert_eq!(Gameboy::new(Some(vec![0u8; 100]), vec![0u8; 16]).err(), Some(LoadError::BootImageSize));
    assert_eq!(Gameboy::new(Some(Vec::new()), vec![0u8; 16]).err(), Some(LoadError::BootImageSize));
    assert!(Gameboy::new(Some(vec![0u8; 256]), Vec::new()).is_ok());
}

#[test]
fn machine_reports_an_undefined_opcode() {
    let mut rom = vec![0u8; 0x8000];
    rom[0x100] = 0xFC;
    let mut gameboy = Gameboy::new(None, rom).unwrap();
    let error = gameboy.update().unwrap_err();
    assert_eq!((error.pc, error.opcode), (0x0100, 0xFC));
    assert!(gameboy.is_stopped());
}

#[test]
fn machine_runs_peripherals_and_serves_interrupts() {
    // EI; LD A,0x04; LDH (0xFF),A; LD A,0x05; LDH (0x07),A; LD A,0xFF;
    // LDH (0x05),A
    let mut rom = vec![0u8; 0x8000];
    rom[0x100..0x10D].copy_from_slice(&[
        0xFB, 0x3E, 0x04, 0xE0, 0xFF, 0x3E, 0x05, 0xE0, 0x07, 0x3E, 0xFF, 0xE0, 0x05,
    ]);
    let mut gameboy = Gameboy::new(None, rom).unwrap();
    let mut cycles = 0;
    for _ in 0..6 {
        cycles += gameboy.update().unwrap();
    }
    // The divider has counted every cycle: 52 so far. The counter was
    // enabled at 44 and stepped once when bit 3 fell at 48.
    assert_eq!(cycles, 52);
    assert_eq!(gameboy.processor().pc, 0x010B);
    assert_eq!(gameboy.memory().read_byte(0xFF05), 0x01);
    // The last instruction sets the counter to 0xFF; during its twelve
    // cycles bit 3 falls again at 64, the counter overflows, and the
    // request is served before the next instruction.
    assert_eq!(gameboy.update(), Ok(12));
    assert_eq!(gameboy.processor().pc, 0x0050);
    assert_eq!(gameboy.memory().read_byte(0xFF05), 0x00);
    assert_eq!(gameboy.memory().read_byte(0xFF0F) & 0x04, 0);
    assert!(!gameboy.processor().ime);
    assert_eq!(gameboy.memory().rw(gameboy.processor().sp), 0x010D);
}

#[test]
fn external_requests_are_served() {
    let mut rom = vec![0u8; 0x8000];
    rom[0x100..0x105].copy_from_slice(&[0xFB, 0x3E, 0x10, 0xE0, 0xFF]);
    let mut gameboy = Gameboy::new(None, rom).unwrap();
    for _ in 0..3 {
        gameboy.update().unwrap();
    }
    gameboy.request_interrupt(0x10);
    gameboy.update().unwrap();
    assert_eq!(gameboy.processor().pc, 0x0060);
}

#[test]
fn draw_paints_shades_as_gray() {
    let mut rom = vec![0u8; 0x8000];
    // LD A,0x1B; LDH (0x47),A; LD A,0x91; LDH (0x40),A; JR -2
    rom[0x100..0x10A].copy_from_slice(&[0x3E, 0x1B, 0xE0, 0x47, 0x3E, 0x91, 0xE0, 0x40, 0x18, 0xFE]);
    let mut gameboy = Gameboy::new(None, rom).unwrap();
    let mut cycles = 0;
    while cycles < 456 {
        cycles += gameboy.update().unwrap();
    }
    // Tile 0 is all colour 0, which the palette maps to shade 3.
    assert_eq!(gameboy.framebuffer()[0], 3);
    assert_eq!(gameboy.framebuffer()[160], 0);
    let mut frame = vec![0x55u8; 160 * 144 * 4];
    gameboy.draw(&mut frame);
    assert_eq!(&frame[0..4], &[0, 0, 0, 255]);
    assert_eq!(&frame[160 * 4..160 * 4 + 4], &[255, 255, 255, 255]);
    // A frame that ends within a pixel keeps its last bytes.
    let mut short = vec![0x55u8; 10];
    gameboy.draw(&mut short);
    assert_eq!(short, vec![0, 0, 0, 255, 0, 0, 0, 255, 0x55, 0x55]);
}
