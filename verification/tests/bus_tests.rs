use rusty_boy::interrupts::{
    InterruptController, JOYPAD_INTERRUPT, LCD_STAT_INTERRUPT, SERIAL_INTERRUPT, TIMER_INTERRUPT,
    VBLANK_INTERRUPT,
};
use rusty_boy::memory::MMU;
use rusty_boy::timer::Timer;

#[test]
fn timer_overflow() {
    let mut timer = Timer::new();
    timer.write_byte(0xFF07, 0x05);
    timer.write_byte(0xFF06, 0x42);
    timer.write_byte(0xFF05, 0xFF);
    let irq = timer.update(16);
    assert_eq!(timer.read_byte(0xFF05), 0x42);
    assert!(irq);
}

#[test]
fn timer_overflow_raises_the_request_on_the_bus() {
    let mut mmu = MMU::new();
    mmu.write_byte(0xFF07, 0x05);
    mmu.write_byte(0xFF06, 0x42);
    mmu.write_byte(0xFF05, 0xFF);
    mmu.update(15);
    assert_eq!(mmu.read_byte(0xFF05), 0xFF);
    assert_eq!(mmu.read_byte(0xFF0F) & 0x04, 0x00);
    mmu.update(1);
    assert_eq!(mmu.read_byte(0xFF05), 0x42);
    assert_eq!(mmu.read_byte(0xFF0F) & 0x04, 0x04);
}

#[test]
fn timer_rates() {
    // (control value, cycles per step of the counter)
    for (tac, period) in [(0x04u8, 1024u32), (0x05, 16), (0x06, 64), (0x07, 256)] {
        let mut timer = Timer::new();
        timer.write_byte(0xFF07, tac);
        assert!(!timer.update(period - 1));
        assert_eq!(timer.read_byte(0xFF05), 0, "control {:02X}", tac);
        assert!(!timer.update(1));
        assert_eq!(timer.read_byte(0xFF05), 1, "control {:02X}", tac);
        assert!(!timer.update(3 * period));
        assert_eq!(timer.read_byte(0xFF05), 4, "control {:02X}", tac);
    }
}

#[test]
fn disabled_timer_does_not_count() {
    let mut timer = Timer::new();
    timer.write_byte(0xFF07, 0x01);
    assert!(!timer.update(4096));
    assert_eq!(timer.read_byte(0xFF05), 0);
    assert_eq!(timer.read_byte(0xFF04), 0x10);
}

#[test]
fn divider_shows_its_high_byte() {
    let mut timer = Timer::new();
    timer.update(255);
    assert_eq!(timer.read_byte(0xFF04), 0x00);
    timer.update(1);
    assert_eq!(timer.read_byte(0xFF04), 0x01);
    timer.update(0xFF00);
    assert_eq!(timer.read_byte(0xFF04), 0x00);
}

#[test]
fn divider_write_clears_all_sixteen_bits() {
    let mut timer = Timer::new();
    timer.update(0x1234);
    assert_eq!(timer.read_byte(0xFF04), 0x12);
    timer.write_byte(0xFF04, 0xAB);
    assert_eq!(timer.read_byte(0xFF04), 0x00);
    timer.update(1);
    assert_eq!(timer.read_byte(0xFF04), 0x00);
    timer.update(254);
    assert_eq!(timer.read_byte(0xFF04), 0x00);
    timer.update(1);
    assert_eq!(timer.read_byte(0xFF04), 0x01);
}

#[test]
fn divider_write_can_step_the_counter() {
    let mut timer = Timer::new();
    timer.write_byte(0xFF07, 0x05);
    timer.write_byte(0xFF05, 0x10);
    // After 8 cycles bit 3 of the divider is high.
    assert!(!timer.update(8));
    assert_eq!(timer.read_byte(0xFF05), 0x10);
    assert!(!timer.write_byte(0xFF04, 0x00));
    assert_eq!(timer.read_byte(0xFF05), 0x11);
    // With the bit low the write steps nothing.
    assert!(!timer.update(4));
    assert!(!timer.write_byte(0xFF04, 0x00));
    assert_eq!(timer.read_byte(0xFF05), 0x11);
}

#[test]
fn divider_write_can_overflow_the_counter() {
    let mut mmu = MMU::new();
    mmu.write_byte(0xFF07, 0x05);
    mmu.write_byte(0xFF06, 0x99);
    mmu.write_byte(0xFF05, 0xFF);
    mmu.update(8);
    mmu.write_byte(0xFF04, 0x00);
    assert_eq!(mmu.read_byte(0xFF05), 0x99);
    assert_eq!(mmu.read_byte(0xFF0F) & 0x04, 0x04);
}

#[test]
fn timer_control_keeps_three_bits() {
    let mut timer = Timer::new();
    timer.write_byte(0xFF07, 0xFD);
    assert_eq!(timer.read_byte(0xFF07), 0x05);
    timer.write_byte(0xFF06, 0x77);
    assert_eq!(timer.read_byte(0xFF06), 0x77);
}

#[test]
fn interrupt_controller_registers() {
    let mut ic = InterruptController::new();
    assert_eq!(ic.get_interrupts(), 0);
    ic.write_byte(0xFFFF, 0xFF);
    ic.request_interrupt(TIMER_INTERRUPT);
    ic.request_interrupt(JOYPAD_INTERRUPT);
    assert_eq!(ic.read_byte(0xFF0F), 0x14);
    assert_eq!(ic.get_interrupts(), 0x14);
    ic.acknowledge_interrupt(TIMER_INTERRUPT);
    assert_eq!(ic.read_byte(0xFF0F), 0x10);
    ic.write_byte(0xFFFF, 0x01);
    assert_eq!(ic.read_byte(0xFFFF), 0x01);
    assert_eq!(ic.get_interrupts(), 0x00);
    ic.write_byte(0xFF0F, 0xFF);
    // Only the five lines count.
    ic.write_byte(0xFFFF, 0xFF);
    assert_eq!(ic.get_interrupts(), 0x1F);
}

#[test]
fn interrupt_lines() {
    assert_eq!(VBLANK_INTERRUPT, 0x01);
    assert_eq!(LCD_STAT_INTERRUPT, 0x02);
    assert_eq!(TIMER_INTERRUPT, 0x04);
    assert_eq!(SERIAL_INTERRUPT, 0x08);
    assert_eq!(JOYPAD_INTERRUPT, 0x10);
}

#[test]
fn master_enable_latch() {
    let mut ic = InterruptController::new();
    assert!(!ic.are_interrupts_enabled());
    ic.set_ime(true);
    assert!(ic.are_interrupts_enabled());
    ic.set_ime(false);
    assert!(!ic.are_interrupts_enabled());
}

#[test]
fn cartridge_is_read_only() {
    let mut mmu = MMU::new();
    mmu.load(vec![0x11, 0x22, 0x33]);
    assert_eq!(mmu.read_byte(0x0000), 0x11);
    assert_eq!(mmu.read_byte(0x0002), 0x33);
    // Past the end of the cartridge.
    assert_eq!(mmu.read_byte(0x0003), 0x00);
    assert_eq!(mmu.read_byte(0x7FFF), 0x00);
    mmu.write_byte(0x0001, 0xFF);
    assert_eq!(mmu.read_byte(0x0001), 0x22);
    mmu.write_byte(0x7FFF, 0xFF);
    assert_eq!(mmu.read_byte(0x7FFF), 0x00);
}

#[test]
fn empty_bus_reads_zero_from_the_cartridge() {
    let mmu = MMU::new();
    assert_eq!(mmu.read_byte(0x0000), 0x00);
    assert_eq!(mmu.read_byte(0x4000), 0x00);
}

#[test]
fn work_memory_and_its_echo() {
    let mut mmu = MMU::new();
    mmu.write_byte(0xC000, 0x11);
    mmu.write_byte(0xDFFF, 0x22);
    assert_eq!(mmu.read_byte(0xC000), 0x11);
    assert_eq!(mmu.read_byte(0xE000), 0x11);
    assert_eq!(mmu.read_byte(0xDFFF), 0x22);
    mmu.write_byte(0xFDFF, 0x33);
    assert_eq!(mmu.read_byte(0xDDFF), 0x33);
    mmu.write_byte(0xE123, 0x44);
    assert_eq!(mmu.read_byte(0xC123), 0x44);
}

#[test]
fn external_and_high_memory() {
    let mut mmu = MMU::new();
    mmu.write_byte(0xA000, 0x55);
    mmu.write_byte(0xBFFF, 0x66);
    assert_eq!(mmu.read_byte(0xA000), 0x55);
    assert_eq!(mmu.read_byte(0xBFFF), 0x66);
    mmu.write_byte(0xFF80, 0x77);
    mmu.write_byte(0xFFFE, 0x88);
    assert_eq!(mmu.read_byte(0xFF80), 0x77);
    assert_eq!(mmu.read_byte(0xFFFE), 0x88);
    // The neighbours of high memory are registers, not memory.
    assert_eq!(mmu.read_byte(0xFFFF), 0x00);
    assert_eq!(mmu.read_byte(0xFF7F), 0xFF);
}

#[test]
fn unused_window_reads_zero() {
    let mut mmu = MMU::new();
    mmu.write_byte(0xFEA0, 0x12);
    mmu.write_byte(0xFEFF, 0x34);
    assert_eq!(mmu.read_byte(0xFEA0), 0x00);
    assert_eq!(mmu.read_byte(0xFEFF), 0x00);
}

#[test]
fn unmapped_registers_read_ff() {
    let mut mmu = MMU::new();
    for addr in [0xFF00u16, 0xFF01, 0xFF10, 0xFF26, 0xFF3F, 0xFF4C, 0xFF50, 0xFF7F] {
        mmu.write_byte(addr, 0x12);
        assert_eq!(mmu.read_byte(addr), 0xFF, "address {:04X}", addr);
    }
}

#[test]
fn words_are_little_endian_and_wrap() {
    let mut mmu = MMU::new();
    mmu.ww(0xC000, 0xBEEF);
    assert_eq!(mmu.read_byte(0xC000), 0xEF);
    assert_eq!(mmu.read_byte(0xC001), 0xBE);
    assert_eq!(mmu.rw(0xC000), 0xBEEF);
    // A word at 0xFFFF has its high byte at 0x0000.
    mmu.load(vec![0x12]);
    mmu.ww(0xFFFF, 0x3456);
    assert_eq!(mmu.read_byte(0xFFFF), 0x56);
    assert_eq!(mmu.rw(0xFFFF), 0x1256);
}

#[test]
fn boot_overlay_is_one_shot() {
    let mut image = vec![0u8; 256];
    image[0] = 0x31;
    image[255] = 0x50;
    let mut rom = vec![0xAAu8; 0x200];
    rom[0x100] = 0xBB;
    let mut mmu = MMU::new();
    mmu.load(rom);
    assert!(mmu.load_boot(&image));
    assert_eq!(mmu.read_byte(0x0000), 0x31);
    assert_eq!(mmu.read_byte(0x00FF), 0x50);
    assert_eq!(mmu.read_byte(0x0100), 0xBB);
    mmu.write_byte(0xFF50, 0x01);
    assert_eq!(mmu.read_byte(0x0000), 0xAA);
    assert_eq!(mmu.read_byte(0x00FF), 0xAA);
    // No later write brings the overlay back.
    mmu.write_byte(0xFF50, 0x00);
    assert_eq!(mmu.read_byte(0x0000), 0xAA);
}

#[test]
fn boot_image_must_have_256_bytes() {
    let mut mmu = MMU::new();
    mmu.load(vec![0xAA; 16]);
    assert!(!mmu.load_boot(&vec![0x31; 255]));
    assert!(!mmu.load_boot(&vec![0x31; 257]));
    assert_eq!(mmu.read_byte(0x0000), 0xAA);
}

#[test]
fn reset_clears_memory_and_restores_the_overlay() {
    let mut mmu = MMU::new();
    mmu.load(vec![0xAA; 0x200]);
    assert!(mmu.load_boot(&vec![0x31; 256]));
    mmu.write_byte(0xFF50, 0x01);
    mmu.write_byte(0xC000, 0x11);
    mmu.write_byte(0xA000, 0x22);
    mmu.write_byte(0xFF80, 0x33);
    mmu.write_byte(0xFFFF, 0x1F);
    mmu.write_byte(0xFF0F, 0x01);
    mmu.write_byte(0xFF05, 0x44);
    mmu.write_byte(0xFF42, 0x55);
    mmu.reset();
    assert_eq!(mmu.read_byte(0xC000), 0x00);
    assert_eq!(mmu.read_byte(0xA000), 0x00);
    assert_eq!(mmu.read_byte(0xFF80), 0x00);
    assert_eq!(mmu.read_byte(0xFFFF), 0x00);
    assert_eq!(mmu.read_byte(0xFF0F), 0x00);
    assert_eq!(mmu.read_byte(0xFF05), 0x00);
    assert_eq!(mmu.read_byte(0xFF42), 0x00);
    assert_eq!(mmu.read_byte(0x0000), 0x31);
    assert_eq!(mmu.read_byte(0x0100), 0xAA);
}

#[test]
fn reset_without_a_boot_image_leaves_the_overlay_off() {
    let mut mmu = MMU::new();
    mmu.load(vec![0xAA; 0x200]);
    mmu.reset();
    assert_eq!(mmu.read_byte(0x0000), 0xAA);
}

#[test]
fn registers_are_routed_to_their_owners() {
    let mut mmu = MMU::new();
    mmu.write_byte(0xFF06, 0x12);
    assert_eq!(mmu.timer().read_byte(0xFF06), 0x12);
    mmu.write_byte(0xFF42, 0x34);
    assert_eq!(mmu.ppu().read_byte(0xFF42), 0x34);
    mmu.write_byte(0x8000, 0x56);
    assert_eq!(mmu.ppu().read_byte(0x8000), 0x56);
    mmu.write_byte(0xFE00, 0x78);
    assert_eq!(mmu.ppu().dma_read(0), 0x78);
    mmu.write_byte(0xFFFF, 0x1F);
    assert_eq!(mmu.interrupts().read_byte(0xFFFF), 0x1F);
    mmu.request_interrupt(SERIAL_INTERRUPT);
    assert_eq!(mmu.read_byte(0xFF0F), 0x08);
    assert_eq!(mmu.pending_interrupts(), 0x08);
    mmu.acknowledge_interrupt(SERIAL_INTERRUPT);
    assert_eq!(mmu.pending_interrupts(), 0x00);
}

#[test]
fn dma_copies_a_page_into_object_memory() {
    let mut mmu = MMU::new();
    for i in 0..160u16 {
        mmu.write_byte(0xC100 + i, i as u8 ^ 0x5A);
    }
    mmu.write_byte(0xFF80, 0x99);
    mmu.write_byte(0xFF46, 0xC1);
    assert!(mmu.ppu().dma_active());
    for i in 0..160u16 {
        assert_eq!(mmu.ppu().dma_read(i), i as u8 ^ 0x5A);
    }
    // While the transfer runs only high memory answers.
    assert_eq!(mmu.read_byte(0xC100), 0xFF);
    assert_eq!(mmu.read_byte(0xFE00), 0xFF);
    assert_eq!(mmu.read_byte(0xFF46), 0xFF);
    assert_eq!(mmu.read_byte(0xFF80), 0x99);
    mmu.update(159);
    assert!(mmu.ppu().dma_active());
    assert_eq!(mmu.read_byte(0xC100), 0xFF);
    mmu.update(1);
    assert!(!mmu.ppu().dma_active());
    assert_eq!(mmu.read_byte(0xC100), 0x5A);
    assert_eq!(mmu.read_byte(0xFE01), 0x5B);
    assert_eq!(mmu.read_byte(0xFF46), 0xC1);
}

#[test]
fn dma_from_the_cartridge() {
    let mut rom = vec![0u8; 0x8000];
    for i in 0..160usize {
        rom[0x4000 + i] = (i as u8).wrapping_mul(3);
    }
    let mut mmu = MMU::new();
    mmu.load(rom);
    mmu.write_byte(0xFF46, 0x40);
    mmu.update(160);
    for i in 0..160u16 {
        assert_eq!(mmu.read_byte(0xFE00 + i), (i as u8).wrapping_mul(3));
    }
}
