//! The mathematical state of the video unit and the functions that say how
//! it answers the bus and moves through a scanline.

use vstd::prelude::*;
use crate::bits::bit;

verus! {

/// Bytes of video memory.
pub const VRAM_SIZE: usize = 8192;

/// Bytes of object attribute memory.
pub const OAM_SIZE: usize = 160;

/// Pixels in a line.
pub const SCREEN_WIDTH: usize = 160;

/// Visible lines.
pub const SCREEN_HEIGHT: usize = 144;

/// Pixels in the frame buffer.
pub const FRAME_SIZE: usize = 23040;

/// Mode number of horizontal blank.
pub const MODE_HBLANK: u8 = 0;

/// Mode number of vertical blank.
pub const MODE_VBLANK: u8 = 1;

/// Mode number of the object attribute scan.
pub const MODE_OAM_SCAN: u8 = 2;

/// Mode number of pixel transfer.
pub const MODE_PIXEL_TRANSFER: u8 = 3;

/// The state of the video unit as plain values.
pub struct PpuState {
    pub vram: Seq<u8>,
    pub oam: Seq<u8>,
    pub lcd_control: u8,
    pub lcd_status: u8,
    pub scroll_y: u8,
    pub scroll_x: u8,
    pub ly: u8,
    pub ly_compare: u8,
    pub bg_palette: u8,
    pub obj_palette0: u8,
    pub obj_palette1: u8,
    pub window_y: u8,
    pub window_x: u8,
    pub framebuffer: Seq<u8>,
    pub mode_clock: u32,
    pub current_mode: u8,
    pub dma_active: bool,
    pub dma_byte: u8,
    pub dma_source: u8,
}

/// Base cycles spent in a mode before the next transition; a full line in
/// vertical blank.
pub open spec fn mode_duration(mode: u8) -> int {
    if mode == MODE_OAM_SCAN {
        80
    } else if mode == MODE_PIXEL_TRANSFER {
        172
    } else if mode == MODE_HBLANK {
        204
    } else {
        456
    }
}

/// The request mask for the two interrupts the video unit can raise.
pub open spec fn request_mask(vblank: bool, stat: bool) -> u8 {
    ((if vblank { 1int } else { 0int }) + (if stat { 2int } else { 0int })) as u8
}

/// Whether a bus address belongs to the video unit.
pub open spec fn ppu_maps(addr: u16) -> bool {
    0x8000 <= addr <= 0x9FFF || 0xFE00 <= addr <= 0xFE9F || 0xFF40 <= addr <= 0xFF4B
}

impl PpuState {
    /// The video unit at power-on: memories and registers zero, display
    /// off.
    pub open spec fn initial() -> PpuState {
        PpuState {
            vram: Seq::new(VRAM_SIZE as nat, |i: int| 0u8),
            oam: Seq::new(OAM_SIZE as nat, |i: int| 0u8),
            lcd_control: 0,
            lcd_status: 0,
            scroll_y: 0,
            scroll_x: 0,
            ly: 0,
            ly_compare: 0,
            bg_palette: 0,
            obj_palette0: 0,
            obj_palette1: 0,
            window_y: 0,
            window_x: 0,
            framebuffer: Seq::new(FRAME_SIZE as nat, |i: int| 0u8),
            mode_clock: 0,
            current_mode: MODE_HBLANK,
            dma_active: false,
            dma_byte: 0,
            dma_source: 0,
        }
    }

    /// Bit 7 of the control register switches the display on.
    pub open spec fn lcd_on(self) -> bool {
        self.lcd_control >= 0x80
    }

    pub open spec fn wf(self) -> bool {
        &&& self.vram.len() == VRAM_SIZE
        &&& self.oam.len() == OAM_SIZE
        &&& self.framebuffer.len() == FRAME_SIZE
        &&& forall|i: int| 0 <= i < FRAME_SIZE ==> #[trigger] self.framebuffer[i] <= 3
        &&& self.ly <= 153
        &&& self.current_mode <= 3
        &&& self.mode_clock < mode_duration(self.current_mode)
        &&& self.lcd_on() ==> (self.current_mode == MODE_VBLANK <==> self.ly >= 144)
        &&& !self.lcd_on() ==> self.current_mode == MODE_HBLANK && self.ly == 0 && self.mode_clock
            == 0
        &&& self.dma_byte <= 160
        &&& self.dma_active ==> self.dma_byte < 160
    }

    /// The status register as the bus reads it: the interrupt enables that
    /// were written, the coincidence of the line with its compare value in
    /// bit 2, and the mode in the low two bits.
    pub open spec fn stat(self) -> u8 {
        (self.lcd_status & 0x78) | (if self.ly == self.ly_compare {
            0x04u8
        } else {
            0x00u8
        }) | self.current_mode
    }

    pub open spec fn spec_read(self, addr: u16) -> u8 {
        if 0x8000 <= addr <= 0x9FFF {
            self.vram[addr - 0x8000]
        } else if 0xFE00 <= addr <= 0xFE9F {
            self.oam[addr - 0xFE00]
        } else if addr == 0xFF40 {
            self.lcd_control
        } else if addr == 0xFF41 {
            self.stat()
        } else if addr == 0xFF42 {
            self.scroll_y
        } else if addr == 0xFF43 {
            self.scroll_x
        } else if addr == 0xFF44 {
            self.ly
        } else if addr == 0xFF45 {
            self.ly_compare
        } else if addr == 0xFF46 {
            self.dma_source
        } else if addr == 0xFF47 {
            self.bg_palette
        } else if addr == 0xFF48 {
            self.obj_palette0
        } else if addr == 0xFF49 {
            self.obj_palette1
        } else if addr == 0xFF4A {
            self.window_y
        } else {
            self.window_x
        }
    }

    /// A write to the control register. Switching the display off forces
    /// line 0, mode 0 and an empty mode clock; switching it on starts an
    /// object attribute scan at line 0.
    pub open spec fn spec_write_control(self, value: u8) -> PpuState {
        if value < 0x80 {
            PpuState {
                lcd_control: value,
                ly: 0,
                current_mode: MODE_HBLANK,
                mode_clock: 0,
                ..self
            }
        } else if !self.lcd_on() {
            PpuState {
                lcd_control: value,
                ly: 0,
                current_mode: MODE_OAM_SCAN,
                mode_clock: 0,
                ..self
            }
        } else {
            PpuState { lcd_control: value, ..self }
        }
    }

    /// The start of a transfer into object attribute memory from page
    /// `value` of the address space.
    pub open spec fn spec_start_dma(self, value: u8) -> PpuState {
        PpuState { dma_source: value, dma_active: true, dma_byte: 0, ..self }
    }

    pub open spec fn spec_write(self, addr: u16, value: u8) -> PpuState {
        if 0x8000 <= addr <= 0x9FFF {
            PpuState { vram: self.vram.update(addr - 0x8000, value), ..self }
        } else if 0xFE00 <= addr <= 0xFE9F {
            PpuState { oam: self.oam.update(addr - 0xFE00, value), ..self }
        } else if addr == 0xFF40 {
            self.spec_write_control(value)
        } else if addr == 0xFF41 {
            PpuState { lcd_status: value & 0x78, ..self }
        } else if addr == 0xFF42 {
            PpuState { scroll_y: value, ..self }
        } else if addr == 0xFF43 {
            PpuState { scroll_x: value, ..self }
        } else if addr == 0xFF44 {
            self
        } else if addr == 0xFF45 {
            PpuState { ly_compare: value, ..self }
        } else if addr == 0xFF46 {
            self.spec_start_dma(value)
        } else if addr == 0xFF47 {
            PpuState { bg_palette: value, ..self }
        } else if addr == 0xFF48 {
            PpuState { obj_palette0: value, ..self }
        } else if addr == 0xFF49 {
            PpuState { obj_palette1: value, ..self }
        } else if addr == 0xFF4A {
            PpuState { window_y: value, ..self }
        } else {
            PpuState { window_x: value, ..self }
        }
    }

    /// Whether the status interrupt fires when line `ly` is entered.
    pub open spec fn coincidence_fires(self, ly: u8) -> bool {
        ly == self.ly_compare && bit(self.lcd_status as int, 6)
    }

    /// The move out of the object attribute scan, once its time is up.
    pub open spec fn spec_oam_scan(self) -> PpuState {
        if self.mode_clock >= 80 {
            PpuState { mode_clock: 0, current_mode: MODE_PIXEL_TRANSFER, ..self }
        } else {
            self
        }
    }

    /// The move out of pixel transfer: the line is drawn and horizontal
    /// blank begins. The second component says whether the status
    /// interrupt is requested.
    pub open spec fn spec_pixel_transfer(self) -> (PpuState, bool) {
        if self.mode_clock >= 172 {
            (
                PpuState {
                    mode_clock: 0,
                    current_mode: MODE_HBLANK,
                    framebuffer: self.spec_render_line(),
                    ..self
                },
                bit(self.lcd_status as int, 3),
            )
        } else {
            (self, false)
        }
    }

    /// The move out of horizontal blank, with the vertical-blank and status
    /// requests it raises.
    pub open spec fn spec_hblank(self) -> (PpuState, bool, bool) {
        if self.mode_clock >= 204 {
            let ly = (self.ly + 1) as u8;
            if ly >= 144 {
                (
                    PpuState { mode_clock: 0, ly: ly, current_mode: MODE_VBLANK, ..self },
                    true,
                    bit(self.lcd_status as int, 4) || self.coincidence_fires(ly),
                )
            } else {
                (
                    PpuState { mode_clock: 0, ly: ly, current_mode: MODE_OAM_SCAN, ..self },
                    false,
                    bit(self.lcd_status as int, 5) || self.coincidence_fires(ly),
                )
            }
        } else {
            (self, false, false)
        }
    }

    /// The end of a line of vertical blank; after line 153 a new frame
    /// starts with an object attribute scan at line 0.
    pub open spec fn spec_vblank(self) -> (PpuState, bool) {
        if self.mode_clock >= 456 {
            if self.ly >= 153 {
                (
                    PpuState { mode_clock: 0, ly: 0, current_mode: MODE_OAM_SCAN, ..self },
                    bit(self.lcd_status as int, 5) || self.coincidence_fires(0),
                )
            } else {
                let ly = (self.ly + 1) as u8;
                (PpuState { mode_clock: 0, ly: ly, ..self }, self.coincidence_fires(ly))
            }
        } else {
            (self, false)
        }
    }

    /// The handler of the current mode, applied once.
    pub open spec fn spec_handle_mode(self) -> (PpuState, bool, bool) {
        if self.current_mode == MODE_OAM_SCAN {
            (self.spec_oam_scan(), false, false)
        } else if self.current_mode == MODE_PIXEL_TRANSFER {
            let (s, stat) = self.spec_pixel_transfer();
            (s, false, stat)
        } else if self.current_mode == MODE_HBLANK {
            self.spec_hblank()
        } else {
            let (s, stat) = self.spec_vblank();
            (s, false, stat)
        }
    }

    /// The cycles that can pass before the current mode's time is up; never
    /// less than one.
    pub open spec fn room(self) -> nat {
        if self.mode_clock < mode_duration(self.current_mode) {
            (mode_duration(self.current_mode) - self.mode_clock) as nat
        } else {
            1
        }
    }

    /// The scanline machine run for `n` base cycles while the display is
    /// on, with the vertical-blank and status requests raised on the way.
    pub open spec fn spec_advance(self, n: nat) -> (PpuState, bool, bool)
        decreases n,
    {
        if n == 0 || !self.lcd_on() {
            (self, false, false)
        } else {
            let step = if n < self.room() {
                n
            } else {
                self.room()
            };
            let timed = PpuState { mode_clock: (self.mode_clock + step) as u32, ..self };
            let (s1, v1, t1) = timed.spec_handle_mode();
            let (s2, v2, t2) = s1.spec_advance((n - step) as nat);
            (s2, v1 || v2, t1 || t2)
        }
    }

    /// Progress of a transfer into object attribute memory: one byte per
    /// base cycle, finished after 160.
    pub open spec fn spec_update_dma(self, n: nat) -> PpuState {
        if !self.dma_active {
            self
        } else if self.dma_byte + n >= 160 {
            PpuState { dma_active: false, dma_byte: 160, ..self }
        } else {
            PpuState { dma_byte: (self.dma_byte + n) as u8, ..self }
        }
    }

    /// The video unit after `n` base cycles, and the interrupts to request.
    pub open spec fn spec_update(self, n: nat) -> (PpuState, u8) {
        let (s, vblank, stat) = self.spec_advance(n);
        (s.spec_update_dma(n), request_mask(vblank, stat))
    }
}

} // verus!
