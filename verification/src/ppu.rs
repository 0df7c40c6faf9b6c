//! The video unit: video memory, object attribute memory, the display
//! registers, the scanline state machine and the frame buffer it draws.

pub mod state;
pub mod render;

use vstd::prelude::*;
use crate::bits::{lemma_bit_masks, test_bit};
use crate::ppu::state::{
    PpuState, ppu_maps, mode_duration, VRAM_SIZE, OAM_SIZE, FRAME_SIZE, MODE_HBLANK,
    MODE_VBLANK, MODE_OAM_SCAN, MODE_PIXEL_TRANSFER,
};
use crate::ppu::render::{tile_color, tile_address, shade, map_base, rgba};

verus! {

pub struct PPU {
    vram: [u8; 8192],
    oam: [u8; 160],
    lcd_control: u8,
    lcd_status: u8,
    scroll_y: u8,
    scroll_x: u8,
    ly: u8,
    ly_compare: u8,
    bg_palette: u8,
    obj_palette0: u8,
    obj_palette1: u8,
    window_y: u8,
    window_x: u8,
    framebuffer: [u8; 23040],
    mode_clock: u32,
    current_mode: u8,
    dma_active: bool,
    dma_byte: u8,
    dma_source: u8,
}

impl View for PPU {
    type V = PpuState;

    closed spec fn view(&self) -> PpuState {
        PpuState {
            vram: self.vram@,
            oam: self.oam@,
            lcd_control: self.lcd_control,
            lcd_status: self.lcd_status,
            scroll_y: self.scroll_y,
            scroll_x: self.scroll_x,
            ly: self.ly,
            ly_compare: self.ly_compare,
            bg_palette: self.bg_palette,
            obj_palette0: self.obj_palette0,
            obj_palette1: self.obj_palette1,
            window_y: self.window_y,
            window_x: self.window_x,
            framebuffer: self.framebuffer@,
            mode_clock: self.mode_clock,
            current_mode: self.current_mode,
            dma_active: self.dma_active,
            dma_byte: self.dma_byte,
            dma_source: self.dma_source,
        }
    }
}

proof fn lemma_palette_bits(p: u8)
    by (bit_vector)
    ensures
        (p >> 0u8) & 0x03 == p % 4,
        (p >> 2u8) & 0x03 == (p / 4) % 4,
        (p >> 4u8) & 0x03 == (p / 16) % 4,
        (p >> 6u8) & 0x03 == (p / 64) % 4,
{
}

proof fn lemma_even(v: u8)
    by (bit_vector)
    ensures
        v & 0xFE == (v - v % 2) as u8,
{
}

/// Applies a palette register to a colour number.
fn apply_palette(palette: u8, color: u8) -> (s: u8)
    requires
        color <= 3,
    ensures
        s == shade(palette, color as int),
        s <= 3,
{
    proof {
        lemma_palette_bits(palette);
    }
    let amount: u8 = color * 2;
    (palette >> amount) & 0x03
}

impl PPU {
    /// The invariant of the video unit.
    pub open spec fn wf(&self) -> bool {
        self@.wf()
    }

    pub fn new() -> (ppu: Self)
        ensures
            ppu.wf(),
            ppu@ == PpuState::initial(),
    {
        let ppu = PPU {
            vram: [0u8; 8192],
            oam: [0u8; 160],
            lcd_control: 0,
            lcd_status: 0,
            scroll_y: 0,
            scroll_x: 0,
            ly: 0,
            ly_compare: 0,
            bg_palette: 0,
            obj_palette0: 0,
            obj_palette1: 0,
            window_y: 0,
            window_x: 0,
            framebuffer: [0u8; 23040],
            mode_clock: 0,
            current_mode: 0,
            dma_active: false,
            dma_byte: 0,
            dma_source: 0,
        };
        assert(ppu@.vram =~= Seq::new(VRAM_SIZE as nat, |i: int| 0u8));
        assert(ppu@.oam =~= Seq::new(OAM_SIZE as nat, |i: int| 0u8));
        assert(ppu@.framebuffer =~= Seq::new(FRAME_SIZE as nat, |i: int| 0u8));
        ppu
    }

    /// Runs the video unit for `cycles` base cycles. The result is the mask
    /// of the interrupts to request.
    pub fn update(&mut self, cycles: u32) -> (irq: u8)
        requires
            old(self).wf(),
        ensures
            final(self).wf(),
            (final(self)@, irq) == old(self)@.spec_update(cycles as nat),
    {
        let mut vblank = false;
        let mut stat = false;
        let mut left: u32 = cycles;
        let ghost goal = self@.spec_advance(cycles as nat);
        while left > 0 && self.is_lcd_enabled()
            invariant
                self.wf(),
                self@.dma_active == old(self)@.dma_active,
                self@.dma_byte == old(self)@.dma_byte,
                self@.spec_advance(left as nat).0 == goal.0,
                (vblank || self@.spec_advance(left as nat).1) == goal.1,
                (stat || self@.spec_advance(left as nat).2) == goal.2,
            decreases left,
        {
            let room: u32 = self.mode_room();
            let step: u32 = if left < room {
                left
            } else {
                room
            };
            self.mode_clock = self.mode_clock + step;
            left = left - step;
            if self.current_mode == MODE_OAM_SCAN {
                self.handle_oam_scan();
            } else if self.current_mode == MODE_PIXEL_TRANSFER {
                let s = self.handle_pixel_transfer();
                stat = stat || s;
            } else if self.current_mode == MODE_HBLANK {
                let (v, s) = self.handle_hblank();
                vblank = vblank || v;
                stat = stat || s;
            } else {
                let s = self.handle_vblank();
                stat = stat || s;
            }
        }
        self.update_dma(cycles);
        (if vblank { 1u8 } else { 0u8 }) + (if stat { 2u8 } else { 0u8 })
    }

    /// Cycles left before the current mode's time is up.
    fn mode_room(&self) -> (room: u32)
        requires
            self.wf(),
        ensures
            room == self@.room(),
            room >= 1,
            self@.mode_clock + room == mode_duration(self@.current_mode),
    {
        let duration: u32 = if self.current_mode == MODE_OAM_SCAN {
            80
        } else if self.current_mode == MODE_PIXEL_TRANSFER {
            172
        } else if self.current_mode == MODE_HBLANK {
            204
        } else {
            456
        };
        duration - self.mode_clock
    }

    fn update_dma(&mut self, cycles: u32)
        requires
            old(self).wf(),
        ensures
            final(self).wf(),
            final(self)@ == old(self)@.spec_update_dma(cycles as nat),
    {
        if self.dma_active {
            let left: u8 = 160 - self.dma_byte;
            if cycles >= left as u32 {
                self.dma_byte = 160;
                self.dma_active = false;
            } else {
                self.dma_byte = self.dma_byte + cycles as u8;
            }
        }
    }

    /// Reads a byte of object attribute memory by its index.
    pub fn dma_read(&self, addr: u16) -> (value: u8)
        requires
            addr < 160,
        ensures
            value == self@.oam[addr as int],
    {
        self.oam[addr as usize]
    }

    /// Stores a byte of object attribute memory by its index.
    pub fn dma_write(&mut self, addr: u16, value: u8)
        requires
            addr < 160,
        ensures
            final(self)@ == (PpuState {
                oam: old(self)@.oam.update(addr as int, value),
                ..old(self)@
            }),
            old(self).wf() ==> final(self).wf(),
    {
        self.oam[addr as usize] = value;
    }

    fn is_lcd_enabled(&self) -> (on: bool)
        ensures
            on == self@.lcd_on(),
    {
        proof {
            lemma_bit_masks(self.lcd_control);
        }
        self.lcd_control & 0x80 != 0
    }

    fn coincidence_fires(&self, ly: u8) -> (fires: bool)
        ensures
            fires == self@.coincidence_fires(ly),
    {
        ly == self.ly_compare && test_bit(self.lcd_status, 6)
    }

    fn handle_oam_scan(&mut self)
        requires
            old(self)@.current_mode == MODE_OAM_SCAN,
        ensures
            final(self)@ == old(self)@.spec_oam_scan(),
    {
        if self.mode_clock >= 80 {
            self.mode_clock = 0;
            self.set_mode(MODE_PIXEL_TRANSFER);
        }
    }

    fn handle_pixel_transfer(&mut self) -> (stat: bool)
        requires
            old(self)@.current_mode == MODE_PIXEL_TRANSFER,
            old(self)@.ly <= 143,
            old(self)@.vram.len() == VRAM_SIZE,
            old(self)@.oam.len() == OAM_SIZE,
        ensures
            (final(self)@, stat) == old(self)@.spec_pixel_transfer(),
    {
        if self.mode_clock >= 172 {
            self.render_scan_line();
            self.mode_clock = 0;
            self.set_mode(MODE_HBLANK);
            test_bit(self.lcd_status, 3)
        } else {
            false
        }
    }

    fn handle_hblank(&mut self) -> (requests: (bool, bool))
        requires
            old(self)@.current_mode == MODE_HBLANK,
            old(self)@.ly <= 143,
        ensures
            (final(self)@, requests.0, requests.1) == old(self)@.spec_hblank(),
    {
        if self.mode_clock >= 204 {
            self.mode_clock = 0;
            self.ly = self.ly + 1;
            let coincidence = self.coincidence_fires(self.ly);
            if self.ly >= 144 {
                self.set_mode(MODE_VBLANK);
                (true, test_bit(self.lcd_status, 4) || coincidence)
            } else {
                self.set_mode(MODE_OAM_SCAN);
                (false, test_bit(self.lcd_status, 5) || coincidence)
            }
        } else {
            (false, false)
        }
    }

    fn handle_vblank(&mut self) -> (stat: bool)
        requires
            old(self)@.current_mode == MODE_VBLANK,
            old(self)@.ly <= 153,
        ensures
            (final(self)@, stat) == old(self)@.spec_vblank(),
    {
        if self.mode_clock >= 456 {
            self.mode_clock = 0;
            if self.ly >= 153 {
                self.ly = 0;
                self.set_mode(MODE_OAM_SCAN);
                test_bit(self.lcd_status, 5) || self.coincidence_fires(0)
            } else {
                self.ly = self.ly + 1;
                self.coincidence_fires(self.ly)
            }
        } else {
            false
        }
    }

    fn set_mode(&mut self, mode: u8)
        ensures
            final(self)@ == (PpuState { current_mode: mode, ..old(self)@ }),
    {
        self.current_mode = mode;
    }

    /// Draws the current line into the frame buffer.
    fn render_scan_line(&mut self)
        requires
            old(self)@.ly <= 143,
            old(self)@.vram.len() == VRAM_SIZE,
            old(self)@.oam.len() == OAM_SIZE,
        ensures
            final(self)@ == (PpuState {
                framebuffer: old(self)@.spec_render_line(),
                ..old(self)@
            }),
    {
        let line: usize = self.ly as usize;
        let pixels = self.compose_line(line);
        let mut x: usize = 0;
        while x < 160
            invariant
                x <= 160,
                line == old(self)@.ly,
                line <= 143,
                forall|k: int|
                    0 <= k < 160 ==> #[trigger] pixels@[k] == old(self)@.spec_pixel(k, line as int),
                self@ == (PpuState { framebuffer: self@.framebuffer, ..old(self)@ }),
                self@.framebuffer.len() == FRAME_SIZE,
                forall|i: int|
                    0 <= i < FRAME_SIZE ==> #[trigger] self@.framebuffer[i] == (if line * 160 <= i
                        < line * 160 + x {
                        old(self)@.spec_pixel(i - line * 160, line as int)
                    } else {
                        old(self)@.framebuffer[i]
                    }),
            decreases 160 - x,
        {
            self.framebuffer[line * 160 + x] = pixels[x];
            x = x + 1;
        }
        assert(self@.framebuffer =~= old(self)@.spec_render_line());
    }

    /// The 160 shades of line `y`.
    fn compose_line(&self, y: usize) -> (pixels: [u8; 160])
        requires
            y < 144,
        ensures
            forall|k: int| 0 <= k < 160 ==> #[trigger] pixels@[k] == self@.spec_pixel(k, y as int),
    {
        let selected = self.select_sprites(y);
        let mut pixels: [u8; 160] = [0u8; 160];
        let mut x: usize = 0;
        while x < 160
            invariant
                x <= 160,
                y < 144,
                forall|i: int|
                    0 <= i < 40 ==> #[trigger] selected@[i] == self@.sprite_selected(i, y as int),
                forall|k: int|
                    0 <= k < x ==> #[trigger] pixels@[k] == self@.spec_pixel(k, y as int),
            decreases 160 - x,
        {
            pixels[x] = self.pixel_at(&selected, x, y);
            x = x + 1;
        }
        pixels
    }

    /// Height of every object in lines.
    fn sprite_height(&self) -> (height: usize)
        ensures
            height == self@.sprite_height(),
    {
        if test_bit(self.lcd_control, 2) {
            16
        } else {
            8
        }
    }

    /// Whether object `i` has a row on line `y`.
    fn sprite_on_line(&self, i: usize, y: usize) -> (on: bool)
        requires
            i < 40,
            y < 144,
        ensures
            on == self@.sprite_on_line(i as int, y as int),
    {
        let top = self.oam[4 * i] as usize;
        top <= y + 16 && y + 16 < top + self.sprite_height()
    }

    /// How many objects on line `y` go before object `i`.
    fn sprite_rank(&self, i: usize, y: usize) -> (rank: usize)
        requires
            i < 40,
            y < 144,
        ensures
            rank == self@.sprite_rank(i as int, y as int, 40),
    {
        let column = self.oam[4 * i + 1];
        let mut rank: usize = 0;
        let mut j: usize = 0;
        while j < 40
            invariant
                j <= 40,
                i < 40,
                y < 144,
                column == self@.sprite_x(i as int),
                rank <= j,
                rank == self@.sprite_rank(i as int, y as int, j as int),
            decreases 40 - j,
        {
            let other = self.oam[4 * j + 1];
            if self.sprite_on_line(j, y) && (other < column || (other == column && j < i)) {
                rank = rank + 1;
            }
            j = j + 1;
        }
        rank
    }

    /// Chooses the objects that are drawn on line `y`: at most ten, those
    /// furthest left.
    fn select_sprites(&self, y: usize) -> (selected: [bool; 40])
        requires
            y < 144,
        ensures
            forall|i: int|
                0 <= i < 40 ==> #[trigger] selected@[i] == self@.sprite_selected(i, y as int),
    {
        let mut selected: [bool; 40] = [false; 40];
        let mut i: usize = 0;
        while i < 40
            invariant
                i <= 40,
                y < 144,
                forall|k: int|
                    0 <= k < i ==> #[trigger] selected@[k] == self@.sprite_selected(k, y as int),
            decreases 40 - i,
        {
            selected[i] = self.sprite_on_line(i, y) && self.sprite_rank(i, y) < 10;
            i = i + 1;
        }
        selected
    }

    /// The colour number of object `i` at a screen position it covers.
    fn sprite_color_at(&self, i: usize, x: usize, y: usize) -> (color: u8)
        requires
            i < 40,
            x < 160,
            y < 144,
            self@.sprite_on_line(i as int, y as int),
            self@.sprite_covers(i as int, x as int),
        ensures
            color == self@.sprite_color(i as int, x as int, y as int),
            color <= 3,
    {
        let height = self.sprite_height();
        let attributes = self.oam[4 * i + 3];
        let mut row = y + 16 - self.oam[4 * i] as usize;
        let mut column = (x + 8 - self.oam[4 * i + 1] as usize) as u8;
        if test_bit(attributes, 6) {
            row = height - 1 - row;
        }
        if test_bit(attributes, 5) {
            column = 7 - column;
        }
        let mut tile = self.oam[4 * i + 2];
        if height == 16 {
            proof {
                lemma_even(tile);
            }
            tile = tile & 0xFE;
        }
        self.tile_pixel(tile as usize * 16, row, column)
    }

    /// The object seen at a screen position, if any.
    fn pick_sprite(&self, selected: &[bool; 40], x: usize, y: usize) -> (object: Option<usize>)
        requires
            x < 160,
            y < 144,
            forall|i: int|
                0 <= i < 40 ==> #[trigger] selected@[i] == self@.sprite_selected(i, y as int),
        ensures
            match object {
                Some(i) => i < 40 && i == self@.sprite_pick(x as int, y as int, 40)
                    && self@.sprite_shows(i as int, x as int, y as int),
                None => self@.sprite_pick(x as int, y as int, 40) < 0,
            },
    {
        let mut best: Option<usize> = None;
        let mut i: usize = 0;
        while i < 40
            invariant
                i <= 40,
                x < 160,
                y < 144,
                forall|k: int|
                    0 <= k < 40 ==> #[trigger] selected@[k] == self@.sprite_selected(k, y as int),
                match best {
                    Some(b) => b < i && b == self@.sprite_pick(x as int, y as int, i as int)
                        && self@.sprite_shows(b as int, x as int, y as int),
                    None => self@.sprite_pick(x as int, y as int, i as int) < 0,
                },
            decreases 40 - i,
        {
            let left = self.oam[4 * i + 1] as usize;
            if selected[i] && left <= x + 8 && x + 8 < left + 8 && self.sprite_color_at(i, x, y)
                != 0 {
                let better = match best {
                    Some(b) => self.oam[4 * i + 1] < self.oam[4 * b + 1],
                    None => true,
                };
                if better {
                    best = Some(i);
                }
            }
            i = i + 1;
        }
        best
    }

    /// The frame buffer as RGBA colours, one per pixel, line by line.
    pub fn get_frame_buffer(&self) -> (colors: Vec<u32>)
        ensures
            colors@.len() == FRAME_SIZE,
            forall|i: int| 0 <= i < FRAME_SIZE ==> colors@[i] == rgba(#[trigger] self@.framebuffer[i]),
    {
        let mut colors: Vec<u32> = Vec::new();
        let mut i: usize = 0;
        while i < 23040
            invariant
                i <= 23040,
                colors@.len() == i,
                forall|k: int| 0 <= k < i ==> colors@[k] == rgba(#[trigger] self@.framebuffer[k]),
            decreases 23040 - i,
        {
            let shade = self.framebuffer[i];
            let color: u32 = if shade == 0 {
                0xFFFFFFFF
            } else if shade == 1 {
                0xAAAAAAFF
            } else if shade == 2 {
                0x555555FF
            } else if shade == 3 {
                0x000000FF
            } else {
                0xFF0000FF
            };
            colors.push(color);
            i = i + 1;
        }
        colors
    }

    /// The frame buffer: one shade (0..=3) per pixel, line by line.
    pub fn framebuffer(&self) -> (frame: &[u8; 23040])
        ensures
            frame@ == self@.framebuffer,
    {
        &self.framebuffer
    }

    /// The line being drawn.
    pub fn line(&self) -> (ly: u8)
        ensures
            ly == self@.ly,
    {
        self.ly
    }

    /// The current mode (0..=3).
    pub fn mode(&self) -> (mode: u8)
        ensures
            mode == self@.current_mode,
    {
        self.current_mode
    }

    /// Base cycles spent in the current mode.
    pub fn mode_clock(&self) -> (clock: u32)
        ensures
            clock == self@.mode_clock,
    {
        self.mode_clock
    }

    /// Whether a transfer into object attribute memory is under way.
    pub fn dma_active(&self) -> (active: bool)
        ensures
            active == self@.dma_active,
    {
        self.dma_active
    }

    fn tile_address(&self, index: u8) -> (addr: usize)
        ensures
            addr == tile_address(self@.lcd_control, index),
            addr + 15 < 0x1800,
    {
        if test_bit(self.lcd_control, 4) {
            index as usize * 16
        } else if index < 128 {
            0x1000 + index as usize * 16
        } else {
            index as usize * 16
        }
    }

    fn tile_pixel(&self, tile_addr: usize, row: usize, col: u8) -> (color: u8)
        requires
            tile_addr + 2 * row + 1 < VRAM_SIZE,
            col < 8,
        ensures
            color == tile_color(self@.vram, tile_addr as int, row as int, col as int),
            color <= 3,
    {
        let low = self.vram[tile_addr + 2 * row];
        let high = self.vram[tile_addr + 2 * row + 1];
        let position: u8 = 7 - col;
        (if test_bit(high, position) { 2u8 } else { 0u8 }) + (if test_bit(low, position) {
            1u8
        } else {
            0u8
        })
    }

    fn plane_pixel(&self, high_map: bool, px: usize, py: usize) -> (color: u8)
        requires
            px < 256,
            py < 256,
        ensures
            color == self@.plane_color(map_base(high_map), px as int, py as int),
            color <= 3,
    {
        let base: usize = if high_map {
            0x1C00
        } else {
            0x1800
        };
        let index = self.vram[base + (py / 8) * 32 + px / 8];
        let tile_addr = self.tile_address(index);
        self.tile_pixel(tile_addr, py % 8, (px % 8) as u8)
    }

    /// The background's colour number at a screen position.
    fn get_background_pixel(&self, x: usize, y: usize) -> (color: u8)
        requires
            x < 160,
            y < 144,
        ensures
            color == self@.spec_background_pixel(x as int, y as int),
            color <= 3,
    {
        let px = (x + self.scroll_x as usize) % 256;
        let py = (y + self.scroll_y as usize) % 256;
        self.plane_pixel(test_bit(self.lcd_control, 3), px, py)
    }

    /// The window's colour number at a screen position, if the window lies
    /// over it.
    fn get_window_pixel(&self, x: usize, y: usize) -> (color: Option<u8>)
        requires
            x < 160,
            y < 144,
        ensures
            color is Some <==> self@.window_covers(x as int, y as int),
            color matches Some(c) ==> c == self@.spec_window_pixel(x as int, y as int) && c <= 3,
    {
        if test_bit(self.lcd_control, 5) && y >= self.window_y as usize && x + 7
            >= self.window_x as usize {
            let px = x + 7 - self.window_x as usize;
            let py = y - self.window_y as usize;
            Some(self.plane_pixel(test_bit(self.lcd_control, 6), px, py))
        } else {
            None
        }
    }

    /// The shade shown at a screen position of line `y`, given the
    /// objects that are drawn on that line.
    fn pixel_at(&self, selected: &[bool; 40], x: usize, y: usize) -> (value: u8)
        requires
            x < 160,
            y < 144,
            forall|i: int|
                0 <= i < 40 ==> #[trigger] selected@[i] == self@.sprite_selected(i, y as int),
        ensures
            value == self@.spec_pixel(x as int, y as int),
            value <= 3,
    {
        let under = match self.get_window_pixel(x, y) {
            Some(c) => c,
            None => self.get_background_pixel(x, y),
        };
        if test_bit(self.lcd_control, 1) {
            if let Some(i) = self.pick_sprite(selected, x, y) {
                let attributes = self.oam[4 * i + 3];
                if !(test_bit(attributes, 7) && under != 0) {
                    let palette = if test_bit(attributes, 4) {
                        self.obj_palette1
                    } else {
                        self.obj_palette0
                    };
                    return apply_palette(palette, self.sprite_color_at(i, x, y));
                }
            }
        }
        apply_palette(self.bg_palette, under)
    }

    pub fn read_byte(&self, addr: u16) -> (value: u8)
        requires
            ppu_maps(addr),
        ensures
            value == self@.spec_read(addr),
    {
        if 0x8000 <= addr && addr <= 0x9FFF {
            self.vram[(addr - 0x8000) as usize]
        } else if 0xFE00 <= addr && addr <= 0xFE9F {
            self.oam[(addr - 0xFE00) as usize]
        } else if addr == 0xFF40 {
            self.lcd_control
        } else if addr == 0xFF41 {
            let coincidence: u8 = if self.ly == self.ly_compare {
                0x04
            } else {
                0x00
            };
            (self.lcd_status & 0x78) | coincidence | self.current_mode
        } else if addr == 0xFF42 {
            self.scroll_y
        } else if addr == 0xFF43 {
            self.scroll_x
        } else if addr == 0xFF44 {
            self.ly
        } else if addr == 0xFF45 {
            self.ly_compare
        } else if addr == 0xFF46 {
            self.dma_source
        } else if addr == 0xFF47 {
            self.bg_palette
        } else if addr == 0xFF48 {
            self.obj_palette0
        } else if addr == 0xFF49 {
            self.obj_palette1
        } else if addr == 0xFF4A {
            self.window_y
        } else {
            self.window_x
        }
    }

    pub fn write_byte(&mut self, addr: u16, value: u8)
        requires
            ppu_maps(addr),
            old(self).wf(),
        ensures
            final(self).wf(),
            final(self)@ == old(self)@.spec_write(addr, value),
    {
        if 0x8000 <= addr && addr <= 0x9FFF {
            self.vram[(addr - 0x8000) as usize] = value;
        } else if 0xFE00 <= addr && addr <= 0xFE9F {
            self.oam[(addr - 0xFE00) as usize] = value;
        } else if addr == 0xFF40 {
            self.write_control(value);
        } else if addr == 0xFF41 {
            self.lcd_status = value & 0x78;
        } else if addr == 0xFF42 {
            self.scroll_y = value;
        } else if addr == 0xFF43 {
            self.scroll_x = value;
        } else if addr == 0xFF44 {
        } else if addr == 0xFF45 {
            self.ly_compare = value;
        } else if addr == 0xFF46 {
            self.start_dma(value);
        } else if addr == 0xFF47 {
            self.bg_palette = value;
        } else if addr == 0xFF48 {
            self.obj_palette0 = value;
        } else if addr == 0xFF49 {
            self.obj_palette1 = value;
        } else if addr == 0xFF4A {
            self.window_y = value;
        } else {
            self.window_x = value;
        }
    }

    fn write_control(&mut self, value: u8)
        requires
            old(self).wf(),
        ensures
            final(self).wf(),
            final(self)@ == old(self)@.spec_write_control(value),
    {
        proof {
            lemma_bit_masks(value);
        }
        let was_on = self.is_lcd_enabled();
        self.lcd_control = value;
        if value & 0x80 == 0 {
            self.ly = 0;
            self.mode_clock = 0;
            self.set_mode(MODE_HBLANK);
        } else if !was_on {
            self.ly = 0;
            self.mode_clock = 0;
            self.set_mode(MODE_OAM_SCAN);
        }
    }

    fn start_dma(&mut self, value: u8)
        ensures
            final(self)@ == old(self)@.spec_start_dma(value),
    {
        self.dma_source = value;
        self.dma_active = true;
        self.dma_byte = 0;
    }
}

} // verus!
