//! What a pixel of the picture is, as a function of video memory and the
//! display registers.

use vstd::prelude::*;
use crate::bits::{bit, signed};
use crate::ppu::state::PpuState;

verus! {

/// The colour number (0..=3) of column `col` in row `row` of the tile whose
/// sixteen bytes start at `tile_addr`: the row's second byte gives the high
/// bit, its first byte the low bit, leftmost pixel in bit 7.
pub open spec fn tile_color(vram: Seq<u8>, tile_addr: int, row: int, col: int) -> int {
    let low = vram[tile_addr + 2 * row];
    let high = vram[tile_addr + 2 * row + 1];
    (if bit(high as int, 7 - col) { 2int } else { 0int }) + (if bit(low as int, 7 - col) {
        1int
    } else {
        0int
    })
}

/// Where the data of tile `index` starts in video memory: counted up from
/// the start when bit 4 of the control register is set, else counted as a
/// signed number from offset 0x1000.
pub open spec fn tile_address(lcd_control: u8, index: u8) -> int {
    if bit(lcd_control as int, 4) {
        index as int * 16
    } else {
        0x1000 + signed(index) * 16
    }
}

/// The shade a palette register gives to a colour number.
pub open spec fn shade(palette: u8, color: int) -> u8 {
    if color == 0 {
        palette % 4
    } else if color == 1 {
        (palette / 4) % 4
    } else if color == 2 {
        (palette / 16) % 4
    } else {
        (palette / 64) % 4
    }
}

/// Offset in video memory of the tile map chosen by a control bit.
pub open spec fn map_base(high: bool) -> int {
    if high {
        0x1C00
    } else {
        0x1800
    }
}

/// The colour a frame-buffer shade is presented in, as RGBA.
pub open spec fn rgba(shade: u8) -> u32 {
    if shade == 0 {
        0xFFFFFFFF
    } else if shade == 1 {
        0xAAAAAAFF
    } else if shade == 2 {
        0x555555FF
    } else if shade == 3 {
        0x000000FF
    } else {
        0xFF0000FF
    }
}

impl PpuState {
    /// The colour number at `(px, py)` of the 256 by 256 plane that the
    /// 32 by 32 tile map at `base` describes.
    pub open spec fn plane_color(self, base: int, px: int, py: int) -> int {
        let index = self.vram[base + (py / 8) * 32 + px / 8];
        tile_color(self.vram, tile_address(self.lcd_control, index), py % 8, px % 8)
    }

    /// The background's colour number at screen position `(x, y)`: the
    /// plane of the map chosen by control bit 3, scrolled modulo 256.
    pub open spec fn spec_background_pixel(self, x: int, y: int) -> int {
        self.plane_color(
            map_base(bit(self.lcd_control as int, 3)),
            (x + self.scroll_x) % 256,
            (y + self.scroll_y) % 256,
        )
    }

    /// Whether the window lies over screen position `(x, y)`: it is
    /// switched on by control bit 5 and starts at `(WX - 7, WY)`.
    pub open spec fn window_covers(self, x: int, y: int) -> bool {
        bit(self.lcd_control as int, 5) && y >= self.window_y && x + 7 >= self.window_x
    }

    /// The window's colour number at a screen position it covers, from the
    /// map chosen by control bit 6.
    pub open spec fn spec_window_pixel(self, x: int, y: int) -> int {
        self.plane_color(
            map_base(bit(self.lcd_control as int, 6)),
            x + 7 - self.window_x,
            y - self.window_y,
        )
    }

    /// The colour number of the background layer with the window laid over
    /// it.
    pub open spec fn spec_layer_color(self, x: int, y: int) -> int {
        if self.window_covers(x, y) {
            self.spec_window_pixel(x, y)
        } else {
            self.spec_background_pixel(x, y)
        }
    }

    /// Height of every object in lines: 16 when control bit 2 is set, else
    /// 8.
    pub open spec fn sprite_height(self) -> int {
        if bit(self.lcd_control as int, 2) {
            16
        } else {
            8
        }
    }

    /// The line of the screen plus 16 at which object `i` starts.
    pub open spec fn sprite_y(self, i: int) -> int {
        self.oam[4 * i] as int
    }

    /// The column of the screen plus 8 at which object `i` starts.
    pub open spec fn sprite_x(self, i: int) -> int {
        self.oam[4 * i + 1] as int
    }

    /// The tile of object `i`; a tall object takes an even tile and the
    /// one after it.
    pub open spec fn sprite_tile(self, i: int) -> int {
        let tile = self.oam[4 * i + 2];
        if self.sprite_height() == 16 {
            tile - tile % 2
        } else {
            tile as int
        }
    }

    /// The attributes of object `i`: bit 7 puts it behind the background,
    /// bit 6 flips it top to bottom, bit 5 left to right, bit 4 chooses
    /// the second object palette.
    pub open spec fn sprite_attributes(self, i: int) -> int {
        self.oam[4 * i + 3] as int
    }

    /// Whether object `i` has a row on line `y`.
    pub open spec fn sprite_on_line(self, i: int, y: int) -> bool {
        self.sprite_y(i) <= y + 16 < self.sprite_y(i) + self.sprite_height()
    }

    /// Whether object `j` goes before object `i`: the one further left
    /// does, and of two in the same column the one that comes first in
    /// object attribute memory.
    pub open spec fn sprite_before(self, j: int, i: int) -> bool {
        self.sprite_x(j) < self.sprite_x(i) || (self.sprite_x(j) == self.sprite_x(i) && j < i)
    }

    /// How many of the objects `0..k` are on line `y` and go before
    /// object `i`.
    pub open spec fn sprite_rank(self, i: int, y: int, k: int) -> int
        decreases k,
    {
        if k <= 0 {
            0
        } else {
            self.sprite_rank(i, y, k - 1) + if self.sprite_on_line(k - 1, y) && self.sprite_before(
                k - 1,
                i,
            ) {
                1int
            } else {
                0int
            }
        }
    }

    /// Whether object `i` is drawn on line `y`: it is on the line, and
    /// fewer than ten objects on the line go before it.
    pub open spec fn sprite_selected(self, i: int, y: int) -> bool {
        self.sprite_on_line(i, y) && self.sprite_rank(i, y, 40) < 10
    }

    /// Whether object `i` has a pixel in column `x`.
    pub open spec fn sprite_covers(self, i: int, x: int) -> bool {
        self.sprite_x(i) <= x + 8 < self.sprite_x(i) + 8
    }

    /// The colour number of object `i` at a screen position it covers.
    pub open spec fn sprite_color(self, i: int, x: int, y: int) -> int {
        let column = x + 8 - self.sprite_x(i);
        let row = y + 16 - self.sprite_y(i);
        tile_color(
            self.vram,
            self.sprite_tile(i) * 16,
            if bit(self.sprite_attributes(i), 6) {
                self.sprite_height() - 1 - row
            } else {
                row
            },
            if bit(self.sprite_attributes(i), 5) {
                7 - column
            } else {
                column
            },
        )
    }

    /// Whether object `i` puts a pixel of its own at `(x, y)`: it is drawn
    /// on the line, covers the column, and its colour there is not 0,
    /// which is transparent.
    pub open spec fn sprite_shows(self, i: int, x: int, y: int) -> bool {
        self.sprite_selected(i, y) && self.sprite_covers(i, x) && self.sprite_color(i, x, y) != 0
    }

    /// The object among `0..k` that is seen at `(x, y)`: of those that
    /// show there the one that goes before the others; -1 if none shows.
    pub open spec fn sprite_pick(self, x: int, y: int, k: int) -> int
        decreases k,
    {
        if k <= 0 {
            -1
        } else {
            let best = self.sprite_pick(x, y, k - 1);
            if self.sprite_shows(k - 1, x, y) && (best < 0 || self.sprite_x(k - 1) < self.sprite_x(
                best,
            )) {
                k - 1
            } else {
                best
            }
        }
    }

    /// The shade of object `i` at a screen position it covers, through
    /// the object palette its attributes choose.
    pub open spec fn sprite_shade(self, i: int, x: int, y: int) -> u8 {
        shade(
            if bit(self.sprite_attributes(i), 4) {
                self.obj_palette1
            } else {
                self.obj_palette0
            },
            self.sprite_color(i, x, y),
        )
    }

    /// The shade shown at screen position `(x, y)`: that of the object
    /// seen there, if objects are switched on by control bit 1 and the
    /// object is not behind a background pixel of colour 1, 2 or 3; else
    /// that of the background or window.
    pub open spec fn spec_pixel(self, x: int, y: int) -> u8 {
        let under = self.spec_layer_color(x, y);
        let object = self.sprite_pick(x, y, 40);
        if bit(self.lcd_control as int, 1) && object >= 0 && !(bit(
            self.sprite_attributes(object),
            7,
        ) && under != 0) {
            self.sprite_shade(object, x, y)
        } else {
            shade(self.bg_palette, under)
        }
    }

    /// The frame buffer after the current line has been drawn.
    pub open spec fn spec_render_line(self) -> Seq<u8> {
        Seq::new(
            self.framebuffer.len(),
            |i: int|
                if self.ly * 160 <= i < self.ly * 160 + 160 {
                    self.spec_pixel(i - self.ly * 160, self.ly as int)
                } else {
                    self.framebuffer[i]
                },
        )
    }
}

/// Every shade is one of 0, 1, 2, 3.
pub proof fn lemma_shade_range(palette: u8, color: int)
    requires
        0 <= color <= 3,
    ensures
        shade(palette, color) <= 3,
{
}

/// Drawing a line keeps the frame buffer a frame of shades 0..=3.
pub proof fn lemma_render_keeps_shades(s: PpuState)
    requires
        forall|i: int| 0 <= i < s.framebuffer.len() ==> #[trigger] s.framebuffer[i] <= 3,
    ensures
        s.spec_render_line().len() == s.framebuffer.len(),
        forall|i: int|
            0 <= i < s.framebuffer.len() ==> #[trigger] s.spec_render_line()[i] <= 3,
{
}

/// The invariant of the video unit holds however long it runs: the line
/// stays within 0..=153, the mode is vertical blank exactly on lines 144
/// and above, the mode clock stays below the duration of the mode, and
/// the frame buffer holds shades only.
pub proof fn lemma_update_keeps_invariant(s: PpuState, n: nat)
    requires
        s.wf(),
    ensures
        s.spec_advance(n).0.wf(),
        s.spec_update(n).0.wf(),
        s.spec_update(n).0.ly <= 153,
        s.spec_update(n).0.current_mode <= 3,
    decreases n,
{
    if n != 0 && s.lcd_on() {
        let step = if n < s.room() {
            n
        } else {
            s.room()
        };
        let timed = PpuState { mode_clock: (s.mode_clock + step) as u32, ..s };
        lemma_render_keeps_shades(timed);
        let next = timed.spec_handle_mode().0;
        assert(next.wf());
        lemma_update_keeps_invariant(next, (n - step) as nat);
    }
}

/// Running the scanline machine for `a` cycles and then for `b` is
/// running it for `a + b`: the state and the requests raised do not depend
/// on how the cycles are handed over.
pub proof fn lemma_advance_splits(s: PpuState, a: nat, b: nat)
    requires
        s.wf(),
    ensures
        s.spec_advance(a + b).0 == s.spec_advance(a).0.spec_advance(b).0,
        s.spec_advance(a + b).1 == (s.spec_advance(a).1 || s.spec_advance(a).0.spec_advance(b).1),
        s.spec_advance(a + b).2 == (s.spec_advance(a).2 || s.spec_advance(a).0.spec_advance(b).2),
    decreases a + b,
{
    if a == 0 || b == 0 || !s.lcd_on() {
        if a != 0 && b == 0 {
            assert(a + b == a);
        }
    } else if a < s.room() {
        let timed = PpuState { mode_clock: (s.mode_clock + a) as u32, ..s };
        assert(timed.spec_handle_mode() == (timed, false, false));
        assert(timed.spec_advance(0) == (timed, false, false));
        assert(s.spec_advance(a) == (timed, false, false));
        assert(timed.room() == s.room() - a);
        if a + b >= s.room() {
            assert((b - timed.room()) as nat == (a + b - s.room()) as nat);
            assert((timed.mode_clock + timed.room()) as u32 == (s.mode_clock + s.room()) as u32);
        } else {
            assert((timed.mode_clock + b) as u32 == (s.mode_clock + (a + b)) as u32);
        }
    } else {
        let step = s.room();
        let timed = PpuState { mode_clock: (s.mode_clock + step) as u32, ..s };
        lemma_render_keeps_shades(timed);
        let next = timed.spec_handle_mode().0;
        assert(next.wf());
        lemma_advance_splits(next, (a - step) as nat, b);
        assert((a + b - step) as nat == (a - step) as nat + b);
    }
}

} // verus!
