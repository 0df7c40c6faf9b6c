//! The programmable timer: a free-running 16-bit divider and a counter that
//! steps on the falling edge of one divider bit.

use vstd::prelude::*;
use crate::bits::{bit, wrap16, lemma_bit_masks, lemma_fields, lemma_word_bytes, lemma_word_taps};

verus! {

/// Bus address of the divider register (the divider's high byte).
pub const DIV_ADDR: u16 = 0xFF04;

/// Bus address of the counter.
pub const TIMA_ADDR: u16 = 0xFF05;

/// Bus address of the reload value.
pub const TMA_ADDR: u16 = 0xFF06;

/// Bus address of the control register.
pub const TAC_ADDR: u16 = 0xFF07;

#[derive(Clone, Copy)]
pub struct Timer {
    /// The divider; it counts base cycles and wraps at 65536.
    pub div: u16,
    /// The counter.
    pub tima: u8,
    /// The value the counter restarts from after it overflows.
    pub tma: u8,
    /// Control: bit 2 enables the counter, bits 1..0 select the rate.
    pub tac: u8,
    /// The selected signal as the edge detector last saw it.
    pub last_bit: bool,
}

/// The divider bit that drives the counter for a given control value.
pub open spec fn selected_bit(tac: u8) -> int {
    if tac % 4 == 0 {
        9
    } else if tac % 4 == 1 {
        3
    } else if tac % 4 == 2 {
        5
    } else {
        7
    }
}

impl Timer {
    /// Whether `addr` is one of the four timer registers.
    pub open spec fn maps(addr: u16) -> bool {
        DIV_ADDR <= addr <= TAC_ADDR
    }

    /// The signal watched by the edge detector: the selected divider bit,
    /// forced low while the counter is disabled.
    pub open spec fn signal(&self) -> bool {
        bit(self.tac as int, 2) && bit(self.div as int, selected_bit(self.tac))
    }

    /// One step of the counter, and whether it overflowed.
    pub open spec fn spec_increment(&self) -> (Timer, bool) {
        if self.tima == 0xFF {
            (Timer { tima: self.tma, ..*self }, true)
        } else {
            (Timer { tima: (self.tima + 1) as u8, ..*self }, false)
        }
    }

    /// The edge detector run once against the present signal: a fall from
    /// high to low steps the counter.
    pub open spec fn spec_detect(&self) -> (Timer, bool) {
        let now = self.signal();
        let (t, irq) = if self.last_bit && !now {
            self.spec_increment()
        } else {
            (*self, false)
        };
        (Timer { last_bit: now, ..t }, irq)
    }

    /// One base cycle.
    pub open spec fn spec_tick(&self) -> (Timer, bool) {
        (Timer { div: wrap16(self.div + 1), ..*self }).spec_detect()
    }

    /// `n` base cycles, and whether the counter overflowed in any of them.
    pub open spec fn spec_advance(&self, n: nat) -> (Timer, bool)
        decreases n,
    {
        if n == 0 {
            (*self, false)
        } else {
            let (t, irq) = self.spec_advance((n - 1) as nat);
            let (t2, irq2) = t.spec_tick();
            (t2, irq || irq2)
        }
    }

    pub open spec fn spec_read(&self, addr: u16) -> u8 {
        if addr == DIV_ADDR {
            (self.div / 256) as u8
        } else if addr == TIMA_ADDR {
            self.tima
        } else if addr == TMA_ADDR {
            self.tma
        } else {
            self.tac
        }
    }

    /// The timer after a register write, and whether the write itself made
    /// the counter overflow. Any write to the divider register clears all
    /// sixteen bits, which the edge detector sees as a fall when the
    /// selected signal was high.
    pub open spec fn spec_write(&self, addr: u16, value: u8) -> (Timer, bool) {
        if addr == DIV_ADDR {
            (Timer { div: 0, ..*self }).spec_detect()
        } else if addr == TIMA_ADDR {
            (Timer { tima: value, ..*self }, false)
        } else if addr == TMA_ADDR {
            (Timer { tma: value, ..*self }, false)
        } else {
            (Timer { tac: value & 0x07, ..*self }, false)
        }
    }

    /// The timer at power-on: everything zero, the counter disabled.
    pub open spec fn initial() -> Timer {
        Timer { div: 0, tima: 0, tma: 0, tac: 0, last_bit: false }
    }

    pub fn new() -> (t: Self)
        ensures
            t == Timer::initial(),
    {
        Timer { div: 0, tima: 0, tma: 0, tac: 0, last_bit: false }
    }

    /// Runs the timer for `cycles` base cycles. The result says whether a
    /// timer interrupt is to be requested.
    pub fn update(&mut self, cycles: u32) -> (irq: bool)
        ensures
            (*final(self), irq) == old(self).spec_advance(cycles as nat),
    {
        let mut irq = false;
        let mut i: u32 = 0;
        while i < cycles
            invariant
                i <= cycles,
                (*self, irq) == old(self).spec_advance(i as nat),
            decreases cycles - i,
        {
            let overflow = self.tick();
            irq = irq || overflow;
            i = i + 1;
        }
        irq
    }

    fn tick(&mut self) -> (irq: bool)
        ensures
            (*final(self), irq) == old(self).spec_tick(),
    {
        self.div = self.div.wrapping_add(1);
        self.detect()
    }

    fn detect(&mut self) -> (irq: bool)
        ensures
            (*final(self), irq) == old(self).spec_detect(),
    {
        let now = self.should_increment();
        let mut irq = false;
        if self.last_bit && !now {
            irq = self.increment_tima();
        }
        self.last_bit = now;
        irq
    }

    fn should_increment(&self) -> (high: bool)
        ensures
            high == self.signal(),
    {
        proof {
            lemma_bit_masks(self.tac);
            lemma_fields(self.tac);
            lemma_word_taps(self.div);
        }
        if self.tac & 0x04 == 0 {
            return false;
        }
        let mask: u16 = match self.tac & 0x03 {
            0 => 0x0200,
            1 => 0x0008,
            2 => 0x0020,
            _ => 0x0080,
        };
        self.div & mask != 0
    }

    fn increment_tima(&mut self) -> (irq: bool)
        ensures
            (*final(self), irq) == old(self).spec_increment(),
    {
        if self.tima == 0xFF {
            self.tima = self.tma;
            true
        } else {
            self.tima = self.tima + 1;
            false
        }
    }

    pub fn read_byte(&self, addr: u16) -> (value: u8)
        requires
            Self::maps(addr),
        ensures
            value == self.spec_read(addr),
    {
        if addr == DIV_ADDR {
            proof {
                lemma_word_bytes(self.div);
            }
            (self.div >> 8) as u8
        } else if addr == TIMA_ADDR {
            self.tima
        } else if addr == TMA_ADDR {
            self.tma
        } else {
            self.tac
        }
    }

    /// Writes a timer register. The result says whether a timer interrupt
    /// is to be requested.
    pub fn write_byte(&mut self, addr: u16, value: u8) -> (irq: bool)
        requires
            Self::maps(addr),
        ensures
            (*final(self), irq) == old(self).spec_write(addr, value),
    {
        if addr == DIV_ADDR {
            self.div = 0;
            self.detect()
        } else if addr == TIMA_ADDR {
            self.tima = value;
            false
        } else if addr == TMA_ADDR {
            self.tma = value;
            false
        } else {
            self.tac = value & 0x07;
            false
        }
    }
}

/// Running the timer changes the divider by exactly the number of cycles,
/// modulo 65536, and nothing else about it.
pub proof fn lemma_divider_counts(t: Timer, n: nat)
    ensures
        t.spec_advance(n).0.div == wrap16(t.div + n),
        t.spec_advance(n).0.tac == t.tac,
        t.spec_advance(n).0.tma == t.tma,
    decreases n,
{
    if n > 0 {
        lemma_divider_counts(t, (n - 1) as nat);
    }
}

/// After any write to the divider register it reads as zero, and keeps
/// reading as zero for the next 255 base cycles.
pub proof fn lemma_divider_reset(t: Timer, value: u8, n: nat)
    requires
        n <= 255,
    ensures
        t.spec_write(DIV_ADDR, value).0.spec_read(DIV_ADDR) == 0,
        t.spec_write(DIV_ADDR, value).0.spec_advance(n).0.spec_read(DIV_ADDR) == 0,
{
    lemma_divider_counts(t.spec_write(DIV_ADDR, value).0, n);
}

/// Running for `a` cycles and then for `b` is running for `a + b`.
pub proof fn lemma_advance_splits(t: Timer, a: nat, b: nat)
    ensures
        t.spec_advance(a + b).0 == t.spec_advance(a).0.spec_advance(b).0,
        t.spec_advance(a + b).1 == (t.spec_advance(a).1 || t.spec_advance(a).0.spec_advance(b).1),
    decreases b,
{
    if b > 0 {
        lemma_advance_splits(t, a, (b - 1) as nat);
        assert(a + b - 1 == a + (b - 1));
    }
}

} // verus!
