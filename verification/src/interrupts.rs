//! The interrupt controller: an enable mask, a pending register, and the
//! five request lines.

use vstd::prelude::*;

verus! {

/// Request line of the vertical-blank interrupt (bit 0, served first).
pub const VBLANK_INTERRUPT: u8 = 0x01;

/// Request line of the display-status interrupt (bit 1).
pub const LCD_STAT_INTERRUPT: u8 = 0x02;

/// Request line of the timer interrupt (bit 2).
pub const TIMER_INTERRUPT: u8 = 0x04;

/// Request line of the serial interrupt (bit 3).
pub const SERIAL_INTERRUPT: u8 = 0x08;

/// Request line of the joypad interrupt (bit 4, served last).
pub const JOYPAD_INTERRUPT: u8 = 0x10;

/// Address of the pending register on the bus.
pub const IF_ADDR: u16 = 0xFF0F;

/// Address of the enable mask on the bus.
pub const IE_ADDR: u16 = 0xFFFF;

pub struct InterruptController {
    /// Enable mask, one bit per request line.
    pub ie: u8,
    /// Pending register, one bit per request line.
    pub if_: u8,
    /// A master-enable latch for drivers that gate delivery themselves.
    /// The processor keeps its own flag; dispatch never reads this one.
    pub ime: bool,
}

impl InterruptController {
    /// The lines that are both enabled and requested.
    pub open spec fn pending(&self) -> u8 {
        self.ie & self.if_ & 0x1F
    }

    /// Whether `addr` is one of the two registers of the controller.
    pub open spec fn maps(addr: u16) -> bool {
        addr == IE_ADDR || addr == IF_ADDR
    }

    pub open spec fn spec_read(&self, addr: u16) -> u8 {
        if addr == IE_ADDR {
            self.ie
        } else {
            self.if_
        }
    }

    pub open spec fn spec_write(&self, addr: u16, value: u8) -> InterruptController {
        if addr == IE_ADDR {
            InterruptController { ie: value, ..*self }
        } else {
            InterruptController { if_: value, ..*self }
        }
    }

    /// The controller with the lines of `interrupt` raised.
    pub open spec fn spec_request(&self, interrupt: u8) -> InterruptController {
        InterruptController { if_: self.if_ | interrupt, ..*self }
    }

    /// The controller with the lines of `interrupt` cleared.
    pub open spec fn spec_acknowledge(&self, interrupt: u8) -> InterruptController {
        InterruptController { if_: self.if_ & !interrupt, ..*self }
    }

    /// The controller at power-on: nothing enabled, nothing pending.
    pub open spec fn initial() -> InterruptController {
        InterruptController { ie: 0, if_: 0, ime: false }
    }

    pub fn new() -> (ic: Self)
        ensures
            ic == InterruptController::initial(),
    {
        InterruptController { ie: 0, if_: 0, ime: false }
    }

    pub fn get_interrupts(&self) -> (p: u8)
        ensures
            p == self.pending(),
    {
        self.ie & self.if_ & 0x1F
    }

    pub fn request_interrupt(&mut self, interrupt: u8)
        ensures
            *final(self) == old(self).spec_request(interrupt),
    {
        self.if_ = self.if_ | interrupt;
    }

    pub fn acknowledge_interrupt(&mut self, interrupt: u8)
        ensures
            *final(self) == old(self).spec_acknowledge(interrupt),
    {
        self.if_ = self.if_ & !interrupt;
    }

    pub fn set_ime(&mut self, value: bool)
        ensures
            *final(self) == (InterruptController { ime: value, ..*old(self) }),
    {
        self.ime = value;
    }

    pub fn are_interrupts_enabled(&self) -> (on: bool)
        ensures
            on == self.ime,
    {
        self.ime
    }

    pub fn read_byte(&self, addr: u16) -> (value: u8)
        requires
            Self::maps(addr),
        ensures
            value == self.spec_read(addr),
    {
        if addr == IE_ADDR {
            self.ie
        } else {
            self.if_
        }
    }

    pub fn write_byte(&mut self, addr: u16, value: u8)
        requires
            Self::maps(addr),
        ensures
            *final(self) == old(self).spec_write(addr, value),
    {
        if addr == IE_ADDR {
            self.ie = value;
        } else {
            self.if_ = value;
        }
    }
}

/// A line that has been requested and is enabled becomes pending, and
/// acknowledging it removes it again.
pub proof fn lemma_request_then_acknowledge(ic: InterruptController, line: u8)
    requires
        line == VBLANK_INTERRUPT || line == LCD_STAT_INTERRUPT || line == TIMER_INTERRUPT
            || line == SERIAL_INTERRUPT || line == JOYPAD_INTERRUPT,
    ensures
        ic.ie & line != 0 ==> ic.spec_request(line).pending() & line != 0,
        ic.spec_request(line).spec_acknowledge(line).pending() & line == 0,
{
    let ie = ic.ie;
    let f = ic.if_;
    assert(ie & line != 0 ==> (ie & (f | line) & 0x1F) & line != 0) by (bit_vector)
        requires
            line == 0x01 || line == 0x02 || line == 0x04 || line == 0x08 || line == 0x10,
    ;
    assert((ie & ((f | line) & !line) & 0x1F) & line == 0) by (bit_vector);
}

} // verus!
