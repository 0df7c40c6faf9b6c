//! The whole machine: a processor and a bus with its peripherals, stepped
//! one instruction at a time.

use vstd::prelude::*;
use crate::cpu::semantics::{spec_interrupts, spec_step, spec_step_error};
use crate::cpu::state::{CPU, DecodeError};
use crate::memory::{MMU, MmuState, BOOT_SIZE};
use crate::ppu::state::FRAME_SIZE;

verus! {

/// Why a machine could not be put together.
#[derive(Debug, Clone, Copy, PartialEq, Eq)]
pub enum LoadError {
    /// The boot image does not have exactly 256 bytes.
    BootImageSize,
}

pub struct Gameboy {
    cpu: CPU,
    memory: MMU,
}

/// The brightness a frame-buffer shade is drawn with: 0 is white, 3 is
/// black.
pub open spec fn gray(shade: u8) -> u8 {
    if shade == 0 {
        255
    } else if shade == 1 {
        192
    } else if shade == 2 {
        96
    } else {
        0
    }
}

/// Byte `k` of the RGBA picture of a frame buffer: red, green and blue
/// are the gray of the pixel, alpha is 255.
pub open spec fn rgba_byte(frame: Seq<u8>, k: int) -> u8 {
    if k % 4 == 3 {
        255
    } else {
        gray(frame[k / 4])
    }
}

/// The bus of a machine that was just put together.
pub open spec fn power_on(boot: Option<Seq<u8>>, rom: Seq<u8>) -> MmuState {
    match boot {
        Some(image) => MmuState {
            bios: image,
            has_bios: true,
            in_bios: true,
            rom: rom,
            ..MMU::initial()
        },
        None => MmuState { rom: rom, ..MMU::initial() },
    }
}

/// One step of the whole machine. A stopped machine does nothing. Any
/// other executes one instruction, runs timer and video unit for the
/// cycles it took, and then serves what is pending.
pub open spec fn spec_tick(cpu: CPU, mem: MmuState) -> (CPU, MmuState, Result<u32, DecodeError>) {
    if cpu.stop {
        (cpu, mem, Ok(0))
    } else {
        match spec_step(cpu, mem) {
            Some(e) => {
                let ran = e.mem.update(e.cycles as nat);
                let (served_cpu, served_mem, dispatched) = spec_interrupts(
                    e.cpu,
                    ran,
                    ran.interrupts.pending(),
                );
                (served_cpu, served_mem, Ok(e.cycles))
            },
            None => (CPU { stop: true, ..cpu }, mem, Err(spec_step_error(cpu, mem))),
        }
    }
}

impl Gameboy {
    /// The registers of the processor.
    pub closed spec fn cpu(&self) -> CPU {
        self.cpu
    }

    /// The bus and everything behind it.
    pub closed spec fn bus(&self) -> MmuState {
        self.memory@
    }

    /// The invariant of the machine.
    pub open spec fn wf(&self) -> bool {
        self.cpu().wf() && self.bus().wf()
    }

    /// Puts a machine together from a cartridge and, if there is one, a
    /// boot image of 256 bytes. With a boot image the processor starts at
    /// address 0 with the image laid over the cartridge; without one it
    /// starts at 0x0100 with the registers a boot image leaves.
    pub fn new(boot: Option<Vec<u8>>, rom: Vec<u8>) -> (r: Result<Gameboy, LoadError>)
        ensures
            match boot {
                Some(image) => if image@.len() == BOOT_SIZE {
                    r matches Ok(g) && g.wf() && g.cpu() == CPU::initial() && g.bus() == power_on(
                        Some(image@),
                        rom@,
                    )
                } else {
                    r matches Err(e) && e == LoadError::BootImageSize
                },
                None => r matches Ok(g) && g.wf() && g.cpu() == CPU::after_boot() && g.bus()
                    == power_on(None, rom@),
            },
    {
        let mut memory = MMU::new();
        memory.load(rom);
        match boot {
            Some(image) => {
                if memory.load_boot(&image) {
                    Ok(Gameboy { cpu: CPU::new(), memory: memory })
                } else {
                    Err(LoadError::BootImageSize)
                }
            },
            None => Ok(Gameboy { cpu: CPU::post_boot(), memory: memory }),
        }
    }

    /// Executes one instruction, runs the peripherals for the cycles it
    /// took and serves pending interrupts. Returns the cycles, or the
    /// undefined opcode that stopped the machine.
    pub fn update(&mut self) -> (r: Result<u32, DecodeError>)
        requires
            old(self).wf(),
        ensures
            final(self).wf(),
            (final(self).cpu(), final(self).bus(), r) == spec_tick(old(self).cpu(), old(self).bus()),
    {
        if self.cpu.is_stopped() {
            return Ok(0);
        }
        match self.cpu.step(&mut self.memory) {
            Ok(cycles) => {
                self.memory.update(cycles);
                let interrupts = self.memory.pending_interrupts();
                if interrupts != 0 {
                    self.cpu.handle_interrupts(&mut self.memory, interrupts);
                }
                Ok(cycles)
            },
            Err(error) => Err(error),
        }
    }

    /// Paints the frame buffer into `frame` as RGBA, four bytes per pixel,
    /// as far as `frame` holds whole pixels.
    pub fn draw(&self, frame: &mut [u8])
        requires
            old(frame)@.len() <= 4 * FRAME_SIZE,
        ensures
            final(frame)@.len() == old(frame)@.len(),
            forall|k: int|
                0 <= k < old(frame)@.len() ==> #[trigger] final(frame)@[k] == (if k / 4 < old(
                    frame,
                )@.len() / 4 {
                    rgba_byte(self.bus().ppu.framebuffer, k)
                } else {
                    old(frame)@[k]
                }),
    {
        let pixels = frame.len() / 4;
        let shades = self.memory.ppu().framebuffer();
        let mut i: usize = 0;
        while i < pixels
            invariant
                i <= pixels,
                pixels == old(frame)@.len() / 4,
                pixels <= FRAME_SIZE,
                frame@.len() == old(frame)@.len(),
                shades@ == self.bus().ppu.framebuffer,
                shades@.len() == FRAME_SIZE,
                forall|k: int|
                    0 <= k < frame@.len() ==> #[trigger] frame@[k] == (if k / 4 < i {
                        rgba_byte(self.bus().ppu.framebuffer, k)
                    } else {
                        old(frame)@[k]
                    }),
            decreases pixels - i,
        {
            let level: u8 = match shades[i] {
                0 => 255,
                1 => 192,
                2 => 96,
                _ => 0,
            };
            frame[4 * i] = level;
            frame[4 * i + 1] = level;
            frame[4 * i + 2] = level;
            frame[4 * i + 3] = 255;
            i = i + 1;
        }
    }

    /// The frame buffer: one shade (0..=3) per pixel, line by line.
    pub fn framebuffer(&self) -> (frame: &[u8; 23040])
        ensures
            frame@ == self.bus().ppu.framebuffer,
    {
        self.memory.ppu().framebuffer()
    }

    pub fn is_stopped(&self) -> (stopped: bool)
        ensures
            stopped == self.cpu().stop,
    {
        self.cpu.is_stopped()
    }

    /// Raises request lines from outside the core, as a joypad or a serial
    /// link does.
    pub fn request_interrupt(&mut self, interrupt: u8)
        ensures
            final(self).cpu() == old(self).cpu(),
            final(self).bus() == (MmuState {
                interrupts: old(self).bus().interrupts.spec_request(interrupt),
                ..old(self).bus()
            }),
    {
        self.memory.request_interrupt(interrupt);
    }

    /// The processor.
    pub fn processor(&self) -> (cpu: &CPU)
        ensures
            *cpu == self.cpu(),
    {
        &self.cpu
    }

    /// The bus.
    pub fn memory(&self) -> (memory: &MMU)
        ensures
            memory@ == self.bus(),
    {
        &self.memory
    }
}

} // verus!
