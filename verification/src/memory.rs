//! The bus: every byte access of the processor is routed here by address,
//! to the cartridge, to memory the bus owns, or to a peripheral.

use vstd::prelude::*;
use crate::bits::{word, wrap16, make_word, high_byte, low_byte, lemma_word_offsets};
use crate::interrupts::{InterruptController, TIMER_INTERRUPT, IF_ADDR};
use crate::timer::Timer;
use crate::ppu::PPU;
use crate::ppu::state::{PpuState, ppu_maps};

verus! {

/// Bytes of a boot image.
pub const BOOT_SIZE: usize = 256;

/// Bytes of work memory, and of external memory.
pub const RAM_SIZE: usize = 8192;

/// Bytes of high memory.
pub const HIGH_RAM_SIZE: usize = 127;

/// Bus address of the register that switches the boot overlay off.
pub const BOOT_OFF_ADDR: u16 = 0xFF50;

/// Bus address of the register that starts a transfer into object
/// attribute memory.
pub const DMA_ADDR: u16 = 0xFF46;

pub struct MMU {
    bios: [u8; 256],
    has_bios: bool,
    in_bios: bool,
    rom: Vec<u8>,
    eram: [u8; 8192],
    wram: [u8; 8192],
    zram: [u8; 127],
    ppu: PPU,
    timer: Timer,
    interrupts: InterruptController,
}

/// The state of the bus and of everything behind it, as plain values.
pub struct MmuState {
    /// The boot image.
    pub bios: Seq<u8>,
    /// Whether a boot image was installed.
    pub has_bios: bool,
    /// Whether the boot image is laid over the first 256 bytes.
    pub in_bios: bool,
    /// The cartridge.
    pub rom: Seq<u8>,
    /// External memory.
    pub eram: Seq<u8>,
    /// Work memory.
    pub wram: Seq<u8>,
    /// High memory.
    pub zram: Seq<u8>,
    pub ppu: PpuState,
    pub timer: Timer,
    pub interrupts: InterruptController,
}

impl View for MMU {
    type V = MmuState;

    closed spec fn view(&self) -> MmuState {
        MmuState {
            bios: self.bios@,
            has_bios: self.has_bios,
            in_bios: self.in_bios,
            rom: self.rom@,
            eram: self.eram@,
            wram: self.wram@,
            zram: self.zram@,
            ppu: self.ppu@,
            timer: self.timer,
            interrupts: self.interrupts,
        }
    }
}

/// A memory of `n` zero bytes.
pub open spec fn zeros(n: nat) -> Seq<u8> {
    Seq::new(n, |i: int| 0u8)
}

impl MmuState {
    pub open spec fn wf(self) -> bool {
        &&& self.bios.len() == BOOT_SIZE
        &&& self.eram.len() == RAM_SIZE
        &&& self.wram.len() == RAM_SIZE
        &&& self.zram.len() == HIGH_RAM_SIZE
        &&& self.ppu.wf()
        &&& self.in_bios ==> self.has_bios
    }

    /// What the cartridge answers: its byte at `addr`, or 0 where it has
    /// none.
    pub open spec fn rom_byte(self, addr: u16) -> u8 {
        if addr < self.rom.len() {
            self.rom[addr as int]
        } else {
            0
        }
    }

    /// What an I/O register reads as; 0xFF where none is mapped.
    pub open spec fn io_read(self, addr: u16) -> u8 {
        if Timer::maps(addr) {
            self.timer.spec_read(addr)
        } else if addr == IF_ADDR {
            self.interrupts.spec_read(addr)
        } else if ppu_maps(addr) {
            self.ppu.spec_read(addr)
        } else {
            0xFF
        }
    }

    /// The byte that the region of `addr` holds.
    pub open spec fn raw_read(self, addr: u16) -> u8 {
        if addr < 0x0100 && self.in_bios {
            self.bios[addr as int]
        } else if addr < 0x8000 {
            self.rom_byte(addr)
        } else if addr < 0xA000 {
            self.ppu.spec_read(addr)
        } else if addr < 0xC000 {
            self.eram[addr - 0xA000]
        } else if addr < 0xE000 {
            self.wram[addr - 0xC000]
        } else if addr < 0xFE00 {
            self.wram[addr - 0xE000]
        } else if addr < 0xFEA0 {
            self.ppu.spec_read(addr)
        } else if addr < 0xFF00 {
            0
        } else if addr < 0xFF80 {
            self.io_read(addr)
        } else if addr < 0xFFFF {
            self.zram[addr - 0xFF80]
        } else {
            self.interrupts.spec_read(addr)
        }
    }

    /// Whether the processor can see the byte at `addr`: while a transfer
    /// into object attribute memory runs, only high memory answers.
    pub open spec fn visible(self, addr: u16) -> bool {
        !self.ppu.dma_active || (0xFF80 <= addr <= 0xFFFE)
    }

    /// What the processor reads at `addr`.
    #[verifier::opaque]
    pub open spec fn read(self, addr: u16) -> u8 {
        if self.visible(addr) {
            self.raw_read(addr)
        } else {
            0xFF
        }
    }

    /// The little-endian word at `addr` and the address after it.
    pub open spec fn read_word(self, addr: u16) -> u16 {
        word(self.read(wrap16(addr + 1)), self.read(addr))
    }

    /// The 160 bytes of page `page`, as a transfer into object attribute
    /// memory copies them.
    pub open spec fn dma_block(self, page: u8) -> Seq<u8> {
        Seq::new(160, |i: int| self.raw_read((page as int * 256 + i) as u16))
    }

    pub open spec fn io_write(self, addr: u16, value: u8) -> MmuState {
        if Timer::maps(addr) {
            let (timer, irq) = self.timer.spec_write(addr, value);
            MmuState {
                timer: timer,
                interrupts: if irq {
                    self.interrupts.spec_request(TIMER_INTERRUPT)
                } else {
                    self.interrupts
                },
                ..self
            }
        } else if addr == IF_ADDR {
            MmuState { interrupts: self.interrupts.spec_write(addr, value), ..self }
        } else if addr == DMA_ADDR {
            MmuState {
                ppu: (PpuState { oam: self.dma_block(value), ..self.ppu }).spec_write(addr, value),
                ..self
            }
        } else if ppu_maps(addr) {
            MmuState { ppu: self.ppu.spec_write(addr, value), ..self }
        } else if addr == BOOT_OFF_ADDR {
            MmuState { in_bios: false, ..self }
        } else {
            self
        }
    }

    /// The bus after the processor has written `value` at `addr`.
    #[verifier::opaque]
    pub open spec fn write(self, addr: u16, value: u8) -> MmuState {
        if addr < 0x8000 {
            self
        } else if addr < 0xA000 {
            MmuState { ppu: self.ppu.spec_write(addr, value), ..self }
        } else if addr < 0xC000 {
            MmuState { eram: self.eram.update(addr - 0xA000, value), ..self }
        } else if addr < 0xE000 {
            MmuState { wram: self.wram.update(addr - 0xC000, value), ..self }
        } else if addr < 0xFE00 {
            MmuState { wram: self.wram.update(addr - 0xE000, value), ..self }
        } else if addr < 0xFEA0 {
            MmuState { ppu: self.ppu.spec_write(addr, value), ..self }
        } else if addr < 0xFF00 {
            self
        } else if addr < 0xFF80 {
            self.io_write(addr, value)
        } else if addr < 0xFFFF {
            MmuState { zram: self.zram.update(addr - 0xFF80, value), ..self }
        } else {
            MmuState { interrupts: self.interrupts.spec_write(addr, value), ..self }
        }
    }

    /// The bus after a little-endian word has been written at `addr` and
    /// the address after it, low byte first.
    pub open spec fn write_word(self, addr: u16, value: u16) -> MmuState {
        self.write(addr, (value % 256) as u8).write(wrap16(addr + 1), (value / 256) as u8)
    }

    /// The bus after the peripherals have run for `n` base cycles: the
    /// timer first, then the video unit, each raising its requests.
    pub open spec fn update(self, n: nat) -> MmuState {
        let (timer, timer_irq) = self.timer.spec_advance(n);
        let (ppu, ppu_irq) = self.ppu.spec_update(n);
        let raised = if timer_irq {
            self.interrupts.spec_request(TIMER_INTERRUPT)
        } else {
            self.interrupts
        };
        MmuState { timer: timer, ppu: ppu, interrupts: raised.spec_request(ppu_irq), ..self }
    }

    /// The bus after a reset: memories cleared, peripherals as new, the
    /// boot overlay back in place if there is a boot image. Cartridge and
    /// boot image stay.
    pub open spec fn reset(self) -> MmuState {
        MmuState {
            bios: self.bios,
            has_bios: self.has_bios,
            in_bios: self.has_bios,
            rom: self.rom,
            eram: zeros(RAM_SIZE as nat),
            wram: zeros(RAM_SIZE as nat),
            zram: zeros(HIGH_RAM_SIZE as nat),
            ppu: PpuState::initial(),
            timer: Timer::initial(),
            interrupts: InterruptController::initial(),
        }
    }
}

impl MMU {
    /// The bus with no boot image and no cartridge, everything at
    /// power-on.
    pub open spec fn initial() -> MmuState {
        MmuState {
            bios: zeros(BOOT_SIZE as nat),
            has_bios: false,
            in_bios: false,
            rom: Seq::empty(),
            eram: zeros(RAM_SIZE as nat),
            wram: zeros(RAM_SIZE as nat),
            zram: zeros(HIGH_RAM_SIZE as nat),
            ppu: PpuState::initial(),
            timer: Timer::initial(),
            interrupts: InterruptController::initial(),
        }
    }

    /// The invariant of the bus.
    pub open spec fn wf(&self) -> bool {
        self@.wf()
    }

    /// A bus with no boot image and no cartridge.
    pub fn new() -> (mmu: Self)
        ensures
            mmu.wf(),
            mmu@ == MMU::initial(),
    {
        let mmu = MMU {
            bios: [0u8; 256],
            has_bios: false,
            in_bios: false,
            rom: Vec::new(),
            eram: [0u8; 8192],
            wram: [0u8; 8192],
            zram: [0u8; 127],
            ppu: PPU::new(),
            timer: Timer::new(),
            interrupts: InterruptController::new(),
        };
        assert(mmu@.bios =~= zeros(BOOT_SIZE as nat));
        assert(mmu@.eram =~= zeros(RAM_SIZE as nat));
        assert(mmu@.wram =~= zeros(RAM_SIZE as nat));
        assert(mmu@.zram =~= zeros(HIGH_RAM_SIZE as nat));
        assert(mmu@.rom =~= Seq::<u8>::empty());
        mmu
    }

    pub fn reset(&mut self)
        ensures
            final(self).wf(),
            final(self)@ == old(self)@.reset(),
    {
        self.eram = [0u8; 8192];
        self.wram = [0u8; 8192];
        self.zram = [0u8; 127];
        self.in_bios = self.has_bios;
        self.ppu = PPU::new();
        self.timer = Timer::new();
        self.interrupts = InterruptController::new();
        assert(self@.eram =~= zeros(RAM_SIZE as nat));
        assert(self@.wram =~= zeros(RAM_SIZE as nat));
        assert(self@.zram =~= zeros(HIGH_RAM_SIZE as nat));
    }

    /// Inserts a cartridge.
    pub fn load(&mut self, rom: Vec<u8>)
        ensures
            final(self)@ == (MmuState { rom: rom@, ..old(self)@ }),
            old(self).wf() ==> final(self).wf(),
    {
        self.rom = rom;
    }

    /// Installs a boot image and lays it over the first 256 bytes. An
    /// image of any other size is refused and the bus is left as it was.
    pub fn load_boot(&mut self, image: &Vec<u8>) -> (installed: bool)
        ensures
            installed == (image@.len() == BOOT_SIZE),
            installed ==> final(self)@ == (MmuState {
                bios: image@,
                has_bios: true,
                in_bios: true,
                ..old(self)@
            }),
            !installed ==> final(self)@ == old(self)@,
            old(self).wf() ==> final(self).wf(),
    {
        if image.len() != 256 {
            return false;
        }
        let mut i: usize = 0;
        while i < 256
            invariant
                i <= 256,
                image@.len() == 256,
                self@ == (MmuState { bios: self@.bios, ..old(self)@ }),
                forall|k: int| 0 <= k < i ==> self@.bios[k] == image@[k],
            decreases 256 - i,
        {
            self.bios[i] = image[i];
            i = i + 1;
        }
        self.has_bios = true;
        self.in_bios = true;
        assert(self@.bios =~= image@);
        true
    }

    fn read_raw(&self, addr: u16) -> (value: u8)
        ensures
            value == self@.raw_read(addr),
    {
        proof {
            lemma_word_offsets(addr);
        }
        if addr < 0x0100 && self.in_bios {
            self.bios[addr as usize]
        } else if addr < 0x8000 {
            if (addr as usize) < self.rom.len() {
                self.rom[addr as usize]
            } else {
                0
            }
        } else if addr < 0xA000 {
            self.ppu.read_byte(addr)
        } else if addr < 0xC000 {
            self.eram[(addr & 0x1FFF) as usize]
        } else if addr < 0xFE00 {
            self.wram[(addr & 0x1FFF) as usize]
        } else if addr < 0xFEA0 {
            self.ppu.read_byte(addr)
        } else if addr < 0xFF00 {
            0
        } else if addr < 0xFF80 {
            self.read_io(addr)
        } else if addr < 0xFFFF {
            self.zram[(addr & 0x7F) as usize]
        } else {
            self.interrupts.read_byte(addr)
        }
    }

    fn read_io(&self, addr: u16) -> (value: u8)
        requires
            0xFF00 <= addr < 0xFF80,
        ensures
            value == self@.io_read(addr),
    {
        if 0xFF04 <= addr && addr <= 0xFF07 {
            self.timer.read_byte(addr)
        } else if addr == IF_ADDR {
            self.interrupts.read_byte(addr)
        } else if 0xFF40 <= addr && addr <= 0xFF4B {
            self.ppu.read_byte(addr)
        } else {
            0xFF
        }
    }

    pub fn read_byte(&self, addr: u16) -> (value: u8)
        ensures
            value == self@.read(addr),
    {
        proof {
            reveal(MmuState::read);
        }
        if self.ppu.dma_active() && !(0xFF80 <= addr && addr <= 0xFFFE) {
            0xFF
        } else {
            self.read_raw(addr)
        }
    }

    pub fn rw(&self, addr: u16) -> (value: u16)
        ensures
            value == self@.read_word(addr),
    {
        let low = self.read_byte(addr);
        let high = self.read_byte(addr.wrapping_add(1));
        make_word(high, low)
    }

    pub fn write_byte(&mut self, addr: u16, val: u8)
        requires
            old(self).wf(),
        ensures
            final(self).wf(),
            final(self)@ == old(self)@.write(addr, val),
    {
        proof {
            reveal(MmuState::write);
            lemma_word_offsets(addr);
        }
        if addr < 0x8000 {
        } else if addr < 0xA000 {
            self.ppu.write_byte(addr, val);
        } else if addr < 0xC000 {
            self.eram[(addr & 0x1FFF) as usize] = val;
        } else if addr < 0xFE00 {
            self.wram[(addr & 0x1FFF) as usize] = val;
        } else if addr < 0xFEA0 {
            self.ppu.write_byte(addr, val);
        } else if addr < 0xFF00 {
        } else if addr < 0xFF80 {
            self.write_io(addr, val);
        } else if addr < 0xFFFF {
            self.zram[(addr & 0x7F) as usize] = val;
        } else {
            self.interrupts.write_byte(addr, val);
        }
    }

    fn write_io(&mut self, addr: u16, val: u8)
        requires
            old(self).wf(),
            0xFF00 <= addr < 0xFF80,
        ensures
            final(self).wf(),
            final(self)@ == old(self)@.io_write(addr, val),
    {
        if 0xFF04 <= addr && addr <= 0xFF07 {
            let irq = self.timer.write_byte(addr, val);
            if irq {
                self.interrupts.request_interrupt(TIMER_INTERRUPT);
            }
        } else if addr == IF_ADDR {
            self.interrupts.write_byte(addr, val);
        } else if addr == DMA_ADDR {
            self.copy_dma_block(val);
            self.ppu.write_byte(addr, val);
        } else if 0xFF40 <= addr && addr <= 0xFF4B {
            self.ppu.write_byte(addr, val);
        } else if addr == BOOT_OFF_ADDR {
            self.in_bios = false;
        }
    }

    /// Copies the first 160 bytes of page `page` into object attribute
    /// memory.
    fn copy_dma_block(&mut self, page: u8)
        requires
            old(self).wf(),
        ensures
            final(self).wf(),
            final(self)@ == (MmuState {
                ppu: PpuState { oam: old(self)@.dma_block(page), ..old(self)@.ppu },
                ..old(self)@
            }),
    {
        let base: u16 = make_word(page, 0);
        let mut block: [u8; 160] = [0u8; 160];
        let mut i: u16 = 0;
        while i < 160
            invariant
                i <= 160,
                base == page as int * 256,
                self@ == old(self)@,
                forall|k: int| 0 <= k < i ==> #[trigger] block@[k] == self@.dma_block(page)[k],
            decreases 160 - i,
        {
            block[i as usize] = self.read_raw(base + i);
            i = i + 1;
        }
        let mut j: u16 = 0;
        while j < 160
            invariant
                j <= 160,
                self.wf(),
                self@ == (MmuState {
                    ppu: PpuState { oam: self@.ppu.oam, ..old(self)@.ppu },
                    ..old(self)@
                }),
                self@.ppu.oam.len() == 160,
                forall|k: int|
                    0 <= k < 160 ==> block@[k] == #[trigger] old(self)@.dma_block(page)[k],
                forall|k: int| 0 <= k < j ==> #[trigger] self@.ppu.oam[k] == block@[k],
            decreases 160 - j,
        {
            self.ppu.dma_write(j, block[j as usize]);
            j = j + 1;
        }
        assert(self@.ppu.oam =~= old(self)@.dma_block(page));
    }

    pub fn ww(&mut self, addr: u16, val: u16)
        requires
            old(self).wf(),
        ensures
            final(self).wf(),
            final(self)@ == old(self)@.write_word(addr, val),
    {
        self.write_byte(addr, low_byte(val));
        self.write_byte(addr.wrapping_add(1), high_byte(val));
    }

    /// Runs the timer and the video unit for `cycles` base cycles and
    /// raises the interrupts they request.
    pub fn update(&mut self, cycles: u32)
        requires
            old(self).wf(),
        ensures
            final(self).wf(),
            final(self)@ == old(self)@.update(cycles as nat),
    {
        let timer_irq = self.timer.update(cycles);
        let ppu_irq = self.ppu.update(cycles);
        if timer_irq {
            self.interrupts.request_interrupt(TIMER_INTERRUPT);
        }
        self.interrupts.request_interrupt(ppu_irq);
    }

    /// Raises request lines from outside the core, as a joypad or a serial
    /// link does.
    pub fn request_interrupt(&mut self, interrupt: u8)
        ensures
            final(self)@ == (MmuState {
                interrupts: old(self)@.interrupts.spec_request(interrupt),
                ..old(self)@
            }),
    {
        self.interrupts.request_interrupt(interrupt);
    }

    /// Clears request lines that have been served.
    pub fn acknowledge_interrupt(&mut self, interrupt: u8)
        ensures
            final(self)@ == (MmuState {
                interrupts: old(self)@.interrupts.spec_acknowledge(interrupt),
                ..old(self)@
            }),
    {
        self.interrupts.acknowledge_interrupt(interrupt);
    }

    /// The lines that are both enabled and requested.
    pub fn pending_interrupts(&self) -> (pending: u8)
        ensures
            pending == self@.interrupts.pending(),
    {
        self.interrupts.get_interrupts()
    }

    /// The video unit behind the bus.
    pub fn ppu(&self) -> (ppu: &PPU)
        ensures
            ppu@ == self@.ppu,
    {
        &self.ppu
    }

    /// The timer behind the bus.
    pub fn timer(&self) -> (timer: &Timer)
        ensures
            *timer == self@.timer,
    {
        &self.timer
    }

    /// The interrupt controller behind the bus.
    pub fn interrupts(&self) -> (interrupts: &InterruptController)
        ensures
            *interrupts == self@.interrupts,
    {
        &self.interrupts
    }
}

/// Whether `addr` lies in memory that keeps any byte written to it:
/// video, external and work memory with its echo, object attribute memory
/// and high memory.
pub open spec fn is_ram(addr: u16) -> bool {
    0x8000 <= addr < 0xFEA0 || 0xFF80 <= addr < 0xFFFF
}

/// The address of the cell that `addr` names: an address in the echo
/// names the cell of work memory 0x2000 below it.
pub open spec fn cell(addr: u16) -> int {
    if 0xE000 <= addr < 0xFE00 {
        addr - 0x2000
    } else {
        addr as int
    }
}

/// A byte written to memory is read back, as long as the processor can
/// see the address.
pub proof fn lemma_write_read(mem: MmuState, addr: u16, value: u8)
    requires
        mem.wf(),
        is_ram(addr),
        mem.visible(addr),
    ensures
        mem.write(addr, value).read(addr) == value,
        mem.write(addr, value).wf(),
        mem.write(addr, value).ppu.dma_active == mem.ppu.dma_active,
{
    reveal(MmuState::read);
    reveal(MmuState::write);
}

/// A write to memory changes what is read at no other cell.
pub proof fn lemma_write_keeps(mem: MmuState, addr: u16, value: u8, other: u16)
    requires
        mem.wf(),
        is_ram(addr),
        cell(addr) != cell(other),
    ensures
        mem.write(addr, value).read(other) == mem.read(other),
{
    reveal(MmuState::read);
    reveal(MmuState::write);
}

/// The echo window reads and writes work memory: what is written at an
/// address of either is read at the other.
pub proof fn lemma_echo(mem: MmuState, addr: u16, value: u8)
    requires
        mem.wf(),
        0xC000 <= addr < 0xDE00,
        !mem.ppu.dma_active,
    ensures
        mem.write(addr, value).read((addr + 0x2000) as u16) == value,
        mem.write((addr + 0x2000) as u16, value).read(addr) == value,
{
    reveal(MmuState::read);
    reveal(MmuState::write);
}

/// The cartridge cannot be written, and neither can the unused window
/// above object attribute memory.
pub proof fn lemma_read_only(mem: MmuState, addr: u16, value: u8)
    requires
        addr < 0x8000 || 0xFEA0 <= addr < 0xFF00,
    ensures
        mem.write(addr, value) == mem,
{
    reveal(MmuState::write);
}

/// Any write to the boot-off register switches the boot overlay off, and
/// once it is off no write brings it back.
pub proof fn lemma_boot_overlay_is_one_shot(mem: MmuState, addr: u16, value: u8)
    ensures
        !mem.write(BOOT_OFF_ADDR, value).in_bios,
        !mem.in_bios ==> !mem.write(addr, value).in_bios,
{
    reveal(MmuState::write);
}

} // verus!
