//! The memory bus.
//!
//! | Range           | Meaning                                             |
//! |-----------------|-----------------------------------------------------|
//! | 0x0000-0x3FFF   | ROM bank 0, or the boot image below 0x0100          |
//! | 0x4000-0x7FFF   | switchable ROM bank                                 |
//! | 0x8000-0x9FFF   | video RAM                                           |
//! | 0xA000-0xBFFF   | cartridge RAM or clock register                     |
//! | 0xC000-0xDFFF   | work RAM                                            |
//! | 0xE000-0xFDFF   | echo of 0xC000-0xDDFF                               |
//! | 0xFE00-0xFE9F   | object attribute memory                             |
//! | 0xFEA0-0xFEFF   | unusable                                            |
//! | 0xFF00-0xFF7F   | I/O registers                                       |
//! | 0xFF80-0xFFFE   | high RAM                                            |
//! | 0xFFFF          | interrupt enable                                    |
//!
//! The bus owns the cartridge, the timer, the interrupt controller, the
//! joypad and the sound unit, keeps every other byte in one array indexed by
//! bus address, and runs the DMA engine that fills object attribute memory.
use vstd::prelude::*;

use rand::Rng;

use crate::gameboy::bits::bit;
use crate::gameboy::bits::has_bit;
use crate::gameboy::bits::set_bit;
use crate::gameboy::bits::with_bit;
use crate::gameboy::cartridge::Cart;
use crate::gameboy::cartridge::Cartridge;
use crate::gameboy::cartridge::CartridgeView;
use crate::gameboy::input::Input;
use crate::gameboy::interupt::InterruptFlag;
use crate::gameboy::interupt::Interupt;
use crate::gameboy::spu::is_sound_register;
use crate::gameboy::spu::Spu;
use crate::gameboy::spu::SpuView;
use crate::gameboy::timer::Timer;

verus! {

/// The four shades of the screen, lightest first.
pub open spec fn shade_of(color: u8) -> u8 {
    if color == 0 {
        255
    } else if color == 1 {
        192
    } else if color == 2 {
        96
    } else {
        0
    }
}

/// The two-bit field number `color` of a palette register.
pub open spec fn palette_field(palette: u8, color: u8) -> u8 {
    if color == 0 {
        palette % 4
    } else if color == 1 {
        palette / 4 % 4
    } else if color == 2 {
        palette / 16 % 4
    } else {
        palette / 64 % 4
    }
}

/// The shade that a palette register gives to a color number.
pub open spec fn palette_shade(palette: u8, color: u8) -> u8 {
    shade_of(palette_field(palette, color))
}

/// Looks a color number up in a palette register.
pub fn shade(palette: u8, color: u8) -> (shade: u8)
    ensures
        shade == palette_shade(palette, color),
{
    let field = if color == 0 {
        palette % 4
    } else if color == 1 {
        palette / 4 % 4
    } else if color == 2 {
        palette / 16 % 4
    } else {
        palette / 64 % 4
    };
    if field == 0 {
        255
    } else if field == 1 {
        192
    } else if field == 2 {
        96
    } else {
        0
    }
}

/// The STAT interrupt line: the OR of the sources that STAT selects. Bit 3
/// selects mode 0, bit 4 mode 1, bit 5 mode 2, bit 6 the match of LY and LYC;
/// the mode is the low two bits of STAT.
pub open spec fn stat_line(stat: u8, ly: u8, lyc: u8) -> bool {
    ||| stat % 4 == 0 && has_bit(stat as int, 3)
    ||| stat % 4 == 1 && has_bit(stat as int, 4)
    ||| stat % 4 == 2 && has_bit(stat as int, 5)
    ||| ly == lyc && has_bit(stat as int, 6)
}

/// Whether an address lies in high RAM.
pub open spec fn in_high_ram(addr: u16) -> bool {
    0xFF80 <= addr <= 0xFFFE
}

/// Whether a register of the I/O page powers on with all bits high.
pub open spec fn powers_on_high(addr: int) -> bool {
    ||| addr == 0xFF03
    ||| 0xFF08 <= addr <= 0xFF0E
    ||| addr == 0xFF15
    ||| addr == 0xFF1F
    ||| 0xFF27 <= addr <= 0xFF2F
    ||| 0xFF4D <= addr <= 0xFF4F
    ||| addr == 0xFF57
    ||| 0xFF50 <= addr <= 0xFF7F
}

/// What the byte of the bus array at `addr` is at power-on, outside work
/// RAM, whose contents are left to chance.
pub open spec fn power_on_byte(addr: int) -> u8 {
    if powers_on_high(addr) {
        0xFF
    } else if addr == 0xFF02 {
        0x7E
    } else {
        0
    }
}

pub struct Mmu {
    pub spu: Spu,
    pub interupts: Interupt,
    pub input: Input,
    pub timer: Timer,
    pub cartridge: Cart,
    /// One byte for each bus address. Video RAM, work RAM, object attribute
    /// memory, the I/O page and high RAM are kept at their addresses.
    pub memory: Vec<u8>,
    pub dma_transfer_index: u16,
    pub dma_transfer_base_addr: u16,
    pub dma_queue_counter: u8,
    pub dma_queue_val: u16,
    pub dma_active: bool,
    pub dma_active_clock: u8,
    pub lock_vram: bool,
    pub lock_oam: bool,
    /// The level of the STAT interrupt line after its last evaluation.
    pub stat_irq_state: bool,
    pub bios_enabled: bool,
    /// The boot image of 256 bytes.
    pub bios: Vec<u8>,
}

/// The mathematical content of an [`Mmu`].
#[verifier::ext_equal]
pub struct MmuView {
    pub spu: SpuView,
    pub interupts: Interupt,
    pub input: Input,
    pub timer: Timer,
    pub cartridge: CartridgeView,
    pub memory: Seq<u8>,
    pub dma_transfer_index: u16,
    pub dma_transfer_base_addr: u16,
    pub dma_queue_counter: u8,
    pub dma_queue_val: u16,
    pub dma_active: bool,
    pub dma_active_clock: u8,
    pub lock_vram: bool,
    pub lock_oam: bool,
    pub stat_irq_state: bool,
    pub bios_enabled: bool,
    pub bios: Seq<u8>,
}

impl View for Mmu {
    type V = MmuView;

    open spec fn view(&self) -> MmuView {
        MmuView {
            spu: self.spu@,
            interupts: self.interupts,
            input: self.input,
            timer: self.timer,
            cartridge: self.cartridge.model(),
            memory: self.memory@,
            dma_transfer_index: self.dma_transfer_index,
            dma_transfer_base_addr: self.dma_transfer_base_addr,
            dma_queue_counter: self.dma_queue_counter,
            dma_queue_val: self.dma_queue_val,
            dma_active: self.dma_active,
            dma_active_clock: self.dma_active_clock,
            lock_vram: self.lock_vram,
            lock_oam: self.lock_oam,
            stat_irq_state: self.stat_irq_state,
            bios_enabled: self.bios_enabled,
            bios: self.bios@,
        }
    }
}

impl MmuView {
    pub open spec fn wf(self) -> bool {
        &&& self.memory.len() == 0x10000
        &&& self.bios.len() == 0x100
        &&& self.spu.wf()
        &&& self.timer.wf()
        &&& self.dma_transfer_base_addr % 256 == 0
        &&& self.dma_queue_val < 256
        &&& self.dma_queue_counter <= 5
        &&& self.dma_active_clock < 4
        &&& self.dma_transfer_index < 160
    }

    /// The I/O register at 0xFF00 + `n`, as the bus array holds it.
    pub open spec fn io(self, n: int) -> u8 {
        self.memory[0xFF00 + n]
    }

    /// The bus with the I/O register at 0xFF00 + `n` set.
    pub open spec fn with_io(self, n: int, val: u8) -> MmuView {
        MmuView { memory: self.memory.update(0xFF00 + n, val), ..self }
    }

    /// The bus with the byte at `addr` of the bus array set.
    pub open spec fn with_memory(self, addr: int, val: u8) -> MmuView {
        MmuView { memory: self.memory.update(addr, val), ..self }
    }

    /// The shade that an object palette gives to a color number: palette 0
    /// is the register at 0xFF48, any other the one at 0xFF49.
    pub open spec fn object_shade(self, palette: u8, color: u8) -> u8 {
        if palette == 0 {
            palette_shade(self.io(0x48), color)
        } else {
            palette_shade(self.io(0x49), color)
        }
    }

    /// Whether the LCD is switched on, by bit 7 of LCDC.
    pub open spec fn lcd_on(self) -> bool {
        self.io(0x40) >= 128
    }

    /// What a read of the I/O page gives.
    #[verifier::opaque]
    pub open spec fn read_io(self, addr: u16) -> u8 {
        if addr == 0xFF00 {
            self.input.joyp() as u8
        } else if addr == 0xFF0F {
            (224 + self.interupts.flags % 32) as u8
        } else if addr == 0xFF50 || addr == 0xFF03 {
            0xFF
        } else if addr == 0xFF41 {
            (128 + self.io(0x41) % 128) as u8
        } else if 0xFF04 <= addr <= 0xFF07 {
            self.timer.read_spec(addr)
        } else if is_sound_register(addr) {
            self.spu.register(addr) as u8
        } else {
            self.memory[addr as int]
        }
    }

    /// What the bus gives at `addr` to anyone but the CPU: to the DMA
    /// engine, say. Video RAM reads 0xFF while it is locked, object
    /// attribute memory while it is locked or being filled by DMA, and the
    /// unusable range reads 0.
    #[verifier::opaque]
    pub open spec fn bus_read(self, addr: u16) -> u8 {
        if addr < 0x8000 {
            if self.bios_enabled && addr < 0x100 {
                self.bios[addr as int]
            } else {
                self.cartridge.read_rom(addr)
            }
        } else if addr < 0xA000 {
            if self.lock_vram {
                0xFF
            } else {
                self.memory[addr as int]
            }
        } else if addr < 0xC000 {
            self.cartridge.read_ram((addr - 0xA000) as u16)
        } else if addr < 0xE000 {
            self.memory[addr as int]
        } else if addr < 0xFE00 {
            self.memory[addr - 0x2000]
        } else if addr < 0xFEA0 {
            if self.lock_oam || self.dma_active {
                0xFF
            } else {
                self.memory[addr as int]
            }
        } else if addr < 0xFF00 {
            0
        } else if addr < 0xFF80 {
            self.read_io(addr)
        } else if addr < 0xFFFF {
            self.memory[addr as int]
        } else {
            self.interupts.enable
        }
    }

    /// What the CPU reads at `addr`. While a DMA transfer runs, the CPU sees
    /// high RAM only; everything else reads 0xFF.
    pub open spec fn read_byte(self, addr: u16) -> u8 {
        if self.dma_active && !in_high_ram(addr) {
            0xFF
        } else {
            self.bus_read(addr)
        }
    }

    /// The 16-bit value that the CPU reads at `addr`, low byte first.
    pub open spec fn read_word(self, addr: u16) -> u16 {
        (self.read_byte(addr) + 256 * self.read_byte(next_addr(addr))) as u16
    }

    /// The bus after the STAT interrupt line has been evaluated anew: a
    /// rising edge of the line requests the STAT interrupt, and nothing else
    /// does.
    pub open spec fn stat_updated(self) -> MmuView {
        let line = stat_line(self.io(0x41), self.io(0x44), self.io(0x45));
        MmuView {
            interupts: self.interupts.requested_if(
                !self.stat_irq_state && line,
                InterruptFlag::Stat,
            ),
            stat_irq_state: line,
            ..self
        }
    }

    /// The bus after a DMA transfer from page `val` has been queued: it
    /// starts once the engine has ticked five times.
    pub open spec fn dma_queued(self, val: u8) -> MmuView {
        MmuView { dma_queue_val: val as u16, dma_queue_counter: 5, ..self }
    }

    /// The bus after a write to the joypad register: bits 4 and 5 select the
    /// columns.
    pub open spec fn joyp_written(self, val: u8) -> MmuView {
        MmuView { input: Input { column_line: (val / 16 % 4 * 16) as u8, ..self.input }, ..self }
    }

    /// The bus after a write to a timer register.
    pub open spec fn timer_written(self, addr: u16, val: u8) -> MmuView {
        MmuView { timer: self.timer.written(addr, val), ..self }
    }

    /// The bus after a write to the interrupt request flags.
    pub open spec fn flags_written(self, val: u8) -> MmuView {
        MmuView { interupts: Interupt { flags: val, ..self.interupts }, ..self }
    }

    /// The bus after a write to the interrupt enable mask.
    pub open spec fn enable_written(self, val: u8) -> MmuView {
        MmuView { interupts: Interupt { enable: val, ..self.interupts }, ..self }
    }

    /// The bus after a write to LCDC. Clearing bit 7 switches the LCD off:
    /// LY and the mode in STAT go to zero and both locks open.
    pub open spec fn lcdc_written(self, val: u8) -> MmuView {
        if val >= 128 {
            self.with_io(0x40, val)
        } else {
            MmuView {
                lock_oam: false,
                lock_vram: false,
                ..self.with_io(0x40, val).with_io(0x44, 0).with_io(
                    0x41,
                    (self.io(0x41) - self.io(0x41) % 4) as u8,
                )
            }
        }
    }

    /// The bus after a write to STAT: bits 3 to 6 take the value written,
    /// the others stay, and the STAT line is evaluated.
    pub open spec fn stat_written(self, val: u8) -> MmuView {
        self.with_io(
            0x41,
            (self.io(0x41) / 128 * 128 + val / 8 % 16 * 8 + self.io(0x41) % 8) as u8,
        ).stat_updated()
    }

    /// The bus after a write to LYC: while the LCD is on, bit 2 of STAT shows
    /// at once whether LY matches; the STAT line is evaluated.
    pub open spec fn lyc_written(self, val: u8) -> MmuView {
        if self.lcd_on() {
            self.with_io(0x45, val).with_io(
                0x41,
                with_bit(self.io(0x41), 2, val == self.io(0x44)),
            ).stat_updated()
        } else {
            self.with_io(0x45, val).stat_updated()
        }
    }

    /// The bus after a write to the DMA register.
    pub open spec fn dma_written(self, val: u8) -> MmuView {
        self.dma_queued(val).with_io(0x46, val)
    }

    /// The bus after a write to the boot latch: the boot image is unmapped
    /// for good.
    pub open spec fn boot_latch_written(self, val: u8) -> MmuView {
        MmuView { bios_enabled: false, ..self.with_io(0x50, val) }
    }

    /// The bus after a write to a sound register.
    pub open spec fn sound_written(self, addr: u16, val: u8) -> MmuView {
        MmuView { spu: self.spu.with_register(addr, val), ..self }
    }

    /// The bus after a write to the ROM window.
    pub open spec fn rom_written(self, addr: u16, val: u8) -> MmuView {
        MmuView { cartridge: self.cartridge.write_rom(addr, val), ..self }
    }

    /// The bus after a write to the cartridge RAM window, `addr` counted
    /// from its start.
    pub open spec fn ram_written(self, addr: u16, val: u8) -> MmuView {
        MmuView { cartridge: self.cartridge.write_ram(addr, val), ..self }
    }

    /// The bus after a write to the I/O page. LY is read-only.
    #[verifier::opaque]
    pub open spec fn write_io(self, addr: u16, val: u8) -> MmuView {
        if addr == 0xFF00 {
            self.joyp_written(val)
        } else if 0xFF03 <= addr <= 0xFF07 {
            self.timer_written(addr, val)
        } else if addr == 0xFF0F {
            self.flags_written(val)
        } else if addr == 0xFF40 {
            self.lcdc_written(val)
        } else if addr == 0xFF41 {
            self.stat_written(val)
        } else if addr == 0xFF44 {
            self
        } else if addr == 0xFF45 {
            self.lyc_written(val)
        } else if addr == 0xFF46 {
            self.dma_written(val)
        } else if addr == 0xFF50 {
            self.boot_latch_written(val)
        } else if is_sound_register(addr) {
            self.sound_written(addr, val)
        } else {
            self.with_memory(addr as int, val)
        }
    }

    /// The bus after the CPU has written `val` at `addr`. Writes to the ROM
    /// window drive the bank controller. Writes to locked video RAM, to
    /// object attribute memory that is locked or being filled by DMA, and to
    /// the unusable range are dropped.
    #[verifier::opaque]
    pub open spec fn write_byte(self, addr: u16, val: u8) -> MmuView {
        if addr < 0x8000 {
            self.rom_written(addr, val)
        } else if addr < 0xA000 {
            if self.lock_vram {
                self
            } else {
                self.with_memory(addr as int, val)
            }
        } else if addr < 0xC000 {
            self.ram_written((addr - 0xA000) as u16, val)
        } else if addr < 0xE000 {
            self.with_memory(addr as int, val)
        } else if addr < 0xFE00 {
            self.with_memory(addr - 0x2000, val)
        } else if addr < 0xFEA0 {
            if self.dma_active || self.lock_oam {
                self
            } else {
                self.with_memory(addr as int, val)
            }
        } else if addr < 0xFF00 {
            self
        } else if addr < 0xFF80 {
            self.write_io(addr, val)
        } else if addr < 0xFFFF {
            self.with_memory(addr as int, val)
        } else {
            self.enable_written(val)
        }
    }

    /// The bus after the CPU has written a 16-bit value at `addr`, low byte
    /// first.
    pub open spec fn write_word(self, addr: u16, val: u16) -> MmuView {
        self.write_byte(addr, (val % 256) as u8).write_byte(next_addr(addr), (val / 256) as u8)
    }

    /// The bus after the transfer part of a DMA tick: every fourth tick of
    /// an active transfer copies one byte into object attribute memory, and
    /// the 160th byte ends the transfer.
    pub open spec fn dma_transfer_ticked(self) -> MmuView {
        if !self.dma_active {
            self
        } else if self.dma_active_clock + 1 < 4 {
            MmuView { dma_active_clock: (self.dma_active_clock + 1) as u8, ..self }
        } else {
            MmuView {
                memory: self.memory.update(
                    0xFE00 + self.dma_transfer_index,
                    self.bus_read((self.dma_transfer_base_addr + self.dma_transfer_index) as u16),
                ),
                dma_transfer_index: if self.dma_transfer_index + 1 == 160 {
                    0
                } else {
                    (self.dma_transfer_index + 1) as u16
                },
                dma_active: self.dma_transfer_index + 1 != 160,
                dma_active_clock: 0,
                ..self
            }
        }
    }

    /// The bus after the queue part of a DMA tick: the fifth tick after a
    /// transfer was queued starts it.
    pub open spec fn dma_queue_ticked(self) -> MmuView {
        if self.dma_queue_counter == 0 {
            self
        } else if self.dma_queue_counter > 1 {
            MmuView { dma_queue_counter: (self.dma_queue_counter - 1) as u8, ..self }
        } else {
            MmuView {
                dma_queue_counter: 0,
                dma_transfer_base_addr: (self.dma_queue_val * 256) as u16,
                dma_transfer_index: 0,
                dma_active: true,
                dma_active_clock: 0,
                ..self
            }
        }
    }

    /// The bus after one tick of the DMA engine.
    pub open spec fn dma_ticked(self) -> MmuView {
        self.dma_transfer_ticked().dma_queue_ticked()
    }

    /// The bus after `n` ticks of the DMA engine.
    pub open spec fn dma_ticked_times(self, n: nat) -> MmuView
        decreases n,
    {
        if n == 0 {
            self
        } else {
            self.dma_ticked_times((n - 1) as nat).dma_ticked()
        }
    }
}

/// The address after `addr`, wrapping at the end of the address space.
pub open spec fn next_addr(addr: u16) -> u16 {
    if addr == 0xFFFF {
        0
    } else {
        (addr + 1) as u16
    }
}

/// A byte sequence as the host hands it over, or none.
pub open spec fn bytes_of(bytes: Option<Vec<u8>>) -> Option<Seq<u8>> {
    match bytes {
        Some(b) => Some(b@),
        None => None,
    }
}

impl MmuView {
    /// The bus at power-on, around the given cartridge and sound unit, with
    /// the given contents of work RAM. The boot image, if there is one, is
    /// mapped over the first 256 bytes of the ROM.
    pub open spec fn initial(
        cartridge: CartridgeView,
        spu: SpuView,
        boot: Option<Seq<u8>>,
        ram: Seq<u8>,
    ) -> MmuView {
        MmuView {
            spu,
            interupts: Interupt::initial(),
            input: Input::initial(),
            timer: Timer::initial(),
            cartridge,
            memory: Seq::new(
                0x10000,
                |addr: int|
                    if 0xC000 <= addr < 0xE000 {
                        ram[addr - 0xC000]
                    } else {
                        power_on_byte(addr)
                    },
            ),
            dma_transfer_index: 0,
            dma_transfer_base_addr: 0,
            dma_queue_counter: 0,
            dma_queue_val: 0,
            dma_active: false,
            dma_active_clock: 0,
            lock_vram: false,
            lock_oam: false,
            stat_irq_state: false,
            bios_enabled: boot is Some,
            bios: match boot {
                Some(image) => image,
                None => Seq::new(0x100, |i: int| 0u8),
            },
        }
    }
}

/// `rand::rngs::ThreadRng`, the handle to the random number generator of a
/// thread. Nothing inside it is visible to the proofs.
#[verifier::external_type_specification]
#[verifier::external_body]
pub struct ExThreadRng(rand::rngs::ThreadRng);

/// `rand::thread_rng` hands out the random number generator of the calling
/// thread, which it seeds from the operating system on first use; it panics
/// where the operating system has no randomness to give. Nothing is claimed
/// of the generator.
pub assume_specification[ rand::thread_rng ]() -> (rng: rand::rngs::ThreadRng)
;

/// Draws a byte with `Rng::gen_range` over the whole range of a byte, which
/// is never empty, so the call does not panic on its argument. The draw
/// itself panics only where the generator has to be reseeded and the
/// operating system has no randomness to give, which no caller can rule
/// out. Nothing is claimed of the byte drawn.
#[verifier::external_body]
fn random_byte(rng: &mut rand::rngs::ThreadRng) -> (byte: u8) {
    rng.gen_range(0..=u8::MAX)
}

fn in_sound_range(addr: u16) -> (sound: bool)
    ensures
        sound == is_sound_register(addr),
{
    (0xFF10 <= addr && addr <= 0xFF14) || (0xFF16 <= addr && addr <= 0xFF1E) || (0xFF20 <= addr
        && addr <= 0xFF26) || (0xFF30 <= addr && addr <= 0xFF3F)
}

fn starts_high(addr: usize) -> (high: bool)
    ensures
        high == powers_on_high(addr as int),
{
    addr == 0xFF03 || (0xFF08 <= addr && addr <= 0xFF0E) || addr == 0xFF15 || addr == 0xFF1F || (
    0xFF27 <= addr && addr <= 0xFF2F) || (0xFF4D <= addr && addr <= 0xFF4F) || addr == 0xFF57 || (
    0xFF50 <= addr && addr <= 0xFF7F)
}

impl Mmu {
    /// The invariant of the bus: the arrays have their sizes, and every
    /// component is sound.
    pub open spec fn wf(&self) -> bool {
        self.cartridge.wf() && self@.wf()
    }

    /// Makes the bus with work RAM filled by chance, as it is after power-on.
    pub fn new(cartridge: Cart, spu: Spu, boot: Option<Vec<u8>>) -> (mmu: Self)
        requires
            cartridge.wf(),
            spu@.wf(),
            boot matches Some(image) ==> image.len() == 0x100,
        ensures
            mmu.wf(),
            mmu@ =~= MmuView::initial(
                cartridge.model(),
                spu@,
                bytes_of(boot),
                mmu@.memory.subrange(0xC000, 0xE000),
            ),
    {
        let ram = Self::randomize_ram_values();
        Self::with_ram(cartridge, spu, boot, ram)
    }

    /// Draws the 8 KiB that work RAM holds at power-on.
    pub fn randomize_ram_values() -> (ram: Vec<u8>)
        ensures
            ram.len() == 0x2000,
    {
        let mut rng = rand::thread_rng();
        let mut ram: Vec<u8> = Vec::new();
        while ram.len() < 0x2000
            invariant
                ram.len() <= 0x2000,
            decreases 0x2000 - ram.len(),
        {
            ram.push(random_byte(&mut rng));
        }
        ram
    }

    /// Makes the bus with the given contents of work RAM.
    #[verifier::rlimit(100)]
    pub fn with_ram(cartridge: Cart, spu: Spu, boot: Option<Vec<u8>>, ram: Vec<u8>) -> (mmu: Self)
        requires
            cartridge.wf(),
            spu@.wf(),
            boot matches Some(image) ==> image.len() == 0x100,
            ram.len() == 0x2000,
        ensures
            mmu.wf(),
            mmu@ =~= MmuView::initial(cartridge.model(), spu@, bytes_of(boot), ram@),
    {
        let mut memory = vec![0u8; 0x10000];
        let mut i: usize = 0;
        while i < 0x2000
            invariant
                i <= 0x2000,
                ram.len() == 0x2000,
                memory.len() == 0x10000,
                forall|addr: int|
                    0 <= addr < 0x10000 ==> #[trigger] memory[addr] == if 0xC000 <= addr < 0xC000
                        + i {
                        ram[addr - 0xC000]
                    } else {
                        0u8
                    },
            decreases 0x2000 - i,
        {
            memory.set(0xC000 + i, ram[i]);
            i += 1;
        }
        Self::setup_uninit_ram(&mut memory);
        memory.set(0xFF02, 0x7E);
        let bios_enabled = boot.is_some();
        let bios = match boot {
            Some(image) => image,
            None => vec![0u8; 0x100],
        };
        Self {
            spu,
            interupts: Interupt::new(),
            input: Input::new(),
            timer: Timer::new(),
            cartridge,
            memory,
            dma_transfer_index: 0,
            dma_transfer_base_addr: 0,
            dma_queue_counter: 0,
            dma_queue_val: 0,
            dma_active: false,
            dma_active_clock: 0,
            lock_vram: false,
            lock_oam: false,
            stat_irq_state: false,
            bios_enabled,
            bios,
        }
    }

    /// Sets the registers of the I/O page that power on with all bits high.
    fn setup_uninit_ram(memory: &mut Vec<u8>)
        requires
            old(memory).len() == 0x10000,
        ensures
            final(memory).len() == 0x10000,
            forall|addr: int|
                0 <= addr < 0x10000 ==> #[trigger] final(memory)[addr] == if powers_on_high(addr) {
                    0xFFu8
                } else {
                    old(memory)[addr]
                },
    {
        let mut addr: usize = 0xFF00;
        while addr < 0xFF80
            invariant
                0xFF00 <= addr <= 0xFF80,
                memory.len() == 0x10000,
                forall|a: int|
                    0 <= a < 0x10000 ==> #[trigger] memory[a] == if powers_on_high(a) && a < addr {
                        0xFFu8
                    } else {
                        old(memory)[a]
                    },
            decreases 0xFF80 - addr,
        {
            if starts_high(addr) {
                memory.set(addr, 0xFF);
            }
            addr += 1;
        }
    }

    /// The I/O register at 0xFF00 + `n`, as the bus array holds it.
    pub fn io(&self, n: u8) -> (val: u8)
        requires
            self.wf(),
        ensures
            val == self@.io(n as int),
    {
        self.memory[0xFF00 + n as usize]
    }

    /// Sets the I/O register at 0xFF00 + `n` in the bus array.
    pub fn set_io(&mut self, n: u8, val: u8)
        requires
            old(self).wf(),
        ensures
            final(self).wf(),
            final(self)@ =~= old(self)@.with_io(n as int, val),
    {
        self.memory.set(0xFF00 + n as usize, val);
    }

    /// The shade that the background palette gives to a color number.
    pub fn bg_palette(&self, color: u8) -> (shade: u8)
        requires
            self.wf(),
        ensures
            shade == palette_shade(self@.io(0x47), color),
    {
        shade(self.io(0x47), color)
    }

    /// The shade that an object palette gives to a color number: palette 0
    /// is the register at 0xFF48, any other the one at 0xFF49.
    pub fn sprite_palette(&self, palette: u8, color: u8) -> (shade: u8)
        requires
            self.wf(),
        ensures
            shade == self@.object_shade(palette, color),
    {
        if palette == 0 {
            shade(self.io(0x48), color)
        } else {
            shade(self.io(0x49), color)
        }
    }

    #[verifier::rlimit(100)]
    fn read_io(&self, addr: u16) -> (val: u8)
        requires
            self.wf(),
            0xFF00 <= addr < 0xFF80,
        ensures
            val == self@.read_io(addr),
    {
        proof {
            reveal(MmuView::read_io);
        }
        if addr == 0xFF00 {
            self.input.read_joyp()
        } else if addr == 0xFF0F {
            224 + self.interupts.flags % 32
        } else if addr == 0xFF50 || addr == 0xFF03 {
            0xFF
        } else if addr == 0xFF41 {
            128 + self.memory[0xFF41] % 128
        } else if 0xFF04 <= addr && addr <= 0xFF07 {
            self.timer.read(addr)
        } else if in_sound_range(addr) {
            self.spu.read_register(addr)
        } else {
            self.memory[addr as usize]
        }
    }

    /// Reads the bus on behalf of anyone but the CPU.
    #[verifier::rlimit(100)]
    pub fn bus_read(&self, addr: u16) -> (val: u8)
        requires
            self.wf(),
        ensures
            val == self@.bus_read(addr),
    {
        proof {
            reveal(MmuView::bus_read);
        }
        if addr < 0x8000 {
            if self.bios_enabled && addr < 0x100 {
                self.bios[addr as usize]
            } else {
                self.cartridge.read_rom(addr)
            }
        } else if addr < 0xA000 {
            if self.lock_vram {
                0xFF
            } else {
                self.memory[addr as usize]
            }
        } else if addr < 0xC000 {
            self.cartridge.read_ram(addr - 0xA000)
        } else if addr < 0xE000 {
            self.memory[addr as usize]
        } else if addr < 0xFE00 {
            self.memory[addr as usize - 0x2000]
        } else if addr < 0xFEA0 {
            if self.lock_oam || self.dma_active {
                0xFF
            } else {
                self.memory[addr as usize]
            }
        } else if addr < 0xFF00 {
            0
        } else if addr < 0xFF80 {
            self.read_io(addr)
        } else if addr < 0xFFFF {
            self.memory[addr as usize]
        } else {
            self.interupts.enable
        }
    }

    /// Reads a byte on behalf of the CPU.
    pub fn read_byte(&self, addr: u16) -> (val: u8)
        requires
            self.wf(),
        ensures
            val == self@.read_byte(addr),
    {
        if self.dma_active && !(0xFF80 <= addr && addr <= 0xFFFE) {
            0xFF
        } else {
            self.bus_read(addr)
        }
    }

    /// Sets a byte of the bus array.
    fn store(&mut self, addr: usize, val: u8)
        requires
            old(self).wf(),
            addr < 0x10000,
        ensures
            final(self).wf(),
            final(self)@ =~= old(self)@.with_memory(addr as int, val),
    {
        self.memory.set(addr, val);
    }

    fn write_joyp(&mut self, val: u8)
        requires
            old(self).wf(),
        ensures
            final(self).wf(),
            final(self)@ =~= old(self)@.joyp_written(val),
    {
        self.input.set_column_line(val);
    }

    fn write_timer(&mut self, addr: u16, val: u8)
        requires
            old(self).wf(),
            0xFF03 <= addr <= 0xFF07,
        ensures
            final(self).wf(),
            final(self)@ =~= old(self)@.timer_written(addr, val),
    {
        self.timer.write(addr, val);
    }

    fn write_flags(&mut self, val: u8)
        requires
            old(self).wf(),
        ensures
            final(self).wf(),
            final(self)@ =~= old(self)@.flags_written(val),
    {
        self.interupts.flags = val;
    }

    fn write_enable(&mut self, val: u8)
        requires
            old(self).wf(),
        ensures
            final(self).wf(),
            final(self)@ =~= old(self)@.enable_written(val),
    {
        self.interupts.enable = val;
    }

    fn write_lcdc(&mut self, val: u8)
        requires
            old(self).wf(),
        ensures
            final(self).wf(),
            final(self)@ =~= old(self)@.lcdc_written(val),
    {
        let stat = self.memory[0xFF41];
        self.memory.set(0xFF40, val);
        if val < 128 {
            self.memory.set(0xFF44, 0);
            self.memory.set(0xFF41, stat - stat % 4);
            self.lock_oam = false;
            self.lock_vram = false;
        }
    }

    fn write_stat(&mut self, val: u8)
        requires
            old(self).wf(),
        ensures
            final(self).wf(),
            final(self)@ =~= old(self)@.stat_written(val),
    {
        let stat = self.memory[0xFF41];
        self.store(0xFF41, stat / 128 * 128 + val / 8 % 16 * 8 + stat % 8);
        self.update_stat_irq_conditions();
    }

    fn write_lyc(&mut self, val: u8)
        requires
            old(self).wf(),
        ensures
            final(self).wf(),
            final(self)@ =~= old(self)@.lyc_written(val),
    {
        let lcd_on = self.memory[0xFF40] >= 128;
        let stat = self.memory[0xFF41];
        let matches_ly = val == self.memory[0xFF44];
        self.store(0xFF45, val);
        if lcd_on {
            self.store(0xFF41, set_bit(stat, 2, matches_ly));
        }
        self.update_stat_irq_conditions();
    }

    fn write_dma(&mut self, val: u8)
        requires
            old(self).wf(),
        ensures
            final(self).wf(),
            final(self)@ =~= old(self)@.dma_written(val),
    {
        self.dma_queue(val);
        self.store(0xFF46, val);
    }

    fn write_boot_latch(&mut self, val: u8)
        requires
            old(self).wf(),
        ensures
            final(self).wf(),
            final(self)@ =~= old(self)@.boot_latch_written(val),
    {
        self.memory.set(0xFF50, val);
        self.bios_enabled = false;
    }

    fn write_sound(&mut self, addr: u16, val: u8)
        requires
            old(self).wf(),
            is_sound_register(addr),
        ensures
            final(self).wf(),
            final(self)@ =~= old(self)@.sound_written(addr, val),
    {
        self.spu.write_register(addr, val);
    }

    fn write_rom(&mut self, addr: u16, val: u8)
        requires
            old(self).wf(),
            addr < 0x8000,
        ensures
            final(self).wf(),
            final(self)@ =~= old(self)@.rom_written(addr, val),
    {
        self.cartridge.write_rom(addr, val);
    }

    fn write_ram(&mut self, addr: u16, val: u8)
        requires
            old(self).wf(),
            addr < 0x2000,
        ensures
            final(self).wf(),
            final(self)@ =~= old(self)@.ram_written(addr, val),
    {
        self.cartridge.write_ram(addr, val);
    }

    #[verifier::rlimit(100)]
    fn write_io(&mut self, addr: u16, val: u8)
        requires
            old(self).wf(),
            0xFF00 <= addr < 0xFF80,
        ensures
            final(self).wf(),
            final(self)@ == old(self)@.write_io(addr, val),
    {
        proof {
            reveal(MmuView::write_io);
        }
        if addr == 0xFF00 {
            self.write_joyp(val);
        } else if 0xFF03 <= addr && addr <= 0xFF07 {
            self.write_timer(addr, val);
        } else if addr == 0xFF0F {
            self.write_flags(val);
        } else if addr == 0xFF40 {
            self.write_lcdc(val);
        } else if addr == 0xFF41 {
            self.write_stat(val);
        } else if addr == 0xFF44 {
        } else if addr == 0xFF45 {
            self.write_lyc(val);
        } else if addr == 0xFF46 {
            self.write_dma(val);
        } else if addr == 0xFF50 {
            self.write_boot_latch(val);
        } else if in_sound_range(addr) {
            self.write_sound(addr, val);
        } else {
            self.store(addr as usize, val);
        }
    }

    /// Writes a byte on behalf of the CPU.
    #[verifier::rlimit(100)]
    pub fn write_byte(&mut self, addr: u16, val: u8)
        requires
            old(self).wf(),
        ensures
            final(self).wf(),
            final(self)@ == old(self)@.write_byte(addr, val),
    {
        proof {
            reveal(MmuView::write_byte);
        }
        if addr < 0x8000 {
            self.write_rom(addr, val);
        } else if addr < 0xA000 {
            if !self.lock_vram {
                self.store(addr as usize, val);
            }
        } else if addr < 0xC000 {
            self.write_ram(addr - 0xA000, val);
        } else if addr < 0xE000 {
            self.store(addr as usize, val);
        } else if addr < 0xFE00 {
            self.store(addr as usize - 0x2000, val);
        } else if addr < 0xFEA0 {
            if !(self.dma_active || self.lock_oam) {
                self.store(addr as usize, val);
            }
        } else if addr < 0xFF00 {
        } else if addr < 0xFF80 {
            self.write_io(addr, val);
        } else if addr < 0xFFFF {
            self.store(addr as usize, val);
        } else {
            self.write_enable(val);
        }
    }

    /// Reads a 16-bit value on behalf of the CPU, low byte first.
    pub fn read_word(&self, addr: u16) -> (val: u16)
        requires
            self.wf(),
        ensures
            val == self@.read_word(addr),
    {
        self.read_byte(addr) as u16 + self.read_byte(addr.wrapping_add(1)) as u16 * 256
    }

    /// Writes a 16-bit value on behalf of the CPU, low byte first.
    pub fn write_word(&mut self, addr: u16, val: u16)
        requires
            old(self).wf(),
        ensures
            final(self).wf(),
            final(self)@ == old(self)@.write_word(addr, val),
    {
        let lower_val: u8 = (val % 256) as u8;
        let higher_val: u8 = (val / 256) as u8;
        self.write_byte(addr, lower_val);
        self.write_byte(addr.wrapping_add(1), higher_val);
    }

    /// Queues a DMA transfer of the 160 bytes from `val` * 0x100 on into
    /// object attribute memory.
    pub fn dma_queue(&mut self, val: u8)
        requires
            old(self).wf(),
        ensures
            final(self).wf(),
            final(self)@ =~= old(self)@.dma_queued(val),
    {
        self.dma_queue_val = val as u16;
        self.dma_queue_counter = 5;
    }

    /// Advances the DMA engine by one master cycle.
    #[verifier::rlimit(100)]
    pub fn dma_tick(&mut self)
        requires
            old(self).wf(),
        ensures
            final(self).wf(),
            final(self)@ =~= old(self)@.dma_ticked(),
    {
        if self.dma_active {
            if self.dma_active_clock == 3 {
                let src_val = self.bus_read(self.dma_transfer_base_addr + self.dma_transfer_index);
                self.memory.set(0xFE00 + self.dma_transfer_index as usize, src_val);
                self.dma_transfer_index += 1;
                if self.dma_transfer_index == 160 {
                    self.dma_active = false;
                    self.dma_transfer_index = 0;
                }
                self.dma_active_clock = 0;
            } else {
                self.dma_active_clock += 1;
            }
        }
        if self.dma_queue_counter > 0 {
            self.dma_queue_counter -= 1;
            if self.dma_queue_counter == 0 {
                self.dma_transfer_base_addr = self.dma_queue_val * 256;
                self.dma_transfer_index = 0;
                self.dma_active = true;
                self.dma_active_clock = 0;
            }
        }
    }

    /// Evaluates the STAT interrupt line and requests the STAT interrupt on
    /// its rising edge.
    pub fn update_stat_irq_conditions(&mut self)
        requires
            old(self).wf(),
        ensures
            final(self).wf(),
            final(self)@ =~= old(self)@.stat_updated(),
    {
        let stat = self.memory[0xFF41];
        let mode = stat % 4;
        let mut stat_irq_state = false;
        if mode == 0 {
            if bit(stat, 3) {
                stat_irq_state = true;
            }
        } else if mode == 1 {
            if bit(stat, 4) {
                stat_irq_state = true;
            }
        } else if mode == 2 {
            if bit(stat, 5) {
                stat_irq_state = true;
            }
        }
        if bit(stat, 6) {
            let ly = self.memory[0xFF44];
            let lyc = self.memory[0xFF45];
            if ly == lyc {
                stat_irq_state = true;
            }
        }
        if !self.stat_irq_state && stat_irq_state {
            self.interupts.request_interupt(InterruptFlag::Stat);
        }
        self.stat_irq_state = stat_irq_state;
    }
}

/// The STAT interrupt is requested on a rising edge of the STAT line and at
/// no other time. However many sources raise the line at once, one
/// evaluation makes one request, and evaluating again with nothing changed
/// makes none; while the line stays high or low, or falls, nothing is
/// requested.
pub proof fn lemma_stat_rising_edge_only(bus: MmuView)
    ensures
        bus.stat_updated().interupts == if !bus.stat_irq_state && stat_line(
            bus.io(0x41),
            bus.io(0x44),
            bus.io(0x45),
        ) {
            bus.interupts.requested(InterruptFlag::Stat)
        } else {
            bus.interupts
        },
        bus.stat_updated().stat_updated() == bus.stat_updated(),
{
}

proof fn lemma_dma_progress(bus: MmuView, k: nat)
    requires
        bus.dma_active,
        bus.dma_transfer_index == 0,
        bus.dma_active_clock == 0,
        bus.dma_queue_counter == 0,
        k <= 640,
    ensures
        bus.dma_ticked_times(k).dma_queue_counter == 0,
        bus.dma_ticked_times(k).dma_active == (k < 640),
        k < 640 ==> bus.dma_ticked_times(k).dma_transfer_index == k / 4,
        k < 640 ==> bus.dma_ticked_times(k).dma_active_clock == k % 4,
    decreases k,
{
    if k > 0 {
        lemma_dma_progress(bus, (k - 1) as nat);
    }
}

/// A DMA transfer takes 640 master cycles: from the tick that starts it, the
/// engine is active for the next 639 ticks and done after the 640th. While
/// it is active the CPU reads 0xFF everywhere but in high RAM.
pub proof fn lemma_dma_takes_640_cycles(bus: MmuView, k: nat, addr: u16)
    requires
        bus.dma_active,
        bus.dma_transfer_index == 0,
        bus.dma_active_clock == 0,
        bus.dma_queue_counter == 0,
        k < 640,
    ensures
        bus.dma_ticked_times(k).dma_active,
        bus.dma_ticked_times(k).dma_transfer_index == k / 4,
        !in_high_ram(addr) ==> bus.dma_ticked_times(k).read_byte(addr) == 0xFF,
        !bus.dma_ticked_times(640).dma_active,
{
    lemma_dma_progress(bus, k);
    lemma_dma_progress(bus, 640);
}

proof fn lemma_dma_countdown(bus: MmuView, k: nat)
    requires
        !bus.dma_active,
        bus.dma_queue_counter >= 1,
        k < bus.dma_queue_counter,
    ensures
        !bus.dma_ticked_times(k).dma_active,
        bus.dma_ticked_times(k).dma_queue_counter == bus.dma_queue_counter - k,
        bus.dma_ticked_times(k).dma_queue_val == bus.dma_queue_val,
    decreases k,
{
    if k > 0 {
        lemma_dma_countdown(bus, (k - 1) as nat);
    }
}

/// A write to 0xFF46 while no transfer runs starts one with the fifth tick
/// of the engine after it, and not before, from the page written.
pub proof fn lemma_dma_starts_after_five_ticks(bus: MmuView, val: u8, k: nat)
    requires
        !bus.dma_active,
        k < 5,
    ensures
        !bus.write_byte(0xFF46, val).dma_ticked_times(k).dma_active,
        bus.write_byte(0xFF46, val).dma_ticked_times(5).dma_active,
        bus.write_byte(0xFF46, val).dma_ticked_times(5).dma_transfer_index == 0,
        bus.write_byte(0xFF46, val).dma_ticked_times(5).dma_active_clock == 0,
        bus.write_byte(0xFF46, val).dma_ticked_times(5).dma_queue_counter == 0,
        bus.write_byte(0xFF46, val).dma_ticked_times(5).dma_transfer_base_addr == val * 256,
{
    reveal(MmuView::write_byte);
    reveal(MmuView::write_io);
    let queued = bus.write_byte(0xFF46, val);
    lemma_dma_countdown(queued, k);
    lemma_dma_countdown(queued, 4);
    assert(queued.dma_ticked_times(5) == queued.dma_ticked_times(4).dma_ticked());
}

/// Whether two buses agree on everything that a read below object
/// attribute memory looks at.
pub open spec fn same_below_oam(before: MmuView, after: MmuView) -> bool {
    &&& after.memory.len() == before.memory.len()
    &&& forall|addr: int|
        0 <= addr < 0x10000 && !(0xFE00 <= addr < 0xFEA0) ==> #[trigger] after.memory[addr]
            == before.memory[addr]
    &&& after.cartridge == before.cartridge
    &&& after.bios == before.bios
    &&& after.bios_enabled == before.bios_enabled
    &&& after.lock_vram == before.lock_vram
}

/// A read below object attribute memory gives the same on two buses that
/// agree there.
pub proof fn lemma_read_below_oam(before: MmuView, after: MmuView, addr: u16)
    requires
        before.memory.len() == 0x10000,
        same_below_oam(before, after),
        addr < 0xFE00,
    ensures
        after.bus_read(addr) == before.bus_read(addr),
{
    reveal(MmuView::bus_read);
}

#[verifier::rlimit(100)]
proof fn lemma_dma_copy_progress(bus: MmuView, k: nat)
    requires
        bus.memory.len() == 0x10000,
        bus.dma_active,
        bus.dma_transfer_index == 0,
        bus.dma_active_clock == 0,
        bus.dma_queue_counter == 0,
        bus.dma_transfer_base_addr < 0xFE00,
        bus.dma_transfer_base_addr % 256 == 0,
        k <= 640,
    ensures
        same_below_oam(bus, bus.dma_ticked_times(k)),
        bus.dma_ticked_times(k).dma_transfer_base_addr == bus.dma_transfer_base_addr,
        forall|addr: int|
            0xFE00 <= addr < 0xFEA0 ==> #[trigger] bus.dma_ticked_times(k).memory[addr] == if addr
                - 0xFE00 < k / 4 {
                bus.bus_read((bus.dma_transfer_base_addr + addr - 0xFE00) as u16)
            } else {
                bus.memory[addr]
            },
    decreases k,
{
    if k > 0 {
        let before = bus.dma_ticked_times((k - 1) as nat);
        lemma_dma_copy_progress(bus, (k - 1) as nat);
        lemma_dma_progress(bus, (k - 1) as nat);
        lemma_read_below_oam(
            bus,
            before,
            (bus.dma_transfer_base_addr + before.dma_transfer_index) as u16,
        );
        assert(bus.dma_ticked_times(k) == before.dma_ticked());
    }
}

/// A DMA transfer copies 160 bytes. Left alone for the 640 master cycles
/// that it takes, a transfer from a page below object attribute memory ends
/// with every byte of object attribute memory equal to the byte that the bus
/// gave at the same offset into the source page when the transfer began, and
/// with every other byte of the bus array as it was. After 4 x `k` cycles
/// the first `k` bytes are in place and the rest is still as before.
pub proof fn lemma_dma_copies_160_bytes(bus: MmuView, k: nat, offset: int)
    requires
        bus.memory.len() == 0x10000,
        bus.dma_active,
        bus.dma_transfer_index == 0,
        bus.dma_active_clock == 0,
        bus.dma_queue_counter == 0,
        bus.dma_transfer_base_addr < 0xFE00,
        bus.dma_transfer_base_addr % 256 == 0,
        k <= 160,
        0 <= offset < 160,
    ensures
        !bus.dma_ticked_times(640).dma_active,
        bus.dma_ticked_times(640).memory[0xFE00 + offset] == bus.bus_read(
            (bus.dma_transfer_base_addr + offset) as u16,
        ),
        bus.dma_ticked_times(4 * k).memory[0xFE00 + offset] == if offset < k {
            bus.bus_read((bus.dma_transfer_base_addr + offset) as u16)
        } else {
            bus.memory[0xFE00 + offset]
        },
        same_below_oam(bus, bus.dma_ticked_times(640)),
        same_below_oam(bus, bus.dma_ticked_times(4 * k)),
{
    lemma_dma_progress(bus, 640);
    lemma_dma_copy_progress(bus, 640);
    lemma_dma_copy_progress(bus, 4 * k);
}

/// The boot image is unmapped for good by a write to 0xFF50. After such a
/// write, and after any write that follows, the first 256 bytes of the
/// address space read as the cartridge gives them.
pub proof fn lemma_boot_image_stays_unmapped(bus: MmuView, addr: u16, val: u8, low: u16)
    requires
        low < 0x100,
    ensures
        !bus.write_byte(0xFF50, val).bios_enabled,
        !bus.bios_enabled ==> !bus.write_byte(addr, val).bios_enabled,
        !bus.bios_enabled ==> bus.bus_read(low) == bus.cartridge.read_rom(low),
{
    reveal(MmuView::write_byte);
    reveal(MmuView::write_io);
    reveal(MmuView::bus_read);
}

/// A write above the cartridge's ranges leaves the cartridge alone.
pub proof fn lemma_high_write_keeps_cartridge(bus: MmuView, addr: u16, val: u8)
    requires
        addr >= 0xC000,
    ensures
        bus.write_byte(addr, val).cartridge == bus.cartridge,
{
    reveal(MmuView::write_byte);
    reveal(MmuView::write_io);
}

} // verus!
