//! Cartridges and their memory bank controllers.
//!
//! A cartridge answers reads of the ROM window (0x0000-0x7FFF) and of the
//! external RAM window (offsets 0x0000-0x1FFF), and takes writes to both.
//! Writes to the ROM window change no ROM: they drive the bank controller.
//! A bank that the cartridge does not have reads as 0xFF and drops writes.
use vstd::prelude::*;

pub mod mbc1;
pub mod mbc3;
pub mod mbc5;
pub mod rom;

use crate::gameboy::bits::bit_weight;
use crate::gameboy::cartridge::mbc1::MBC1;
use crate::gameboy::cartridge::mbc3::MBC3;
use crate::gameboy::cartridge::mbc5::MBC5;
use crate::gameboy::cartridge::rom::ROM;

verus! {

/// The size of a ROM bank in bytes.
pub const ROM_BANK_SIZE: usize = 0x4000;

/// The size of a RAM bank in bytes.
pub const RAM_BANK_SIZE: usize = 0x2000;

/// The kinds of bank controller.
#[derive(Clone, Copy, PartialEq, Eq, Structural, Debug)]
pub enum Controller {
    Rom,
    Mbc1,
    Mbc3,
    Mbc5,
}

/// The latched registers of the real-time clock.
#[derive(Clone, Copy, Debug)]
pub struct RtcRegisters {
    pub seconds: u8,
    pub minutes: u8,
    pub hours: u8,
    pub day_low: u8,
    pub day_high: u8,
}

impl RtcRegisters {
    /// The register that a selector value of 0x08 to 0x0C names.
    pub open spec fn get(self, select: int) -> u8 {
        if select == 0x08 {
            self.seconds
        } else if select == 0x09 {
            self.minutes
        } else if select == 0x0A {
            self.hours
        } else if select == 0x0B {
            self.day_low
        } else {
            self.day_high
        }
    }

    /// The registers after a latch at `clock` seconds of wall-clock time:
    /// seconds, minutes and hours are taken from the clock.
    pub open spec fn latched(self, clock: u64) -> RtcRegisters {
        RtcRegisters {
            seconds: (clock % 60) as u8,
            minutes: (clock / 60 % 60) as u8,
            hours: (clock / 3600 % 24) as u8,
            ..self
        }
    }
}

/// The mathematical content of a cartridge, whatever its controller. Fields
/// that a controller does not have keep their initial value.
#[verifier::ext_equal]
pub struct CartridgeView {
    pub controller: Controller,
    pub rom: Seq<u8>,
    pub ram: Seq<u8>,
    pub ram_enabled: bool,
    /// The bank mapped at 0x4000-0x7FFF.
    pub rom_bank: int,
    /// The RAM bank mapped at the RAM window; for MBC3 a value of 0x08 to
    /// 0x0C maps a clock register instead.
    pub ram_bank: int,
    /// MBC1 only: 0 while the upper bank bits go to the ROM bank, 1 while
    /// they go to the RAM bank.
    pub mode: u8,
    pub rtc: RtcRegisters,
    /// MBC3 only: the last value written to the latch register.
    pub prev_latch: u8,
    /// MBC3 only: the wall-clock time, in seconds, that a latch will take.
    pub clock: u64,
    /// Whether the cartridge has a battery, so that its RAM is kept in a save
    /// file. Only MBC3 types have one.
    pub battery: bool,
}

impl CartridgeView {
    pub open spec fn rom_at(self, index: int) -> u8 {
        if 0 <= index < self.rom.len() {
            self.rom[index]
        } else {
            0xFF
        }
    }

    pub open spec fn ram_at(self, index: int) -> u8 {
        if 0 <= index < self.ram.len() {
            self.ram[index]
        } else {
            0xFF
        }
    }

    /// What a read of the ROM window gives: bank 0 below 0x4000, the
    /// selected bank from there on.
    pub open spec fn read_rom(self, addr: u16) -> u8 {
        if addr < 0x4000 {
            self.rom_at(addr as int)
        } else {
            self.rom_at(self.rom_bank * 0x4000 + (addr - 0x4000))
        }
    }

    /// Whether the value written to the RAM-enable register enables the RAM.
    pub open spec fn enables_ram(value: u8) -> bool {
        value % 16 == 0x0A
    }

    /// The cartridge after a write to the ROM window.
    pub open spec fn write_rom(self, addr: u16, value: u8) -> CartridgeView {
        match self.controller {
            Controller::Rom => self,
            Controller::Mbc1 => self.write_rom_mbc1(addr, value),
            Controller::Mbc3 => self.write_rom_mbc3(addr, value),
            Controller::Mbc5 => self.write_rom_mbc5(addr, value),
        }
    }

    /// MBC1: RAM enable at 0x0000, the low five bits of the ROM bank at
    /// 0x2000 (zero selects one), at 0x4000 the upper two bits of the ROM
    /// bank in mode 0 or the RAM bank in mode 1, the mode at 0x6000.
    pub open spec fn write_rom_mbc1(self, addr: u16, value: u8) -> CartridgeView {
        if addr < 0x2000 {
            CartridgeView { ram_enabled: Self::enables_ram(value), ..self }
        } else if addr < 0x4000 {
            let low = if value % 32 == 0 {
                1
            } else {
                value % 32
            };
            CartridgeView { rom_bank: self.rom_bank / 32 * 32 + low, ..self }
        } else if addr < 0x6000 {
            if self.mode == 0 {
                CartridgeView { rom_bank: self.rom_bank % 32 + value % 4 * 32, ..self }
            } else {
                CartridgeView { ram_bank: (value % 4) as int, ..self }
            }
        } else {
            CartridgeView { mode: value % 2, ..self }
        }
    }

    /// MBC3: RAM and clock enable at 0x0000, the seven-bit ROM bank at 0x2000
    /// (zero selects one), the RAM bank or clock register at 0x4000, the
    /// clock latch at 0x6000: a 1 written after a 0 takes the wall clock.
    pub open spec fn write_rom_mbc3(self, addr: u16, value: u8) -> CartridgeView {
        if addr < 0x2000 {
            CartridgeView { ram_enabled: Self::enables_ram(value), ..self }
        } else if addr < 0x4000 {
            CartridgeView {
                rom_bank: if value % 128 == 0 {
                    1
                } else {
                    (value % 128) as int
                },
                ..self
            }
        } else if addr < 0x6000 {
            if value <= 0x03 || 0x08 <= value <= 0x0C {
                CartridgeView { ram_bank: value as int, ..self }
            } else {
                self
            }
        } else if self.prev_latch == 0 && value == 1 {
            CartridgeView { rtc: self.rtc.latched(self.clock), prev_latch: value, ..self }
        } else {
            CartridgeView { prev_latch: value, ..self }
        }
    }

    /// MBC5: RAM enable at 0x0000, the low eight bits of the ROM bank at
    /// 0x2000, its ninth bit at 0x3000, the four-bit RAM bank at 0x4000.
    pub open spec fn write_rom_mbc5(self, addr: u16, value: u8) -> CartridgeView {
        if addr < 0x2000 {
            CartridgeView { ram_enabled: Self::enables_ram(value), ..self }
        } else if addr < 0x3000 {
            CartridgeView { rom_bank: self.rom_bank / 256 * 256 + value, ..self }
        } else if addr < 0x4000 {
            CartridgeView { rom_bank: self.rom_bank % 256 + value % 2 * 256, ..self }
        } else if addr < 0x6000 {
            if value <= 0x0F {
                CartridgeView { ram_bank: value as int, ..self }
            } else {
                self
            }
        } else {
            self
        }
    }

    /// Whether the RAM window shows a clock register.
    pub open spec fn rtc_banked(self) -> bool {
        self.controller == Controller::Mbc3 && self.ram_bank >= 0x08
    }

    /// What a read of the RAM window gives, `addr` counted from its start.
    pub open spec fn read_ram(self, addr: u16) -> u8 {
        if self.controller == Controller::Rom || !self.ram_enabled {
            0xFF
        } else if self.rtc_banked() {
            self.rtc.get(self.ram_bank)
        } else {
            self.ram_at(self.ram_bank * 0x2000 + addr)
        }
    }

    /// The cartridge after a write to the RAM window, `addr` counted from
    /// its start.
    pub open spec fn write_ram(self, addr: u16, value: u8) -> CartridgeView {
        let index = self.ram_bank * 0x2000 + addr;
        if self.controller != Controller::Rom && self.ram_enabled && !self.rtc_banked() && 0
            <= index < self.ram.len() {
            CartridgeView { ram: self.ram.update(index, value), ..self }
        } else {
            self
        }
    }

    /// The state of a cartridge that has just been loaded.
    pub open spec fn fresh(controller: Controller, rom: Seq<u8>, ram: Seq<u8>) -> CartridgeView {
        CartridgeView {
            controller,
            rom,
            ram,
            ram_enabled: false,
            rom_bank: 1,
            ram_bank: 0,
            mode: 0,
            rtc: RtcRegisters { seconds: 0, minutes: 0, hours: 0, day_low: 0, day_high: 0 },
            prev_latch: 204,
            clock: 0,
            battery: false,
        }
    }
}

/// The common contract of all cartridges.
pub trait Cartridge {
    /// The invariant of the cartridge.
    spec fn wf(&self) -> bool;

    /// The cartridge as a mathematical value.
    spec fn model(&self) -> CartridgeView;

    fn read_rom(&self, addr: u16) -> (val: u8)
        requires
            self.wf(),
            addr < 0x8000,
        ensures
            val == self.model().read_rom(addr),
    ;

    fn write_rom(&mut self, addr: u16, value: u8)
        requires
            old(self).wf(),
            addr < 0x8000,
        ensures
            final(self).wf(),
            final(self).model() =~= old(self).model().write_rom(addr, value),
    ;

    fn read_ram(&self, addr: u16) -> (val: u8)
        requires
            self.wf(),
            addr < 0x2000,
        ensures
            val == self.model().read_ram(addr),
    ;

    fn write_ram(&mut self, addr: u16, value: u8)
        requires
            old(self).wf(),
            addr < 0x2000,
        ensures
            final(self).wf(),
            final(self).model() =~= old(self).model().write_ram(addr, value),
    ;
}

/// The first `len` bytes of `bytes`, with zeros where `bytes` is shorter.
pub open spec fn padded(bytes: Seq<u8>, len: int) -> Seq<u8> {
    Seq::new(
        len as nat,
        |i: int|
            if i < bytes.len() {
                bytes[i]
            } else {
                0u8
            },
    )
}

/// Cuts or zero-fills a byte vector to exactly `len` bytes.
pub fn pad(bytes: &mut Vec<u8>, len: usize)
    ensures
        final(bytes)@ =~= padded(old(bytes)@, len as int),
{
    bytes.resize(len, 0);
}

/// Fills a RAM with `num_ram_banks` banks of blank memory.
pub fn load_new_ram(ram_banks: &mut Vec<u8>, num_ram_banks: u16)
    ensures
        final(ram_banks)@ =~= padded(Seq::empty(), num_ram_banks * 0x2000),
{
    ram_banks.clear();
    pad(ram_banks, num_ram_banks as usize * RAM_BANK_SIZE);
}

/// What the RAM of a battery-backed cartridge starts as: the save data if it
/// has exactly the size of the RAM, blank memory otherwise.
pub open spec fn restored_ram(save: Option<Seq<u8>>, num_ram_banks: u16) -> Seq<u8> {
    match save {
        Some(bytes) if bytes.len() == num_ram_banks * 0x2000 => bytes,
        _ => padded(Seq::empty(), num_ram_banks * 0x2000),
    }
}

/// Fills a RAM from the contents of a save file, if there was one.
pub fn try_read_save_file(sav_file: Option<Vec<u8>>, num_ram_banks: u16, ram_banks: &mut Vec<u8>)
    ensures
        final(ram_banks)@ =~= restored_ram(
            match sav_file {
                Some(bytes) => Some(bytes@),
                None => None,
            },
            num_ram_banks,
        ),
{
    match sav_file {
        Some(bytes) => {
            if bytes.len() == num_ram_banks as usize * RAM_BANK_SIZE {
                *ram_banks = bytes;
            } else {
                load_new_ram(ram_banks, num_ram_banks);
            }
        },
        None => {
            load_new_ram(ram_banks, num_ram_banks);
        },
    }
}

/// Why a ROM image cannot be run.
#[derive(Clone, Copy, PartialEq, Eq, Structural, Debug)]
pub enum BadRom {
    /// The image ends before its header does.
    TruncatedHeader,
    /// The image runs on the color model only.
    ColorOnly,
    /// The ROM size code is none of the known ones.
    InvalidRomSize(u8),
    /// The RAM size code is none of the known ones.
    InvalidRamSize(u8),
    /// The cartridge type is none of the supported ones.
    UnsupportedType(u8),
}

/// The number of 16 KiB ROM banks that a ROM size code stands for.
pub open spec fn rom_banks_of(code: u8) -> Option<u16> {
    if code == 0x00 {
        Some(2u16)
    } else if code == 0x01 {
        Some(4u16)
    } else if code == 0x02 {
        Some(8u16)
    } else if code == 0x03 {
        Some(16u16)
    } else if code == 0x04 {
        Some(32u16)
    } else if code == 0x05 {
        Some(64u16)
    } else if code == 0x06 {
        Some(128u16)
    } else if code == 0x07 {
        Some(256u16)
    } else if code == 0x08 {
        Some(512u16)
    } else if code == 0x52 {
        Some(72u16)
    } else if code == 0x53 {
        Some(80u16)
    } else if code == 0x54 {
        Some(96u16)
    } else {
        None
    }
}

/// The number of 8 KiB RAM banks that a RAM size code stands for.
pub open spec fn ram_banks_of(code: u8) -> Option<u16> {
    if code == 0x00 {
        Some(0u16)
    } else if code == 0x02 {
        Some(1u16)
    } else if code == 0x03 {
        Some(4u16)
    } else if code == 0x04 {
        Some(16u16)
    } else if code == 0x05 {
        Some(8u16)
    } else {
        None
    }
}

/// The controller that a cartridge type code stands for.
pub open spec fn controller_of(code: u8) -> Option<Controller> {
    if code == 0x00 {
        Some(Controller::Rom)
    } else if 0x01 <= code <= 0x03 {
        Some(Controller::Mbc1)
    } else if 0x0F <= code <= 0x13 {
        Some(Controller::Mbc3)
    } else if 0x1A <= code <= 0x1E {
        Some(Controller::Mbc5)
    } else {
        None
    }
}

/// Whether a cartridge type keeps its RAM in a save file: the MBC3 types
/// with a battery.
pub open spec fn battery_backed(code: u8) -> bool {
    code == 0x0F || code == 0x10 || code == 0x13
}

/// The verdict on a ROM image: the first fault found in its header, looking
/// at its length, the color flag at 0x143, the ROM size code at 0x148, the
/// RAM size code at 0x149 and the type code at 0x147, in this order.
pub open spec fn header_fault(rom: Seq<u8>) -> Option<BadRom> {
    if rom.len() < 0x150 {
        Some(BadRom::TruncatedHeader)
    } else if rom[0x143] == 0xC0 {
        Some(BadRom::ColorOnly)
    } else if rom_banks_of(rom[0x148]) is None {
        Some(BadRom::InvalidRomSize(rom[0x148]))
    } else if ram_banks_of(rom[0x149]) is None {
        Some(BadRom::InvalidRamSize(rom[0x149]))
    } else if controller_of(rom[0x147]) is None {
        Some(BadRom::UnsupportedType(rom[0x147]))
    } else {
        None
    }
}

/// The cartridge that a sound ROM image and its save data, if any, make.
///
/// A plain ROM is two banks whatever its header says; the others have the
/// banks that the header declares, zero-filled where the image is short.
/// Only a battery-backed type takes the save data, and only such a type will
/// give save data back.
pub open spec fn loaded(rom: Seq<u8>, save: Option<Seq<u8>>) -> CartridgeView {
    let controller = controller_of(rom[0x147]).unwrap();
    let rom_banks = rom_banks_of(rom[0x148]).unwrap();
    let ram_banks = ram_banks_of(rom[0x149]).unwrap();
    match controller {
        Controller::Rom => CartridgeView::fresh(controller, padded(rom, 0x8000), Seq::empty()),
        Controller::Mbc3 => CartridgeView {
            battery: battery_backed(rom[0x147]),
            ..CartridgeView::fresh(
                controller,
                padded(rom, rom_banks * 0x4000),
                if battery_backed(rom[0x147]) {
                    restored_ram(save, ram_banks)
                } else {
                    restored_ram(None, ram_banks)
                },
            )
        },
        _ => CartridgeView::fresh(
            controller,
            padded(rom, rom_banks * 0x4000),
            restored_ram(None, ram_banks),
        ),
    }
}

/// A cartridge of any supported kind.
pub enum Cart {
    Rom(ROM),
    Mbc1(MBC1),
    Mbc3(MBC3),
    Mbc5(MBC5),
}

impl Cartridge for Cart {
    open spec fn wf(&self) -> bool {
        match self {
            Cart::Rom(cartridge) => cartridge.wf(),
            Cart::Mbc1(cartridge) => cartridge.wf(),
            Cart::Mbc3(cartridge) => cartridge.wf(),
            Cart::Mbc5(cartridge) => cartridge.wf(),
        }
    }

    open spec fn model(&self) -> CartridgeView {
        match self {
            Cart::Rom(cartridge) => cartridge.model(),
            Cart::Mbc1(cartridge) => cartridge.model(),
            Cart::Mbc3(cartridge) => cartridge.model(),
            Cart::Mbc5(cartridge) => cartridge.model(),
        }
    }

    fn read_rom(&self, addr: u16) -> (val: u8) {
        match self {
            Cart::Rom(cartridge) => cartridge.read_rom(addr),
            Cart::Mbc1(cartridge) => cartridge.read_rom(addr),
            Cart::Mbc3(cartridge) => cartridge.read_rom(addr),
            Cart::Mbc5(cartridge) => cartridge.read_rom(addr),
        }
    }

    fn write_rom(&mut self, addr: u16, value: u8) {
        match self {
            Cart::Rom(cartridge) => cartridge.write_rom(addr, value),
            Cart::Mbc1(cartridge) => cartridge.write_rom(addr, value),
            Cart::Mbc3(cartridge) => cartridge.write_rom(addr, value),
            Cart::Mbc5(cartridge) => cartridge.write_rom(addr, value),
        }
    }

    fn read_ram(&self, addr: u16) -> (val: u8) {
        match self {
            Cart::Rom(cartridge) => cartridge.read_ram(addr),
            Cart::Mbc1(cartridge) => cartridge.read_ram(addr),
            Cart::Mbc3(cartridge) => cartridge.read_ram(addr),
            Cart::Mbc5(cartridge) => cartridge.read_ram(addr),
        }
    }

    fn write_ram(&mut self, addr: u16, value: u8) {
        match self {
            Cart::Rom(cartridge) => cartridge.write_ram(addr, value),
            Cart::Mbc1(cartridge) => cartridge.write_ram(addr, value),
            Cart::Mbc3(cartridge) => cartridge.write_ram(addr, value),
            Cart::Mbc5(cartridge) => cartridge.write_ram(addr, value),
        }
    }
}

impl Cart {
    /// Tells the cartridge the wall-clock time, in seconds, that its clock
    /// latch is to take from now on. Only MBC3 has a clock.
    pub fn set_wall_clock(&mut self, seconds: u64)
        requires
            old(self).wf(),
        ensures
            final(self).wf(),
            final(self).model() =~= if old(self).model().controller == Controller::Mbc3 {
                CartridgeView { clock: seconds, ..old(self).model() }
            } else {
                old(self).model()
            },
    {
        match self {
            Cart::Mbc3(cartridge) => cartridge.set_wall_clock(seconds),
            _ => {},
        }
    }

    /// The RAM contents to keep in the save file, for a cartridge that is
    /// battery-backed.
    pub fn save_data(&self) -> (data: Option<Vec<u8>>)
        requires
            self.wf(),
        ensures
            match data {
                Some(bytes) => self.model().battery && bytes@ == self.model().ram,
                None => !self.model().battery,
            },
    {
        match self {
            Cart::Mbc3(cartridge) => cartridge.save_data(),
            _ => None,
        }
    }
}

/// Reads the number of ROM banks off a ROM size code.
pub fn rom_banks_from_code(code: u8) -> (banks: Option<u16>)
    ensures
        banks == rom_banks_of(code),
{
    if code <= 0x08 {
        Some(2 * bit_weight(code))
    } else if code == 0x52 {
        Some(72)
    } else if code == 0x53 {
        Some(80)
    } else if code == 0x54 {
        Some(96)
    } else {
        None
    }
}

/// Reads the number of RAM banks off a RAM size code.
pub fn ram_banks_from_code(code: u8) -> (banks: Option<u16>)
    ensures
        banks == ram_banks_of(code),
{
    if code == 0x00 {
        Some(0)
    } else if code == 0x02 {
        Some(1)
    } else if code == 0x03 {
        Some(4)
    } else if code == 0x04 {
        Some(16)
    } else if code == 0x05 {
        Some(8)
    } else {
        None
    }
}

/// Makes a cartridge from the bytes of a ROM image and, where there is one,
/// the bytes of its save file.
///
/// Fails exactly on the images whose header has a fault, with the first
/// fault in the order of [`header_fault`].
#[verifier::rlimit(100)]
pub fn create(rom: Vec<u8>, save: Option<Vec<u8>>) -> (created: Result<Cart, BadRom>)
    ensures
        match created {
            Ok(cartridge) => {
                &&& header_fault(rom@) is None
                &&& cartridge.wf()
                &&& cartridge matches Cart::Mbc3(clocked) ==> clocked.cartridge_type_code
                    == rom@[0x147]
                &&& cartridge.model() =~= loaded(
                    rom@,
                    match save {
                        Some(bytes) => Some(bytes@),
                        None => None,
                    },
                )
            },
            Err(fault) => header_fault(rom@) == Some(fault),
        },
{
    if rom.len() < 0x150 {
        return Err(BadRom::TruncatedHeader);
    }
    if rom[0x143] == 0xC0 {
        return Err(BadRom::ColorOnly);
    }
    let cartridge_type_code = rom[0x147];
    let rom_size_code = rom[0x148];
    let ram_size_code = rom[0x149];
    let num_rom_banks = match rom_banks_from_code(rom_size_code) {
        Some(banks) => banks,
        None => {
            return Err(BadRom::InvalidRomSize(rom_size_code));
        },
    };
    let num_ram_banks = match ram_banks_from_code(ram_size_code) {
        Some(banks) => banks,
        None => {
            return Err(BadRom::InvalidRamSize(ram_size_code));
        },
    };
    if cartridge_type_code == 0x00 {
        Ok(Cart::Rom(ROM::new(rom)))
    } else if cartridge_type_code <= 0x03 {
        Ok(Cart::Mbc1(MBC1::new(rom, cartridge_type_code, num_rom_banks, num_ram_banks)))
    } else if 0x0F <= cartridge_type_code && cartridge_type_code <= 0x13 {
        Ok(Cart::Mbc3(MBC3::new(rom, save, cartridge_type_code, num_rom_banks, num_ram_banks)))
    } else if 0x1A <= cartridge_type_code && cartridge_type_code <= 0x1E {
        Ok(Cart::Mbc5(MBC5::new(rom, cartridge_type_code, num_rom_banks, num_ram_banks)))
    } else {
        Err(BadRom::UnsupportedType(cartridge_type_code))
    }
}

/// MBC1 never maps bank 0 through a write of zero: a zero written to the
/// bank register at 0x2000-0x3FFF leaves the low five bits of the bank
/// number at one, and selects bank 1 outright while the upper bank bits are
/// clear.
pub proof fn lemma_mbc1_bank_zero_remap(cartridge: CartridgeView, addr: u16)
    requires
        cartridge.controller == Controller::Mbc1,
        0 <= cartridge.rom_bank < 128,
        0x2000 <= addr <= 0x3FFF,
    ensures
        cartridge.write_rom(addr, 0).rom_bank % 32 == 1,
        cartridge.rom_bank < 32 ==> cartridge.write_rom(addr, 0).rom_bank == 1,
        cartridge.write_rom(addr, 0).rom_bank != 0,
{
}

/// MBC3 takes the wall clock into its clock registers exactly when a 1 is
/// written to the latch register right after a 0. The two writes in a row
/// leave seconds, minutes and hours of the current wall-clock time in the
/// registers; any other write leaves the registers as they were.
pub proof fn lemma_mbc3_rtc_latch(cartridge: CartridgeView, addr: u16, other: u16, value: u8)
    requires
        cartridge.controller == Controller::Mbc3,
        0x6000 <= addr <= 0x7FFF,
        0x6000 <= other <= 0x7FFF,
    ensures
        cartridge.write_rom(addr, 0).write_rom(other, 1).rtc == cartridge.rtc.latched(
            cartridge.clock,
        ),
        !(cartridge.prev_latch == 0 && value == 1) ==> cartridge.write_rom(addr, value).rtc
            == cartridge.rtc,
        cartridge.write_rom(addr, 0).rtc == cartridge.rtc,
        cartridge.rtc.latched(cartridge.clock).seconds < 60,
        cartridge.rtc.latched(cartridge.clock).minutes < 60,
        cartridge.rtc.latched(cartridge.clock).hours < 24,
{
}

} // verus!
