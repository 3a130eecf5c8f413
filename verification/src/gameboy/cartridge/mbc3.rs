//! The MBC3 bank controller: up to 128 ROM banks, four RAM banks, a
//! real-time clock, and RAM kept in a save file where the cartridge has a
//! battery.
use vstd::prelude::*;

use crate::gameboy::cartridge::battery_backed;
use crate::gameboy::cartridge::load_new_ram;
use crate::gameboy::cartridge::pad;
use crate::gameboy::cartridge::padded;
use crate::gameboy::cartridge::restored_ram;
use crate::gameboy::cartridge::try_read_save_file;
use crate::gameboy::cartridge::Cartridge;
use crate::gameboy::cartridge::CartridgeView;
use crate::gameboy::cartridge::Controller;
use crate::gameboy::cartridge::RtcRegisters;
use crate::gameboy::cartridge::RAM_BANK_SIZE;
use crate::gameboy::cartridge::ROM_BANK_SIZE;

verus! {

pub struct MBC3 {
    pub is_ram_rtc_enabled: bool,
    pub current_rom_bank: usize,
    /// The RAM bank, 0 to 3, or the clock register, 0x08 to 0x0C, that the
    /// RAM window shows.
    pub current_ram_bank: usize,
    pub rom: Vec<u8>,
    pub ram: Vec<u8>,
    pub rtc_regs: RtcRegisters,
    pub prev_latch_val: u8,
    /// The wall-clock time in seconds, as the host last told it.
    pub wall_clock: u64,
    pub cartridge_type_code: u8,
}

impl MBC3 {
    /// Makes the cartridge from a ROM image. The save data is taken only by
    /// a type with a battery, and only if it has the size of the RAM.
    pub fn new(
        rom: Vec<u8>,
        save: Option<Vec<u8>>,
        cartridge_type_code: u8,
        num_rom_banks: u16,
        num_ram_banks: u16,
    ) -> (cartridge: Self)
        ensures
            cartridge.wf(),
            cartridge.cartridge_type_code == cartridge_type_code,
            cartridge.model() =~= (CartridgeView {
                battery: battery_backed(cartridge_type_code),
                ..CartridgeView::fresh(
                    Controller::Mbc3,
                    padded(rom@, num_rom_banks * 0x4000),
                    if battery_backed(cartridge_type_code) {
                        restored_ram(
                            match save {
                                Some(bytes) => Some(bytes@),
                                None => None,
                            },
                            num_ram_banks,
                        )
                    } else {
                        restored_ram(None, num_ram_banks)
                    },
                )
            }),
    {
        let mut rom = rom;
        pad(&mut rom, num_rom_banks as usize * ROM_BANK_SIZE);
        let mut ram: Vec<u8> = Vec::new();
        if Self::has_battery(cartridge_type_code) {
            try_read_save_file(save, num_ram_banks, &mut ram);
        } else {
            load_new_ram(&mut ram, num_ram_banks);
        }
        Self {
            is_ram_rtc_enabled: false,
            current_rom_bank: 1,
            current_ram_bank: 0,
            rom,
            ram,
            rtc_regs: RtcRegisters { seconds: 0, minutes: 0, hours: 0, day_low: 0, day_high: 0 },
            prev_latch_val: 204,
            wall_clock: 0,
            cartridge_type_code,
        }
    }

    /// Whether a cartridge type code declares a battery.
    pub fn has_battery(cartridge_type_code: u8) -> (battery: bool)
        ensures
            battery == battery_backed(cartridge_type_code),
    {
        cartridge_type_code == 0x0F || cartridge_type_code == 0x10 || cartridge_type_code == 0x13
    }

    /// Tells the cartridge the wall-clock time, in seconds, that its clock
    /// latch is to take from now on.
    pub fn set_wall_clock(&mut self, seconds: u64)
        requires
            old(self).wf(),
        ensures
            final(self).wf(),
            final(self).cartridge_type_code == old(self).cartridge_type_code,
            final(self).model() =~= (CartridgeView { clock: seconds, ..old(self).model() }),
    {
        self.wall_clock = seconds;
    }

    /// The RAM contents to keep in the save file, if the cartridge has a
    /// battery.
    pub fn save_data(&self) -> (data: Option<Vec<u8>>)
        ensures
            match data {
                Some(bytes) => battery_backed(self.cartridge_type_code) && bytes@ == self.ram@,
                None => !battery_backed(self.cartridge_type_code),
            },
    {
        if Self::has_battery(self.cartridge_type_code) {
            Some(self.ram.clone())
        } else {
            None
        }
    }
}

impl Cartridge for MBC3 {
    open spec fn wf(&self) -> bool {
        &&& 1 <= self.current_rom_bank < 128
        &&& (self.current_ram_bank <= 0x03 || 0x08 <= self.current_ram_bank <= 0x0C)
    }

    open spec fn model(&self) -> CartridgeView {
        CartridgeView {
            ram_enabled: self.is_ram_rtc_enabled,
            rom_bank: self.current_rom_bank as int,
            ram_bank: self.current_ram_bank as int,
            rtc: self.rtc_regs,
            prev_latch: self.prev_latch_val,
            clock: self.wall_clock,
            battery: battery_backed(self.cartridge_type_code),
            ..CartridgeView::fresh(Controller::Mbc3, self.rom@, self.ram@)
        }
    }

    fn read_rom(&self, addr: u16) -> (val: u8) {
        let index = if addr < 0x4000 {
            addr as usize
        } else {
            self.current_rom_bank * ROM_BANK_SIZE + (addr as usize - 0x4000)
        };
        if index < self.rom.len() {
            self.rom[index]
        } else {
            0xFF
        }
    }

    fn write_rom(&mut self, addr: u16, value: u8) {
        if addr < 0x2000 {
            self.is_ram_rtc_enabled = value % 16 == 0x0A;
        } else if addr < 0x4000 {
            self.current_rom_bank = (value % 128) as usize;
            if self.current_rom_bank == 0 {
                self.current_rom_bank = 1;
            }
        } else if addr < 0x6000 {
            if value <= 0x03 || (value >= 0x08 && value <= 0x0C) {
                self.current_ram_bank = value as usize;
            }
        } else {
            if self.prev_latch_val == 0x00 && value == 0x01 {
                let now = self.wall_clock;
                self.rtc_regs.seconds = (now % 60) as u8;
                self.rtc_regs.minutes = (now / 60 % 60) as u8;
                self.rtc_regs.hours = (now / 3600 % 24) as u8;
            }
            self.prev_latch_val = value;
        }
    }

    fn read_ram(&self, addr: u16) -> (val: u8) {
        if !self.is_ram_rtc_enabled {
            return 0xFF;
        }
        if self.current_ram_bank >= 0x08 {
            return if self.current_ram_bank == 0x08 {
                self.rtc_regs.seconds
            } else if self.current_ram_bank == 0x09 {
                self.rtc_regs.minutes
            } else if self.current_ram_bank == 0x0A {
                self.rtc_regs.hours
            } else if self.current_ram_bank == 0x0B {
                self.rtc_regs.day_low
            } else {
                self.rtc_regs.day_high
            };
        }
        let index = self.current_ram_bank * RAM_BANK_SIZE + addr as usize;
        if index < self.ram.len() {
            self.ram[index]
        } else {
            0xFF
        }
    }

    fn write_ram(&mut self, addr: u16, value: u8) {
        if !self.is_ram_rtc_enabled || self.current_ram_bank >= 0x08 {
            return ;
        }
        let index = self.current_ram_bank * RAM_BANK_SIZE + addr as usize;
        if index < self.ram.len() {
            self.ram.set(index, value);
        }
    }
}

} // verus!
