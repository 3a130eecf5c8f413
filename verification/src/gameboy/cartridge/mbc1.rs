//! The MBC1 bank controller: up to 128 ROM banks and four RAM banks.
use vstd::prelude::*;

use crate::gameboy::cartridge::load_new_ram;
use crate::gameboy::cartridge::pad;
use crate::gameboy::cartridge::padded;
use crate::gameboy::cartridge::restored_ram;
use crate::gameboy::cartridge::Cartridge;
use crate::gameboy::cartridge::CartridgeView;
use crate::gameboy::cartridge::Controller;
use crate::gameboy::cartridge::RAM_BANK_SIZE;
use crate::gameboy::cartridge::ROM_BANK_SIZE;

verus! {

pub struct MBC1 {
    pub is_ram_enabled: bool,
    pub num_rom_banks: u16,
    pub num_ram_banks: u16,
    pub current_rom_bank: usize,
    pub current_ram_bank: usize,
    /// 0 = the upper bank bits select the ROM bank, 1 = the RAM bank.
    pub mode: u8,
    pub rom: Vec<u8>,
    pub ram: Vec<u8>,
}

impl MBC1 {
    pub fn new(rom: Vec<u8>, _cartridge_type_code: u8, num_rom_banks: u16, num_ram_banks: u16) -> (cartridge: Self)
        ensures
            cartridge.wf(),
            cartridge.model() =~= CartridgeView::fresh(
                Controller::Mbc1,
                padded(rom@, num_rom_banks * 0x4000),
                restored_ram(None, num_ram_banks),
            ),
    {
        let mut rom = rom;
        pad(&mut rom, num_rom_banks as usize * ROM_BANK_SIZE);
        let mut ram: Vec<u8> = Vec::new();
        load_new_ram(&mut ram, num_ram_banks);
        Self {
            is_ram_enabled: false,
            num_rom_banks,
            num_ram_banks,
            current_rom_bank: 1,
            current_ram_bank: 0,
            mode: 0,
            rom,
            ram,
        }
    }
}

impl Cartridge for MBC1 {
    open spec fn wf(&self) -> bool {
        &&& self.current_rom_bank < 128
        &&& self.current_ram_bank < 4
        &&& self.mode < 2
    }

    open spec fn model(&self) -> CartridgeView {
        CartridgeView {
            ram_enabled: self.is_ram_enabled,
            rom_bank: self.current_rom_bank as int,
            ram_bank: self.current_ram_bank as int,
            mode: self.mode,
            ..CartridgeView::fresh(Controller::Mbc1, self.rom@, self.ram@)
        }
    }

    fn read_rom(&self, addr: u16) -> (val: u8) {
        let index = if addr < 0x4000 {
            addr as usize
        } else {
            self.current_rom_bank * ROM_BANK_SIZE + (addr as usize - 0x4000)
        };
        if index < self.rom.len() {
            self.rom[index]
        } else {
            0xFF
        }
    }

    fn write_rom(&mut self, addr: u16, value: u8) {
        if addr < 0x2000 {
            self.is_ram_enabled = value % 16 == 0x0A;
        } else if addr < 0x4000 {
            let low = if value % 32 == 0 {
                1
            } else {
                value % 32
            };
            self.current_rom_bank = self.current_rom_bank / 32 * 32 + low as usize;
        } else if addr < 0x6000 {
            if self.mode == 0 {
                self.current_rom_bank = self.current_rom_bank % 32 + (value % 4) as usize * 32;
            } else {
                self.current_ram_bank = (value % 4) as usize;
            }
        } else {
            self.mode = value % 2;
        }
    }

    fn read_ram(&self, addr: u16) -> (val: u8) {
        if !self.is_ram_enabled {
            return 0xFF;
        }
        let index = self.current_ram_bank * RAM_BANK_SIZE + addr as usize;
        if index < self.ram.len() {
            self.ram[index]
        } else {
            0xFF
        }
    }

    fn write_ram(&mut self, addr: u16, value: u8) {
        if !self.is_ram_enabled {
            return ;
        }
        let index = self.current_ram_bank * RAM_BANK_SIZE + addr as usize;
        if index < self.ram.len() {
            self.ram.set(index, value);
        }
    }
}

} // verus!
