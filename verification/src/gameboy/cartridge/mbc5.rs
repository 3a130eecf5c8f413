//! The MBC5 bank controller: up to 512 ROM banks and sixteen RAM banks.
use vstd::prelude::*;

use crate::gameboy::cartridge::load_new_ram;
use crate::gameboy::cartridge::pad;
use crate::gameboy::cartridge::padded;
use crate::gameboy::cartridge::restored_ram;
use crate::gameboy::cartridge::Cartridge;
use crate::gameboy::cartridge::CartridgeView;
use crate::gameboy::cartridge::Controller;
use crate::gameboy::cartridge::RAM_BANK_SIZE;
use crate::gameboy::cartridge::ROM_BANK_SIZE;

verus! {

pub struct MBC5 {
    pub is_ram_enabled: bool,
    pub num_rom_banks: u16,
    pub num_ram_banks: u16,
    pub current_rom_bank: usize,
    pub current_ram_bank: usize,
    pub rom: Vec<u8>,
    pub ram: Vec<u8>,
}

impl MBC5 {
    pub fn new(rom: Vec<u8>, _cartridge_type_code: u8, num_rom_banks: u16, num_ram_banks: u16) -> (cartridge: Self)
        ensures
            cartridge.wf(),
            cartridge.model() =~= CartridgeView::fresh(
                Controller::Mbc5,
                padded(rom@, num_rom_banks * 0x4000),
                restored_ram(None, num_ram_banks),
            ),
    {
        let mut rom = rom;
        pad(&mut rom, num_rom_banks as usize * ROM_BANK_SIZE);
        let mut ram: Vec<u8> = Vec::new();
        load_new_ram(&mut ram, num_ram_banks);
        Self {
            is_ram_enabled: false,
            num_rom_banks,
            num_ram_banks,
            current_rom_bank: 1,
            current_ram_bank: 0,
            rom,
            ram,
        }
    }
}

impl Cartridge for MBC5 {
    open spec fn wf(&self) -> bool {
        &&& self.current_rom_bank < 512
        &&& self.current_ram_bank < 16
    }

    open spec fn model(&self) -> CartridgeView {
        CartridgeView {
            ram_enabled: self.is_ram_enabled,
            rom_bank: self.current_rom_bank as int,
            ram_bank: self.current_ram_bank as int,
            ..CartridgeView::fresh(Controller::Mbc5, self.rom@, self.ram@)
        }
    }

    fn read_rom(&self, addr: u16) -> (val: u8) {
        let index = if addr < 0x4000 {
            addr as usize
        } else {
            self.current_rom_bank * ROM_BANK_SIZE + (addr as usize - 0x4000)
        };
        if index < self.rom.len() {
            self.rom[index]
        } else {
            0xFF
        }
    }

    fn write_rom(&mut self, addr: u16, value: u8) {
        if addr < 0x2000 {
            self.is_ram_enabled = value % 16 == 0x0A;
        } else if addr < 0x3000 {
            self.current_rom_bank = self.current_rom_bank / 256 * 256 + value as usize;
        } else if addr < 0x4000 {
            self.current_rom_bank = self.current_rom_bank % 256 + (value % 2) as usize * 256;
        } else if addr < 0x6000 {
            if value <= 0x0F {
                self.current_ram_bank = value as usize;
            }
        }
    }

    fn read_ram(&self, addr: u16) -> (val: u8) {
        if !self.is_ram_enabled {
            return 0xFF;
        }
        let index = self.current_ram_bank * RAM_BANK_SIZE + addr as usize;
        if index < self.ram.len() {
            self.ram[index]
        } else {
            0xFF
        }
    }

    fn write_ram(&mut self, addr: u16, value: u8) {
        if !self.is_ram_enabled {
            return ;
        }
        let index = self.current_ram_bank * RAM_BANK_SIZE + addr as usize;
        if index < self.ram.len() {
            self.ram.set(index, value);
        }
    }
}

} // verus!
