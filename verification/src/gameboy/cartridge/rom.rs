//! A cartridge without a bank controller: 32 KiB of ROM and no RAM.
use vstd::prelude::*;

use crate::gameboy::cartridge::pad;
use crate::gameboy::cartridge::padded;
use crate::gameboy::cartridge::Cartridge;
use crate::gameboy::cartridge::CartridgeView;
use crate::gameboy::cartridge::Controller;

verus! {

pub struct ROM {
    pub rom: Vec<u8>,
}

impl ROM {
    /// Takes the first two banks of a ROM image.
    pub fn new(rom: Vec<u8>) -> (cartridge: Self)
        ensures
            cartridge.wf(),
            cartridge.model() =~= CartridgeView::fresh(
                Controller::Rom,
                padded(rom@, 0x8000),
                Seq::empty(),
            ),
    {
        let mut rom = rom;
        pad(&mut rom, 0x8000);
        Self { rom }
    }
}

impl Cartridge for ROM {
    open spec fn wf(&self) -> bool {
        self.rom.len() == 0x8000
    }

    open spec fn model(&self) -> CartridgeView {
        CartridgeView::fresh(Controller::Rom, self.rom@, Seq::empty())
    }

    fn read_rom(&self, addr: u16) -> (val: u8) {
        self.rom[addr as usize]
    }

    fn write_rom(&mut self, _addr: u16, _value: u8) {
    }

    fn read_ram(&self, _addr: u16) -> (val: u8) {
        0xFF
    }

    fn write_ram(&mut self, _addr: u16, _value: u8) {
    }
}

} // verus!
