//! The background and window fetcher and the FIFO it fills.
//!
//! The fetcher works in steps of two master cycles: it reads a tile number
//! from the tile map, then the low and the high bit plane of the tile's row,
//! and then tries, cycle after cycle, to push the eight pixels of the row
//! into the FIFO, which takes them only when it is empty.
use vstd::prelude::*;

use crate::gameboy::mmu::Mmu;
use crate::gameboy::mmu::MmuView;
use crate::gameboy::ppu::color_at;
use crate::gameboy::ppu::plane_color;
use crate::gameboy::ppu::LcdControlFlag;

verus! {

/// What the fetcher is fetching.
#[derive(Clone, Copy, PartialEq, Eq, Structural, Debug)]
pub enum FetchMode {
    Background,
    Window,
}

/// The background FIFO. It only ever takes a whole row of eight pixels, so
/// it keeps the two bit planes of that row and the number of pixels left;
/// the pixels leave from bit 7 down.
#[derive(Clone, Copy, Debug)]
pub struct BgFifo {
    pub low: u8,
    pub high: u8,
    pub len: u8,
}

impl BgFifo {
    pub open spec fn wf(self) -> bool {
        self.len <= 8
    }

    /// The empty FIFO.
    pub open spec fn empty() -> BgFifo {
        BgFifo { low: 0, high: 0, len: 0 }
    }

    /// The color number at the head of a FIFO that is not empty.
    pub open spec fn head(self) -> u8 {
        plane_color(self.low, self.high, (self.len - 1) as u8)
    }

    /// The FIFO without its head.
    pub open spec fn popped(self) -> BgFifo {
        BgFifo { len: (self.len - 1) as u8, ..self }
    }

    pub fn new() -> (fifo: Self)
        ensures
            fifo == Self::empty(),
    {
        Self { low: 0, high: 0, len: 0 }
    }

    pub fn clear(&mut self)
        ensures
            *final(self) == Self::empty(),
    {
        self.low = 0;
        self.high = 0;
        self.len = 0;
    }

    /// Takes the pixel at the head.
    pub fn pop_front(&mut self) -> (color: u8)
        requires
            old(self).wf(),
            old(self).len > 0,
        ensures
            *final(self) == old(self).popped(),
            final(self).wf(),
            color == old(self).head(),
            color < 4,
    {
        self.len -= 1;
        color_at(self.low, self.high, self.len)
    }
}

#[derive(Clone, Copy, Debug)]
pub struct BgFetcher {
    pub mode: FetchMode,
    /// Master cycles spent on the tile in progress.
    pub cycle: u8,
    /// Tiles pushed on this scanline.
    pub tile_counter: u16,
    pub tile_data_addr: u16,
    pub tile_num: u16,
    pub low_data: u8,
    pub high_data: u8,
}

/// The start of the background tile map that LCDC selects.
pub open spec fn bg_map_start(lcdc: u8) -> u16 {
    if LcdControlFlag::BGTileMapAddress.set_in(lcdc) {
        0x9C00
    } else {
        0x9800
    }
}

/// The start of the window tile map that LCDC selects.
pub open spec fn window_map_start(lcdc: u8) -> u16 {
    if LcdControlFlag::WindowTileMapAddress.set_in(lcdc) {
        0x9C00
    } else {
        0x9800
    }
}

/// The place of a tile in tile data, counted in tiles from 0x8000, for a
/// tile number from the map. Unsigned numbering counts from 0x8000; signed
/// numbering counts around 0x9000, so numbers from 128 on lie below it.
pub open spec fn adjusted_tile_index(tile: u8, signed_tile_index: bool) -> u16 {
    if !signed_tile_index {
        tile as u16
    } else if tile < 128 {
        (tile + 256) as u16
    } else {
        tile as u16
    }
}

impl BgFetcher {
    pub open spec fn wf(self) -> bool {
        &&& self.tile_num < 384
        &&& 0x8000 <= self.tile_data_addr < 0x9FFF
    }

    /// The fetcher at the start of a scanline.
    pub open spec fn initial() -> BgFetcher {
        BgFetcher {
            mode: FetchMode::Background,
            cycle: 0,
            tile_counter: 0,
            tile_data_addr: 0x8000,
            tile_num: 0,
            low_data: 0,
            high_data: 0,
        }
    }

    /// The address in the tile map of the tile to fetch. For the background
    /// the scroll registers pick row and column, both wrapping around the
    /// map of 32 by 32 tiles; for the window the line counter of the window
    /// picks the row and the tiles pushed so far pick the column.
    pub open spec fn map_addr(self, bus: MmuView, window_line_counter: u8) -> u16 {
        match self.mode {
            FetchMode::Background => (bg_map_start(bus.io(0x40)) + (bus.io(0x44) + bus.io(0x42)) % 256 / 8
                * 32 + (bus.io(0x43) / 8 + self.tile_counter) % 32) as u16,
            FetchMode::Window => (window_map_start(bus.io(0x40)) + window_line_counter / 8 * 32
                + self.tile_counter % 32) as u16,
        }
    }

    /// The row of the tile to fetch, times the two bytes that a row takes.
    pub open spec fn row_offset(self, bus: MmuView, window_line_counter: u8) -> u16 {
        match self.mode {
            FetchMode::Background => ((bus.io(0x44) + bus.io(0x42)) % 8 * 2) as u16,
            FetchMode::Window => (window_line_counter % 8 * 2) as u16,
        }
    }

    /// The cycle count of the next master cycle.
    pub open spec fn next_cycle(self) -> u8 {
        if self.cycle == 255 {
            255
        } else {
            (self.cycle + 1) as u8
        }
    }

    /// The fetcher after one master cycle, given the FIFO it feeds.
    pub open spec fn ticked(self, bus: MmuView, fifo: BgFifo, window_line_counter: u8) -> BgFetcher {
        let cycle = self.next_cycle();
        if cycle == 2 {
            BgFetcher {
                cycle,
                tile_num: adjusted_tile_index(
                    bus.memory[self.map_addr(bus, window_line_counter) as int],
                    !LcdControlFlag::BGAndWindowTileData.set_in(bus.io(0x40)),
                ),
                ..self
            }
        } else if cycle == 4 {
            BgFetcher {
                cycle,
                tile_data_addr: (0x8000 + self.tile_num * 16 + self.row_offset(
                    bus,
                    window_line_counter,
                )) as u16,
                low_data: bus.memory[0x8000 + self.tile_num * 16 + self.row_offset(
                    bus,
                    window_line_counter,
                )],
                ..self
            }
        } else if cycle == 6 {
            BgFetcher { cycle, high_data: bus.memory[self.tile_data_addr + 1], ..self }
        } else if cycle >= 8 && fifo.len == 0 {
            BgFetcher {
                cycle: 0,
                tile_counter: if self.tile_counter == 0xFFFF {
                    0
                } else {
                    (self.tile_counter + 1) as u16
                },
                ..self
            }
        } else {
            BgFetcher { cycle, ..self }
        }
    }

    /// The FIFO after one master cycle of the fetcher: from its eighth
    /// cycle on, the fetcher fills the FIFO as soon as it is empty.
    pub open spec fn fed(self, fifo: BgFifo) -> BgFifo {
        if self.next_cycle() >= 8 && fifo.len == 0 {
            BgFifo { low: self.low_data, high: self.high_data, len: 8 }
        } else {
            fifo
        }
    }

    pub fn new() -> (fetcher: Self)
        ensures
            fetcher == Self::initial(),
            fetcher.wf(),
    {
        Self {
            mode: FetchMode::Background,
            cycle: 0,
            tile_counter: 0,
            tile_data_addr: 0x8000,
            tile_num: 0,
            low_data: 0,
            high_data: 0,
        }
    }

    pub fn reset(&mut self)
        ensures
            *final(self) == Self::initial(),
            final(self).wf(),
    {
        self.mode = FetchMode::Background;
        self.cycle = 0;
        self.tile_counter = 0;
        self.tile_data_addr = 0x8000;
        self.tile_num = 0;
        self.low_data = 0;
        self.high_data = 0;
    }

    /// Turns a tile number from the map into a place in tile data.
    pub fn get_adjusted_tile_index(mmu: &Mmu, addr: u16, signed_tile_index: bool) -> (index: u16)
        requires
            mmu.wf(),
        ensures
            index == adjusted_tile_index(mmu@.memory[addr as int], signed_tile_index),
            index < 384,
    {
        let tile = mmu.memory[addr as usize];
        if !signed_tile_index {
            tile as u16
        } else if tile < 128 {
            tile as u16 + 256
        } else {
            tile as u16
        }
    }

    pub fn get_bg_map_start_addr(ldlc_flags: u8) -> (addr: u16)
        ensures
            addr == bg_map_start(ldlc_flags),
    {
        if LcdControlFlag::BGTileMapAddress.is_set(ldlc_flags) {
            0x9C00
        } else {
            0x9800
        }
    }

    pub fn get_window_map_start_addr(ldlc_flags: u8) -> (addr: u16)
        ensures
            addr == window_map_start(ldlc_flags),
    {
        if LcdControlFlag::WindowTileMapAddress.is_set(ldlc_flags) {
            0x9C00
        } else {
            0x9800
        }
    }

    fn tile_map_addr(&self, mmu: &Mmu, window_line_counter: u8) -> (addr: u16)
        requires
            mmu.wf(),
        ensures
            addr == self.map_addr(mmu@, window_line_counter),
    {
        let ldlc_flags = mmu.io(0x40);
        match self.mode {
            FetchMode::Background => {
                let scan_line = mmu.io(0x44);
                let scroll_y = mmu.io(0x42);
                let scroll_x = mmu.io(0x43);
                let tile_y = scan_line.wrapping_add(scroll_y) / 8;
                let tile_x = ((scroll_x / 8) as u32 + self.tile_counter as u32) % 32;
                Self::get_bg_map_start_addr(ldlc_flags) + tile_y as u16 * 32 + tile_x as u16
            },
            FetchMode::Window => {
                Self::get_window_map_start_addr(ldlc_flags) + (window_line_counter / 8) as u16 * 32
                    + self.tile_counter % 32
            },
        }
    }

    fn tile_row_offset(&self, mmu: &Mmu, window_line_counter: u8) -> (offset: u16)
        requires
            mmu.wf(),
        ensures
            offset == self.row_offset(mmu@, window_line_counter),
            offset < 16,
    {
        match self.mode {
            FetchMode::Background => {
                let scan_line = mmu.io(0x44);
                let scroll_y = mmu.io(0x42);
                (scan_line.wrapping_add(scroll_y) % 8 * 2) as u16
            },
            FetchMode::Window => (window_line_counter % 8 * 2) as u16,
        }
    }

    /// Advances the fetcher by one master cycle.
    pub fn tick(&mut self, mmu: &Mmu, pixel_fifo: &mut BgFifo, window_line_counter: u8)
        requires
            old(self).wf(),
            old(pixel_fifo).wf(),
            mmu.wf(),
        ensures
            final(self).wf(),
            final(pixel_fifo).wf(),
            *final(self) == old(self).ticked(mmu@, *old(pixel_fifo), window_line_counter),
            *final(pixel_fifo) == old(self).fed(*old(pixel_fifo)),
    {
        if self.cycle < 255 {
            self.cycle += 1;
        }
        if self.cycle == 2 {
            let map_addr = self.tile_map_addr(mmu, window_line_counter);
            let signed_tile_addressing = !LcdControlFlag::BGAndWindowTileData.is_set(mmu.io(0x40));
            self.tile_num = Self::get_adjusted_tile_index(mmu, map_addr, signed_tile_addressing);
        } else if self.cycle == 4 {
            let offset = self.tile_row_offset(mmu, window_line_counter);
            self.tile_data_addr = 0x8000 + self.tile_num * 16 + offset;
            self.low_data = mmu.memory[self.tile_data_addr as usize];
        } else if self.cycle == 6 {
            self.high_data = mmu.memory[self.tile_data_addr as usize + 1];
        } else if self.cycle >= 8 {
            if pixel_fifo.len == 0 {
                pixel_fifo.low = self.low_data;
                pixel_fifo.high = self.high_data;
                pixel_fifo.len = 8;
                self.cycle = 0;
                self.tile_counter = self.tile_counter.wrapping_add(1);
            }
        }
    }
}

} // verus!
