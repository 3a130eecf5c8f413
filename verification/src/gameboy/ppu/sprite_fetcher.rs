//! The sprite fetcher. It takes six master cycles for a sprite: it reads the
//! low bit plane of the sprite's row in the second, the high one in the
//! fourth, and mixes the eight pixels into the sprite FIFO in the sixth.
use vstd::prelude::*;

use crate::gameboy::mmu::Mmu;
use crate::gameboy::mmu::MmuView;
use crate::gameboy::ppu::color_at;
use crate::gameboy::ppu::plane_color;
use crate::gameboy::ppu::FifoPixel;
use crate::gameboy::ppu::LcdControlFlag;
use crate::gameboy::ppu::Sprite;

verus! {

#[derive(Clone, Copy, Debug)]
pub struct SpriteFetcher {
    pub cycle: u8,
    pub tile_addr: u16,
    pub data_low: u8,
    pub data_high: u8,
}

/// The height of sprites that LCDC selects.
pub open spec fn sprite_height(lcdc: u8) -> int {
    if LcdControlFlag::OBJSize.set_in(lcdc) {
        16
    } else {
        8
    }
}

/// The row of a sprite that scanline `ly` shows, counted from the top of
/// the sprite as it appears on the screen. Rows outside of the sprite count
/// as row 0.
pub open spec fn sprite_row(sprite: Sprite, ly: u8, height: int) -> int {
    if 0 <= ly + 16 - sprite.y < height {
        ly + 16 - sprite.y
    } else {
        0
    }
}

/// The offset into the tile data of a sprite of the row that scanline `ly`
/// shows: two bytes for each row, counted from the bottom row if the sprite
/// is flipped vertically.
pub open spec fn sprite_row_offset(sprite: Sprite, ly: u8, height: int) -> int {
    if sprite.yflip {
        (height - 1 - sprite_row(sprite, ly, height)) * 2
    } else {
        sprite_row(sprite, ly, height) * 2
    }
}

/// The pixel number `x`, counted from the left on the screen, of a sprite
/// row with the given bit planes.
pub open spec fn sprite_pixel(sprite: Sprite, low: u8, high: u8, x: u8) -> FifoPixel {
    FifoPixel {
        belowbg: sprite.belowbg,
        sprite_color_bit: plane_color(
            low,
            high,
            if sprite.xflip {
                x
            } else {
                (7 - x) as u8
            },
        ),
        sprite_palette: sprite.sprite_palette,
    }
}

/// The sprite FIFO after the pixels `x` to 7 of a sprite row have been mixed
/// in; `held` is the number of pixels that the FIFO held before the first
/// of the eight. A pixel left of the screen is dropped. Pixel `x` goes to
/// slot `x` if the FIFO held a pixel there, and replaces that pixel only if
/// it is transparent; otherwise it is appended.
pub open spec fn mixed_from(
    fifo: Seq<FifoPixel>,
    held: int,
    sprite: Sprite,
    low: u8,
    high: u8,
    x: u8,
) -> Seq<FifoPixel>
    decreases 8 - x,
{
    if x >= 8 {
        fifo
    } else if sprite.x + x < 8 {
        mixed_from(fifo, held, sprite, low, high, (x + 1) as u8)
    } else if x < held {
        if 0 <= x < fifo.len() && fifo[x as int].sprite_color_bit == 0 {
            mixed_from(
                fifo.update(x as int, sprite_pixel(sprite, low, high, x)),
                held,
                sprite,
                low,
                high,
                (x + 1) as u8,
            )
        } else {
            mixed_from(fifo, held, sprite, low, high, (x + 1) as u8)
        }
    } else {
        mixed_from(
            fifo.push(sprite_pixel(sprite, low, high, x)),
            held,
            sprite,
            low,
            high,
            (x + 1) as u8,
        )
    }
}

impl SpriteFetcher {
    pub open spec fn wf(self) -> bool {
        0x8000 <= self.tile_addr < 0x9FFF
    }

    /// The fetcher before its first sprite.
    pub open spec fn initial() -> SpriteFetcher {
        SpriteFetcher { cycle: 0, tile_addr: 0x8000, data_low: 0, data_high: 0 }
    }

    /// The cycle count of the next master cycle.
    pub open spec fn next_cycle(self) -> u8 {
        if self.cycle == 255 {
            255
        } else {
            (self.cycle + 1) as u8
        }
    }

    /// The address of the row of the sprite that the current scanline shows.
    pub open spec fn row_addr(bus: MmuView, sprite: Sprite) -> int {
        0x8000 + sprite.tile_num % 256 * 16 + sprite_row_offset(
            sprite,
            bus.io(0x44),
            sprite_height(bus.io(0x40)),
        )
    }

    /// The fetcher after one master cycle on a sprite.
    pub open spec fn ticked(self, bus: MmuView, sprite: Sprite) -> SpriteFetcher {
        let cycle = self.next_cycle();
        if cycle == 2 {
            SpriteFetcher {
                cycle,
                tile_addr: Self::row_addr(bus, sprite) as u16,
                data_low: bus.memory[Self::row_addr(bus, sprite)],
                ..self
            }
        } else if cycle == 4 {
            SpriteFetcher { cycle, data_high: bus.memory[self.tile_addr + 1], ..self }
        } else {
            SpriteFetcher { cycle, ..self }
        }
    }

    /// The sprite FIFO after one master cycle of the fetcher on a sprite: in
    /// its sixth cycle the fetcher mixes the row into the FIFO.
    pub open spec fn fed(self, fifo: Seq<FifoPixel>, sprite: Sprite) -> Seq<FifoPixel> {
        if self.next_cycle() == 6 {
            mixed_from(fifo, fifo.len() as int, sprite, self.data_low, self.data_high, 0)
        } else {
            fifo
        }
    }

    pub fn new() -> (fetcher: Self)
        ensures
            fetcher == Self::initial(),
            fetcher.wf(),
    {
        Self { cycle: 0, tile_addr: 0x8000, data_low: 0, data_high: 0 }
    }

    pub fn reset(&mut self)
        ensures
            *final(self) == Self::initial(),
            final(self).wf(),
    {
        self.cycle = 0;
        self.tile_addr = 0x8000;
        self.data_low = 0;
        self.data_high = 0;
    }

    fn tile_row_addr(mmu: &Mmu, sprite: &Sprite) -> (addr: u16)
        requires
            mmu.wf(),
        ensures
            addr == Self::row_addr(mmu@, *sprite),
            0x8000 <= addr < 0x9FFF,
    {
        let height: u16 = if LcdControlFlag::OBJSize.is_set(mmu.io(0x40)) {
            16
        } else {
            8
        };
        let top = mmu.io(0x44) as u16 + 16;
        let row: u16 = if top >= sprite.y as u16 && top - (sprite.y as u16) < height {
            top - sprite.y as u16
        } else {
            0
        };
        let offset = if sprite.yflip {
            (height - 1 - row) * 2
        } else {
            row * 2
        };
        0x8000 + sprite.tile_num % 256 * 16 + offset
    }

    /// Advances the fetcher by one master cycle on a sprite.
    #[verifier::rlimit(100)]
    pub fn tick(&mut self, mmu: &Mmu, sprite_fifo: &mut Vec<FifoPixel>, sprite: &Sprite)
        requires
            old(self).wf(),
            mmu.wf(),
            old(sprite_fifo).len() <= 8,
        ensures
            final(self).wf(),
            *final(self) == old(self).ticked(mmu@, *sprite),
            final(sprite_fifo)@ == old(self).fed(old(sprite_fifo)@, *sprite),
            final(sprite_fifo).len() <= 8,
    {
        if self.cycle < 255 {
            self.cycle += 1;
        }
        if self.cycle == 2 {
            self.tile_addr = Self::tile_row_addr(mmu, sprite);
            self.data_low = mmu.memory[self.tile_addr as usize];
        } else if self.cycle == 4 {
            self.data_high = mmu.memory[self.tile_addr as usize + 1];
        } else if self.cycle == 6 {
            let held = sprite_fifo.len();
            let mut x: u8 = 0;
            while x < 8
                invariant
                    x <= 8,
                    held <= 8,
                    held <= sprite_fifo.len() <= 8,
                    *self == old(self).ticked(mmu@, *sprite),
                    self.wf(),
                    mixed_from(
                        sprite_fifo@,
                        held as int,
                        *sprite,
                        self.data_low,
                        self.data_high,
                        x,
                    ) == mixed_from(
                        old(sprite_fifo)@,
                        held as int,
                        *sprite,
                        old(self).data_low,
                        old(self).data_high,
                        0,
                    ),
                    sprite_fifo.len() <= if held as int > x as int {
                        held as int
                    } else {
                        x as int
                    },
                decreases 8 - x,
            {
                if sprite.x as u16 + x as u16 >= 8 {
                    let bit_index = if sprite.xflip {
                        x
                    } else {
                        7 - x
                    };
                    let px_data = FifoPixel {
                        belowbg: sprite.belowbg,
                        sprite_color_bit: color_at(self.data_low, self.data_high, bit_index),
                        sprite_palette: sprite.sprite_palette,
                    };
                    if (x as usize) < held {
                        if sprite_fifo[x as usize].sprite_color_bit == 0 {
                            sprite_fifo.set(x as usize, px_data);
                        }
                    } else {
                        sprite_fifo.push(px_data);
                    }
                }
                x += 1;
            }
        }
    }
}

} // verus!
