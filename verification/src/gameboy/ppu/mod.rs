//! The picture unit: a scanline scheduler around a pixel pipeline of two
//! fetchers and two FIFOs.
use vstd::prelude::*;

pub mod bg_fetcher;
pub mod frame;
pub mod pipeline;
pub mod scanline;
pub mod sprite_fetcher;

use crate::gameboy::bits::bit;
use crate::gameboy::bits::has_bit;
use crate::gameboy::bits::set_bit;
use crate::gameboy::bits::with_bit;
use crate::gameboy::mmu::Mmu;
use crate::gameboy::mmu::MmuView;
use crate::gameboy::ppu::bg_fetcher::BgFetcher;
use crate::gameboy::ppu::bg_fetcher::BgFifo;
use crate::gameboy::ppu::sprite_fetcher::sprite_height;
use crate::gameboy::ppu::sprite_fetcher::SpriteFetcher;

verus! {

/// The width of the screen in pixels.
pub const SCREEN_WIDTH: usize = 160;

/// The height of the screen in pixels.
pub const SCREEN_HEIGHT: usize = 144;

/// The four modes of the picture unit, numbered as STAT shows them.
#[derive(Clone, Copy, PartialEq, Eq, Structural, Debug)]
pub enum PpuMode {
    /// Mode 0: the rest of a scanline after its pixels have been drawn.
    HBlank,
    /// Mode 1: the ten scanlines after the last visible one.
    VBlank,
    /// Mode 2: the search of object attribute memory for the sprites of the
    /// scanline.
    OAM,
    /// Mode 3: the transfer of pixels to the screen.
    VRAM,
}

impl PpuMode {
    /// The mode that a two-bit number stands for.
    pub open spec fn of(val: u8) -> PpuMode {
        if val == 0 {
            PpuMode::HBlank
        } else if val == 1 {
            PpuMode::VBlank
        } else if val == 2 {
            PpuMode::OAM
        } else {
            PpuMode::VRAM
        }
    }

    /// The number of the mode.
    pub open spec fn index(self) -> u8 {
        match self {
            PpuMode::HBlank => 0,
            PpuMode::VBlank => 1,
            PpuMode::OAM => 2,
            PpuMode::VRAM => 3,
        }
    }

    pub fn from_u8(val: u8) -> (mode: Self)
        requires
            val < 4,
        ensures
            mode == Self::of(val),
    {
        if val == 0 {
            PpuMode::HBlank
        } else if val == 1 {
            PpuMode::VBlank
        } else if val == 2 {
            PpuMode::OAM
        } else {
            PpuMode::VRAM
        }
    }

    pub fn into_u8(self) -> (val: u8)
        ensures
            val == self.index(),
            val < 4,
    {
        match self {
            PpuMode::HBlank => 0,
            PpuMode::VBlank => 1,
            PpuMode::OAM => 2,
            PpuMode::VRAM => 3,
        }
    }
}

/// The bits of the LCD control register.
#[derive(Clone, Copy, PartialEq, Eq, Structural, Debug)]
pub enum LcdControlFlag {
    /// Bit 0: the background is drawn.
    BGEnable,
    /// Bit 1: sprites are drawn.
    OBJEnable,
    /// Bit 2: sprites are 16 pixels high instead of 8.
    OBJSize,
    /// Bit 3: the background map is at 0x9C00 instead of 0x9800.
    BGTileMapAddress,
    /// Bit 4: background and window tiles are numbered from 0x8000, unsigned,
    /// instead of around 0x9000, signed.
    BGAndWindowTileData,
    /// Bit 5: the window is drawn.
    WindowEnable,
    /// Bit 6: the window map is at 0x9C00 instead of 0x9800.
    WindowTileMapAddress,
    /// Bit 7: the LCD is on.
    LCDDisplayEnable,
}

impl LcdControlFlag {
    /// The position of the flag in the register.
    pub open spec fn index(self) -> u8 {
        match self {
            LcdControlFlag::BGEnable => 0,
            LcdControlFlag::OBJEnable => 1,
            LcdControlFlag::OBJSize => 2,
            LcdControlFlag::BGTileMapAddress => 3,
            LcdControlFlag::BGAndWindowTileData => 4,
            LcdControlFlag::WindowEnable => 5,
            LcdControlFlag::WindowTileMapAddress => 6,
            LcdControlFlag::LCDDisplayEnable => 7,
        }
    }

    /// Whether the flag is set in a value of the register.
    pub open spec fn set_in(self, lcdc: u8) -> bool {
        has_bit(lcdc as int, self.index())
    }

    pub fn bit_index(self) -> (n: u8)
        ensures
            n == self.index(),
            n < 8,
    {
        match self {
            LcdControlFlag::BGEnable => 0,
            LcdControlFlag::OBJEnable => 1,
            LcdControlFlag::OBJSize => 2,
            LcdControlFlag::BGTileMapAddress => 3,
            LcdControlFlag::BGAndWindowTileData => 4,
            LcdControlFlag::WindowEnable => 5,
            LcdControlFlag::WindowTileMapAddress => 6,
            LcdControlFlag::LCDDisplayEnable => 7,
        }
    }

    /// Tests the flag in a value of the register.
    pub fn is_set(self, lcdc: u8) -> (set: bool)
        ensures
            set == self.set_in(lcdc),
    {
        bit(lcdc, self.bit_index())
    }
}

/// A sprite as the search of object attribute memory found it.
#[derive(Clone, Copy, Debug)]
pub struct Sprite {
    /// The vertical position plus 16.
    pub y: u8,
    /// The horizontal position plus 8.
    pub x: u8,
    pub tile_num: u16,
    /// Which of the two object palettes colors the sprite.
    pub sprite_palette: u8,
    pub xflip: bool,
    pub yflip: bool,
    /// The sprite hides behind every background color but color 0.
    pub belowbg: bool,
}

impl Sprite {
    /// A sprite with every attribute at zero.
    pub open spec fn blank() -> Sprite {
        Sprite {
            y: 0,
            x: 0,
            tile_num: 0,
            sprite_palette: 0,
            xflip: false,
            yflip: false,
            belowbg: false,
        }
    }

    pub fn default() -> (sprite: Self)
        ensures
            sprite == Self::blank(),
    {
        Self {
            y: 0,
            x: 0,
            tile_num: 0,
            sprite_palette: 0,
            xflip: false,
            yflip: false,
            belowbg: false,
        }
    }
}

/// One pixel of a sprite on its way to the screen.
#[derive(Clone, Copy, Debug)]
pub struct FifoPixel {
    pub sprite_palette: u8,
    /// The color number, 0 to 3; 0 is transparent.
    pub sprite_color_bit: u8,
    pub belowbg: bool,
}

/// The color number that two bit planes give at bit `n`.
pub open spec fn plane_color(low: u8, high: u8, n: u8) -> u8 {
    ((if has_bit(low as int, n) {
        1int
    } else {
        0int
    }) + (if has_bit(high as int, n) {
        2int
    } else {
        0int
    })) as u8
}

/// Reads the color number that two bit planes give at bit `n`.
pub fn color_at(low: u8, high: u8, n: u8) -> (color: u8)
    requires
        n < 8,
    ensures
        color == plane_color(low, high, n),
        color < 4,
{
    let low_bit: u8 = if bit(low, n) { 1 } else { 0 };
    let high_bit: u8 = if bit(high, n) { 2 } else { 0 };
    low_bit + high_bit
}

pub struct Ppu {
    pub mode: PpuMode,
    /// One shade for each pixel of the screen, row by row.
    pub frame_buffer: Vec<u8>,
    /// The sprites of the scanline, ordered by their x position.
    pub fifo_sprite_buffer: Vec<Sprite>,
    /// The place in the sprite buffer of the next sprite to draw.
    pub fifo_sprite_cursor: usize,
    /// The number of scanlines of this frame that have shown the window.
    pub window_internal_line_counter: u8,
    pub bg_fifo: BgFifo,
    pub sprite_fifo: Vec<FifoPixel>,
    pub bg_fetcher: BgFetcher,
    pub sprite_fetcher: SpriteFetcher,
    /// Pixels dropped so far for the fine horizontal scroll.
    pub fifo_scx_skipped: u8,
    /// Pixels dropped so far for a window that starts left of the screen.
    pub fifo_wx_skipped: u8,
    /// Set once the pipeline has switched to the window on this scanline.
    pub fifo_wy_ly_equal: bool,
    /// The screen column of the next pixel.
    pub fifo_current_x: usize,
    /// Set while the sprite fetcher is at work and the pipeline waits.
    pub fifo_sprite_fetch: bool,
    /// Set while the LCD is off and the unit has been put back to rest.
    pub reset: bool,
    pub mode_clock_cycles: u64,
    pub line_clock_cycles: u64,
    pub frame_clock_cycles: u64,
    /// Set once WY has matched LY at the start of a scanline of this frame.
    pub wy_ly_equality_latch: bool,
    /// Set when a whole frame has been drawn and may be shown.
    pub draw_flag: bool,
    /// Set on scanline 153 once LY has gone back to 0 ahead of time.
    pub ly_153_early: bool,
    /// Set during the shortened first scanline after the LCD came on.
    pub power_on_line_0: bool,
}

/// The mathematical content of a [`Ppu`].
#[verifier::ext_equal]
pub struct PpuView {
    pub mode: PpuMode,
    pub frame_buffer: Seq<u8>,
    pub fifo_sprite_buffer: Seq<Sprite>,
    pub fifo_sprite_cursor: usize,
    pub window_internal_line_counter: u8,
    pub bg_fifo: BgFifo,
    pub sprite_fifo: Seq<FifoPixel>,
    pub bg_fetcher: BgFetcher,
    pub sprite_fetcher: SpriteFetcher,
    pub fifo_scx_skipped: u8,
    pub fifo_wx_skipped: u8,
    pub fifo_wy_ly_equal: bool,
    pub fifo_current_x: usize,
    pub fifo_sprite_fetch: bool,
    pub reset: bool,
    pub mode_clock_cycles: u64,
    pub line_clock_cycles: u64,
    pub frame_clock_cycles: u64,
    pub wy_ly_equality_latch: bool,
    pub draw_flag: bool,
    pub ly_153_early: bool,
    pub power_on_line_0: bool,
}

impl View for Ppu {
    type V = PpuView;

    open spec fn view(&self) -> PpuView {
        PpuView {
            mode: self.mode,
            frame_buffer: self.frame_buffer@,
            fifo_sprite_buffer: self.fifo_sprite_buffer@,
            fifo_sprite_cursor: self.fifo_sprite_cursor,
            window_internal_line_counter: self.window_internal_line_counter,
            bg_fifo: self.bg_fifo,
            sprite_fifo: self.sprite_fifo@,
            bg_fetcher: self.bg_fetcher,
            sprite_fetcher: self.sprite_fetcher,
            fifo_scx_skipped: self.fifo_scx_skipped,
            fifo_wx_skipped: self.fifo_wx_skipped,
            fifo_wy_ly_equal: self.fifo_wy_ly_equal,
            fifo_current_x: self.fifo_current_x,
            fifo_sprite_fetch: self.fifo_sprite_fetch,
            reset: self.reset,
            mode_clock_cycles: self.mode_clock_cycles,
            line_clock_cycles: self.line_clock_cycles,
            frame_clock_cycles: self.frame_clock_cycles,
            wy_ly_equality_latch: self.wy_ly_equality_latch,
            draw_flag: self.draw_flag,
            ly_153_early: self.ly_153_early,
            power_on_line_0: self.power_on_line_0,
        }
    }
}

/// The bus with the mode field of STAT set.
pub open spec fn with_stat_mode(bus: MmuView, mode: PpuMode) -> MmuView {
    bus.with_io(0x41, (bus.io(0x41) - bus.io(0x41) % 4 + mode.index()) as u8)
}

/// The bus with bit 2 of STAT showing whether LY matches LYC.
pub open spec fn ly_checked(bus: MmuView) -> MmuView {
    bus.with_io(0x41, with_bit(bus.io(0x41), 2, bus.io(0x44) == bus.io(0x45)))
}

/// The scanline after `ly`, wrapping at the width of the register.
pub open spec fn next_line(ly: u8) -> u8 {
    if ly == 255 {
        0
    } else {
        (ly + 1) as u8
    }
}

/// The sprite that entry `i` of object attribute memory describes.
pub open spec fn sprite_at(bus: MmuView, i: int) -> Sprite {
    let base = 0xFE00 + i * 4;
    let tile = bus.memory[base + 2];
    let flags = bus.memory[base + 3];
    Sprite {
        y: bus.memory[base],
        x: bus.memory[base + 1],
        tile_num: if sprite_height(bus.io(0x40)) == 16 {
            (tile - tile % 2) as u16
        } else {
            tile as u16
        },
        sprite_palette: if has_bit(flags as int, 4) {
            1
        } else {
            0
        },
        xflip: has_bit(flags as int, 5),
        yflip: has_bit(flags as int, 6),
        belowbg: has_bit(flags as int, 7),
    }
}

/// Whether a sprite shows on scanline `ly`: it is not parked at x = 0, and
/// the scanline falls into its height.
pub open spec fn on_line(sprite: Sprite, ly: u8, height: int) -> bool {
    sprite.x > 0 && ly + 16 >= sprite.y && ly + 16 < sprite.y + height
}

/// Where a sprite at `x` goes into a buffer ordered by x: behind every
/// sprite that is not further right, so that sprites at the same x keep the
/// order in which they came.
pub open spec fn insert_position(sprites: Seq<Sprite>, x: u8) -> int
    decreases sprites.len(),
{
    if sprites.len() == 0 {
        0
    } else if sprites.last().x <= x {
        sprites.len() as int
    } else {
        insert_position(sprites.drop_last(), x)
    }
}

/// The sprites of the current scanline among the first `n` entries of
/// object attribute memory: the first ten that show on the scanline, in the
/// order of their x position, and in the order of their entries where they
/// share one.
pub open spec fn selected_sprites(bus: MmuView, n: int) -> Seq<Sprite>
    decreases n,
{
    if n <= 0 {
        Seq::empty()
    } else {
        let earlier = selected_sprites(bus, n - 1);
        let sprite = sprite_at(bus, n - 1);
        if earlier.len() < 10 && on_line(sprite, bus.io(0x44), sprite_height(bus.io(0x40))) {
            earlier.insert(insert_position(earlier, sprite.x), sprite)
        } else {
            earlier
        }
    }
}

/// Whether a buffer of sprites is ordered by x.
pub open spec fn ordered_by_x(sprites: Seq<Sprite>) -> bool {
    forall|i: int, j: int| 0 <= i <= j < sprites.len() ==> sprites[i].x <= sprites[j].x
}

/// The place to insert at lies within the buffer, behind the sprites that
/// are not further right and ahead of those that are.
#[verifier::rlimit(100)]
pub proof fn lemma_insert_position(sprites: Seq<Sprite>, x: u8)
    requires
        ordered_by_x(sprites),
    ensures
        0 <= insert_position(sprites, x) <= sprites.len(),
        forall|i: int| 0 <= i < insert_position(sprites, x) ==> sprites[i].x <= x,
        forall|i: int| insert_position(sprites, x) <= i < sprites.len() ==> sprites[i].x > x,
    decreases sprites.len(),
{
    if sprites.len() > 0 {
        let last = sprites.len() - 1;
        if sprites[last].x > x {
            let front = sprites.drop_last();
            assert forall|i: int, j: int| 0 <= i <= j < front.len() implies front[i].x
                <= front[j].x by {
                assert(front[i] == sprites[i] && front[j] == sprites[j]);
            }
            lemma_insert_position(front, x);
            assert forall|i: int| 0 <= i < insert_position(sprites, x) implies sprites[i].x
                <= x by {
                assert(front[i] == sprites[i]);
            }
            assert forall|i: int| insert_position(sprites, x) <= i < sprites.len() implies sprites[i].x
                > x by {
                if i < last {
                    assert(front[i] == sprites[i]);
                }
            }
        } else {
            assert forall|i: int| 0 <= i < sprites.len() implies sprites[i].x <= x by {
                assert(sprites[i].x <= sprites[last].x);
            }
        }
    }
}

/// The search of object attribute memory gives at most ten sprites, ordered
/// by x, each of which shows on the scanline.
#[verifier::rlimit(100)]
pub proof fn lemma_selected_sprites(bus: MmuView, n: int)
    ensures
        selected_sprites(bus, n).len() <= 10,
        selected_sprites(bus, n).len() <= if n < 0 {
            0
        } else {
            n
        },
        ordered_by_x(selected_sprites(bus, n)),
        forall|i: int|
            0 <= i < selected_sprites(bus, n).len() ==> on_line(
                #[trigger] selected_sprites(bus, n)[i],
                bus.io(0x44),
                sprite_height(bus.io(0x40)),
            ),
    decreases n,
{
    if n > 0 {
        lemma_selected_sprites(bus, n - 1);
        let earlier = selected_sprites(bus, n - 1);
        let sprite = sprite_at(bus, n - 1);
        lemma_insert_position(earlier, sprite.x);
    }
}

impl Ppu {
    fn get_scan_line(mmu: &Mmu) -> (ly: u8)
        requires
            mmu.wf(),
        ensures
            ly == mmu@.io(0x44),
    {
        mmu.io(0x44)
    }

    fn set_scan_line(mmu: &mut Mmu, val: u8)
        requires
            old(mmu).wf(),
        ensures
            final(mmu).wf(),
            final(mmu)@ == old(mmu)@.with_io(0x44, val),
    {
        mmu.set_io(0x44, val);
    }

    fn inc_scan_line(mmu: &mut Mmu) -> (ly: u8)
        requires
            old(mmu).wf(),
        ensures
            final(mmu).wf(),
            final(mmu)@ == old(mmu)@.with_io(0x44, next_line(old(mmu)@.io(0x44))),
            ly == next_line(old(mmu)@.io(0x44)),
    {
        let next = mmu.io(0x44).wrapping_add(1);
        mmu.set_io(0x44, next);
        next
    }

    /// Shows a mode in the mode field of STAT.
    fn set_mode_lcdc(mmu: &mut Mmu, mode: PpuMode)
        requires
            old(mmu).wf(),
        ensures
            final(mmu).wf(),
            final(mmu)@ == with_stat_mode(old(mmu)@, mode),
    {
        let stat = mmu.io(0x41);
        mmu.set_io(0x41, stat - stat % 4 + mode.into_u8());
    }

    fn get_lyc(mmu: &Mmu) -> (lyc: u8)
        requires
            mmu.wf(),
        ensures
            lyc == mmu@.io(0x45),
    {
        mmu.io(0x45)
    }

    /// Shows in bit 2 of STAT whether LY matches LYC.
    fn check_ly_eq_lyc(mmu: &mut Mmu)
        requires
            old(mmu).wf(),
        ensures
            final(mmu).wf(),
            final(mmu)@ == ly_checked(old(mmu)@),
    {
        let matches_lyc = Self::get_scan_line(mmu) == Self::get_lyc(mmu);
        let stat = mmu.io(0x41);
        mmu.set_io(0x41, set_bit(stat, 2, matches_lyc));
    }

    /// Reads an entry of object attribute memory.
    fn read_sprite(mmu: &Mmu, i: usize) -> (sprite: Sprite)
        requires
            mmu.wf(),
            i < 40,
        ensures
            sprite == sprite_at(mmu@, i as int),
    {
        let base = 0xFE00 + i * 4;
        let tall = LcdControlFlag::OBJSize.is_set(mmu.io(0x40));
        let tile = mmu.memory[base + 2];
        let flags = mmu.memory[base + 3];
        Sprite {
            y: mmu.memory[base],
            x: mmu.memory[base + 1],
            tile_num: if tall {
                (tile - tile % 2) as u16
            } else {
                tile as u16
            },
            sprite_palette: if bit(flags, 4) {
                1
            } else {
                0
            },
            xflip: bit(flags, 5),
            yflip: bit(flags, 6),
            belowbg: bit(flags, 7),
        }
    }

    /// Finds the place for a sprite at `x` in a buffer ordered by x.
    fn find_insert_position(sprites: &Vec<Sprite>, x: u8) -> (position: usize)
        ensures
            position == insert_position(sprites@, x),
            position <= sprites.len(),
    {
        let mut position = sprites.len();
        assert(sprites@.take(position as int) =~= sprites@);
        while position > 0 && sprites[position - 1].x > x
            invariant
                position <= sprites.len(),
                insert_position(sprites@, x) == insert_position(sprites@.take(position as int), x),
            decreases position,
        {
            assert(sprites@.take(position as int).drop_last() =~= sprites@.take(position - 1));
            position -= 1;
        }
        position
    }

    /// Searches object attribute memory for the sprites of the current
    /// scanline.
    #[verifier::rlimit(100)]
    fn select_sprites(mmu: &Mmu) -> (sprites: Vec<Sprite>)
        requires
            mmu.wf(),
        ensures
            sprites@ == selected_sprites(mmu@, 40),
            sprites.len() <= 10,
    {
        let height: u16 = if LcdControlFlag::OBJSize.is_set(mmu.io(0x40)) {
            16
        } else {
            8
        };
        let scan_line = mmu.io(0x44) as u16;
        let mut sprites: Vec<Sprite> = Vec::new();
        let mut i: usize = 0;
        while i < 40
            invariant
                i <= 40,
                mmu.wf(),
                height == sprite_height(mmu@.io(0x40)),
                scan_line == mmu@.io(0x44),
                sprites@ == selected_sprites(mmu@, i as int),
                sprites.len() <= 10,
            decreases 40 - i,
        {
            let sprite = Self::read_sprite(mmu, i);
            if sprites.len() < 10 && sprite.x > 0 && scan_line + 16 >= sprite.y as u16 && scan_line
                + 16 < sprite.y as u16 + height {
                let position = Self::find_insert_position(&sprites, sprite.x);
                sprites.insert(position, sprite);
            }
            i += 1;
        }
        sprites
    }
}

} // verus!
