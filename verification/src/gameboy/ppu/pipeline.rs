//! The pixel pipeline of mode 3.
//!
//! Each master cycle the pipeline either waits for the sprite fetcher, or
//! makes way for a sprite that is due, or lets the background fetcher tick
//! and moves one pixel from the FIFOs towards the screen. Pixels are dropped
//! for the fine scroll at the start of a scanline; all others are mixed with
//! the sprite pixel at the same place and written to the frame buffer.
use vstd::prelude::*;

use crate::gameboy::mmu::palette_shade;
use crate::gameboy::mmu::Mmu;
use crate::gameboy::mmu::MmuView;
use crate::gameboy::ppu::bg_fetcher::BgFetcher;
use crate::gameboy::ppu::bg_fetcher::BgFifo;
use crate::gameboy::ppu::bg_fetcher::FetchMode;
use crate::gameboy::ppu::sprite_fetcher::SpriteFetcher;
use crate::gameboy::ppu::LcdControlFlag;
use crate::gameboy::ppu::Ppu;
use crate::gameboy::ppu::PpuMode;
use crate::gameboy::ppu::PpuView;

verus! {

impl PpuView {
    /// The invariant of the pipeline.
    pub open spec fn wf(self) -> bool {
        &&& self.frame_buffer.len() == 160 * 144
        &&& self.fifo_sprite_buffer.len() <= 10
        &&& self.fifo_sprite_cursor <= self.fifo_sprite_buffer.len()
        &&& self.fifo_sprite_fetch ==> self.fifo_sprite_cursor < self.fifo_sprite_buffer.len()
        &&& self.sprite_fifo.len() <= 8
        &&& self.bg_fifo.wf()
        &&& self.bg_fetcher.wf()
        &&& self.sprite_fetcher.wf()
        &&& self.fifo_current_x <= 160
        &&& self.fifo_scx_skipped <= 7
        &&& self.fifo_wx_skipped <= 7
    }

    /// The pipeline after one master cycle of the sprite fetcher. When the
    /// fetcher is through with its sprite, the pipeline goes on and the
    /// next sprite of the buffer becomes the one to look out for.
    pub open spec fn sprite_fetch_ticked(self, bus: MmuView) -> PpuView {
        let sprite = self.fifo_sprite_buffer[self.fifo_sprite_cursor as int];
        let fetcher = self.sprite_fetcher.ticked(bus, sprite);
        let fifo = self.sprite_fetcher.fed(self.sprite_fifo, sprite);
        if fetcher.cycle == 6 {
            PpuView {
                sprite_fetcher: fetcher,
                sprite_fifo: fifo,
                fifo_sprite_fetch: false,
                fifo_sprite_cursor: (self.fifo_sprite_cursor + 1) as usize,
                ..self
            }
        } else {
            PpuView { sprite_fetcher: fetcher, sprite_fifo: fifo, ..self }
        }
    }

    /// Whether a sprite is due: sprites are enabled, and the next sprite of
    /// the buffer starts at the column of the next pixel or left of it.
    pub open spec fn sprite_due(self, bus: MmuView) -> bool {
        &&& LcdControlFlag::OBJEnable.set_in(bus.io(0x40))
        &&& self.fifo_sprite_cursor < self.fifo_sprite_buffer.len()
        &&& self.fifo_sprite_buffer[self.fifo_sprite_cursor as int].x <= self.fifo_current_x + 8
    }

    /// The window line that the fetcher reads: the count of window lines
    /// includes the current one, so it is one less.
    pub open spec fn window_line(self) -> u8 {
        if self.window_internal_line_counter == 0 {
            255
        } else {
            (self.window_internal_line_counter - 1) as u8
        }
    }

    /// The pipeline after one master cycle of the background fetcher.
    pub open spec fn background_ticked(self, bus: MmuView) -> PpuView {
        PpuView {
            bg_fetcher: self.bg_fetcher.ticked(bus, self.bg_fifo, self.window_line()),
            bg_fifo: self.bg_fetcher.fed(self.bg_fifo),
            ..self
        }
    }

    /// The pipeline after it has handed over to the sprite fetcher.
    pub open spec fn sprite_started(self) -> PpuView {
        PpuView {
            fifo_sprite_fetch: true,
            sprite_fetcher: SpriteFetcher { cycle: 0, ..self.sprite_fetcher },
            ..self
        }
    }

    /// Whether the pipeline switches to the window now: the window is
    /// enabled, WY has matched LY on this frame, the next pixel is at the
    /// window's left edge WX - 7 or right of it, and the switch has not been
    /// made on this scanline yet.
    pub open spec fn window_starts(self, bus: MmuView) -> bool {
        &&& !self.fifo_wy_ly_equal
        &&& LcdControlFlag::WindowEnable.set_in(bus.io(0x40))
        &&& self.wy_ly_equality_latch
        &&& bus.io(0x4B) - 7 <= self.fifo_current_x
    }

    /// The pipeline after the switch to the window: the fetcher starts over
    /// on the window, the FIFO is emptied, and the window has one line more.
    pub open spec fn window_switched(self) -> PpuView {
        PpuView {
            fifo_wy_ly_equal: true,
            window_internal_line_counter: if self.window_internal_line_counter == 255 {
                0
            } else {
                (self.window_internal_line_counter + 1) as u8
            },
            bg_fetcher: BgFetcher {
                mode: FetchMode::Window,
                cycle: 0,
                tile_counter: 0,
                ..self.bg_fetcher
            },
            bg_fifo: BgFifo::empty(),
            ..self
        }
    }

    /// The shade of the next pixel, given the color number that left the
    /// background FIFO. A disabled background shows color 0. The sprite
    /// pixel at the head of the sprite FIFO wins unless it is transparent,
    /// or hides behind a background color other than 0.
    #[verifier::opaque]
    pub open spec fn mixed_shade(self, bus: MmuView, color: u8) -> u8 {
        let bg_color = if !LcdControlFlag::BGEnable.set_in(bus.io(0x40)) && !self.fifo_wy_ly_equal {
            0
        } else {
            color
        };
        if self.sprite_fifo.len() > 0 && self.sprite_fifo[0].sprite_color_bit != 0 && !(
        self.sprite_fifo[0].belowbg && bg_color != 0) {
            bus.object_shade(self.sprite_fifo[0].sprite_palette, self.sprite_fifo[0].sprite_color_bit)
        } else {
            palette_shade(bus.io(0x47), bg_color)
        }
    }

    /// The frame buffer after the next pixel has been written: at row LY and
    /// at the column of the pixel, if both are on the screen.
    pub open spec fn frame_with(self, bus: MmuView, shade: u8) -> Seq<u8> {
        if bus.io(0x44) < 144 && self.fifo_current_x < 160 {
            self.frame_buffer.update(bus.io(0x44) * 160 + self.fifo_current_x, shade)
        } else {
            self.frame_buffer
        }
    }

    /// The pipeline after a pixel with the given background color has gone
    /// to the screen.
    pub open spec fn pixel_put(self, bus: MmuView, color: u8) -> PpuView {
        PpuView {
            frame_buffer: self.frame_with(bus, self.mixed_shade(bus, color)),
            sprite_fifo: if self.sprite_fifo.len() > 0 {
                self.sprite_fifo.drop_first()
            } else {
                self.sprite_fifo
            },
            fifo_current_x: (self.fifo_current_x + 1) as usize,
            ..self
        }
    }

    /// Whether the pixel that leaves the background FIFO is dropped for the
    /// fine scroll: the first SCX mod 8 pixels of the background are.
    pub open spec fn scroll_drops(self, bus: MmuView) -> bool {
        !self.fifo_wy_ly_equal && self.fifo_scx_skipped < bus.io(0x43) % 8
    }

    /// Whether the pixel that leaves the background FIFO is dropped because
    /// the window starts left of the screen: the first 7 - WX pixels of such
    /// a window are.
    pub open spec fn window_drops(self, bus: MmuView) -> bool {
        self.fifo_wy_ly_equal && bus.io(0x4B) + self.fifo_wx_skipped < 7
    }

    /// The pipeline after the head of the background FIFO, which is not
    /// empty, has left it.
    pub open spec fn pixel_ticked(self, bus: MmuView) -> PpuView {
        let popped = PpuView { bg_fifo: self.bg_fifo.popped(), ..self };
        if self.scroll_drops(bus) {
            PpuView { fifo_scx_skipped: (self.fifo_scx_skipped + 1) as u8, ..popped }
        } else if self.window_drops(bus) {
            PpuView { fifo_wx_skipped: (self.fifo_wx_skipped + 1) as u8, ..popped }
        } else {
            popped.pixel_put(bus, self.bg_fifo.head())
        }
    }

    /// The pipeline after a master cycle in which the sprite fetcher is not
    /// at work. A sprite that is due stalls the pipeline until the
    /// background fetcher is past its fifth cycle and the background FIFO
    /// has pixels, and then takes over. Otherwise the background fetcher
    /// ticks and a pixel leaves the FIFO, if it has one.
    pub open spec fn drawn(self, bus: MmuView) -> PpuView {
        if self.sprite_due(bus) {
            if self.bg_fetcher.cycle <= 5 || self.bg_fifo.len == 0 {
                self.background_ticked(bus)
            } else {
                self.sprite_started()
            }
        } else {
            let windowed = if self.window_starts(bus) {
                self.window_switched()
            } else {
                self
            };
            if windowed.background_ticked(bus).bg_fifo.len == 0 {
                windowed.background_ticked(bus)
            } else {
                windowed.background_ticked(bus).pixel_ticked(bus)
            }
        }
    }

    /// The pipeline after one master cycle of mode 3. Nothing moves in the
    /// first five cycles of the mode.
    pub open spec fn fifo_ticked(self, bus: MmuView) -> PpuView {
        if self.mode_clock_cycles <= 5 {
            self
        } else if !self.fifo_sprite_fetch {
            self.drawn(bus)
        } else if self.sprite_fetch_ticked(bus).fifo_sprite_fetch {
            self.sprite_fetch_ticked(bus)
        } else {
            self.sprite_fetch_ticked(bus).drawn(bus)
        }
    }
}

impl Ppu {
    /// The invariant of the picture unit between two master cycles: the
    /// pipeline is sound, and while mode 3 lasts a pixel is still to come.
    pub open spec fn wf(&self) -> bool {
        &&& self@.wf()
        &&& self.mode == PpuMode::VRAM ==> self.fifo_current_x < 160
    }

    #[verifier::rlimit(100)]
    fn tick_sprite_fetch(&mut self, mmu: &Mmu)
        requires
            old(self)@.wf(),
            old(self).fifo_sprite_fetch,
            mmu.wf(),
        ensures
            final(self)@.wf(),
            final(self)@ =~= old(self)@.sprite_fetch_ticked(mmu@),
    {
        let sprite = self.fifo_sprite_buffer[self.fifo_sprite_cursor];
        self.sprite_fetcher.tick(mmu, &mut self.sprite_fifo, &sprite);
        if self.sprite_fetcher.cycle == 6 {
            self.fifo_sprite_fetch = false;
            self.fifo_sprite_cursor += 1;
        }
    }

    fn is_sprite_due(&self, mmu: &Mmu) -> (due: bool)
        requires
            self@.wf(),
            mmu.wf(),
        ensures
            due == self@.sprite_due(mmu@),
    {
        LcdControlFlag::OBJEnable.is_set(mmu.io(0x40)) && self.fifo_sprite_cursor
            < self.fifo_sprite_buffer.len()
            && self.fifo_sprite_buffer[self.fifo_sprite_cursor].x as usize <= self.fifo_current_x
            + 8
    }

    fn tick_background(&mut self, mmu: &Mmu)
        requires
            old(self)@.wf(),
            mmu.wf(),
        ensures
            final(self)@.wf(),
            final(self)@ =~= old(self)@.background_ticked(mmu@),
    {
        let window_line_counter = self.window_internal_line_counter.wrapping_sub(1);
        self.bg_fetcher.tick(mmu, &mut self.bg_fifo, window_line_counter);
    }

    fn start_sprite(&mut self)
        requires
            old(self)@.wf(),
            old(self).fifo_sprite_cursor < old(self).fifo_sprite_buffer.len(),
        ensures
            final(self)@.wf(),
            final(self)@ =~= old(self)@.sprite_started(),
    {
        self.fifo_sprite_fetch = true;
        self.sprite_fetcher.cycle = 0;
    }

    fn does_window_start(&self, mmu: &Mmu) -> (starts: bool)
        requires
            self@.wf(),
            mmu.wf(),
        ensures
            starts == self@.window_starts(mmu@),
    {
        !self.fifo_wy_ly_equal && LcdControlFlag::WindowEnable.is_set(mmu.io(0x40))
            && self.wy_ly_equality_latch && mmu.io(0x4B) as usize <= self.fifo_current_x + 7
    }

    fn switch_to_window(&mut self)
        requires
            old(self)@.wf(),
        ensures
            final(self)@.wf(),
            final(self)@ =~= old(self)@.window_switched(),
    {
        self.fifo_wy_ly_equal = true;
        self.window_internal_line_counter = self.window_internal_line_counter.wrapping_add(1);
        self.bg_fetcher.mode = FetchMode::Window;
        self.bg_fetcher.cycle = 0;
        self.bg_fetcher.tile_counter = 0;
        self.bg_fifo.clear();
    }

    fn mix(&self, mmu: &Mmu, color: u8) -> (shade: u8)
        requires
            self@.wf(),
            mmu.wf(),
        ensures
            shade == self@.mixed_shade(mmu@, color),
    {
        proof {
            reveal(PpuView::mixed_shade);
        }
        let bg_enabled = LcdControlFlag::BGEnable.is_set(mmu.io(0x40));
        let bg_color = if !bg_enabled && !self.fifo_wy_ly_equal {
            0
        } else {
            color
        };
        if self.sprite_fifo.len() > 0 {
            let sprite_pixel = self.sprite_fifo[0];
            let skip = (sprite_pixel.belowbg && bg_color != 0) || sprite_pixel.sprite_color_bit
                == 0;
            if !skip {
                return mmu.sprite_palette(
                    sprite_pixel.sprite_palette,
                    sprite_pixel.sprite_color_bit,
                );
            }
        }
        mmu.bg_palette(bg_color)
    }

    fn write_pixel(&mut self, mmu: &Mmu, shade: u8)
        requires
            old(self)@.wf(),
            mmu.wf(),
        ensures
            final(self)@.wf(),
            final(self)@ =~= (PpuView {
                frame_buffer: old(self)@.frame_with(mmu@, shade),
                ..old(self)@
            }),
    {
        let scan_line = mmu.io(0x44) as usize;
        if scan_line < 144 && self.fifo_current_x < 160 {
            let fb_offset = scan_line * 160 + self.fifo_current_x;
            self.frame_buffer.set(fb_offset, shade);
        }
    }

    fn pop_sprite_pixel(&mut self)
        requires
            old(self)@.wf(),
        ensures
            final(self)@.wf(),
            final(self)@ =~= (PpuView {
                sprite_fifo: if old(self)@.sprite_fifo.len() > 0 {
                    old(self)@.sprite_fifo.drop_first()
                } else {
                    old(self)@.sprite_fifo
                },
                ..old(self)@
            }),
    {
        if self.sprite_fifo.len() > 0 {
            let _ = self.sprite_fifo.remove(0);
        }
    }

    #[verifier::rlimit(100)]
    fn put_pixel(&mut self, mmu: &Mmu, color: u8)
        requires
            old(self)@.wf(),
            old(self).fifo_current_x < 160,
            mmu.wf(),
        ensures
            final(self)@.wf(),
            final(self)@ =~= old(self)@.pixel_put(mmu@, color),
    {
        let shade = self.mix(mmu, color);
        self.write_pixel(mmu, shade);
        self.pop_sprite_pixel();
        self.fifo_current_x += 1;
    }

    #[verifier::rlimit(100)]
    fn tick_pixel(&mut self, mmu: &Mmu)
        requires
            old(self)@.wf(),
            old(self).bg_fifo.len > 0,
            old(self).fifo_current_x < 160,
            mmu.wf(),
        ensures
            final(self)@.wf(),
            final(self)@ =~= old(self)@.pixel_ticked(mmu@),
    {
        let scrolls = !self.fifo_wy_ly_equal && self.fifo_scx_skipped < mmu.io(0x43) % 8;
        let clips = self.fifo_wy_ly_equal && (mmu.io(0x4B) as u16) + (self.fifo_wx_skipped as u16)
            < 7;
        let color = self.bg_fifo.pop_front();
        if scrolls {
            self.fifo_scx_skipped += 1;
        } else if clips {
            self.fifo_wx_skipped += 1;
        } else {
            self.put_pixel(mmu, color);
        }
    }

    #[verifier::rlimit(100)]
    fn draw(&mut self, mmu: &Mmu)
        requires
            old(self)@.wf(),
            !old(self).fifo_sprite_fetch,
            old(self).fifo_current_x < 160,
            mmu.wf(),
        ensures
            final(self)@.wf(),
            final(self)@ =~= old(self)@.drawn(mmu@),
    {
        if self.is_sprite_due(mmu) {
            if self.bg_fetcher.cycle <= 5 || self.bg_fifo.len == 0 {
                self.tick_background(mmu);
            } else {
                self.start_sprite();
            }
            return ;
        }
        if self.does_window_start(mmu) {
            self.switch_to_window();
        }
        self.tick_background(mmu);
        if self.bg_fifo.len == 0 {
            return ;
        }
        self.tick_pixel(mmu);
    }

    /// Advances the pixel pipeline by one master cycle. Says whether the
    /// last pixel of the scanline has been written.
    #[verifier::rlimit(100)]
    pub fn fifo_tick(&mut self, mmu: &Mmu) -> (done: bool)
        requires
            old(self)@.wf(),
            old(self).fifo_current_x < 160,
            mmu.wf(),
        ensures
            final(self)@.wf(),
            final(self)@ =~= old(self)@.fifo_ticked(mmu@),
            done == (final(self).fifo_current_x == 160),
    {
        if self.mode_clock_cycles <= 5 {
            return false;
        }
        if self.fifo_sprite_fetch {
            self.tick_sprite_fetch(mmu);
            if self.fifo_sprite_fetch {
                return false;
            }
        }
        self.draw(mmu);
        self.fifo_current_x == 160
    }
}

} // verus!
