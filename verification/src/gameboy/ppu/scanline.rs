//! The scanline scheduler.
//!
//! With the LCD on, a frame is 154 scanlines of 456 master cycles. The 144
//! visible ones run mode 2 for 80 cycles, then mode 3 until the last pixel
//! is out, 289 cycles at most, then mode 0 for the rest; the ten after them
//! are mode 1. The first scanline after the LCD comes on is cut short at the
//! front and draws nothing. STAT shows a mode from the fourth cycle of the
//! mode on.
use vstd::prelude::*;

use crate::gameboy::bits::bit;
use crate::gameboy::bits::set_bit;
use crate::gameboy::bits::has_bit;
use crate::gameboy::bits::with_bit;
use crate::gameboy::interupt::InterruptFlag;
use crate::gameboy::mmu::Mmu;
use crate::gameboy::mmu::MmuView;
use crate::gameboy::ppu::bg_fetcher::BgFetcher;
use crate::gameboy::ppu::bg_fetcher::BgFifo;
use crate::gameboy::ppu::ly_checked;
use crate::gameboy::ppu::next_line;
use crate::gameboy::ppu::selected_sprites;
use crate::gameboy::ppu::sprite_fetcher::SpriteFetcher;
use crate::gameboy::ppu::with_stat_mode;
use crate::gameboy::ppu::Ppu;
use crate::gameboy::ppu::PpuMode;
use crate::gameboy::ppu::PpuView;

verus! {

/// The shade that the frame buffer shows while the LCD is off: the lightest
/// of the four.
pub const BLANK_SHADE: u8 = 255;

/// The longest that mode 3 lasts, in master cycles.
pub const LONGEST_TRANSFER: u64 = 289;

/// A counter one further, unless it is at the end of its range.
pub open spec fn counted_up(count: u64) -> u64 {
    if count == u64::MAX {
        count
    } else {
        (count + 1) as u64
    }
}

/// The bus with both locks set as given.
pub open spec fn with_locks(bus: MmuView, lock_oam: bool, lock_vram: bool) -> MmuView {
    MmuView { lock_oam, lock_vram, ..bus }
}

/// The bus with object attribute memory locked.
pub open spec fn with_oam_locked(bus: MmuView) -> MmuView {
    MmuView { lock_oam: true, ..bus }
}

/// The bus after an interrupt has been requested.
pub open spec fn with_request(bus: MmuView, flag: InterruptFlag) -> MmuView {
    MmuView { interupts: bus.interupts.requested(flag), ..bus }
}

/// The bus after the picture unit has gone to rest with the LCD off: LY and
/// the mode in STAT are zero.
pub open spec fn rested_bus(bus: MmuView) -> MmuView {
    with_stat_mode(bus.with_io(0x44, 0), PpuMode::HBlank)
}

/// The bus after the picture unit has started up with the LCD on: LY and
/// the mode in STAT are zero, and STAT shows whether LY matches LYC.
pub open spec fn started_bus(bus: MmuView) -> MmuView {
    ly_checked(with_stat_mode(bus, PpuMode::HBlank).with_io(0x44, 0))
}

/// The bus after the start of mode 1 has taken effect: both locks are open,
/// the VBlank interrupt is requested, STAT shows the mode and the match of
/// LY and LYC, and the STAT interrupt is requested on scanline 144 if the
/// source for mode 2 is selected.
pub open spec fn vblank_entered(bus: MmuView) -> MmuView {
    let shown = ly_checked(
        with_stat_mode(
            with_locks(with_request(bus, InterruptFlag::VBlank), false, false),
            PpuMode::VBlank,
        ),
    );
    if shown.io(0x44) == 144 && has_bit(shown.io(0x41) as int, 5) {
        with_request(shown, InterruptFlag::Stat)
    } else {
        shown
    }
}

impl PpuView {
    /// The picture unit at power-on.
    pub open spec fn initial() -> PpuView {
        PpuView {
            mode: PpuMode::OAM,
            frame_buffer: Seq::new(160 * 144, |i: int| 0u8),
            fifo_sprite_buffer: Seq::empty(),
            fifo_sprite_cursor: 0,
            window_internal_line_counter: 0,
            bg_fifo: BgFifo::empty(),
            sprite_fifo: Seq::empty(),
            bg_fetcher: BgFetcher::initial(),
            sprite_fetcher: SpriteFetcher::initial(),
            fifo_scx_skipped: 0,
            fifo_wx_skipped: 0,
            fifo_wy_ly_equal: false,
            fifo_current_x: 0,
            fifo_sprite_fetch: false,
            reset: false,
            mode_clock_cycles: 0,
            line_clock_cycles: 0,
            frame_clock_cycles: 0,
            wy_ly_equality_latch: false,
            draw_flag: false,
            ly_153_early: false,
            power_on_line_0: true,
        }
    }

    /// The picture unit gone to rest with the LCD off: the clocks are at
    /// zero and the frame is blank.
    pub open spec fn rested(self) -> PpuView {
        PpuView {
            mode_clock_cycles: 0,
            line_clock_cycles: 0,
            frame_clock_cycles: 0,
            mode: PpuMode::HBlank,
            frame_buffer: Seq::new(160 * 144, |i: int| BLANK_SHADE),
            reset: true,
            ..self
        }
    }

    /// The picture unit started up with the LCD on: it is six cycles into
    /// the first scanline, which is cut short.
    pub open spec fn started(self) -> PpuView {
        PpuView {
            reset: false,
            power_on_line_0: true,
            line_clock_cycles: 6,
            mode_clock_cycles: 6,
            frame_clock_cycles: 6,
            mode: PpuMode::OAM,
            ..self
        }
    }

    /// The picture unit with its three clocks one further.
    pub open spec fn clocked(self) -> PpuView {
        PpuView {
            mode_clock_cycles: counted_up(self.mode_clock_cycles),
            line_clock_cycles: counted_up(self.line_clock_cycles),
            frame_clock_cycles: counted_up(self.frame_clock_cycles),
            ..self
        }
    }

    /// The picture unit at the start of a scanline's mode 2.
    pub open spec fn line_begun(self) -> PpuView {
        PpuView { mode_clock_cycles: 0, line_clock_cycles: 0, mode: PpuMode::OAM, ..self }
    }

    /// One master cycle of the first scanline after the LCD came on, the
    /// clocks already advanced. STAT shows mode 3 from cycle 83 and mode 0
    /// from cycle 257; cycle 456 ends the scanline.
    pub open spec fn power_on_line_ticked(self, bus: MmuView) -> (PpuView, MmuView) {
        if self.line_clock_cycles == 83 {
            (self, with_locks(with_stat_mode(bus, PpuMode::VRAM), true, true))
        } else if self.line_clock_cycles == 257 {
            (
                PpuView { mode: PpuMode::HBlank, ..self },
                with_locks(with_stat_mode(bus, PpuMode::HBlank), false, false),
            )
        } else if self.line_clock_cycles == 456 {
            (
                PpuView { power_on_line_0: false, ..self.line_begun() },
                with_oam_locked(bus.with_io(0x44, next_line(bus.io(0x44)))),
            )
        } else {
            (self, bus)
        }
    }

    /// The bus after mode 0 has had the chance to show itself: in its fourth
    /// cycle STAT shows the mode and both locks open.
    pub open spec fn hblank_shown(self, bus: MmuView) -> MmuView {
        if self.mode_clock_cycles == 4 {
            with_locks(with_stat_mode(bus, PpuMode::HBlank), false, false)
        } else {
            bus
        }
    }

    /// The machine after a visible scanline that showed LY = `ly` has ended:
    /// the next one is mode 1 at scanline 144, where the frame is ready to
    /// be shown, and mode 2 before that.
    pub open spec fn visible_line_ended(self, bus: MmuView, ly: u8) -> (PpuView, MmuView) {
        if next_line(ly) == 144 {
            (
                PpuView {
                    mode_clock_cycles: 0,
                    line_clock_cycles: 0,
                    mode: PpuMode::VBlank,
                    draw_flag: true,
                    ..self
                },
                bus.with_io(0x44, 144),
            )
        } else {
            (self.line_begun(), with_oam_locked(bus.with_io(0x44, next_line(ly))))
        }
    }

    /// One master cycle of mode 0, the clocks already advanced. Cycle 456
    /// of the scanline moves on to the next one.
    pub open spec fn hblank_ticked(self, bus: MmuView) -> (PpuView, MmuView) {
        if self.line_clock_cycles != 456 {
            (self, self.hblank_shown(bus))
        } else {
            self.visible_line_ended(self.hblank_shown(bus), bus.io(0x44))
        }
    }

    /// The bus after mode 1 has had the chance to show itself, in its
    /// fourth cycle.
    pub open spec fn vblank_shown(self, bus: MmuView) -> MmuView {
        if self.mode_clock_cycles == 4 {
            vblank_entered(bus)
        } else {
            bus
        }
    }

    /// Whether LY goes back to 0 ahead of time in this cycle: in the fourth
    /// cycle of the scanline that showed LY = 153.
    pub open spec fn wraps_early(self, ly: u8) -> bool {
        ly == 153 && self.line_clock_cycles == 4
    }

    /// The machine after LY has gone back to 0 ahead of time, if `early`
    /// says so.
    pub open spec fn early_wrapped(self, bus: MmuView, early: bool) -> (PpuView, MmuView) {
        if early {
            (PpuView { ly_153_early: true, ..self }, ly_checked(bus.with_io(0x44, 0)))
        } else {
            (self, bus)
        }
    }

    /// The machine after a scanline of mode 1 that showed LY = `ly` at its
    /// start has ended: the next one is another scanline of mode 1, or, after
    /// the scanline on which LY went back to 0, mode 2 of a new frame, where
    /// the window starts over.
    pub open spec fn blank_line_ended(self, bus: MmuView, ly: u8) -> (PpuView, MmuView) {
        if ly < 153 && !self.ly_153_early {
            (PpuView { line_clock_cycles: 0, ..self }, ly_checked(bus.with_io(0x44, next_line(ly))))
        } else {
            (
                PpuView {
                    ly_153_early: false,
                    frame_clock_cycles: 0,
                    window_internal_line_counter: 0,
                    wy_ly_equality_latch: false,
                    ..self.line_begun()
                },
                with_oam_locked(bus),
            )
        }
    }

    /// One master cycle of mode 1, the clocks already advanced. Scanline 153
    /// shows LY = 0 from its fourth cycle on. Cycle 456 of a scanline moves
    /// on to the next one.
    pub open spec fn vblank_ticked(self, bus: MmuView) -> (PpuView, MmuView) {
        let wrapped = self.early_wrapped(
            self.vblank_shown(bus),
            self.wraps_early(bus.io(0x44)),
        );
        if self.line_clock_cycles != 456 {
            wrapped
        } else {
            wrapped.0.blank_line_ended(wrapped.1, bus.io(0x44))
        }
    }

    /// The picture unit at the start of mode 3: the sprites of the scanline
    /// are in the buffer, and the pipeline is empty and at the left edge.
    pub open spec fn transfer_begun(self, bus: MmuView) -> PpuView {
        PpuView {
            fifo_sprite_buffer: selected_sprites(bus, 40),
            fifo_sprite_cursor: 0,
            bg_fetcher: BgFetcher::initial(),
            sprite_fetcher: SpriteFetcher::initial(),
            fifo_scx_skipped: 0,
            fifo_wx_skipped: 0,
            fifo_current_x: 0,
            bg_fifo: BgFifo::empty(),
            sprite_fifo: Seq::empty(),
            fifo_wy_ly_equal: false,
            fifo_sprite_fetch: false,
            mode_clock_cycles: 0,
            mode: PpuMode::VRAM,
            ..self
        }
    }

    /// One master cycle of mode 2, the clocks already advanced. The first
    /// cycle latches a match of WY and LY; cycle 80 searches object
    /// attribute memory and moves on to mode 3.
    pub open spec fn oam_ticked(self, bus: MmuView) -> (PpuView, MmuView) {
        let latched = if self.mode_clock_cycles == 1 {
            PpuView {
                wy_ly_equality_latch: self.wy_ly_equality_latch || bus.io(0x4A) == bus.io(0x44),
                ..self
            }
        } else {
            self
        };
        let cleared = if self.mode_clock_cycles == 1 {
            bus.with_io(0x41, with_bit(bus.io(0x41), 2, false))
        } else {
            bus
        };
        let shown = if self.mode_clock_cycles == 4 {
            ly_checked(with_stat_mode(cleared, PpuMode::OAM))
        } else {
            cleared
        };
        if self.mode_clock_cycles == 80 {
            (latched.transfer_begun(shown), MmuView { lock_vram: true, ..shown })
        } else {
            (latched, shown)
        }
    }

    /// One master cycle of mode 3, the clocks already advanced. The mode
    /// ends when the last pixel of the scanline is out, and after 289 cycles
    /// at the latest.
    pub open spec fn vram_ticked(self, bus: MmuView) -> (PpuView, MmuView) {
        let shown = if self.mode_clock_cycles == 4 {
            with_stat_mode(bus, PpuMode::VRAM)
        } else {
            bus
        };
        let drawn = self.fifo_ticked(shown);
        if drawn.fifo_current_x == 160 || drawn.mode_clock_cycles >= 289 {
            (PpuView { mode_clock_cycles: 0, mode: PpuMode::HBlank, ..drawn }, shown)
        } else {
            (drawn, shown)
        }
    }

    /// One master cycle of the mode that the unit is in, the clocks already
    /// advanced.
    pub open spec fn mode_ticked(self, bus: MmuView) -> (PpuView, MmuView) {
        if self.power_on_line_0 {
            self.power_on_line_ticked(bus)
        } else {
            match self.mode {
                PpuMode::HBlank => self.hblank_ticked(bus),
                PpuMode::VBlank => self.vblank_ticked(bus),
                PpuMode::OAM => self.oam_ticked(bus),
                PpuMode::VRAM => self.vram_ticked(bus),
            }
        }
    }

    /// The machine after one master cycle of the picture unit. With the LCD
    /// off the unit goes to rest and stays there. With the LCD on it starts
    /// up if it was at rest, advances its clocks, does the work of its mode,
    /// and has the STAT interrupt line evaluated.
    #[verifier::opaque]
    pub open spec fn ticked(self, bus: MmuView) -> (PpuView, MmuView) {
        if !bus.lcd_on() {
            if self.reset {
                (self, bus)
            } else {
                (self.rested(), rested_bus(bus))
            }
        } else if self.reset {
            (
                self.started().clocked().mode_ticked(started_bus(bus)).0,
                self.started().clocked().mode_ticked(started_bus(bus)).1.stat_updated(),
            )
        } else {
            (
                self.clocked().mode_ticked(bus).0,
                self.clocked().mode_ticked(bus).1.stat_updated(),
            )
        }
    }
}

impl Ppu {
    pub fn new() -> (ppu: Self)
        ensures
            ppu@ =~= PpuView::initial(),
            ppu.wf(),
    {
        Self {
            mode: PpuMode::OAM,
            frame_buffer: vec![0u8; 160 * 144],
            fifo_sprite_buffer: Vec::new(),
            fifo_sprite_cursor: 0,
            window_internal_line_counter: 0,
            bg_fifo: BgFifo::new(),
            sprite_fifo: Vec::new(),
            bg_fetcher: BgFetcher::new(),
            sprite_fetcher: SpriteFetcher::new(),
            fifo_scx_skipped: 0,
            fifo_wx_skipped: 0,
            fifo_wy_ly_equal: false,
            fifo_current_x: 0,
            fifo_sprite_fetch: false,
            reset: false,
            mode_clock_cycles: 0,
            line_clock_cycles: 0,
            frame_clock_cycles: 0,
            wy_ly_equality_latch: false,
            draw_flag: false,
            ly_153_early: false,
            power_on_line_0: true,
        }
    }

    /// Advances the picture unit by one master cycle.
    #[verifier::rlimit(100)]
    pub fn tick(&mut self, mmu: &mut Mmu)
        requires
            old(self).wf(),
            old(mmu).wf(),
        ensures
            final(self).wf(),
            final(mmu).wf(),
            final(self)@ =~= old(self)@.ticked(old(mmu)@).0,
            final(mmu)@ =~= old(self)@.ticked(old(mmu)@).1,
    {
        proof {
            reveal(PpuView::ticked);
        }
        if mmu.io(0x40) < 128 {
            if !self.reset {
                self.rest(mmu);
            }
            return ;
        }
        if self.reset {
            self.start(mmu);
        }
        self.clock();
        self.tick_mode(mmu);
        mmu.update_stat_irq_conditions();
    }

    /// Puts the unit to rest with the LCD off.
    fn rest(&mut self, mmu: &mut Mmu)
        requires
            old(self).wf(),
            old(mmu).wf(),
        ensures
            final(self).wf(),
            final(mmu).wf(),
            final(self)@ =~= old(self)@.rested(),
            final(mmu)@ =~= rested_bus(old(mmu)@),
    {
        self.mode_clock_cycles = 0;
        self.line_clock_cycles = 0;
        self.frame_clock_cycles = 0;
        self.mode = PpuMode::HBlank;
        self.frame_buffer = vec![BLANK_SHADE; 160 * 144];
        self.reset = true;
        Self::set_scan_line(mmu, 0);
        Self::set_mode_lcdc(mmu, PpuMode::HBlank);
    }

    /// Starts the unit up with the LCD on.
    fn start(&mut self, mmu: &mut Mmu)
        requires
            old(self).wf(),
            old(mmu).wf(),
        ensures
            final(self).wf(),
            final(mmu).wf(),
            final(self)@ =~= old(self)@.started(),
            final(mmu)@ =~= started_bus(old(mmu)@),
    {
        self.reset = false;
        self.power_on_line_0 = true;
        self.line_clock_cycles = 6;
        self.mode_clock_cycles = 6;
        self.frame_clock_cycles = 6;
        self.mode = PpuMode::OAM;
        Self::set_mode_lcdc(mmu, PpuMode::HBlank);
        Self::set_scan_line(mmu, 0);
        Self::check_ly_eq_lyc(mmu);
    }

    /// Advances the three clocks.
    fn clock(&mut self)
        requires
            old(self).wf(),
        ensures
            final(self).wf(),
            final(self)@ =~= old(self)@.clocked(),
    {
        if self.mode_clock_cycles < u64::MAX {
            self.mode_clock_cycles += 1;
        }
        if self.line_clock_cycles < u64::MAX {
            self.line_clock_cycles += 1;
        }
        if self.frame_clock_cycles < u64::MAX {
            self.frame_clock_cycles += 1;
        }
    }

    fn begin_line(&mut self)
        requires
            old(self)@.wf(),
        ensures
            final(self).wf(),
            final(self)@ =~= old(self)@.line_begun(),
    {
        self.mode_clock_cycles = 0;
        self.line_clock_cycles = 0;
        self.mode = PpuMode::OAM;
    }

    fn set_locks(mmu: &mut Mmu, lock_oam: bool, lock_vram: bool)
        requires
            old(mmu).wf(),
        ensures
            final(mmu).wf(),
            final(mmu)@ =~= with_locks(old(mmu)@, lock_oam, lock_vram),
    {
        mmu.lock_oam = lock_oam;
        mmu.lock_vram = lock_vram;
    }

    fn lock_oam(mmu: &mut Mmu)
        requires
            old(mmu).wf(),
        ensures
            final(mmu).wf(),
            final(mmu)@ =~= with_oam_locked(old(mmu)@),
    {
        mmu.lock_oam = true;
    }

    fn request(mmu: &mut Mmu, flag: InterruptFlag)
        requires
            old(mmu).wf(),
        ensures
            final(mmu).wf(),
            final(mmu)@ =~= with_request(old(mmu)@, flag),
    {
        mmu.interupts.request_interupt(flag);
    }

    #[verifier::rlimit(100)]
    fn tick_mode(&mut self, mmu: &mut Mmu)
        requires
            old(self).wf(),
            old(mmu).wf(),
        ensures
            final(self).wf(),
            final(mmu).wf(),
            final(self)@ =~= old(self)@.mode_ticked(old(mmu)@).0,
            final(mmu)@ =~= old(self)@.mode_ticked(old(mmu)@).1,
    {
        if self.power_on_line_0 {
            self.power_on_line_0_tick(mmu);
        } else {
            match self.mode {
                PpuMode::HBlank => self.tick_hblank(mmu),
                PpuMode::VBlank => self.tick_vblank(mmu),
                PpuMode::OAM => self.tick_oam(mmu),
                PpuMode::VRAM => self.tick_vram(mmu),
            }
        }
    }

    /// Runs one master cycle of the first scanline after the LCD came on.
    #[verifier::rlimit(100)]
    fn power_on_line_0_tick(&mut self, mmu: &mut Mmu)
        requires
            old(self).wf(),
            old(self).power_on_line_0,
            old(mmu).wf(),
        ensures
            final(self).wf(),
            final(mmu).wf(),
            final(self)@ =~= old(self)@.power_on_line_ticked(old(mmu)@).0,
            final(mmu)@ =~= old(self)@.power_on_line_ticked(old(mmu)@).1,
    {
        if self.line_clock_cycles == 83 {
            Self::set_mode_lcdc(mmu, PpuMode::VRAM);
            Self::set_locks(mmu, true, true);
        } else if self.line_clock_cycles == 257 {
            self.mode = PpuMode::HBlank;
            Self::set_mode_lcdc(mmu, PpuMode::HBlank);
            Self::set_locks(mmu, false, false);
        } else if self.line_clock_cycles == 456 {
            self.power_on_line_0 = false;
            self.begin_line();
            Self::inc_scan_line(mmu);
            Self::lock_oam(mmu);
        }
    }

    fn show_hblank(&self, mmu: &mut Mmu)
        requires
            self.wf(),
            old(mmu).wf(),
        ensures
            final(mmu).wf(),
            final(mmu)@ =~= self@.hblank_shown(old(mmu)@),
    {
        if self.mode_clock_cycles == 4 {
            Self::set_mode_lcdc(mmu, PpuMode::HBlank);
            Self::set_locks(mmu, false, false);
        }
    }

    #[verifier::rlimit(100)]
    fn end_visible_line(&mut self, mmu: &mut Mmu, scan_line: u8)
        requires
            old(self).wf(),
            old(self).mode == PpuMode::HBlank,
            old(mmu).wf(),
        ensures
            final(self).wf(),
            final(mmu).wf(),
            final(self)@ =~= old(self)@.visible_line_ended(old(mmu)@, scan_line).0,
            final(mmu)@ =~= old(self)@.visible_line_ended(old(mmu)@, scan_line).1,
    {
        let current_scan_line = scan_line.wrapping_add(1);
        Self::set_scan_line(mmu, current_scan_line);
        if current_scan_line == 144 {
            self.mode_clock_cycles = 0;
            self.line_clock_cycles = 0;
            self.mode = PpuMode::VBlank;
            self.draw_flag = true;
        } else {
            self.begin_line();
            Self::lock_oam(mmu);
        }
    }

    #[verifier::rlimit(100)]
    fn tick_hblank(&mut self, mmu: &mut Mmu)
        requires
            old(self).wf(),
            old(self).mode == PpuMode::HBlank,
            old(mmu).wf(),
        ensures
            final(self).wf(),
            final(mmu).wf(),
            final(self)@ =~= old(self)@.hblank_ticked(old(mmu)@).0,
            final(mmu)@ =~= old(self)@.hblank_ticked(old(mmu)@).1,
    {
        let scan_line = Self::get_scan_line(mmu);
        self.show_hblank(mmu);
        if self.line_clock_cycles == 456 {
            self.end_visible_line(mmu, scan_line);
        }
    }

    #[verifier::rlimit(100)]
    fn enter_vblank(mmu: &mut Mmu)
        requires
            old(mmu).wf(),
        ensures
            final(mmu).wf(),
            final(mmu)@ =~= vblank_entered(old(mmu)@),
    {
        Self::request(mmu, InterruptFlag::VBlank);
        Self::set_locks(mmu, false, false);
        Self::set_mode_lcdc(mmu, PpuMode::VBlank);
        Self::check_ly_eq_lyc(mmu);
        if mmu.io(0x44) == 144 && bit(mmu.io(0x41), 5) {
            Self::request(mmu, InterruptFlag::Stat);
        }
    }

    fn show_vblank(&self, mmu: &mut Mmu)
        requires
            self.wf(),
            old(mmu).wf(),
        ensures
            final(mmu).wf(),
            final(mmu)@ =~= self@.vblank_shown(old(mmu)@),
    {
        if self.mode_clock_cycles == 4 {
            Self::enter_vblank(mmu);
        }
    }

    fn wrap_early(&mut self, mmu: &mut Mmu, early: bool)
        requires
            old(self).wf(),
            old(self).mode == PpuMode::VBlank,
            old(mmu).wf(),
        ensures
            final(self).wf(),
            final(self).mode == PpuMode::VBlank,
            final(mmu).wf(),
            final(self)@ =~= old(self)@.early_wrapped(old(mmu)@, early).0,
            final(mmu)@ =~= old(self)@.early_wrapped(old(mmu)@, early).1,
    {
        if early {
            Self::set_scan_line(mmu, 0);
            Self::check_ly_eq_lyc(mmu);
            self.ly_153_early = true;
        }
    }

    #[verifier::rlimit(100)]
    fn end_blank_line(&mut self, mmu: &mut Mmu, scan_line: u8)
        requires
            old(self).wf(),
            old(self).mode == PpuMode::VBlank,
            old(mmu).wf(),
        ensures
            final(self).wf(),
            final(mmu).wf(),
            final(self)@ =~= old(self)@.blank_line_ended(old(mmu)@, scan_line).0,
            final(mmu)@ =~= old(self)@.blank_line_ended(old(mmu)@, scan_line).1,
    {
        if scan_line < 153 && !self.ly_153_early {
            self.line_clock_cycles = 0;
            Self::set_scan_line(mmu, scan_line.wrapping_add(1));
            Self::check_ly_eq_lyc(mmu);
        } else {
            self.ly_153_early = false;
            self.frame_clock_cycles = 0;
            self.window_internal_line_counter = 0;
            self.wy_ly_equality_latch = false;
            self.begin_line();
            Self::lock_oam(mmu);
        }
    }

    #[verifier::rlimit(100)]
    fn tick_vblank(&mut self, mmu: &mut Mmu)
        requires
            old(self).wf(),
            old(self).mode == PpuMode::VBlank,
            old(mmu).wf(),
        ensures
            final(self).wf(),
            final(mmu).wf(),
            final(self)@ =~= old(self)@.vblank_ticked(old(mmu)@).0,
            final(mmu)@ =~= old(self)@.vblank_ticked(old(mmu)@).1,
    {
        let scan_line = Self::get_scan_line(mmu);
        self.show_vblank(mmu);
        self.wrap_early(mmu, scan_line == 153 && self.line_clock_cycles == 4);
        if self.line_clock_cycles == 456 {
            self.end_blank_line(mmu, scan_line);
        }
    }

    /// Fills the sprite buffer and empties the pipeline for mode 3.
    #[verifier::rlimit(100)]
    fn begin_transfer(&mut self, mmu: &Mmu)
        requires
            old(self)@.wf(),
            mmu.wf(),
        ensures
            final(self).wf(),
            final(self)@ =~= old(self)@.transfer_begun(mmu@),
    {
        self.fifo_sprite_buffer = Self::select_sprites(mmu);
        self.fifo_sprite_cursor = 0;
        self.bg_fetcher.reset();
        self.sprite_fetcher.reset();
        self.fifo_scx_skipped = 0;
        self.fifo_wx_skipped = 0;
        self.fifo_current_x = 0;
        self.bg_fifo.clear();
        self.sprite_fifo.clear();
        self.fifo_wy_ly_equal = false;
        self.fifo_sprite_fetch = false;
        self.mode_clock_cycles = 0;
        self.mode = PpuMode::VRAM;
    }

    #[verifier::rlimit(100)]
    fn tick_oam(&mut self, mmu: &mut Mmu)
        requires
            old(self).wf(),
            old(self).mode == PpuMode::OAM,
            old(mmu).wf(),
        ensures
            final(self).wf(),
            final(mmu).wf(),
            final(self)@ =~= old(self)@.oam_ticked(old(mmu)@).0,
            final(mmu)@ =~= old(self)@.oam_ticked(old(mmu)@).1,
    {
        if self.mode_clock_cycles == 1 {
            let window_y = mmu.io(0x4A);
            let scan_line = mmu.io(0x44);
            if !self.wy_ly_equality_latch {
                self.wy_ly_equality_latch = window_y == scan_line;
            }
            let stat = mmu.io(0x41);
            mmu.set_io(0x41, set_bit(stat, 2, false));
        }
        if self.mode_clock_cycles == 4 {
            Self::set_mode_lcdc(mmu, PpuMode::OAM);
            Self::check_ly_eq_lyc(mmu);
        }
        if self.mode_clock_cycles == 80 {
            self.begin_transfer(mmu);
            mmu.lock_vram = true;
        }
    }

    #[verifier::rlimit(100)]
    fn tick_vram(&mut self, mmu: &mut Mmu)
        requires
            old(self).wf(),
            old(self).mode == PpuMode::VRAM,
            old(mmu).wf(),
        ensures
            final(self).wf(),
            final(mmu).wf(),
            final(self)@ =~= old(self)@.vram_ticked(old(mmu)@).0,
            final(mmu)@ =~= old(self)@.vram_ticked(old(mmu)@).1,
    {
        if self.mode_clock_cycles == 4 {
            Self::set_mode_lcdc(mmu, PpuMode::VRAM);
        }
        let done = self.fifo_tick(mmu);
        if done || self.mode_clock_cycles >= LONGEST_TRANSFER {
            self.mode_clock_cycles = 0;
            self.mode = PpuMode::HBlank;
        }
    }
}

impl PpuView {
    /// Whether the clocks agree with the mode. Mode 2 takes the first 80
    /// cycles of a scanline, mode 3 follows it for fewer than 290, and mode
    /// 0 comes only after that; the scanline is not over before cycle 456. The first scanline after the
    /// LCD came on starts at cycle 6 and changes its mode at cycle 257.
    pub open spec fn in_step(self) -> bool {
        &&& !self.reset
        &&& self.line_clock_cycles < 456
        &&& if self.power_on_line_0 {
            &&& self.mode_clock_cycles == self.line_clock_cycles
            &&& 6 <= self.line_clock_cycles
            &&& self.mode == if self.line_clock_cycles < 257 {
                PpuMode::OAM
            } else {
                PpuMode::HBlank
            }
        } else {
            match self.mode {
                PpuMode::OAM => self.line_clock_cycles == self.mode_clock_cycles
                    && self.mode_clock_cycles < 80,
                PpuMode::VRAM => self.line_clock_cycles == 80 + self.mode_clock_cycles
                    && self.mode_clock_cycles < 289,
                PpuMode::HBlank => self.line_clock_cycles > 80,
                PpuMode::VBlank => true,
            }
        }
    }

    /// The number of the scanline within its frame. LY shows it, except on
    /// scanline 153 once LY has gone back to 0.
    pub open spec fn line_index(self, bus: MmuView) -> int {
        if self.ly_153_early {
            153
        } else {
            bus.io(0x44) as int
        }
    }

    /// Whether the picture unit and LY agree on where in the frame they
    /// are: the frame clock counts 456 cycles for every scanline that is
    /// over, the visible scanlines are not in mode 1 and the ten after them
    /// are, and LY goes back to 0 in the fourth cycle of scanline 153.
    pub open spec fn in_frame(self, bus: MmuView) -> bool {
        &&& self.in_step()
        &&& self.frame_clock_cycles == self.line_index(bus) * 456 + self.line_clock_cycles
        &&& if self.mode == PpuMode::VBlank {
            &&& !self.power_on_line_0
            &&& 144 <= self.line_index(bus) <= 153
            &&& self.ly_153_early ==> bus.io(0x44) == 0 && self.line_clock_cycles >= 4
            &&& !self.ly_153_early && bus.io(0x44) == 153 ==> self.line_clock_cycles < 4
        } else {
            &&& !self.ly_153_early
            &&& bus.io(0x44) < 144
            &&& self.power_on_line_0 ==> bus.io(0x44) == 0
        }
    }

    /// Whether `after` is where one master cycle takes the clocks and the
    /// mode from here: the line clock is one further and starts over after
    /// 455; mode 2 lasts while its clock is below 80 and then gives way to
    /// mode 3; mode 3 gives way to mode 0 and to nothing else; mode 0 and
    /// mode 1 last until the scanline is over.
    pub open spec fn steps_to(self, after: PpuView) -> bool {
        &&& after.in_step()
        &&& after.line_clock_cycles == (self.line_clock_cycles + 1) % 456
        &&& !self.power_on_line_0 && self.mode == PpuMode::OAM ==> after.mode
            == if self.mode_clock_cycles < 79 {
            PpuMode::OAM
        } else {
            PpuMode::VRAM
        }
        &&& self.mode == PpuMode::VRAM ==> after.mode == PpuMode::VRAM || after.mode
            == PpuMode::HBlank
        &&& !self.power_on_line_0 && (self.mode == PpuMode::HBlank || self.mode
            == PpuMode::VBlank) && self.line_clock_cycles < 455 ==> after.mode == self.mode
    }
}

/// The pixel pipeline leaves the clocks and the mode alone.
#[verifier::rlimit(100)]
pub proof fn lemma_pipeline_keeps_clocks(ppu: PpuView, bus: MmuView)
    ensures
        ppu.fifo_ticked(bus).mode == ppu.mode,
        ppu.fifo_ticked(bus).mode_clock_cycles == ppu.mode_clock_cycles,
        ppu.fifo_ticked(bus).line_clock_cycles == ppu.line_clock_cycles,
        ppu.fifo_ticked(bus).frame_clock_cycles == ppu.frame_clock_cycles,
        ppu.fifo_ticked(bus).reset == ppu.reset,
        ppu.fifo_ticked(bus).power_on_line_0 == ppu.power_on_line_0,
        ppu.fifo_ticked(bus).ly_153_early == ppu.ly_153_early,
{
}

#[verifier::rlimit(100)]
proof fn lemma_power_on_line_in_step(ppu: PpuView, bus: MmuView)
    requires
        ppu.in_step(),
        ppu.power_on_line_0,
    ensures
        ppu.steps_to(ppu.clocked().power_on_line_ticked(bus).0),
{
}

#[verifier::rlimit(100)]
proof fn lemma_hblank_in_step(ppu: PpuView, bus: MmuView)
    requires
        ppu.in_step(),
        !ppu.power_on_line_0,
        ppu.mode == PpuMode::HBlank,
    ensures
        ppu.steps_to(ppu.clocked().hblank_ticked(bus).0),
{
}

#[verifier::rlimit(100)]
proof fn lemma_vblank_in_step(ppu: PpuView, bus: MmuView)
    requires
        ppu.in_step(),
        !ppu.power_on_line_0,
        ppu.mode == PpuMode::VBlank,
    ensures
        ppu.steps_to(ppu.clocked().vblank_ticked(bus).0),
{
}

#[verifier::rlimit(100)]
proof fn lemma_oam_in_step(ppu: PpuView, bus: MmuView)
    requires
        ppu.in_step(),
        !ppu.power_on_line_0,
        ppu.mode == PpuMode::OAM,
    ensures
        ppu.steps_to(ppu.clocked().oam_ticked(bus).0),
{
}

#[verifier::rlimit(100)]
proof fn lemma_vram_in_step(ppu: PpuView, bus: MmuView)
    requires
        ppu.in_step(),
        !ppu.power_on_line_0,
        ppu.mode == PpuMode::VRAM,
    ensures
        ppu.steps_to(ppu.clocked().vram_ticked(bus).0),
{
    lemma_pipeline_keeps_clocks(ppu.clocked(), bus);
    lemma_pipeline_keeps_clocks(ppu.clocked(), with_stat_mode(bus, PpuMode::VRAM));
}

/// With the LCD on, every scanline takes 456 master cycles, of which mode 2
/// takes the first 80 and mode 3 at most the next 289: each master cycle
/// takes the clocks and the mode one step on, as [`PpuView::steps_to`] says.
#[verifier::rlimit(100)]
pub proof fn lemma_scanline_takes_456_cycles(ppu: PpuView, bus: MmuView)
    requires
        bus.lcd_on(),
        ppu.in_step(),
    ensures
        ppu.steps_to(ppu.ticked(bus).0),
{
    reveal(PpuView::ticked);
    if ppu.power_on_line_0 {
        lemma_power_on_line_in_step(ppu, bus);
    } else {
        match ppu.mode {
            PpuMode::HBlank => lemma_hblank_in_step(ppu, bus),
            PpuMode::VBlank => lemma_vblank_in_step(ppu, bus),
            PpuMode::OAM => lemma_oam_in_step(ppu, bus),
            PpuMode::VRAM => lemma_vram_in_step(ppu, bus),
        }
    }
    assert(ppu.ticked(bus).0 == ppu.clocked().mode_ticked(bus).0);
}

/// Whether two buses show the same LY and LCDC, and are of a size.
pub open spec fn same_line(before: MmuView, after: MmuView) -> bool {
    &&& after.io(0x44) == before.io(0x44)
    &&& after.io(0x40) == before.io(0x40)
    &&& after.memory.len() == before.memory.len()
}

/// What the picture unit does to STAT, to the locks and to the interrupt
/// requests leaves LY and LCDC alone.
#[verifier::rlimit(100)]
proof fn lemma_same_line(bus: MmuView, mode: PpuMode, flag: InterruptFlag, oam: bool, vram: bool)
    requires
        bus.memory.len() == 0x10000,
    ensures
        same_line(bus, with_stat_mode(bus, mode)),
        same_line(bus, ly_checked(bus)),
        same_line(bus, with_locks(bus, oam, vram)),
        same_line(bus, with_oam_locked(bus)),
        same_line(bus, with_request(bus, flag)),
        same_line(bus, bus.stat_updated()),
        same_line(bus, vblank_entered(bus)),
        same_line(bus, bus.with_io(0x41, with_bit(bus.io(0x41), 2, false))),
        same_line(bus, MmuView { lock_vram: true, ..bus }),
{
}

#[verifier::rlimit(100)]
proof fn lemma_power_on_line_in_frame(ppu: PpuView, bus: MmuView)
    requires
        bus.memory.len() == 0x10000,
        ppu.in_frame(bus),
        ppu.power_on_line_0,
    ensures
        same_line(bus, ppu.clocked().power_on_line_ticked(bus).1) || ppu.line_clock_cycles == 455,
        ppu.clocked().power_on_line_ticked(bus).1.io(0x40) == bus.io(0x40),
        ppu.clocked().power_on_line_ticked(bus).1.memory.len() == 0x10000,
        ppu.clocked().power_on_line_ticked(bus).0.in_frame(
            ppu.clocked().power_on_line_ticked(bus).1,
        ),
        ppu.clocked().power_on_line_ticked(bus).0.frame_clock_cycles == ppu.frame_clock_cycles
            + 1,
{
    lemma_same_line(bus, PpuMode::VRAM, InterruptFlag::Stat, true, true);
    lemma_same_line(with_stat_mode(bus, PpuMode::VRAM), PpuMode::VRAM, InterruptFlag::Stat, true, true);
    lemma_same_line(bus, PpuMode::HBlank, InterruptFlag::Stat, false, false);
    lemma_same_line(with_stat_mode(bus, PpuMode::HBlank), PpuMode::VRAM, InterruptFlag::Stat, false, false);
    lemma_same_line(bus.with_io(0x44, next_line(bus.io(0x44))), PpuMode::VRAM, InterruptFlag::Stat, false, false);
}

#[verifier::rlimit(100)]
proof fn lemma_hblank_in_frame(ppu: PpuView, bus: MmuView)
    requires
        bus.memory.len() == 0x10000,
        ppu.in_frame(bus),
        !ppu.power_on_line_0,
        ppu.mode == PpuMode::HBlank,
    ensures
        ppu.clocked().hblank_ticked(bus).1.io(0x40) == bus.io(0x40),
        ppu.clocked().hblank_ticked(bus).1.memory.len() == 0x10000,
        ppu.clocked().hblank_ticked(bus).0.in_frame(ppu.clocked().hblank_ticked(bus).1),
        ppu.clocked().hblank_ticked(bus).0.frame_clock_cycles == ppu.frame_clock_cycles + 1,
{
    let shown = ppu.clocked().hblank_shown(bus);
    lemma_same_line(bus, PpuMode::HBlank, InterruptFlag::Stat, false, false);
    lemma_same_line(with_stat_mode(bus, PpuMode::HBlank), PpuMode::HBlank, InterruptFlag::Stat, false, false);
    assert(same_line(bus, shown));
    lemma_same_line(shown.with_io(0x44, next_line(bus.io(0x44))), PpuMode::HBlank, InterruptFlag::Stat, false, false);
}

#[verifier::rlimit(100)]
proof fn lemma_vblank_in_frame(ppu: PpuView, bus: MmuView)
    requires
        bus.memory.len() == 0x10000,
        ppu.in_frame(bus),
        !ppu.power_on_line_0,
        ppu.mode == PpuMode::VBlank,
    ensures
        ppu.clocked().vblank_ticked(bus).1.io(0x40) == bus.io(0x40),
        ppu.clocked().vblank_ticked(bus).1.memory.len() == 0x10000,
        ppu.clocked().vblank_ticked(bus).0.in_frame(ppu.clocked().vblank_ticked(bus).1),
        ppu.clocked().vblank_ticked(bus).0.frame_clock_cycles == (ppu.frame_clock_cycles + 1)
            % 70224,
{
    let clocked = ppu.clocked();
    let shown = clocked.vblank_shown(bus);
    lemma_same_line(bus, PpuMode::VBlank, InterruptFlag::Stat, false, false);
    assert(same_line(bus, shown));
    let early = clocked.wraps_early(bus.io(0x44));
    let wrapped = clocked.early_wrapped(shown, early);
    lemma_same_line(shown.with_io(0x44, 0), PpuMode::VBlank, InterruptFlag::Stat, false, false);
    assert(wrapped.1.io(0x40) == bus.io(0x40));
    assert(wrapped.1.memory.len() == 0x10000);
    assert(wrapped.1.io(0x44) == if early {
        0u8
    } else {
        bus.io(0x44)
    });
    lemma_same_line(wrapped.1, PpuMode::VBlank, InterruptFlag::Stat, false, false);
    lemma_same_line(
        wrapped.1.with_io(0x44, next_line(bus.io(0x44))),
        PpuMode::VBlank,
        InterruptFlag::Stat,
        false,
        false,
    );
}

#[verifier::rlimit(100)]
proof fn lemma_oam_in_frame(ppu: PpuView, bus: MmuView)
    requires
        bus.memory.len() == 0x10000,
        ppu.in_frame(bus),
        !ppu.power_on_line_0,
        ppu.mode == PpuMode::OAM,
    ensures
        same_line(bus, ppu.clocked().oam_ticked(bus).1),
        ppu.clocked().oam_ticked(bus).0.in_frame(ppu.clocked().oam_ticked(bus).1),
        ppu.clocked().oam_ticked(bus).0.frame_clock_cycles == ppu.frame_clock_cycles + 1,
{
    let clocked = ppu.clocked();
    lemma_same_line(bus, PpuMode::OAM, InterruptFlag::Stat, false, false);
    let cleared = if clocked.mode_clock_cycles == 1 {
        bus.with_io(0x41, with_bit(bus.io(0x41), 2, false))
    } else {
        bus
    };
    assert(same_line(bus, cleared));
    lemma_same_line(cleared, PpuMode::OAM, InterruptFlag::Stat, false, false);
    lemma_same_line(with_stat_mode(cleared, PpuMode::OAM), PpuMode::OAM, InterruptFlag::Stat, false, false);
    let shown = if clocked.mode_clock_cycles == 4 {
        ly_checked(with_stat_mode(cleared, PpuMode::OAM))
    } else {
        cleared
    };
    assert(same_line(bus, shown));
    lemma_same_line(shown, PpuMode::OAM, InterruptFlag::Stat, false, false);
}

#[verifier::rlimit(100)]
proof fn lemma_vram_in_frame(ppu: PpuView, bus: MmuView)
    requires
        bus.memory.len() == 0x10000,
        ppu.in_frame(bus),
        !ppu.power_on_line_0,
        ppu.mode == PpuMode::VRAM,
    ensures
        same_line(bus, ppu.clocked().vram_ticked(bus).1),
        ppu.clocked().vram_ticked(bus).0.in_frame(ppu.clocked().vram_ticked(bus).1),
        ppu.clocked().vram_ticked(bus).0.frame_clock_cycles == ppu.frame_clock_cycles + 1,
{
    let clocked = ppu.clocked();
    lemma_same_line(bus, PpuMode::VRAM, InterruptFlag::Stat, false, false);
    lemma_pipeline_keeps_clocks(clocked, bus);
    lemma_pipeline_keeps_clocks(clocked, with_stat_mode(bus, PpuMode::VRAM));
}

/// With the LCD on, a frame takes 154 scanlines, 70224 master cycles: cycle
/// by cycle the frame clock goes up by one and starts over after 70223, and
/// the picture unit and LY stay in agreement on where in the frame they are.
#[verifier::rlimit(100)]
pub proof fn lemma_frame_takes_70224_cycles(ppu: PpuView, bus: MmuView)
    requires
        bus.lcd_on(),
        bus.memory.len() == 0x10000,
        ppu.in_frame(bus),
    ensures
        ppu.ticked(bus).1.lcd_on(),
        ppu.ticked(bus).1.memory.len() == 0x10000,
        ppu.ticked(bus).0.in_frame(ppu.ticked(bus).1),
        ppu.ticked(bus).0.frame_clock_cycles == (ppu.frame_clock_cycles + 1) % 70224,
{
    reveal(PpuView::ticked);
    let worked = ppu.clocked().mode_ticked(bus);
    assert(worked.1.io(0x40) == bus.io(0x40) && worked.1.memory.len() == 0x10000
        && worked.0.in_frame(worked.1) && worked.0.frame_clock_cycles == (ppu.frame_clock_cycles
        + 1) % 70224) by {
        if ppu.power_on_line_0 {
            lemma_power_on_line_in_frame(ppu, bus);
        } else {
            match ppu.mode {
                PpuMode::HBlank => lemma_hblank_in_frame(ppu, bus),
                PpuMode::VBlank => lemma_vblank_in_frame(ppu, bus),
                PpuMode::OAM => lemma_oam_in_frame(ppu, bus),
                PpuMode::VRAM => lemma_vram_in_frame(ppu, bus),
            }
        }
    }
    assert(same_line(worked.1, worked.1.stat_updated())) by {
        lemma_same_line(worked.1, PpuMode::HBlank, InterruptFlag::Stat, false, false);
    }
    assert(ppu.ticked(bus).0 == worked.0);
    assert(ppu.ticked(bus).1 == worked.1.stat_updated());
}

/// Switching the LCD on puts the picture unit in step: its first cycle
/// starts the shortened scanline 0 at the seventh cycle.
#[verifier::rlimit(100)]
pub proof fn lemma_lcd_start_is_in_frame(ppu: PpuView, bus: MmuView)
    requires
        bus.lcd_on(),
        bus.memory.len() == 0x10000,
        ppu.reset,
        !ppu.ly_153_early,
    ensures
        ppu.ticked(bus).1.lcd_on(),
        ppu.ticked(bus).0.in_frame(ppu.ticked(bus).1),
        ppu.ticked(bus).0.line_clock_cycles == 7,
{
    reveal(PpuView::ticked);
    let zeroed = with_stat_mode(bus, PpuMode::HBlank).with_io(0x44, 0);
    lemma_same_line(bus, PpuMode::HBlank, InterruptFlag::Stat, false, false);
    lemma_same_line(zeroed, PpuMode::HBlank, InterruptFlag::Stat, false, false);
    let begun = started_bus(bus);
    assert(begun.io(0x44) == 0 && begun.io(0x40) == bus.io(0x40) && begun.memory.len() == 0x10000);
    let worked = ppu.started().clocked().mode_ticked(begun);
    assert(worked.1 == begun);
    lemma_same_line(begun, PpuMode::HBlank, InterruptFlag::Stat, false, false);
}

impl PpuView {
    /// The machine after `n` master cycles of the picture unit, with nothing
    /// else at work on the bus.
    pub open spec fn ticked_times(self, bus: MmuView, n: nat) -> (PpuView, MmuView)
        decreases n,
    {
        if n == 0 {
            (self, bus)
        } else {
            self.ticked_times(bus, (n - 1) as nat).0.ticked(
                self.ticked_times(bus, (n - 1) as nat).1,
            )
        }
    }
}

/// With the LCD on and nothing else at work on the bus, `n` master cycles
/// take the frame clock on by `n`, starting over after 70223, and leave the
/// picture unit and LY in agreement on where in the frame they are.
#[verifier::rlimit(100)]
pub proof fn lemma_frame_clock_runs(ppu: PpuView, bus: MmuView, n: nat)
    requires
        bus.lcd_on(),
        bus.memory.len() == 0x10000,
        ppu.in_frame(bus),
    ensures
        ppu.ticked_times(bus, n).1.lcd_on(),
        ppu.ticked_times(bus, n).1.memory.len() == 0x10000,
        ppu.ticked_times(bus, n).0.in_frame(ppu.ticked_times(bus, n).1),
        ppu.ticked_times(bus, n).0.frame_clock_cycles == (ppu.frame_clock_cycles + n) % 70224,
    decreases n,
{
    if n > 0 {
        lemma_frame_clock_runs(ppu, bus, (n - 1) as nat);
        let before = ppu.ticked_times(bus, (n - 1) as nat);
        lemma_frame_takes_70224_cycles(before.0, before.1);
    }
}

/// A scanline takes exactly 456 master cycles. From cycle 0 of a scanline,
/// 456 cycles lead to cycle 0 of the next one, which is the first scanline
/// again after scanline 153. The scanline after a visible one starts in
/// mode 2, but for scanline 143, which leads into mode 1; mode 1 lasts from
/// scanline 144 through scanline 153.
#[verifier::rlimit(100)]
pub proof fn lemma_scanline_runs_456_cycles(ppu: PpuView, bus: MmuView)
    requires
        bus.lcd_on(),
        bus.memory.len() == 0x10000,
        ppu.in_frame(bus),
        ppu.line_clock_cycles == 0,
    ensures
        ppu.ticked_times(bus, 456).0.line_clock_cycles == 0,
        ppu.ticked_times(bus, 456).0.line_index(ppu.ticked_times(bus, 456).1) == (ppu.line_index(
            bus,
        ) + 1) % 154,
        ppu.ticked_times(bus, 456).0.mode == if 143 <= ppu.line_index(bus) < 153 {
            PpuMode::VBlank
        } else {
            PpuMode::OAM
        },
        !ppu.ticked_times(bus, 456).0.power_on_line_0,
{
    lemma_frame_clock_runs(ppu, bus, 456);
}

/// A frame takes exactly 70224 master cycles: that many cycles on, the
/// picture unit is at the same cycle of the same scanline again.
#[verifier::rlimit(100)]
pub proof fn lemma_frame_runs_70224_cycles(ppu: PpuView, bus: MmuView)
    requires
        bus.lcd_on(),
        bus.memory.len() == 0x10000,
        ppu.in_frame(bus),
    ensures
        ppu.ticked_times(bus, 70224).0.line_clock_cycles == ppu.line_clock_cycles,
        ppu.ticked_times(bus, 70224).0.line_index(ppu.ticked_times(bus, 70224).1)
            == ppu.line_index(bus),
        ppu.ticked_times(bus, 70224).0.frame_clock_cycles == ppu.frame_clock_cycles,
{
    lemma_frame_clock_runs(ppu, bus, 70224);
}

} // verus!
