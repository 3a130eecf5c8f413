//! The two signals of a finished frame: the VBlank interrupt and the flag
//! that a picture is ready.
use vstd::prelude::*;

use crate::gameboy::bits::has_bit;
use crate::gameboy::bits::lemma_with_bit;
use crate::gameboy::bits::with_bit;
use crate::gameboy::interupt::InterruptFlag;
use crate::gameboy::mmu::MmuView;
use crate::gameboy::ppu::ly_checked;
use crate::gameboy::ppu::next_line;
use crate::gameboy::ppu::scanline::lemma_frame_clock_runs;
use crate::gameboy::ppu::scanline::lemma_frame_takes_70224_cycles;
use crate::gameboy::ppu::scanline::lemma_pipeline_keeps_clocks;
use crate::gameboy::ppu::scanline::started_bus;
use crate::gameboy::ppu::scanline::vblank_entered;
use crate::gameboy::ppu::scanline::with_locks;
use crate::gameboy::ppu::scanline::with_oam_locked;
use crate::gameboy::ppu::scanline::with_request;
use crate::gameboy::ppu::with_stat_mode;
use crate::gameboy::ppu::PpuMode;
use crate::gameboy::ppu::PpuView;

verus! {

/// Whether the VBlank interrupt is requested.
pub open spec fn vblank_requested(bus: MmuView) -> bool {
    has_bit(bus.interupts.flags as int, 0)
}

impl PpuView {
    /// Whether the clock of mode 1 agrees with the frame clock: mode 1
    /// starts with cycle 65664 of the frame.
    pub open spec fn blank_clock_agrees(self) -> bool {
        self.mode == PpuMode::VBlank ==> self.frame_clock_cycles == 65664 + self.mode_clock_cycles
    }
}

/// What the picture unit does to STAT, to LY and to the locks leaves the
/// request of the VBlank interrupt alone, and so does a request of the STAT
/// interrupt.
proof fn lemma_request_kept(bus: MmuView, mode: PpuMode, oam: bool, vram: bool, n: int, val: u8)
    ensures
        vblank_requested(with_stat_mode(bus, mode)) == vblank_requested(bus),
        vblank_requested(ly_checked(bus)) == vblank_requested(bus),
        vblank_requested(with_locks(bus, oam, vram)) == vblank_requested(bus),
        vblank_requested(with_oam_locked(bus)) == vblank_requested(bus),
        vblank_requested(bus.with_io(n, val)) == vblank_requested(bus),
        vblank_requested(MmuView { lock_vram: true, ..bus }) == vblank_requested(bus),
        vblank_requested(with_request(bus, InterruptFlag::Stat)) == vblank_requested(bus),
        vblank_requested(bus.stat_updated()) == vblank_requested(bus),
        vblank_requested(with_request(bus, InterruptFlag::VBlank)),
        with_stat_mode(bus, mode).bios_enabled == bus.bios_enabled,
        ly_checked(bus).bios_enabled == bus.bios_enabled,
        bus.with_io(n, val).bios_enabled == bus.bios_enabled,
        bus.stat_updated().bios_enabled == bus.bios_enabled,
{
    lemma_with_bit(bus.interupts.flags, 1, true, 0);
    lemma_with_bit(bus.interupts.flags, 0, true, 0);
}

/// The start of mode 1 requests the VBlank interrupt.
proof fn lemma_request_made(bus: MmuView)
    ensures
        vblank_requested(vblank_entered(bus)),
        vblank_entered(bus).bios_enabled == bus.bios_enabled,
{
    let asked = with_locks(with_request(bus, InterruptFlag::VBlank), false, false);
    lemma_request_kept(bus, PpuMode::VBlank, false, false, 0, 0);
    lemma_request_kept(asked, PpuMode::VBlank, false, false, 0, 0);
    let moded = with_stat_mode(asked, PpuMode::VBlank);
    lemma_request_kept(moded, PpuMode::VBlank, false, false, 0, 0);
    let shown = ly_checked(moded);
    lemma_request_kept(shown, PpuMode::VBlank, false, false, 0, 0);
}

/// The first scanline after the LCD came on signals nothing.
#[verifier::rlimit(100)]
proof fn lemma_power_on_line_signals(ppu: PpuView, bus: MmuView)
    requires
        ppu.power_on_line_0,
    ensures
        ppu.clocked().power_on_line_ticked(bus).0.draw_flag == ppu.draw_flag,
        ppu.clocked().power_on_line_ticked(bus).0.mode == ppu.mode || ppu.clocked().power_on_line_ticked(
            bus,
        ).0.mode != PpuMode::VBlank,
        vblank_requested(ppu.clocked().power_on_line_ticked(bus).1) == vblank_requested(bus),
        ppu.clocked().power_on_line_ticked(bus).1.bios_enabled == bus.bios_enabled,
{
    let clocked = ppu.clocked();
    if clocked.line_clock_cycles == 83 {
        lemma_request_kept(bus, PpuMode::VRAM, true, true, 0, 0);
        lemma_request_kept(with_stat_mode(bus, PpuMode::VRAM), PpuMode::VRAM, true, true, 0, 0);
    } else if clocked.line_clock_cycles == 257 {
        lemma_request_kept(bus, PpuMode::HBlank, false, false, 0, 0);
        lemma_request_kept(
            with_stat_mode(bus, PpuMode::HBlank),
            PpuMode::HBlank,
            false,
            false,
            0,
            0,
        );
    } else if clocked.line_clock_cycles == 456 {
        lemma_request_kept(bus, PpuMode::OAM, false, false, 0x44, next_line(bus.io(0x44)));
        lemma_request_kept(
            bus.with_io(0x44, next_line(bus.io(0x44))),
            PpuMode::OAM,
            false,
            false,
            0,
            0,
        );
    }
}

/// Mode 0 raises the flag that a picture is ready where it gives way to
/// mode 1, and requests nothing.
proof fn lemma_hblank_signals(ppu: PpuView, bus: MmuView)
    requires
        ppu.mode == PpuMode::HBlank,
    ensures
        ppu.clocked().hblank_ticked(bus).0.draw_flag == (ppu.draw_flag || ppu.clocked().hblank_ticked(
            bus,
        ).0.mode == PpuMode::VBlank),
        ppu.clocked().hblank_ticked(bus).0.mode == PpuMode::VBlank ==> ppu.clocked().hblank_ticked(
            bus,
        ).0.mode_clock_cycles == 0 && ppu.clocked().line_clock_cycles == 456 && next_line(
            bus.io(0x44),
        ) == 144,
        ppu.clocked().line_clock_cycles == 456 && next_line(bus.io(0x44)) == 144
            ==> ppu.clocked().hblank_ticked(bus).0.mode == PpuMode::VBlank,
        ppu.clocked().hblank_ticked(bus).0.frame_clock_cycles == ppu.clocked().frame_clock_cycles,
        vblank_requested(ppu.clocked().hblank_ticked(bus).1) == vblank_requested(bus),
        ppu.clocked().hblank_ticked(bus).1.bios_enabled == bus.bios_enabled,
{
    let shown = ppu.clocked().hblank_shown(bus);
    lemma_request_kept(bus, PpuMode::HBlank, false, false, 0, 0);
    lemma_request_kept(with_stat_mode(bus, PpuMode::HBlank), PpuMode::HBlank, false, false, 0, 0);
    lemma_request_kept(shown, PpuMode::HBlank, false, false, 0x44, 144);
    lemma_request_kept(shown, PpuMode::HBlank, false, false, 0x44, next_line(bus.io(0x44)));
    lemma_request_kept(
        shown.with_io(0x44, next_line(bus.io(0x44))),
        PpuMode::HBlank,
        false,
        false,
        0,
        0,
    );
}

/// Mode 1 requests the VBlank interrupt in its fourth cycle and in no
/// other, and leaves the flag that a picture is ready alone.
proof fn lemma_vblank_signals(ppu: PpuView, bus: MmuView)
    requires
        ppu.mode == PpuMode::VBlank,
    ensures
        ppu.clocked().vblank_ticked(bus).0.draw_flag == ppu.draw_flag,
        ppu.clocked().vblank_ticked(bus).0.mode == PpuMode::VBlank ==> ppu.clocked().vblank_ticked(
            bus,
        ).0.mode_clock_cycles == ppu.clocked().mode_clock_cycles && ppu.clocked().vblank_ticked(
            bus,
        ).0.frame_clock_cycles == ppu.clocked().frame_clock_cycles,
        vblank_requested(ppu.clocked().vblank_ticked(bus).1) == (vblank_requested(bus)
            || ppu.clocked().mode_clock_cycles == 4),
        ppu.clocked().vblank_ticked(bus).1.bios_enabled == bus.bios_enabled,
{
    let clocked = ppu.clocked();
    let shown = clocked.vblank_shown(bus);
    lemma_request_made(bus);
    let early = clocked.wraps_early(bus.io(0x44));
    let wrapped = clocked.early_wrapped(shown, early);
    lemma_request_kept(shown, PpuMode::VBlank, false, false, 0x44, 0);
    lemma_request_kept(shown.with_io(0x44, 0), PpuMode::VBlank, false, false, 0, 0);
    assert(vblank_requested(wrapped.1) == vblank_requested(shown));
    lemma_request_kept(wrapped.1, PpuMode::VBlank, false, false, 0x44, next_line(bus.io(0x44)));
    lemma_request_kept(
        wrapped.1.with_io(0x44, next_line(bus.io(0x44))),
        PpuMode::VBlank,
        false,
        false,
        0,
        0,
    );
}

/// Mode 2 signals nothing.
proof fn lemma_oam_signals(ppu: PpuView, bus: MmuView)
    requires
        ppu.mode == PpuMode::OAM,
    ensures
        ppu.clocked().oam_ticked(bus).0.draw_flag == ppu.draw_flag,
        ppu.clocked().oam_ticked(bus).0.mode != PpuMode::VBlank,
        vblank_requested(ppu.clocked().oam_ticked(bus).1) == vblank_requested(bus),
        ppu.clocked().oam_ticked(bus).1.bios_enabled == bus.bios_enabled,
{
    let clocked = ppu.clocked();
    lemma_request_kept(bus, PpuMode::OAM, false, false, 0x41, with_bit(bus.io(0x41), 2, false));
    let cleared = if clocked.mode_clock_cycles == 1 {
        bus.with_io(0x41, with_bit(bus.io(0x41), 2, false))
    } else {
        bus
    };
    lemma_request_kept(cleared, PpuMode::OAM, false, false, 0, 0);
    lemma_request_kept(with_stat_mode(cleared, PpuMode::OAM), PpuMode::OAM, false, false, 0, 0);
    let shown = if clocked.mode_clock_cycles == 4 {
        ly_checked(with_stat_mode(cleared, PpuMode::OAM))
    } else {
        cleared
    };
    assert(vblank_requested(shown) == vblank_requested(bus));
    lemma_request_kept(shown, PpuMode::OAM, false, false, 0, 0);
}

/// The pixel pipeline leaves the flag that a picture is ready alone.
#[verifier::rlimit(100)]
proof fn lemma_pipeline_keeps_flag(ppu: PpuView, bus: MmuView)
    ensures
        ppu.fifo_ticked(bus).draw_flag == ppu.draw_flag,
{
}

/// Mode 3 signals nothing.
proof fn lemma_vram_signals(ppu: PpuView, bus: MmuView)
    requires
        ppu.mode == PpuMode::VRAM,
    ensures
        ppu.clocked().vram_ticked(bus).0.draw_flag == ppu.draw_flag,
        ppu.clocked().vram_ticked(bus).0.mode != PpuMode::VBlank,
        vblank_requested(ppu.clocked().vram_ticked(bus).1) == vblank_requested(bus),
        ppu.clocked().vram_ticked(bus).1.bios_enabled == bus.bios_enabled,
{
    let clocked = ppu.clocked();
    lemma_request_kept(bus, PpuMode::VRAM, false, false, 0, 0);
    lemma_pipeline_keeps_clocks(clocked, bus);
    lemma_pipeline_keeps_clocks(clocked, with_stat_mode(bus, PpuMode::VRAM));
    lemma_pipeline_keeps_flag(clocked, bus);
    lemma_pipeline_keeps_flag(clocked, with_stat_mode(bus, PpuMode::VRAM));
}

/// A frame is signalled at one place. With the LCD on, the master cycle
/// that takes the frame clock to 65664, the start of scanline 144, raises
/// the flag that a picture is ready, and no other cycle does; the cycle
/// that takes it to 65668, the fourth of mode 1, requests the VBlank
/// interrupt, and no other cycle does.
#[verifier::rlimit(100)]
pub proof fn lemma_frame_is_signalled_at_vblank(ppu: PpuView, bus: MmuView)
    requires
        bus.lcd_on(),
        bus.memory.len() == 0x10000,
        ppu.in_frame(bus),
        ppu.blank_clock_agrees(),
    ensures
        ppu.ticked(bus).0.blank_clock_agrees(),
        ppu.ticked(bus).0.draw_flag == (ppu.draw_flag || ppu.ticked(bus).0.frame_clock_cycles
            == 65664),
        vblank_requested(ppu.ticked(bus).1) == (vblank_requested(bus) || ppu.ticked(
            bus,
        ).0.frame_clock_cycles == 65668),
{
    lemma_frame_takes_70224_cycles(ppu, bus);
    reveal(PpuView::ticked);
    let worked = ppu.clocked().mode_ticked(bus);
    assert(ppu.ticked(bus).0 == worked.0);
    assert(ppu.ticked(bus).1 == worked.1.stat_updated());
    lemma_request_kept(worked.1, PpuMode::HBlank, false, false, 0, 0);
    if ppu.power_on_line_0 {
        lemma_power_on_line_signals(ppu, bus);
    } else {
        match ppu.mode {
            PpuMode::HBlank => lemma_hblank_signals(ppu, bus),
            PpuMode::VBlank => lemma_vblank_signals(ppu, bus),
            PpuMode::OAM => lemma_oam_signals(ppu, bus),
            PpuMode::VRAM => lemma_vram_signals(ppu, bus),
        }
    }
}

/// One frame, one signal. From the first cycle of a frame, with neither
/// signal up and nothing else at work on the bus: the flag that a picture
/// is ready is down for 65663 cycles and up from cycle 65664 to the end of
/// the frame, and the VBlank interrupt is not requested for 65667 cycles
/// and requested from cycle 65668 to the end of the frame.
pub proof fn lemma_frame_is_signalled_once(ppu: PpuView, bus: MmuView, n: nat)
    requires
        bus.lcd_on(),
        bus.memory.len() == 0x10000,
        ppu.in_frame(bus),
        ppu.frame_clock_cycles == 0,
        !ppu.draw_flag,
        !vblank_requested(bus),
        n <= 70224,
    ensures
        ppu.ticked_times(bus, n).0.blank_clock_agrees(),
        ppu.ticked_times(bus, n).0.draw_flag == (n >= 65664),
        vblank_requested(ppu.ticked_times(bus, n).1) == (n >= 65668),
    decreases n,
{
    if n > 0 {
        lemma_frame_is_signalled_once(ppu, bus, (n - 1) as nat);
        lemma_frame_clock_runs(ppu, bus, (n - 1) as nat);
        lemma_frame_clock_runs(ppu, bus, n);
        let before = ppu.ticked_times(bus, (n - 1) as nat);
        lemma_frame_is_signalled_at_vblank(before.0, before.1);
    }
}

/// The picture unit leaves the mapping of the boot image alone.
#[verifier::rlimit(100)]
pub proof fn lemma_picture_unit_keeps_boot_latch(ppu: PpuView, bus: MmuView)
    ensures
        ppu.ticked(bus).1.bios_enabled == bus.bios_enabled,
{
    reveal(PpuView::ticked);
    lemma_request_kept(bus, PpuMode::HBlank, false, false, 0x44, 0);
    lemma_request_kept(bus.with_io(0x44, 0), PpuMode::HBlank, false, false, 0, 0);
    lemma_request_kept(with_stat_mode(bus, PpuMode::HBlank), PpuMode::HBlank, false, false, 0x44, 0);
    lemma_request_kept(
        with_stat_mode(bus, PpuMode::HBlank).with_io(0x44, 0),
        PpuMode::HBlank,
        false,
        false,
        0,
        0,
    );
    if bus.lcd_on() {
        let unit = if ppu.reset {
            ppu.started()
        } else {
            ppu
        };
        let wires = if ppu.reset {
            started_bus(bus)
        } else {
            bus
        };
        assert(wires.bios_enabled == bus.bios_enabled);
        let worked = unit.clocked().mode_ticked(wires);
        lemma_request_kept(worked.1, PpuMode::HBlank, false, false, 0, 0);
        if unit.power_on_line_0 {
            lemma_power_on_line_signals(unit, wires);
        } else {
            match unit.mode {
                PpuMode::HBlank => lemma_hblank_signals(unit, wires),
                PpuMode::VBlank => lemma_vblank_signals(unit, wires),
                PpuMode::OAM => lemma_oam_signals(unit, wires),
                PpuMode::VRAM => lemma_vram_signals(unit, wires),
            }
        }
        assert(ppu.ticked(bus).1 == worked.1.stat_updated());
    }
}

} // verus!
