//! The boot image, once unmapped, stays unmapped.
use vstd::prelude::*;

use crate::gameboy::cpu::runs::lemma_cpu_keeps_boot_unmapped;
use crate::gameboy::ppu::frame::lemma_picture_unit_keeps_boot_latch;
use crate::gameboy::GameBoyView;

verus! {

impl GameBoyView {
    /// The machine after `n` master cycles.
    pub open spec fn ticked_times(self, n: nat) -> GameBoyView
        decreases n,
    {
        if n == 0 {
            self
        } else {
            self.ticked_times((n - 1) as nat).ticked()
        }
    }
}

/// The boot image is unmapped for good. Once it is unmapped, as a write to
/// 0xFF50 leaves it, it is unmapped after every master cycle of the machine,
/// whatever the CPU, the picture unit, the sound unit, the DMA engine and
/// the timer do in it.
pub proof fn lemma_boot_image_unmapped_for_good(machine: GameBoyView, n: nat)
    requires
        !machine.mmu.bios_enabled,
    ensures
        !machine.ticked().mmu.bios_enabled,
        !machine.ticked_times(n).mmu.bios_enabled,
    decreases n,
{
    lemma_cpu_keeps_boot_unmapped(machine.cpu, machine.mmu);
    lemma_picture_unit_keeps_boot_latch(machine.ppu, machine.cpu.ticked(machine.mmu).1);
    if n > 0 {
        lemma_boot_image_unmapped_for_good(machine, (n - 1) as nat);
        let before = machine.ticked_times((n - 1) as nat);
        lemma_cpu_keeps_boot_unmapped(before.cpu, before.mmu);
        lemma_picture_unit_keeps_boot_latch(before.ppu, before.cpu.ticked(before.mmu).1);
    }
}

} // verus!
