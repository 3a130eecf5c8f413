//! The interrupt controller: the master-enable bit, the enable mask, the
//! request flags, and the order in which requests are served.
use vstd::prelude::*;

use crate::gameboy::bits::bit;
use crate::gameboy::bits::has_bit;
use crate::gameboy::bits::lemma_with_bit;
use crate::gameboy::bits::set_bit;
use crate::gameboy::bits::with_bit;
use crate::gameboy::cpu::scheduler::lemma_queue_head;
use crate::gameboy::cpu::Cpu;
use crate::gameboy::cpu::Current;
use crate::gameboy::cpu::InstructionKind;

verus! {

/// The five interrupt sources, highest priority first.
#[derive(Clone, Copy, PartialEq, Eq, Structural, Debug)]
pub enum InterruptFlag {
    VBlank,
    Stat,
    Timer,
    Serial,
    Joypad,
}

impl InterruptFlag {
    /// The bit that the source owns in the enable mask and in the request flags.
    pub open spec fn index(self) -> u8 {
        match self {
            InterruptFlag::VBlank => 0,
            InterruptFlag::Stat => 1,
            InterruptFlag::Timer => 2,
            InterruptFlag::Serial => 3,
            InterruptFlag::Joypad => 4,
        }
    }

    /// The address that the CPU jumps to when it serves the source.
    pub open spec fn vector(self) -> u16 {
        match self {
            InterruptFlag::VBlank => 0x40,
            InterruptFlag::Stat => 0x48,
            InterruptFlag::Timer => 0x50,
            InterruptFlag::Serial => 0x58,
            InterruptFlag::Joypad => 0x60,
        }
    }

    pub fn bit_index(self) -> (n: u8)
        ensures
            n == self.index(),
            n < 5,
    {
        match self {
            InterruptFlag::VBlank => 0,
            InterruptFlag::Stat => 1,
            InterruptFlag::Timer => 2,
            InterruptFlag::Serial => 3,
            InterruptFlag::Joypad => 4,
        }
    }
}

/// Whether source `n` is both enabled and requested.
pub open spec fn pending(enable: u8, flags: u8, n: u8) -> bool {
    has_bit(enable as int, n) && has_bit(flags as int, n)
}

/// The source to serve under the given enable mask and request flags: the
/// pending one of highest priority.
pub open spec fn highest_pending(enable: u8, flags: u8) -> Option<InterruptFlag> {
    if pending(enable, flags, 0) {
        Some(InterruptFlag::VBlank)
    } else if pending(enable, flags, 1) {
        Some(InterruptFlag::Stat)
    } else if pending(enable, flags, 2) {
        Some(InterruptFlag::Timer)
    } else if pending(enable, flags, 3) {
        Some(InterruptFlag::Serial)
    } else if pending(enable, flags, 4) {
        Some(InterruptFlag::Joypad)
    } else {
        None
    }
}

/// The state of the interrupt controller. `waiting_for_halt_if` is set while
/// the CPU sits in HALT with interrupts disabled; a request made meanwhile is
/// remembered in `halt_interupt_pending` and wakes the CPU.
#[derive(Clone, Copy, Debug)]
pub struct Interupt {
    pub master: u8,
    pub enable: u8,
    pub flags: u8,
    pub waiting_for_halt_if: bool,
    pub halt_interupt_pending: bool,
}

impl Interupt {
    /// The controller after a request from `flag`.
    pub open spec fn requested(self, flag: InterruptFlag) -> Interupt {
        Interupt {
            flags: with_bit(self.flags, flag.index(), true),
            halt_interupt_pending: self.halt_interupt_pending || self.waiting_for_halt_if,
            ..self
        }
    }

    /// The controller after the request of `flag` has been served.
    pub open spec fn cleared(self, flag: InterruptFlag) -> Interupt {
        Interupt { flags: with_bit(self.flags, flag.index(), false), ..self }
    }

    /// The controller after `flag` has been requested if `wanted` holds.
    pub open spec fn requested_if(self, wanted: bool, flag: InterruptFlag) -> Interupt {
        if wanted {
            self.requested(flag)
        } else {
            self
        }
    }

    /// The controller at power-on: everything disabled, nothing requested.
    pub open spec fn initial() -> Interupt {
        Interupt {
            master: 0,
            enable: 0,
            flags: 0,
            waiting_for_halt_if: false,
            halt_interupt_pending: false,
        }
    }

    pub fn new() -> (interupt: Self)
        ensures
            interupt == Self::initial(),
    {
        Self {
            master: 0,
            enable: 0,
            flags: 0,
            waiting_for_halt_if: false,
            halt_interupt_pending: false,
        }
    }

    pub fn enable_master(&mut self)
        ensures
            *final(self) == (Interupt { master: 1, ..*old(self) }),
    {
        self.master = 1;
    }

    pub fn disable_master(&mut self)
        ensures
            *final(self) == (Interupt { master: 0, ..*old(self) }),
    {
        self.master = 0;
    }

    pub fn is_master_enabled(&self) -> (enabled: bool)
        ensures
            enabled == (self.master > 0),
    {
        self.master > 0
    }

    /// The source to serve now, if any.
    pub fn get_interupt_state(&self) -> (state: Option<InterruptFlag>)
        ensures
            state == highest_pending(self.enable, self.flags),
    {
        self.get_interupt_state_latched(self.enable, self.flags)
    }

    /// The source to serve under an enable mask and request flags that were
    /// latched earlier: VBlank before Stat before Timer before Serial before
    /// Joypad.
    pub fn get_interupt_state_latched(
        &self,
        interupt_enable_flags: u8,
        interupt_req_flags: u8,
    ) -> (state: Option<InterruptFlag>)
        ensures
            state == highest_pending(interupt_enable_flags, interupt_req_flags),
    {
        if bit(interupt_enable_flags, 0) && bit(interupt_req_flags, 0) {
            Some(InterruptFlag::VBlank)
        } else if bit(interupt_enable_flags, 1) && bit(interupt_req_flags, 1) {
            Some(InterruptFlag::Stat)
        } else if bit(interupt_enable_flags, 2) && bit(interupt_req_flags, 2) {
            Some(InterruptFlag::Timer)
        } else if bit(interupt_enable_flags, 3) && bit(interupt_req_flags, 3) {
            Some(InterruptFlag::Serial)
        } else if bit(interupt_enable_flags, 4) && bit(interupt_req_flags, 4) {
            Some(InterruptFlag::Joypad)
        } else {
            None
        }
    }

    pub fn clear_interupt(&mut self, flag: InterruptFlag)
        ensures
            *final(self) == old(self).cleared(flag),
    {
        self.flags = set_bit(self.flags, flag.bit_index(), false);
    }

    pub fn request_interupt(&mut self, flag: InterruptFlag)
        ensures
            *final(self) == old(self).requested(flag),
    {
        self.flags = set_bit(self.flags, flag.bit_index(), true);
        if self.waiting_for_halt_if {
            self.halt_interupt_pending = true;
        }
    }

    /// The CPU after the controller has looked at it at the end of a master
    /// cycle: between two instructions, with interrupts enabled and a
    /// request pending, the service routine takes the place of the next
    /// instruction and a halted CPU runs again.
    pub open spec fn handled(self, cpu: Cpu) -> Cpu {
        if self.master > 0 && cpu.instruction is None && highest_pending(self.enable, self.flags)
            is Some {
            Cpu {
                instruction: Some(
                    Current { kind: InstructionKind::Interrupt, opcode: 0, position: 0 },
                ),
                halted: false,
                ..cpu
            }
        } else {
            cpu
        }
    }

    /// Injects the interrupt service routine into the CPU when a request is
    /// to be served.
    pub fn handle(interrupt: &mut Interupt, cpu: &mut Cpu)
        requires
            old(cpu).wf(),
        ensures
            *final(interrupt) == *old(interrupt),
            *final(cpu) == old(interrupt).handled(*old(cpu)),
            final(cpu).wf(),
    {
        if interrupt.is_master_enabled() && !cpu.is_processing_instruction() {
            if interrupt.get_interupt_state().is_none() {
                return ;
            }
            proof {
                lemma_queue_head(InstructionKind::Interrupt, 0);
            }
            cpu.set_interrupt_instruction();
            cpu.halted = false;
        }
    }

    pub fn get_interupt_vector(flag: InterruptFlag) -> (vector: u16)
        ensures
            vector == flag.vector(),
    {
        match flag {
            InterruptFlag::VBlank => 0x40,
            InterruptFlag::Stat => 0x48,
            InterruptFlag::Timer => 0x50,
            InterruptFlag::Serial => 0x58,
            InterruptFlag::Joypad => 0x60,
        }
    }
}

/// A request makes its source pending wherever the source is enabled, and
/// serving it takes the request back; neither touches another source.
pub proof fn lemma_request_then_clear(interupt: Interupt, flag: InterruptFlag, other: u8)
    requires
        other < 8,
    ensures
        has_bit(interupt.requested(flag).flags as int, flag.index()),
        !has_bit(interupt.cleared(flag).flags as int, flag.index()),
        other != flag.index() ==> has_bit(interupt.requested(flag).flags as int, other) == has_bit(
            interupt.flags as int,
            other,
        ),
        other != flag.index() ==> has_bit(interupt.cleared(flag).flags as int, other) == has_bit(
            interupt.flags as int,
            other,
        ),
        interupt.requested(flag).requested(flag).flags == interupt.requested(flag).flags,
{
    lemma_with_bit(interupt.flags, flag.index(), true, flag.index());
    lemma_with_bit(interupt.flags, flag.index(), false, flag.index());
    lemma_with_bit(interupt.flags, flag.index(), true, other);
    lemma_with_bit(interupt.flags, flag.index(), false, other);
}

} // verus!
