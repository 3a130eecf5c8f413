//! The micro-step scheduler.
//!
//! An opcode fetch takes the first of the four clocks of its machine cycle
//! and puts the queue of the opcode in place. From then on every fourth
//! clock completes the `Standard` step at the head of the queue, and the
//! `Instant` and `InstantConditional` steps behind it run in the same clock.
//! An instruction thus takes four clocks for each `Standard` step that runs.
use vstd::prelude::*;

use crate::gameboy::cpu::disassembler::create_interupt_instruction;
use crate::gameboy::cpu::disassembler::disassemble;
use crate::gameboy::cpu::disassembler::disassemble_cb_prefix_op;
use crate::gameboy::cpu::disassembler::documented;
use crate::gameboy::cpu::disassembler::clocks;
use crate::gameboy::cpu::disassembler::interrupt_steps;
use crate::gameboy::cpu::disassembler::lemma_appended_step;
use crate::gameboy::cpu::disassembler::lemma_cycle_budget;
use crate::gameboy::cpu::disassembler::published_clocks;
use crate::gameboy::cpu::disassembler::published_prefixed_clocks;
use crate::gameboy::cpu::disassembler::standard_steps;
use crate::gameboy::cpu::disassembler::prefixed_steps_of;
use crate::gameboy::cpu::disassembler::steps_of;
use crate::gameboy::cpu::disassembler::Instruction;
use crate::gameboy::cpu::disassembler::InstructionStep;
use crate::gameboy::cpu::disassembler::MicroOp;
use crate::gameboy::cpu::Cpu;
use crate::gameboy::cpu::Current;
use crate::gameboy::cpu::InstructionKind;
use crate::gameboy::cpu::wrapping_difference;
use crate::gameboy::interupt::Interupt;
use crate::gameboy::mmu::Mmu;
use crate::gameboy::mmu::MmuView;

verus! {

/// The step queue of an instruction.
pub open spec fn queue_of(kind: InstructionKind, opcode: u8) -> Seq<InstructionStep> {
    match kind {
        InstructionKind::Plain => steps_of(opcode),
        InstructionKind::Prefixed => prefixed_steps_of(opcode),
        InstructionKind::Interrupt => interrupt_steps(),
    }
}

/// The next step of the instruction in progress, if one is left.
pub open spec fn step_at(current: Current) -> Option<InstructionStep> {
    let queue = queue_of(current.kind, current.opcode);
    if current.position < queue.len() {
        Some(queue[current.position as int])
    } else {
        None
    }
}

/// Whether a step is made of micro-operations that can run.
pub open spec fn step_wf(step: InstructionStep) -> bool {
    match step {
        InstructionStep::Standard(op) => op.wf(),
        InstructionStep::Instant(op) => op.wf(),
        InstructionStep::InstantConditional(_) => true,
    }
}

/// Every step of every queue can run, and no queue is longer than eight
/// steps.
#[verifier::rlimit(100)]
pub proof fn lemma_queues_wf(current: Current)
    ensures
        queue_of(current.kind, current.opcode).len() <= 8,
        step_at(current) matches Some(step) ==> step_wf(step),
{
    reveal(steps_of);
    reveal(prefixed_steps_of);
}

/// Every queue opens with a `Standard` step: the machine cycle of the opcode
/// fetch, or the first idle cycle of the interrupt service routine.
#[verifier::rlimit(100)]
pub proof fn lemma_queue_head(kind: InstructionKind, opcode: u8)
    ensures
        step_at(Current { kind, opcode, position: 0 }) matches Some(InstructionStep::Standard(_)),
{
    reveal(steps_of);
    reveal(prefixed_steps_of);
}

/// HALT is the last step of its queue.
pub proof fn lemma_halt_is_last(current: Current)
    ensures
        step_at(current) matches Some(step) ==> (step == InstructionStep::Instant(MicroOp::Halt)
            || step == InstructionStep::Standard(MicroOp::Halt)) ==> current.position + 1
            == queue_of(current.kind, current.opcode).len(),
{
    reveal(steps_of);
    reveal(prefixed_steps_of);
}

/// The step queues of all opcodes, decoded once.
pub struct Decoder {
    pub plain: Vec<Option<Instruction>>,
    pub prefixed: Vec<Instruction>,
    pub interrupt: Instruction,
}

impl Decoder {
    /// The tables hold what the decoder gives for each opcode.
    pub open spec fn wf(&self) -> bool {
        &&& self.plain.len() == 256
        &&& self.prefixed.len() == 256
        &&& forall|opcode: int|
            0 <= opcode < 256 ==> ((#[trigger] self.plain[opcode]) is Some <==> documented(
                opcode as u8,
            ))
        &&& forall|opcode: int|
            0 <= opcode < 256 ==> ((#[trigger] self.plain[opcode]) matches Some(instruction)
                ==> instruction.steps@ == steps_of(opcode as u8))
        &&& forall|opcode: int|
            0 <= opcode < 256 ==> (#[trigger] self.prefixed[opcode]).steps@ == prefixed_steps_of(
                opcode as u8,
            )
        &&& self.interrupt.steps@ == interrupt_steps()
    }

    /// Decodes every opcode.
    pub fn new() -> (decoder: Self)
        ensures
            decoder.wf(),
    {
        let mut plain: Vec<Option<Instruction>> = Vec::new();
        let mut prefixed: Vec<Instruction> = Vec::new();
        let mut opcode: u16 = 0;
        while opcode < 256
            invariant
                opcode <= 256,
                plain.len() == opcode,
                prefixed.len() == opcode,
                forall|op: int|
                    0 <= op < opcode ==> ((#[trigger] plain[op]) is Some <==> documented(op as u8)),
                forall|op: int|
                    0 <= op < opcode ==> ((#[trigger] plain[op]) matches Some(instruction)
                        ==> instruction.steps@ == steps_of(op as u8)),
                forall|op: int|
                    0 <= op < opcode ==> (#[trigger] prefixed[op]).steps@ == prefixed_steps_of(
                        op as u8,
                    ),
            decreases 256 - opcode,
        {
            plain.push(disassemble(opcode as u8));
            prefixed.push(disassemble_cb_prefix_op(opcode as u8));
            opcode += 1;
        }
        Decoder { plain, prefixed, interrupt: create_interupt_instruction() }
    }

    /// Whether an unprefixed opcode names an instruction.
    pub fn is_documented(&self, opcode: u8) -> (known: bool)
        requires
            self.wf(),
        ensures
            known == documented(opcode),
    {
        self.plain[opcode as usize].is_some()
    }

    /// The next step of an instruction in progress, if one is left.
    pub fn step(&self, current: Current) -> (step: Option<InstructionStep>)
        requires
            self.wf(),
            current.kind == InstructionKind::Plain ==> documented(current.opcode),
        ensures
            step == step_at(current),
    {
        match current.kind {
            InstructionKind::Plain => {
                match &self.plain[current.opcode as usize] {
                    Some(instruction) => {
                        if current.position < instruction.steps.len() {
                            Some(instruction.steps[current.position])
                        } else {
                            None
                        }
                    },
                    None => None,
                }
            },
            InstructionKind::Prefixed => {
                let instruction = &self.prefixed[current.opcode as usize];
                if current.position < instruction.steps.len() {
                    Some(instruction.steps[current.position])
                } else {
                    None
                }
            },
            InstructionKind::Interrupt => {
                if current.position < self.interrupt.steps.len() {
                    Some(self.interrupt.steps[current.position])
                } else {
                    None
                }
            },
        }
    }
}

impl Cpu {
    /// The invariant of the CPU between two clocks: an instruction in
    /// progress waits at a `Standard` step, and the clock count of the
    /// machine cycle is running only then.
    pub open spec fn wf(self) -> bool {
        &&& self.machine_cycles_taken_for_current_step < 4
        &&& match self.instruction {
            Some(current) => {
                &&& step_at(current) matches Some(InstructionStep::Standard(_))
                &&& current.kind == InstructionKind::Plain ==> documented(current.opcode)
            },
            None => self.machine_cycles_taken_for_current_step == 0,
        }
    }

    /// The CPU after a micro-step that the scheduler has run. A micro-step
    /// works on the registers and on the bus; the instruction in progress,
    /// the clock count of the machine cycle and the trap are the
    /// scheduler's own, and no step but HALT halts the CPU.
    pub open spec fn ran(self, bus: MmuView, op: MicroOp) -> Cpu {
        Cpu {
            instruction: self.instruction,
            machine_cycles_taken_for_current_step: self.machine_cycles_taken_for_current_step,
            trap: self.trap,
            halted: if op is Halt {
                self.executed(bus, op).0.halted
            } else {
                self.halted
            },
            ..self.executed(bus, op).0
        }
    }

    /// The machine after the steps from `position` on have run as far as
    /// they run within one clock: `Instant` steps run, a condition that
    /// holds is passed, one that fails ends the instruction, and so does the
    /// end of the queue; a `Standard` step is left waiting.
    pub open spec fn drained(
        self,
        bus: MmuView,
        kind: InstructionKind,
        opcode: u8,
        position: nat,
    ) -> (Cpu, MmuView)
        decreases queue_of(kind, opcode).len() - position,
    {
        let queue = queue_of(kind, opcode);
        if position >= queue.len() {
            (Cpu { instruction: None, ..self }, bus)
        } else {
            match queue[position as int] {
                InstructionStep::Standard(_) => (
                    Cpu {
                        instruction: Some(Current { kind, opcode, position: position as usize }),
                        ..self
                    },
                    bus,
                ),
                InstructionStep::Instant(op) => self.ran(bus, op).drained(
                    self.executed(bus, op).1,
                    kind,
                    opcode,
                    position + 1,
                ),
                InstructionStep::InstantConditional(code) => if code.holds(self.zero, self.carry) {
                    self.drained(bus, kind, opcode, position + 1)
                } else {
                    (Cpu { instruction: None, ..self }, bus)
                },
            }
        }
    }

    /// The machine after the clock that completes a machine cycle: the
    /// `Standard` step at the head of the queue runs, and the steps behind
    /// it as far as they run within the same clock.
    #[verifier::opaque]
    pub open spec fn stepped(self, bus: MmuView, current: Current) -> (Cpu, MmuView) {
        let rested = Cpu { machine_cycles_taken_for_current_step: 0, ..self };
        match step_at(current) {
            Some(InstructionStep::Standard(op)) => rested.ran(bus, op).drained(
                rested.executed(bus, op).1,
                current.kind,
                current.opcode,
                (current.position + 1) as nat,
            ),
            _ => (Cpu { instruction: None, ..rested }, bus),
        }
    }

    /// The machine after an instruction has been put in place by the clock
    /// that fetched it. An EI before it takes effect now.
    pub open spec fn started(self, bus: MmuView, kind: InstructionKind, opcode: u8) -> (
        Cpu,
        MmuView,
    ) {
        (
            Cpu {
                ei_delay: false,
                machine_cycles_taken_for_current_step: 1,
                instruction: Some(Current { kind, opcode, position: 0 }),
                ..self
            },
            if self.ei_delay {
                MmuView { interupts: Interupt { master: 1, ..bus.interupts }, ..bus }
            } else {
                bus
            },
        )
    }

    /// The bus after an opcode fetch has moved PC to `pc`: the boot image is
    /// unmapped once PC has left it.
    pub open spec fn boot_left(bus: MmuView, pc: u16) -> MmuView {
        if bus.bios_enabled && pc >= 0x100 {
            MmuView { bios_enabled: false, ..bus }
        } else {
            bus
        }
    }

    /// The CPU after the halt bug, if it was armed, has taken PC back by
    /// one and disarmed itself.
    pub open spec fn settled(self) -> Cpu {
        if self.halt_bug {
            Cpu { pc: wrapping_difference(self.pc, 1), halt_bug: false, ..self }
        } else {
            self
        }
    }

    /// The machine after the clock that fetches an opcode. PC moves past the
    /// opcode, unless the halt bug is armed, which this fetch disarms. After
    /// the prefix byte the opcode behind it is fetched in the same clock. An
    /// opcode that names no instruction traps the CPU.
    #[verifier::opaque]
    pub open spec fn opcode_fetched(self, bus: MmuView) -> (Cpu, MmuView) {
        let opcode = self.fetched(bus).1;
        let moved = self.fetched(bus).0;
        let bus_now = Self::boot_left(bus, moved.pc);
        let settled = moved.settled();
        if opcode == 0xCB {
            settled.fetched(bus_now).0.started(
                bus_now,
                InstructionKind::Prefixed,
                settled.fetched(bus_now).1,
            )
        } else if documented(opcode) {
            settled.started(bus_now, InstructionKind::Plain, opcode)
        } else {
            (Cpu { trap: Some(opcode), ..settled }, bus_now)
        }
    }

    /// Whether the CPU sleeps through this clock: it is trapped, or halted
    /// with nothing to wake it.
    pub open spec fn sleeps(self, bus: MmuView) -> bool {
        ||| self.trap is Some
        ||| self.halted && !(self.halted_waiting_for_interupt_pending
            && bus.interupts.halt_interupt_pending)
    }

    /// The CPU after a request has woken it from a HALT with interrupts
    /// disabled.
    pub open spec fn woken(self) -> Cpu {
        if self.halted {
            Cpu { halted: false, halted_waiting_for_interupt_pending: false, ..self }
        } else {
            self
        }
    }

    /// The bus after a request has woken the CPU from a HALT with interrupts
    /// disabled.
    pub open spec fn wake_noted(self, bus: MmuView) -> MmuView {
        if self.halted {
            MmuView {
                interupts: Interupt {
                    halt_interupt_pending: false,
                    waiting_for_halt_if: false,
                    ..bus.interupts
                },
                ..bus
            }
        } else {
            bus
        }
    }

    /// The machine after one master clock of the CPU.
    pub open spec fn ticked(self, bus: MmuView) -> (Cpu, MmuView) {
        if self.sleeps(bus) {
            (self, bus)
        } else {
            match self.instruction {
                None => self.woken().opcode_fetched(self.wake_noted(bus)),
                Some(current) => if self.machine_cycles_taken_for_current_step + 1 < 4 {
                    (
                        Cpu {
                            machine_cycles_taken_for_current_step: (
                            self.machine_cycles_taken_for_current_step + 1) as u8,
                            ..self.woken()
                        },
                        self.wake_noted(bus),
                    )
                } else {
                    self.woken().stepped(self.wake_noted(bus), current)
                },
            }
        }
    }

    /// Advances the CPU by one master clock.
    #[verifier::rlimit(100)]
    pub fn tick(&mut self, mmu: &mut Mmu, decoder: &Decoder)
        requires
            old(self).wf(),
            old(mmu).wf(),
            decoder.wf(),
        ensures
            final(self).wf(),
            final(mmu).wf(),
            *final(self) == old(self).ticked(old(mmu)@).0,
            final(mmu)@ =~= old(self).ticked(old(mmu)@).1,
    {
        if self.trap.is_some() {
            return ;
        }
        if self.halted {
            if self.halted_waiting_for_interupt_pending && mmu.interupts.halt_interupt_pending {
                self.wake(mmu);
            } else {
                return ;
            }
        }
        match self.instruction {
            None => self.fetch_opcode(mmu, decoder),
            Some(current) => {
                if self.machine_cycles_taken_for_current_step + 1 < 4 {
                    self.machine_cycles_taken_for_current_step += 1;
                } else {
                    self.complete_step(mmu, decoder, current);
                }
            },
        }
    }

    /// Wakes the CPU from a HALT with interrupts disabled.
    fn wake(&mut self, mmu: &mut Mmu)
        requires
            old(self).halted,
            old(self).wf(),
            old(mmu).wf(),
        ensures
            final(self).wf(),
            final(mmu).wf(),
            *final(self) == old(self).woken(),
            final(mmu)@ =~= old(self).wake_noted(old(mmu)@),
    {
        mmu.interupts.halt_interupt_pending = false;
        mmu.interupts.waiting_for_halt_if = false;
        self.halted_waiting_for_interupt_pending = false;
        self.halted = false;
    }

    /// Runs a micro-step on behalf of the scheduler.
    fn run(&mut self, mmu: &mut Mmu, op: MicroOp)
        requires
            old(mmu).wf(),
            op.wf(),
        ensures
            final(mmu).wf(),
            *final(self) == old(self).ran(old(mmu)@, op),
            final(mmu)@ =~= old(self).executed(old(mmu)@, op).1,
    {
        self.execute(mmu, op);
    }

    /// Completes the machine cycle in progress.
    #[verifier::rlimit(100)]
    fn complete_step(&mut self, mmu: &mut Mmu, decoder: &Decoder, current: Current)
        requires
            old(self).wf(),
            old(self).instruction == Some(current),
            old(mmu).wf(),
            decoder.wf(),
        ensures
            final(self).wf(),
            final(mmu).wf(),
            *final(self) == old(self).stepped(old(mmu)@, current).0,
            final(mmu)@ =~= old(self).stepped(old(mmu)@, current).1,
    {
        proof {
            reveal(Cpu::stepped);
            lemma_queues_wf(current);
        }
        self.machine_cycles_taken_for_current_step = 0;
        match decoder.step(current) {
            Some(InstructionStep::Standard(op)) => {
                self.run(mmu, op);
                self.handle_next_step(
                    mmu,
                    decoder,
                    Current { position: current.position + 1, ..current },
                );
            },
            _ => {
                self.instruction = None;
            },
        }
    }

    /// Fetches the next opcode and puts its queue in place.
    #[verifier::rlimit(100)]
    fn fetch_opcode(&mut self, mmu: &mut Mmu, decoder: &Decoder)
        requires
            old(self).instruction is None,
            old(self).machine_cycles_taken_for_current_step == 0,
            old(mmu).wf(),
            decoder.wf(),
        ensures
            final(self).wf(),
            final(mmu).wf(),
            *final(self) == old(self).opcode_fetched(old(mmu)@).0,
            final(mmu)@ =~= old(self).opcode_fetched(old(mmu)@).1,
    {
        proof {
            reveal(Cpu::opcode_fetched);
        }
        let opcode = self.fetch(mmu);
        self.settle(mmu);
        if opcode == 0xCB {
            let second = self.fetch(mmu);
            self.start(mmu, InstructionKind::Prefixed, second);
        } else if decoder.is_documented(opcode) {
            self.start(mmu, InstructionKind::Plain, opcode);
        } else {
            self.trap = Some(opcode);
        }
    }

    /// Follows up on the fetch of an opcode: unmaps the boot image once PC
    /// has left it, and takes PC back by one if the halt bug is armed.
    fn settle(&mut self, mmu: &mut Mmu)
        requires
            old(mmu).wf(),
        ensures
            final(mmu).wf(),
            *final(self) == old(self).settled(),
            final(mmu)@ =~= Self::boot_left(old(mmu)@, old(self).pc),
    {
        if mmu.bios_enabled && self.pc >= 0x100 {
            mmu.bios_enabled = false;
        }
        if self.halt_bug {
            self.pc = self.pc.wrapping_sub(1);
            self.halt_bug = false;
        }
    }

    /// Puts the queue of a freshly fetched opcode in place.
    fn start(&mut self, mmu: &mut Mmu, kind: InstructionKind, opcode: u8)
        requires
            old(self).instruction is None,
            old(self).machine_cycles_taken_for_current_step == 0,
            old(mmu).wf(),
            kind == InstructionKind::Plain ==> documented(opcode),
        ensures
            final(self).wf(),
            final(mmu).wf(),
            *final(self) == old(self).started(old(mmu)@, kind, opcode).0,
            final(mmu)@ =~= old(self).started(old(mmu)@, kind, opcode).1,
    {
        proof {
            lemma_queue_head(kind, opcode);
        }
        if self.ei_delay {
            self.ei_delay = false;
            mmu.interupts.enable_master();
        }
        self.machine_cycles_taken_for_current_step += 1;
        self.instruction = Some(Current { kind, opcode, position: 0 });
    }

    /// The machine after the step at `here` has been looked at: `true` in
    /// the third component says that the instruction has come to rest.
    pub open spec fn drained_one(self, bus: MmuView, here: Current) -> (Cpu, MmuView, bool) {
        match step_at(here) {
            None => (Cpu { instruction: None, ..self }, bus, true),
            Some(InstructionStep::Standard(_)) => (
                Cpu { instruction: Some(here), ..self },
                bus,
                true,
            ),
            Some(InstructionStep::Instant(op)) => (
                self.ran(bus, op),
                self.executed(bus, op).1,
                false,
            ),
            Some(InstructionStep::InstantConditional(code)) => if code.holds(
                self.zero,
                self.carry,
            ) {
                (self, bus, false)
            } else {
                (Cpu { instruction: None, ..self }, bus, true)
            },
        }
    }

    /// Looks at the step at `here`: runs it if it is free, and says whether
    /// the instruction has come to rest.
    #[verifier::rlimit(100)]
    fn drain_one(&mut self, mmu: &mut Mmu, decoder: &Decoder, here: Current) -> (done: bool)
        requires
            old(self).machine_cycles_taken_for_current_step == 0,
            old(mmu).wf(),
            decoder.wf(),
            here.kind == InstructionKind::Plain ==> documented(here.opcode),
        ensures
            final(mmu).wf(),
            final(self).machine_cycles_taken_for_current_step == 0,
            done ==> final(self).wf(),
            *final(self) == old(self).drained_one(old(mmu)@, here).0,
            final(mmu)@ =~= old(self).drained_one(old(mmu)@, here).1,
            done == old(self).drained_one(old(mmu)@, here).2,
    {
        proof {
            lemma_queues_wf(here);
        }
        match decoder.step(here) {
            None => {
                self.instruction = None;
                true
            },
            Some(InstructionStep::Standard(_)) => {
                self.instruction = Some(here);
                true
            },
            Some(InstructionStep::Instant(op)) => {
                self.run(mmu, op);
                false
            },
            Some(InstructionStep::InstantConditional(code)) => {
                if code.is_met(self.zero, self.carry) {
                    false
                } else {
                    self.instruction = None;
                    true
                }
            },
        }
    }

    /// Runs the steps behind a completed `Standard` step as far as they run
    /// within the same clock, and leaves the instruction at its next
    /// `Standard` step, or ends it.
    #[verifier::rlimit(100)]
    pub fn handle_next_step(&mut self, mmu: &mut Mmu, decoder: &Decoder, next: Current)
        requires
            old(self).machine_cycles_taken_for_current_step == 0,
            old(mmu).wf(),
            decoder.wf(),
            next.kind == InstructionKind::Plain ==> documented(next.opcode),
            next.position <= queue_of(next.kind, next.opcode).len(),
        ensures
            final(self).wf(),
            final(mmu).wf(),
            *final(self) == old(self).drained(old(mmu)@, next.kind, next.opcode, next.position as nat).0,
            final(mmu)@ =~= old(self).drained(old(mmu)@, next.kind, next.opcode, next.position as nat).1,
    {
        let mut position = next.position;
        let ghost goal = old(self).drained(old(mmu)@, next.kind, next.opcode, next.position as nat);
        loop
            invariant
                self.machine_cycles_taken_for_current_step == 0,
                mmu.wf(),
                decoder.wf(),
                next.kind == InstructionKind::Plain ==> documented(next.opcode),
                position <= queue_of(next.kind, next.opcode).len(),
                self.drained(mmu@, next.kind, next.opcode, position as nat).0 == goal.0,
                self.drained(mmu@, next.kind, next.opcode, position as nat).1 == goal.1,
                goal == old(self).drained(old(mmu)@, next.kind, next.opcode, next.position as nat),
            decreases queue_of(next.kind, next.opcode).len() - position,
        {
            let here = Current { position, ..next };
            proof {
                lemma_queues_wf(here);
            }
            let ghost before = *self;
            let ghost bus = mmu@;
            assert(before.drained(bus, next.kind, next.opcode, position as nat).0 == if before.drained_one(
                bus,
                here,
            ).2 {
                before.drained_one(bus, here).0
            } else {
                before.drained_one(bus, here).0.drained(
                    before.drained_one(bus, here).1,
                    next.kind,
                    next.opcode,
                    (position + 1) as nat,
                ).0
            });
            assert(before.drained(bus, next.kind, next.opcode, position as nat).1 == if before.drained_one(
                bus,
                here,
            ).2 {
                before.drained_one(bus, here).1
            } else {
                before.drained_one(bus, here).0.drained(
                    before.drained_one(bus, here).1,
                    next.kind,
                    next.opcode,
                    (position + 1) as nat,
                ).1
            });
            if self.drain_one(mmu, decoder, here) {
                return ;
            }
            position += 1;
        }
    }
}

/// The steps that run for free behind a machine cycle leave the instruction
/// at rest: ended, or waiting at a `Standard` step further on in the same
/// queue, with the clock count of the next machine cycle at zero.
#[verifier::rlimit(100)]
pub proof fn lemma_drained_rests(cpu: Cpu, bus: MmuView, kind: InstructionKind, opcode: u8, position: nat)
    requires
        cpu.machine_cycles_taken_for_current_step == 0,
        kind == InstructionKind::Plain ==> documented(opcode),
    ensures
        cpu.drained(bus, kind, opcode, position).0.machine_cycles_taken_for_current_step == 0,
        cpu.drained(bus, kind, opcode, position).0.trap == cpu.trap,
        cpu.drained(bus, kind, opcode, position).0.instruction is Some ==> cpu.drained(
            bus,
            kind,
            opcode,
            position,
        ).0.halted == cpu.halted,
        cpu.drained(bus, kind, opcode, position).0.instruction matches Some(current) ==> {
            &&& current.kind == kind
            &&& current.opcode == opcode
            &&& current.position >= position
            &&& step_at(current) matches Some(InstructionStep::Standard(_))
        },
        cpu.drained(bus, kind, opcode, position).0.wf(),
    decreases queue_of(kind, opcode).len() - position,
{
    let queue = queue_of(kind, opcode);
    lemma_queues_wf(Current { kind, opcode, position: 0 });
    if position < queue.len() {
        lemma_halt_is_last(Current { kind, opcode, position: position as usize });
        match queue[position as int] {
            InstructionStep::Standard(_) => {},
            InstructionStep::Instant(op) => {
                lemma_drained_rests(
                    cpu.ran(bus, op),
                    cpu.executed(bus, op).1,
                    kind,
                    opcode,
                    position + 1,
                );
            },
            InstructionStep::InstantConditional(code) => {
                if code.holds(cpu.zero, cpu.carry) {
                    lemma_drained_rests(cpu, bus, kind, opcode, position + 1);
                }
            },
        }
    }
}

/// A machine cycle takes four master clocks. While an instruction is in
/// progress, each of the first three clocks of a machine cycle only counts;
/// the fourth runs the `Standard` step that the instruction waits at, and
/// whatever runs for free behind it, and leaves the instruction ended or
/// waiting at a later `Standard` step with a fresh machine cycle ahead. So an
/// instruction takes four clocks for each `Standard` step it runs, the
/// opcode fetch counting as the first clock of the first.
#[verifier::rlimit(100)]
pub proof fn lemma_machine_cycle_takes_four_clocks(cpu: Cpu, bus: MmuView, current: Current)
    requires
        cpu.wf(),
        !cpu.sleeps(bus),
        !cpu.halted,
        cpu.instruction == Some(current),
    ensures
        cpu.machine_cycles_taken_for_current_step < 3 ==> {
            &&& cpu.ticked(bus).1 == bus
            &&& cpu.ticked(bus).0 == (Cpu {
                machine_cycles_taken_for_current_step: (cpu.machine_cycles_taken_for_current_step
                    + 1) as u8,
                ..cpu
            })
        },
        cpu.machine_cycles_taken_for_current_step == 3 ==> {
            &&& cpu.ticked(bus).0.machine_cycles_taken_for_current_step == 0
            &&& cpu.ticked(bus).0.instruction matches Some(next) ==> {
                &&& next.kind == current.kind
                &&& next.opcode == current.opcode
                &&& next.position > current.position
            }
        },
        cpu.ticked(bus).0.wf(),
        cpu.ticked(bus).0.trap == cpu.trap,
        cpu.ticked(bus).0.instruction is Some ==> cpu.ticked(bus).0.halted == cpu.halted,
{
    if cpu.machine_cycles_taken_for_current_step == 3 {
        reveal(Cpu::stepped);
        lemma_halt_is_last(current);
        let rested = Cpu { machine_cycles_taken_for_current_step: 0, ..cpu };
        match step_at(current) {
            Some(InstructionStep::Standard(op)) => {
                lemma_drained_rests(
                    rested.ran(bus, op),
                    rested.executed(bus, op).1,
                    current.kind,
                    current.opcode,
                    (current.position + 1) as nat,
                );
            },
            _ => {},
        }
    }
}

/// The clock that fetches an opcode is the first of its first machine cycle:
/// it puts the queue of the opcode in place, at its first step, with one
/// clock counted. An opcode that names no instruction traps the CPU instead.
pub proof fn lemma_fetch_is_first_clock(cpu: Cpu, bus: MmuView)
    requires
        cpu.wf(),
        !cpu.sleeps(bus),
        !cpu.halted,
        cpu.instruction is None,
    ensures
        cpu.ticked(bus).0.trap is None ==> {
            &&& cpu.ticked(bus).0.machine_cycles_taken_for_current_step == 1
            &&& cpu.ticked(bus).0.instruction matches Some(current) && current.position == 0
                && if bus.read_byte(cpu.pc) == 0xCB {
                current.kind == InstructionKind::Prefixed
            } else {
                current.kind == InstructionKind::Plain && current.opcode == bus.read_byte(cpu.pc)
            }
        },
        cpu.ticked(bus).0.trap is Some <==> bus.read_byte(cpu.pc) != 0xCB && !documented(
            bus.read_byte(cpu.pc),
        ),
{
    reveal(Cpu::opcode_fetched);
}

/// The number of `Standard` steps of a queue from `position` on.
pub open spec fn standard_from(queue: Seq<InstructionStep>, position: nat) -> nat
    decreases queue.len() - position,
{
    if position >= queue.len() {
        0
    } else {
        standard_from(queue, position + 1) + if queue[position as int] is Standard {
            1nat
        } else {
            0nat
        }
    }
}

/// Whether a queue holds a condition.
pub open spec fn branches(queue: Seq<InstructionStep>) -> bool {
    exists|i: int| 0 <= i < queue.len() && #[trigger] queue[i] is InstantConditional
}

impl Cpu {
    /// The master clocks that the instruction in progress still takes if it
    /// runs to its end: four for each `Standard` step that is left, less the
    /// clocks that the machine cycle in progress has had.
    pub open spec fn clocks_left(self) -> int {
        match self.instruction {
            None => 0,
            Some(current) => 4 * standard_from(
                queue_of(current.kind, current.opcode),
                current.position as nat,
            ) - self.machine_cycles_taken_for_current_step,
        }
    }
}

/// Counted from the front, a queue has as many `Standard` steps as counted
/// from the back.
pub proof fn lemma_standard_from_front(queue: Seq<InstructionStep>, position: nat)
    requires
        position <= queue.len(),
    ensures
        standard_from(queue, position) + standard_steps(queue.take(position as int))
            == standard_steps(queue),
    decreases queue.len() - position,
{
    lemma_appended_step();
    if position == queue.len() {
        assert(queue.take(position as int) =~= queue);
    } else {
        lemma_standard_from_front(queue, position + 1);
        assert(queue.take(position as int + 1) =~= queue.take(position as int).push(
            queue[position as int],
        ));
    }
}

/// The steps that run for free behind a machine cycle take nothing off the
/// budget: where they leave the instruction waiting, as many `Standard`
/// steps are left as before; and they end the instruction only where none
/// was left, or where a condition failed.
pub proof fn lemma_drained_keeps_budget(
    cpu: Cpu,
    bus: MmuView,
    kind: InstructionKind,
    opcode: u8,
    position: nat,
)
    ensures
        cpu.drained(bus, kind, opcode, position).0.instruction matches Some(current)
            ==> standard_from(queue_of(kind, opcode), current.position as nat) == standard_from(
            queue_of(kind, opcode),
            position,
        ),
        cpu.drained(bus, kind, opcode, position).0.instruction is None ==> standard_from(
            queue_of(kind, opcode),
            position,
        ) == 0 || branches(queue_of(kind, opcode)),
    decreases queue_of(kind, opcode).len() - position,
{
    let queue = queue_of(kind, opcode);
    lemma_queues_wf(Current { kind, opcode, position: 0 });
    if position < queue.len() {
        match queue[position as int] {
            InstructionStep::Standard(_) => {},
            InstructionStep::Instant(op) => {
                lemma_drained_keeps_budget(
                    cpu.ran(bus, op),
                    cpu.executed(bus, op).1,
                    kind,
                    opcode,
                    position + 1,
                );
            },
            InstructionStep::InstantConditional(code) => {
                assert(queue[position as int] is InstantConditional);
                if code.holds(cpu.zero, cpu.carry) {
                    lemma_drained_keeps_budget(cpu, bus, kind, opcode, position + 1);
                }
            },
        }
    }
}

/// The cycle budget of the scheduler. The clock that fetches an opcode
/// leaves the published duration of the opcode, less that one clock, on the
/// budget. Every further clock takes one clock off the budget for as long as
/// the instruction goes on; and the instruction ends with the last clock of
/// its budget, or earlier only where a condition fails. So an instruction
/// that runs to its end takes exactly its published number of master clocks
/// from fetch to end.
#[verifier::rlimit(100)]
pub proof fn lemma_instruction_takes_its_budget(cpu: Cpu, bus: MmuView)
    requires
        cpu.wf(),
        !cpu.sleeps(bus),
        !cpu.halted,
    ensures
        cpu.instruction is None && cpu.ticked(bus).0.trap is None ==> cpu.ticked(
            bus,
        ).0.clocks_left() == if bus.read_byte(cpu.pc) == 0xCB {
            published_prefixed_clocks(cpu.ticked(bus).0.instruction->0.opcode) - 1
        } else {
            published_clocks(bus.read_byte(cpu.pc)) - 1
        },
        cpu.instruction is Some && cpu.ticked(bus).0.instruction is Some ==> cpu.ticked(
            bus,
        ).0.clocks_left() == cpu.clocks_left() - 1,
        cpu.instruction matches Some(current) ==> (cpu.ticked(bus).0.instruction is None
            ==> cpu.clocks_left() == 1 || branches(queue_of(current.kind, current.opcode))),
{
    match cpu.instruction {
        None => {
            lemma_fetch_is_first_clock(cpu, bus);
            if cpu.ticked(bus).0.trap is None {
                let current = cpu.ticked(bus).0.instruction->0;
                let queue = queue_of(current.kind, current.opcode);
                lemma_cycle_budget(current.opcode);
                lemma_standard_from_front(queue, 0);
                assert(queue.take(0) =~= Seq::<InstructionStep>::empty());
                lemma_appended_step();
            }
        },
        Some(current) => {
            lemma_machine_cycle_takes_four_clocks(cpu, bus, current);
            if cpu.machine_cycles_taken_for_current_step == 3 {
                reveal(Cpu::stepped);
                let queue = queue_of(current.kind, current.opcode);
                let rested = Cpu { machine_cycles_taken_for_current_step: 0, ..cpu };
                match step_at(current) {
                    Some(InstructionStep::Standard(op)) => {
                        lemma_drained_keeps_budget(
                            rested.ran(bus, op),
                            rested.executed(bus, op).1,
                            current.kind,
                            current.opcode,
                            (current.position + 1) as nat,
                        );
                        lemma_drained_rests(
                            rested.ran(bus, op),
                            rested.executed(bus, op).1,
                            current.kind,
                            current.opcode,
                            (current.position + 1) as nat,
                        );
                        assert(standard_from(queue, current.position as nat) == standard_from(
                            queue,
                            (current.position + 1) as nat,
                        ) + 1);
                    },
                    _ => {},
                }
            }
        },
    }
}

} // verus!
