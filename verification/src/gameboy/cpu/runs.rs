//! Whole instructions, run clock by clock.

use vstd::prelude::*;

use crate::gameboy::cpu::disassembler::conditional_opcode;
use crate::gameboy::cpu::disassembler::documented;
use crate::gameboy::cpu::disassembler::has_condition;
use crate::gameboy::cpu::disassembler::disassembler_table::Register;
use crate::gameboy::cpu::disassembler::lemma_cycle_budget;
use crate::gameboy::cpu::disassembler::operand_step;
use crate::gameboy::cpu::disassembler::published_clocks;
use crate::gameboy::cpu::disassembler::published_prefixed_clocks;
use crate::gameboy::cpu::disassembler::steps_of;
use crate::gameboy::cpu::disassembler::InstructionStep;
use crate::gameboy::cpu::disassembler::MicroOp;
use crate::gameboy::cpu::scheduler::branches;
use crate::gameboy::cpu::scheduler::lemma_fetch_is_first_clock;
use crate::gameboy::cpu::scheduler::lemma_instruction_takes_its_budget;
use crate::gameboy::cpu::scheduler::lemma_machine_cycle_takes_four_clocks;
use crate::gameboy::cpu::scheduler::lemma_queue_head;
use crate::gameboy::cpu::scheduler::queue_of;
use crate::gameboy::cpu::scheduler::step_at;
use crate::gameboy::cpu::wrapping_difference;
use crate::gameboy::cpu::wrapping_sum;
use crate::gameboy::cpu::word;
use crate::gameboy::cpu::Cpu;
use crate::gameboy::cpu::Current;
use crate::gameboy::cpu::InstructionKind;
use crate::gameboy::mmu::lemma_boot_image_stays_unmapped;
use crate::gameboy::mmu::MmuView;

verus! {

/// A queue holds a condition at some place exactly where it holds one
/// counted from its end.
pub proof fn lemma_branches_has_condition(queue: Seq<InstructionStep>)
    ensures
        branches(queue) == has_condition(queue),
    decreases queue.len(),
{
    if queue.len() > 0 {
        let front = queue.drop_last();
        lemma_branches_has_condition(front);
        if branches(queue) {
            let i = choose|i: int| 0 <= i < queue.len() && #[trigger] queue[i] is InstantConditional;
            if i < queue.len() - 1 {
                assert(front[i] is InstantConditional);
            }
        }
        if has_condition(queue) {
            if queue.last() is InstantConditional {
                assert(queue[queue.len() - 1] is InstantConditional);
            } else {
                let i = choose|i: int| 0 <= i < front.len() && #[trigger] front[i] is InstantConditional;
                assert(queue[i] is InstantConditional);
            }
        }
    }
}

impl Cpu {
    /// The machine after `n` master clocks of the CPU, with nothing else at
    /// work on the bus.
    pub open spec fn ticked_times(self, bus: MmuView, n: nat) -> (Cpu, MmuView)
        decreases n,
    {
        if n == 0 {
            (self, bus)
        } else {
            self.ticked_times(bus, (n - 1) as nat).0.ticked(
                self.ticked_times(bus, (n - 1) as nat).1,
            )
        }
    }

    /// The published duration of the instruction that the next clock
    /// fetches: that of the opcode at PC, or, behind the prefix byte, that
    /// of the prefixed opcode after it.
    pub open spec fn published_duration(self, bus: MmuView) -> int {
        match self.ticked(bus).0.instruction {
            Some(current) => if current.kind == InstructionKind::Prefixed {
                published_prefixed_clocks(current.opcode) as int
            } else {
                published_clocks(current.opcode) as int
            },
            None => 0,
        }
    }
}

/// An instruction that branches on no condition takes exactly its published
/// number of master clocks. From a CPU that is awake and between two
/// instructions, with a documented opcode at PC, an instruction is in
/// progress after each of the first T - 1 clocks, with T less the clocks
/// gone by left on its budget, and none is after the T-th, T being the
/// published duration.
#[verifier::rlimit(100)]
pub proof fn lemma_instruction_runs_its_clocks(cpu: Cpu, bus: MmuView, k: nat)
    requires
        cpu.wf(),
        cpu.trap is None,
        !cpu.halted,
        cpu.instruction is None,
        bus.read_byte(cpu.pc) != 0xCB ==> documented(bus.read_byte(cpu.pc)) && !conditional_opcode(
            bus.read_byte(cpu.pc),
        ),
        1 <= k <= cpu.published_duration(bus),
    ensures
        cpu.published_duration(bus) >= 4,
        cpu.ticked_times(bus, k).0.wf(),
        cpu.ticked_times(bus, k).0.trap is None,
        cpu.ticked_times(bus, k).0.instruction is Some <==> k < cpu.published_duration(bus),
        cpu.ticked_times(bus, k).0.instruction is Some ==> {
            &&& cpu.ticked_times(bus, k).0.instruction == Some(
                Current {
                    position: cpu.ticked_times(bus, k).0.instruction->0.position,
                    ..cpu.ticked(bus).0.instruction->0
                },
            )
            &&& cpu.ticked_times(bus, k).0.clocks_left() == cpu.published_duration(bus) - k
            &&& !cpu.ticked_times(bus, k).0.halted
        },
    decreases k,
{
    lemma_fetch_is_first_clock(cpu, bus);
    lemma_instruction_takes_its_budget(cpu, bus);
    let first = cpu.ticked(bus).0.instruction->0;
    lemma_cycle_budget(first.opcode);
    lemma_branches_has_condition(queue_of(first.kind, first.opcode));
    assert(cpu.ticked_times(bus, 1) == cpu.ticked(bus)) by {
        assert(cpu.ticked_times(bus, 0) == (cpu, bus));
    }
    if k == 1 {
        reveal(Cpu::opcode_fetched);
        lemma_queue_head(first.kind, first.opcode);
    } else {
        lemma_instruction_runs_its_clocks(cpu, bus, (k - 1) as nat);
        let before = cpu.ticked_times(bus, (k - 1) as nat);
        let current = before.0.instruction->0;
        lemma_instruction_takes_its_budget(before.0, before.1);
        lemma_machine_cycle_takes_four_clocks(before.0, before.1, current);
    }
}

/// Clocks add up: `m + n` clocks are `m` clocks and then `n` more.
pub proof fn lemma_ticked_times_add(cpu: Cpu, bus: MmuView, m: nat, n: nat)
    ensures
        cpu.ticked_times(bus, m + n) == cpu.ticked_times(bus, m).0.ticked_times(
            cpu.ticked_times(bus, m).1,
            n,
        ),
    decreases n,
{
    if n > 0 {
        lemma_ticked_times_add(cpu, bus, m, (n - 1) as nat);
        assert((m + n - 1) as nat == m + (n - 1) as nat);
    }
}

/// Within a machine cycle nothing happens but the count of its clocks.
pub proof fn lemma_machine_cycle_waits(cpu: Cpu, bus: MmuView, n: nat)
    requires
        cpu.wf(),
        cpu.trap is None,
        !cpu.halted,
        cpu.instruction is Some,
        cpu.machine_cycles_taken_for_current_step + n < 4,
    ensures
        cpu.ticked_times(bus, n) == (
            Cpu {
                machine_cycles_taken_for_current_step: (cpu.machine_cycles_taken_for_current_step
                    + n) as u8,
                ..cpu
            },
            bus,
        ),
    decreases n,
{
    if n > 0 {
        lemma_machine_cycle_waits(cpu, bus, (n - 1) as nat);
    }
}

/// A machine cycle does its work with its last clock: the clocks before
/// leave the bus and the registers alone, and the fourth runs the
/// `Standard` step that the instruction waits at, and the steps behind it
/// as far as they run for free.
pub proof fn lemma_machine_cycle_runs(cpu: Cpu, bus: MmuView, current: Current, op: MicroOp)
    requires
        cpu.wf(),
        cpu.trap is None,
        !cpu.halted,
        cpu.instruction == Some(current),
        step_at(current) == Some(InstructionStep::Standard(op)),
    ensures
        cpu.ticked_times(bus, (4 - cpu.machine_cycles_taken_for_current_step) as nat) == (Cpu {
            machine_cycles_taken_for_current_step: 0,
            ..cpu
        }).ran(bus, op).drained(
            (Cpu { machine_cycles_taken_for_current_step: 0, ..cpu }).executed(bus, op).1,
            current.kind,
            current.opcode,
            (current.position + 1) as nat,
        ),
{
    let wait = (3 - cpu.machine_cycles_taken_for_current_step) as nat;
    lemma_machine_cycle_waits(cpu, bus, wait);
    reveal(Cpu::stepped);
    let last = Cpu { machine_cycles_taken_for_current_step: 3, ..cpu };
    assert(cpu.ticked_times(bus, wait) == (last, bus));
    assert(Cpu { machine_cycles_taken_for_current_step: 0, ..last } == Cpu {
        machine_cycles_taken_for_current_step: 0,
        ..cpu
    });
    assert(cpu.ticked_times(bus, wait + 1) == last.ticked(bus));
}

/// What the micro-steps of CALL do.
proof fn lemma_call_steps(cpu: Cpu, bus: MmuView)
    ensures
        cpu.executed(bus, MicroOp::Idle) == (cpu, bus),
        cpu.executed(bus, MicroOp::FetchOperand8) == (
            Cpu { operand8: bus.read_byte(cpu.pc), pc: wrapping_sum(cpu.pc, 1), ..cpu },
            bus,
        ),
        cpu.executed(bus, MicroOp::FetchOperand16) == (
            Cpu {
                operand16: word(bus.read_byte(cpu.pc), cpu.operand8),
                pc: wrapping_sum(cpu.pc, 1),
                ..cpu
            },
            bus,
        ),
        cpu.executed(bus, MicroOp::PushPcHigh) == (
            Cpu { sp: wrapping_difference(cpu.sp, 1), ..cpu },
            bus.write_byte(wrapping_difference(cpu.sp, 1), (cpu.pc / 256) as u8),
        ),
        cpu.executed(bus, MicroOp::PushPcLow) == (
            Cpu { sp: wrapping_difference(cpu.sp, 1), ..cpu },
            bus.write_byte(wrapping_difference(cpu.sp, 1), (cpu.pc % 256) as u8),
        ),
        cpu.executed(bus, MicroOp::Jump) == (Cpu { pc: cpu.operand16, ..cpu }, bus),
{
    reveal(Cpu::executed);
}

/// The step queue of CALL.
proof fn lemma_call_queue()
    ensures
        queue_of(InstructionKind::Plain, 0xCD).len() == 7,
        queue_of(InstructionKind::Plain, 0xCD)[0] == InstructionStep::Standard(MicroOp::Idle),
        queue_of(InstructionKind::Plain, 0xCD)[1] == InstructionStep::Standard(
            MicroOp::FetchOperand8,
        ),
        queue_of(InstructionKind::Plain, 0xCD)[2] == InstructionStep::Standard(
            MicroOp::FetchOperand16,
        ),
        queue_of(InstructionKind::Plain, 0xCD)[3] == InstructionStep::Standard(MicroOp::Idle),
        queue_of(InstructionKind::Plain, 0xCD)[4] == InstructionStep::Standard(
            MicroOp::PushPcHigh,
        ),
        queue_of(InstructionKind::Plain, 0xCD)[5] == InstructionStep::Standard(MicroOp::PushPcLow),
        queue_of(InstructionKind::Plain, 0xCD)[6] == InstructionStep::Instant(MicroOp::Jump),
        documented(0xCD),
{
    reveal(steps_of);
}

/// The opcode fetch leaves the stack pointer alone and the CPU awake, and
/// moves PC past the opcode.
proof fn lemma_fetch_keeps_stack(cpu: Cpu, bus: MmuView)
    requires
        cpu.wf(),
        cpu.trap is None,
        !cpu.halted,
        cpu.instruction is None,
    ensures
        cpu.ticked(bus).0.sp == cpu.sp,
        !cpu.ticked(bus).0.halted,
{
    reveal(Cpu::opcode_fetched);
}

/// A machine cycle of CALL that another one follows.
proof fn lemma_call_cycle(cpu: Cpu, bus: MmuView, position: usize, op: MicroOp)
    requires
        cpu.trap is None,
        !cpu.halted,
        cpu.machine_cycles_taken_for_current_step < 4,
        cpu.instruction == Some(
            Current { kind: InstructionKind::Plain, opcode: 0xCD, position },
        ),
        position < 5,
        queue_of(InstructionKind::Plain, 0xCD)[position as int] == InstructionStep::Standard(op),
    ensures
        cpu.ticked_times(bus, (4 - cpu.machine_cycles_taken_for_current_step) as nat) == (
            Cpu {
                instruction: Some(
                    Current {
                        kind: InstructionKind::Plain,
                        opcode: 0xCD,
                        position: (position + 1) as usize,
                    },
                ),
                machine_cycles_taken_for_current_step: 0,
                trap: None,
                halted: false,
                ..cpu.executed(bus, op).0
            },
            cpu.executed(bus, op).1,
        ),
{
    lemma_call_queue();
    lemma_call_steps(cpu, bus);
    let rested = Cpu { machine_cycles_taken_for_current_step: 0, ..cpu };
    lemma_call_steps(rested, bus);
    lemma_machine_cycle_runs(
        cpu,
        bus,
        Current { kind: InstructionKind::Plain, opcode: 0xCD, position },
        op,
    );
}

/// The last machine cycle of CALL: the low byte is pushed and PC moves to
/// the target.
proof fn lemma_call_last_cycle(cpu: Cpu, bus: MmuView)
    requires
        cpu.trap is None,
        !cpu.halted,
        cpu.machine_cycles_taken_for_current_step < 4,
        cpu.instruction == Some(
            Current { kind: InstructionKind::Plain, opcode: 0xCD, position: 5 },
        ),
    ensures
        cpu.ticked_times(bus, (4 - cpu.machine_cycles_taken_for_current_step) as nat) == (
            Cpu {
                instruction: None,
                machine_cycles_taken_for_current_step: 0,
                sp: wrapping_difference(cpu.sp, 1),
                pc: cpu.operand16,
                ..cpu
            },
            bus.write_byte(wrapping_difference(cpu.sp, 1), (cpu.pc % 256) as u8),
        ),
{
    lemma_call_queue();
    let rested = Cpu { machine_cycles_taken_for_current_step: 0, ..cpu };
    lemma_call_steps(rested, bus);
    let pushed = rested.ran(bus, MicroOp::PushPcLow);
    lemma_call_steps(pushed, rested.executed(bus, MicroOp::PushPcLow).1);
    lemma_machine_cycle_runs(
        cpu,
        bus,
        Current { kind: InstructionKind::Plain, opcode: 0xCD, position: 5 },
        MicroOp::PushPcLow,
    );
    reveal_with_fuel(Cpu::drained, 3);
}

/// The machine at the end of each machine cycle of a CALL that `fetched`
/// is the first clock of.
pub open spec fn call_cycle_end(fetched: (Cpu, MmuView), cycle: nat) -> (Cpu, MmuView) {
    let start = fetched.0;
    let target = word(
        fetched.1.read_byte(wrapping_sum(start.pc, 1)),
        fetched.1.read_byte(start.pc),
    );
    let back = wrapping_sum(start.pc, 2);
    let high = fetched.1.write_byte(wrapping_difference(start.sp, 1), (back / 256) as u8);
    let low = high.write_byte(wrapping_difference(start.sp, 2), (back % 256) as u8);
    let at = Current { kind: InstructionKind::Plain, opcode: 0xCD, position: cycle as usize };
    let rested = Cpu { machine_cycles_taken_for_current_step: 0, instruction: Some(at), ..start };
    if cycle == 1 {
        (rested, fetched.1)
    } else if cycle == 2 {
        (
            Cpu {
                operand8: fetched.1.read_byte(start.pc),
                pc: wrapping_sum(start.pc, 1),
                ..rested
            },
            fetched.1,
        )
    } else if cycle == 3 || cycle == 4 {
        (
            Cpu {
                operand8: fetched.1.read_byte(start.pc),
                operand16: target,
                pc: back,
                ..rested
            },
            fetched.1,
        )
    } else if cycle == 5 {
        (
            Cpu {
                operand8: fetched.1.read_byte(start.pc),
                operand16: target,
                pc: back,
                sp: wrapping_difference(start.sp, 1),
                ..rested
            },
            high,
        )
    } else {
        (
            Cpu {
                operand8: fetched.1.read_byte(start.pc),
                operand16: target,
                pc: target,
                sp: wrapping_difference(start.sp, 2),
                instruction: None,
                ..rested
            },
            low,
        )
    }
}

/// CALL, machine cycle by machine cycle: after four clocks for each, the
/// machine is as `call_cycle_end` says.
#[verifier::rlimit(100)]
pub proof fn lemma_call_cycles(cpu: Cpu, bus: MmuView, cycle: nat)
    requires
        cpu.wf(),
        cpu.trap is None,
        !cpu.halted,
        cpu.instruction is None,
        bus.read_byte(cpu.pc) == 0xCD,
        1 <= cycle <= 6,
    ensures
        cpu.ticked_times(bus, 4 * cycle) == call_cycle_end(cpu.ticked(bus), cycle),
    decreases cycle,
{
    lemma_fetch_is_first_clock(cpu, bus);
    lemma_fetch_keeps_stack(cpu, bus);
    lemma_call_queue();
    let fetched = cpu.ticked(bus);
    assert(cpu.ticked_times(bus, 1) == fetched) by {
        assert(cpu.ticked_times(bus, 0) == (cpu, bus));
    }
    if cycle == 1 {
        lemma_call_cycle(fetched.0, fetched.1, 0, MicroOp::Idle);
        lemma_call_steps(fetched.0, fetched.1);
        lemma_ticked_times_add(cpu, bus, 1, 3);
    } else {
        lemma_call_cycles(cpu, bus, (cycle - 1) as nat);
        let before = call_cycle_end(fetched, (cycle - 1) as nat);
        lemma_call_steps(before.0, before.1);
        lemma_ticked_times_add(cpu, bus, (4 * (cycle - 1)) as nat, 4);
        if cycle == 2 {
            lemma_call_cycle(before.0, before.1, 1, MicroOp::FetchOperand8);
        } else if cycle == 3 {
            lemma_call_cycle(before.0, before.1, 2, MicroOp::FetchOperand16);
            assert(wrapping_sum(wrapping_sum(fetched.0.pc, 1), 1) == wrapping_sum(fetched.0.pc, 2));
        } else if cycle == 4 {
            lemma_call_cycle(before.0, before.1, 3, MicroOp::Idle);
        } else if cycle == 5 {
            lemma_call_cycle(before.0, before.1, 4, MicroOp::PushPcHigh);
        } else {
            lemma_call_last_cycle(before.0, before.1);
            assert(wrapping_difference(wrapping_difference(fetched.0.sp, 1), 1)
                == wrapping_difference(fetched.0.sp, 2));
        }
    }
}

/// CALL takes six machine cycles and writes in the last two of them. From
/// a CPU that is awake and between two instructions, with the opcode of
/// CALL at PC: the first nineteen clocks fetch the opcode and the target
/// and write nothing; the twentieth clock writes the high byte of the
/// return address at SP - 1; the twenty-fourth writes its low byte at
/// SP - 2, and with it the instruction ends, SP two below and PC at the
/// target.
pub proof fn lemma_call_runs(cpu: Cpu, bus: MmuView, n: nat)
    requires
        cpu.wf(),
        cpu.trap is None,
        !cpu.halted,
        cpu.instruction is None,
        bus.read_byte(cpu.pc) == 0xCD,
        1 <= n <= 24,
    ensures
        ({
            let fetched = cpu.ticked(bus);
            let target = word(
                fetched.1.read_byte(wrapping_sum(fetched.0.pc, 1)),
                fetched.1.read_byte(fetched.0.pc),
            );
            let back = wrapping_sum(fetched.0.pc, 2);
            let high = fetched.1.write_byte(wrapping_difference(cpu.sp, 1), (back / 256) as u8);
            let low = high.write_byte(wrapping_difference(cpu.sp, 2), (back % 256) as u8);
            let now = cpu.ticked_times(bus, n);
            &&& n < 20 ==> now.1 == fetched.1 && now.0.sp == cpu.sp
            &&& 20 <= n < 24 ==> now.1 == high && now.0.sp == wrapping_difference(cpu.sp, 1)
            &&& n < 24 ==> now.0.instruction is Some
            &&& n == 24 ==> {
                &&& now.1 == low
                &&& now.0.instruction is None
                &&& now.0.sp == wrapping_difference(cpu.sp, 2)
                &&& now.0.pc == target
            }
        }),
{
    lemma_fetch_is_first_clock(cpu, bus);
    lemma_fetch_keeps_stack(cpu, bus);
    lemma_call_queue();
    let fetched = cpu.ticked(bus);
    assert(cpu.ticked_times(bus, 1) == fetched) by {
        assert(cpu.ticked_times(bus, 0) == (cpu, bus));
    }
    if n < 4 {
        lemma_ticked_times_add(cpu, bus, 1, (n - 1) as nat);
        lemma_machine_cycle_waits(fetched.0, fetched.1, (n - 1) as nat);
    } else {
        let cycle = n / 4;
        lemma_call_cycles(cpu, bus, cycle);
        let base = call_cycle_end(fetched, cycle);
        if n < 24 {
            lemma_ticked_times_add(cpu, bus, 4 * cycle, (n - 4 * cycle) as nat);
            lemma_machine_cycle_waits(base.0, base.1, (n - 4 * cycle) as nat);
        }
    }
}

/// What the micro-steps of an 8-bit load do.
proof fn lemma_load_steps(cpu: Cpu, bus: MmuView, register: Register)
    ensures
        cpu.executed(bus, MicroOp::Idle) == (cpu, bus),
        cpu.executed(bus, MicroOp::ReadOperand(register)) == (
            Cpu { temp_val8: cpu.operand_value(bus, register), ..cpu },
            bus,
        ),
        cpu.executed(bus, MicroOp::WriteOperand(register)) == cpu.operand_stored(
            bus,
            register,
            cpu.temp_val8,
        ),
{
    reveal(Cpu::executed);
}

/// Whether an opcode is an 8-bit load between two operands, each a
/// register or the byte at HL.
pub open spec fn is_load(opcode: u8) -> bool {
    opcode / 64 == 1 && opcode != 0x76
}

/// The step queue of an 8-bit load: the opcode fetch, the read of the
/// source and the write of the destination, the last two for free where
/// the operand is a register.
proof fn lemma_load_queue(opcode: u8)
    requires
        is_load(opcode),
    ensures
        documented(opcode),
        queue_of(InstructionKind::Plain, opcode).len() == 3,
        queue_of(InstructionKind::Plain, opcode)[0] == InstructionStep::Standard(MicroOp::Idle),
        queue_of(InstructionKind::Plain, opcode)[1] == operand_step(
            Register::of(opcode % 8),
            MicroOp::ReadOperand(Register::of(opcode % 8)),
        ),
        queue_of(InstructionKind::Plain, opcode)[2] == operand_step(
            Register::of(opcode / 8 % 8),
            MicroOp::WriteOperand(Register::of(opcode / 8 % 8)),
        ),
        !(Register::of(opcode % 8).in_memory() && Register::of(opcode / 8 % 8).in_memory()),
{
    reveal(steps_of);
}

/// The clocks that an 8-bit load takes: four between registers, eight
/// where the byte at HL is read or written.
pub open spec fn load_clocks(opcode: u8) -> nat {
    if Register::of(opcode % 8).in_memory() || Register::of(opcode / 8 % 8).in_memory() {
        8
    } else {
        4
    }
}

/// The machine at the end of an 8-bit load that `fetched` is the first
/// clock of: the value of the source is in the destination, which is a
/// register or the byte at HL.
pub open spec fn load_end(fetched: (Cpu, MmuView), opcode: u8) -> (Cpu, MmuView) {
    let source = Register::of(opcode % 8);
    let target = Register::of(opcode / 8 % 8);
    let val = fetched.0.operand_value(fetched.1, source);
    (
        (Cpu {
            instruction: None,
            machine_cycles_taken_for_current_step: 0,
            temp_val8: val,
            ..fetched.0
        }).with_register(target, val),
        if target.in_memory() {
            fetched.1.write_byte(fetched.0.hl_pair(), val)
        } else {
            fetched.1
        },
    )
}

/// The machine after the first machine cycle of an 8-bit load that takes
/// two: a source in a register has been read for free, and nothing else
/// has happened.
pub open spec fn load_halfway(fetched: (Cpu, MmuView), opcode: u8) -> (Cpu, MmuView) {
    let source = Register::of(opcode % 8);
    (
        Cpu {
            instruction: Some(
                Current {
                    kind: InstructionKind::Plain,
                    opcode,
                    position: if source.in_memory() {
                        1
                    } else {
                        2
                    },
                },
            ),
            machine_cycles_taken_for_current_step: 0,
            temp_val8: if source.in_memory() {
                fetched.0.temp_val8
            } else {
                fetched.0.register(source)
            },
            ..fetched.0
        },
        fetched.1,
    )
}

/// Setting a register leaves the scheduler's fields alone, and the
/// instruction in progress can be set before or after it.
proof fn lemma_register_set_apart(
    cpu: Cpu,
    register: Register,
    val: u8,
    instruction: Option<Current>,
)
    ensures
        cpu.with_register(register, val).instruction == cpu.instruction,
        cpu.with_register(register, val).machine_cycles_taken_for_current_step
            == cpu.machine_cycles_taken_for_current_step,
        cpu.with_register(register, val).trap == cpu.trap,
        cpu.with_register(register, val).halted == cpu.halted,
        (Cpu { instruction, ..cpu.with_register(register, val) }) == (Cpu {
            instruction,
            ..cpu
        }).with_register(register, val),
{
}

/// The end of an 8-bit load into a register: once the source has been
/// read, the write of the destination runs for free and ends the
/// instruction.
proof fn lemma_load_into_register(read: Cpu, bus: MmuView, opcode: u8)
    requires
        is_load(opcode),
        !Register::of(opcode / 8 % 8).in_memory(),
    ensures
        read.drained(bus, InstructionKind::Plain, opcode, 2) == (
            (Cpu { instruction: None, ..read }).with_register(
                Register::of(opcode / 8 % 8),
                read.temp_val8,
            ),
            bus,
        ),
{
    lemma_load_queue(opcode);
    let target = Register::of(opcode / 8 % 8);
    lemma_load_steps(read, bus, target);
    lemma_register_set_apart(read, target, read.temp_val8, None);
    let written = read.ran(bus, MicroOp::WriteOperand(target));
    assert(written == read.with_register(target, read.temp_val8));
    assert(written.drained(bus, InstructionKind::Plain, opcode, 3) == (
        Cpu { instruction: None, ..written },
        bus,
    ));
}

/// The one machine cycle of an 8-bit load between two registers.
proof fn lemma_load_between_registers(cpu: Cpu, bus: MmuView, opcode: u8)
    requires
        cpu.trap is None,
        !cpu.halted,
        cpu.machine_cycles_taken_for_current_step < 4,
        cpu.instruction == Some(Current { kind: InstructionKind::Plain, opcode, position: 0 }),
        is_load(opcode),
        load_clocks(opcode) == 4,
    ensures
        cpu.ticked_times(bus, (4 - cpu.machine_cycles_taken_for_current_step) as nat) == load_end(
            (cpu, bus),
            opcode,
        ),
{
    lemma_load_queue(opcode);
    let source = Register::of(opcode % 8);
    let rested = Cpu { machine_cycles_taken_for_current_step: 0, ..cpu };
    lemma_load_steps(rested, bus, source);
    assert(rested.ran(bus, MicroOp::Idle) == rested);
    let read = rested.ran(bus, MicroOp::ReadOperand(source));
    assert(read == Cpu { temp_val8: cpu.register(source), ..rested });
    lemma_load_into_register(read, bus, opcode);
    lemma_machine_cycle_runs(
        cpu,
        bus,
        Current { kind: InstructionKind::Plain, opcode, position: 0 },
        MicroOp::Idle,
    );
    assert(rested.drained(bus, InstructionKind::Plain, opcode, 1) == read.drained(
        bus,
        InstructionKind::Plain,
        opcode,
        2,
    ));
}

/// The first machine cycle of an 8-bit load that takes two.
#[verifier::rlimit(100)]
proof fn lemma_load_first_of_two(cpu: Cpu, bus: MmuView, opcode: u8)
    requires
        cpu.trap is None,
        !cpu.halted,
        cpu.machine_cycles_taken_for_current_step < 4,
        cpu.instruction == Some(Current { kind: InstructionKind::Plain, opcode, position: 0 }),
        is_load(opcode),
        load_clocks(opcode) == 8,
    ensures
        cpu.ticked_times(bus, (4 - cpu.machine_cycles_taken_for_current_step) as nat)
            == load_halfway((cpu, bus), opcode),
{
    lemma_load_queue(opcode);
    let source = Register::of(opcode % 8);
    let rested = Cpu { machine_cycles_taken_for_current_step: 0, ..cpu };
    lemma_load_steps(rested, bus, source);
    assert(rested.ran(bus, MicroOp::Idle) == rested);
    lemma_machine_cycle_runs(
        cpu,
        bus,
        Current { kind: InstructionKind::Plain, opcode, position: 0 },
        MicroOp::Idle,
    );
    if !source.in_memory() {
        let read = rested.ran(bus, MicroOp::ReadOperand(source));
        assert(read == Cpu { temp_val8: cpu.register(source), ..rested });
        assert(rested.drained(bus, InstructionKind::Plain, opcode, 1) == read.drained(
            bus,
            InstructionKind::Plain,
            opcode,
            2,
        ));
    }
}

/// The second machine cycle of an 8-bit load from the byte at HL.
proof fn lemma_load_from_memory(fetched: (Cpu, MmuView), opcode: u8)
    requires
        fetched.0.trap is None,
        !fetched.0.halted,
        is_load(opcode),
        Register::of(opcode % 8).in_memory(),
    ensures
        load_halfway(fetched, opcode).0.ticked_times(load_halfway(fetched, opcode).1, 4)
            == load_end(fetched, opcode),
{
    lemma_load_queue(opcode);
    let source = Register::of(opcode % 8);
    let half = load_halfway(fetched, opcode);
    let bus = fetched.1;
    lemma_load_steps(half.0, bus, source);
    let read = half.0.ran(bus, MicroOp::ReadOperand(source));
    assert(read == Cpu { temp_val8: fetched.0.operand_value(bus, source), ..half.0 });
    lemma_load_into_register(read, bus, opcode);
    lemma_machine_cycle_runs(
        half.0,
        bus,
        Current { kind: InstructionKind::Plain, opcode, position: 1 },
        MicroOp::ReadOperand(source),
    );
}

/// The second machine cycle of an 8-bit load into the byte at HL.
proof fn lemma_load_into_memory(fetched: (Cpu, MmuView), opcode: u8)
    requires
        fetched.0.trap is None,
        !fetched.0.halted,
        is_load(opcode),
        Register::of(opcode / 8 % 8).in_memory(),
    ensures
        load_halfway(fetched, opcode).0.ticked_times(load_halfway(fetched, opcode).1, 4)
            == load_end(fetched, opcode),
{
    lemma_load_queue(opcode);
    let target = Register::of(opcode / 8 % 8);
    let half = load_halfway(fetched, opcode);
    let bus = fetched.1;
    let stored = bus.write_byte(half.0.hl_pair(), half.0.temp_val8);
    lemma_load_steps(half.0, bus, target);
    let written = half.0.ran(bus, MicroOp::WriteOperand(target));
    assert(written == half.0);
    lemma_machine_cycle_runs(
        half.0,
        bus,
        Current { kind: InstructionKind::Plain, opcode, position: 2 },
        MicroOp::WriteOperand(target),
    );
    assert(written.drained(stored, InstructionKind::Plain, opcode, 3) == (
        Cpu { instruction: None, ..written },
        stored,
    ));
}

/// An 8-bit load takes four clocks between registers and eight where the
/// byte at HL is read or written, and does its work with its last clock.
/// From a CPU that is awake and between two instructions, with the opcode
/// of such a load at PC: until the last clock an instruction is in
/// progress, and the bus and the registers are as the opcode fetch left
/// them; the last clock puts the value of the source in the destination,
/// writing the bus only where the destination is the byte at HL, and ends
/// the instruction.
pub proof fn lemma_load_runs(cpu: Cpu, bus: MmuView, n: nat)
    requires
        cpu.wf(),
        cpu.trap is None,
        !cpu.halted,
        cpu.instruction is None,
        is_load(bus.read_byte(cpu.pc)),
        1 <= n <= load_clocks(bus.read_byte(cpu.pc)),
    ensures
        load_clocks(bus.read_byte(cpu.pc)) == published_clocks(bus.read_byte(cpu.pc)),
        n < load_clocks(bus.read_byte(cpu.pc)) ==> {
            &&& cpu.ticked_times(bus, n).1 == cpu.ticked(bus).1
            &&& cpu.ticked_times(bus, n).0.instruction is Some
            &&& forall|register: Register|
                cpu.ticked_times(bus, n).0.register(register) == cpu.ticked(bus).0.register(
                    register,
                )
        },
        n == load_clocks(bus.read_byte(cpu.pc)) ==> cpu.ticked_times(bus, n) == load_end(
            cpu.ticked(bus),
            bus.read_byte(cpu.pc),
        ),
{
    let opcode = bus.read_byte(cpu.pc);
    lemma_fetch_is_first_clock(cpu, bus);
    lemma_fetch_keeps_stack(cpu, bus);
    lemma_load_queue(opcode);
    let fetched = cpu.ticked(bus);
    assert(cpu.ticked_times(bus, 1) == fetched) by {
        assert(cpu.ticked_times(bus, 0) == (cpu, bus));
    }
    if n < 4 {
        lemma_ticked_times_add(cpu, bus, 1, (n - 1) as nat);
        lemma_machine_cycle_waits(fetched.0, fetched.1, (n - 1) as nat);
    } else {
        lemma_ticked_times_add(cpu, bus, 1, 3);
        if load_clocks(opcode) == 4 {
            lemma_load_between_registers(fetched.0, fetched.1, opcode);
        } else {
            lemma_load_first_of_two(fetched.0, fetched.1, opcode);
            let half = load_halfway(fetched, opcode);
            lemma_ticked_times_add(cpu, bus, 4, (n - 4) as nat);
            if n < 8 {
                lemma_machine_cycle_waits(half.0, half.1, (n - 4) as nat);
            } else if Register::of(opcode % 8).in_memory() {
                lemma_load_from_memory(fetched, opcode);
            } else {
                lemma_load_into_memory(fetched, opcode);
            }
        }
    }
}

/// NOP takes four clocks and changes nothing but PC, which the opcode
/// fetch has moved.
pub proof fn lemma_nop_runs(cpu: Cpu, bus: MmuView, n: nat)
    requires
        cpu.wf(),
        cpu.trap is None,
        !cpu.halted,
        cpu.instruction is None,
        bus.read_byte(cpu.pc) == 0x00,
        1 <= n <= 4,
    ensures
        cpu.ticked_times(bus, n).1 == cpu.ticked(bus).1,
        cpu.ticked_times(bus, n).0.instruction is Some <==> n < 4,
        cpu.ticked_times(bus, n).0 == (Cpu {
            instruction: cpu.ticked_times(bus, n).0.instruction,
            machine_cycles_taken_for_current_step: cpu.ticked_times(
                bus,
                n,
            ).0.machine_cycles_taken_for_current_step,
            ..cpu.ticked(bus).0
        }),
{
    reveal(steps_of);
    lemma_fetch_is_first_clock(cpu, bus);
    lemma_fetch_keeps_stack(cpu, bus);
    let fetched = cpu.ticked(bus);
    assert(cpu.ticked_times(bus, 1) == fetched) by {
        assert(cpu.ticked_times(bus, 0) == (cpu, bus));
    }
    lemma_ticked_times_add(cpu, bus, 1, (n - 1) as nat);
    if n < 4 {
        lemma_machine_cycle_waits(fetched.0, fetched.1, (n - 1) as nat);
    } else {
        let rested = Cpu { machine_cycles_taken_for_current_step: 0, ..fetched.0 };
        lemma_call_steps(rested, fetched.1);
        lemma_call_steps(rested.ran(fetched.1, MicroOp::Idle), fetched.1);
        lemma_machine_cycle_runs(
            fetched.0,
            fetched.1,
            Current { kind: InstructionKind::Plain, opcode: 0x00, position: 0 },
            MicroOp::Idle,
        );
        reveal_with_fuel(Cpu::drained, 3);
    }
}

/// No micro-step maps the boot image again.
#[verifier::rlimit(100)]
pub proof fn lemma_step_keeps_boot_unmapped(cpu: Cpu, bus: MmuView, op: MicroOp)
    requires
        !bus.bios_enabled,
    ensures
        !cpu.executed(bus, op).1.bios_enabled,
{
    reveal(Cpu::executed);
    reveal(Cpu::halt_entered);
    reveal(Cpu::dispatched);
    assert forall|addr: u16, val: u8| !(#[trigger] bus.write_byte(addr, val)).bios_enabled by {
        lemma_boot_image_stays_unmapped(bus, addr, val, 0);
    }
}

/// Nor do the steps that run for free behind a machine cycle.
pub proof fn lemma_drained_keeps_boot_unmapped(
    cpu: Cpu,
    bus: MmuView,
    kind: InstructionKind,
    opcode: u8,
    position: nat,
)
    requires
        !bus.bios_enabled,
    ensures
        !cpu.drained(bus, kind, opcode, position).1.bios_enabled,
    decreases queue_of(kind, opcode).len() - position,
{
    let queue = queue_of(kind, opcode);
    if position < queue.len() {
        match queue[position as int] {
            InstructionStep::Standard(_) => {},
            InstructionStep::Instant(op) => {
                lemma_step_keeps_boot_unmapped(cpu, bus, op);
                lemma_drained_keeps_boot_unmapped(
                    cpu.ran(bus, op),
                    cpu.executed(bus, op).1,
                    kind,
                    opcode,
                    position + 1,
                );
            },
            InstructionStep::InstantConditional(code) => {
                if code.holds(cpu.zero, cpu.carry) {
                    lemma_drained_keeps_boot_unmapped(cpu, bus, kind, opcode, position + 1);
                }
            },
        }
    }
}

/// Once the boot image is unmapped, no clock of the CPU maps it again.
pub proof fn lemma_cpu_keeps_boot_unmapped(cpu: Cpu, bus: MmuView)
    requires
        !bus.bios_enabled,
    ensures
        !cpu.ticked(bus).1.bios_enabled,
{
    reveal(Cpu::stepped);
    reveal(Cpu::opcode_fetched);
    let noted = cpu.wake_noted(bus);
    match cpu.instruction {
        Some(current) => {
            let rested = Cpu { machine_cycles_taken_for_current_step: 0, ..cpu.woken() };
            match step_at(current) {
                Some(InstructionStep::Standard(op)) => {
                    lemma_step_keeps_boot_unmapped(rested, noted, op);
                    lemma_drained_keeps_boot_unmapped(
                        rested.ran(noted, op),
                        rested.executed(noted, op).1,
                        current.kind,
                        current.opcode,
                        (current.position + 1) as nat,
                    );
                },
                _ => {},
            }
        },
        None => {},
    }
}

} // verus!
