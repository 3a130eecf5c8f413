//! Opcode decoding.
//!
//! An opcode is split into the fields x (bits 7-6), y (bits 5-3), z (bits
//! 2-0), p (bits 5-4) and q (bit 3), and turned into an ordered queue of
//! micro-steps. A `Standard` step occupies one machine cycle of four master
//! clocks; `Instant` steps ride along for free; an `InstantConditional` step
//! abandons the rest of the queue when its condition does not hold.
use vstd::prelude::*;

pub mod disassembler_table;

use crate::gameboy::cpu::disassembler::disassembler_table::ArithmeticOp;
use crate::gameboy::cpu::disassembler::disassembler_table::CBOp;
use crate::gameboy::cpu::disassembler::disassembler_table::ConditionCode;
use crate::gameboy::cpu::disassembler::disassembler_table::Register;
use crate::gameboy::cpu::disassembler::disassembler_table::RegisterPair1;
use crate::gameboy::cpu::disassembler::disassembler_table::RegisterPair2;

verus! {

/// Where an accumulator load or store through a register pair points.
#[derive(Clone, Copy, PartialEq, Eq, Structural, Debug)]
pub enum Pointer {
    BC,
    DE,
    /// HL, which is incremented afterwards.
    HLIncrement,
    /// HL, which is decremented afterwards.
    HLDecrement,
}

impl Pointer {
    /// The pointer that a two-bit field selects.
    pub open spec fn of(index: u8) -> Pointer {
        if index == 0 {
            Pointer::BC
        } else if index == 1 {
            Pointer::DE
        } else if index == 2 {
            Pointer::HLIncrement
        } else {
            Pointer::HLDecrement
        }
    }

    pub fn from_u8(index: u8) -> (pointer: Self)
        requires
            index < 4,
        ensures
            pointer == Self::of(index),
    {
        if index == 0 {
            Pointer::BC
        } else if index == 1 {
            Pointer::DE
        } else if index == 2 {
            Pointer::HLIncrement
        } else {
            Pointer::HLDecrement
        }
    }
}

/// What a prefixed opcode does to its operand.
#[derive(Clone, Copy, PartialEq, Eq, Structural, Debug)]
pub enum PrefixedOp {
    /// Rotate, shift or swap.
    Rotate(CBOp),
    /// Test the numbered bit.
    TestBit(u8),
    /// Clear the numbered bit.
    ResetBit(u8),
    /// Set the numbered bit.
    SetBit(u8),
}

impl PrefixedOp {
    /// The operation that the x and y fields of a prefixed opcode select.
    pub open spec fn of(x: u8, y: u8) -> PrefixedOp {
        if x == 0 {
            PrefixedOp::Rotate(CBOp::of(y))
        } else if x == 1 {
            PrefixedOp::TestBit(y)
        } else if x == 2 {
            PrefixedOp::ResetBit(y)
        } else {
            PrefixedOp::SetBit(y)
        }
    }

    pub fn from_fields(x: u8, y: u8) -> (op: Self)
        requires
            x < 4,
            y < 8,
        ensures
            op == Self::of(x, y),
    {
        if x == 0 {
            PrefixedOp::Rotate(CBOp::from_u8(y))
        } else if x == 1 {
            PrefixedOp::TestBit(y)
        } else if x == 2 {
            PrefixedOp::ResetBit(y)
        } else {
            PrefixedOp::SetBit(y)
        }
    }
}

/// One unit of work inside an instruction.
#[derive(Clone, Copy, PartialEq, Eq, Structural, Debug)]
pub enum MicroOp {
    /// Nothing: an internal cycle, or the cycle that the opcode fetch took.
    Idle,
    /// Read the byte at PC into operand8 and advance PC.
    FetchOperand8,
    /// Read the byte at PC as the high half of operand16, over operand8, and advance PC.
    FetchOperand16,
    /// Write the low byte of SP at the address in operand16.
    StoreSpLowAtOperand16,
    /// Write the high byte of SP at the address after the one in operand16.
    StoreSpHighAtOperand16,
    /// Enter stop mode.
    Stop,
    /// Add operand8, read as a signed offset, to PC.
    JumpRelative,
    /// Read the byte at PC into the low half of the pair and advance PC.
    FetchPairLow(RegisterPair1),
    /// Read the byte at PC into the high half of the pair and advance PC.
    FetchPairHigh(RegisterPair1),
    /// Add the pair to HL.
    AddToHl(RegisterPair1),
    /// Write A through the pointer.
    StoreA(Pointer),
    /// Read A through the pointer.
    LoadA(Pointer),
    /// Add one to the pair.
    IncPair(RegisterPair1),
    /// Take one from the pair.
    DecPair(RegisterPair1),
    /// Add one to the operand; for the byte at HL, the result goes to temp8.
    Inc(Register),
    /// Take one from the operand; for the byte at HL, the result goes to temp8.
    Dec(Register),
    /// Write temp8 at HL.
    StoreTemp8AtHl,
    /// Copy operand8 into the operand.
    LoadImmediate(Register),
    Rlca,
    Rrca,
    Rla,
    Rra,
    Daa,
    Cpl,
    Scf,
    Ccf,
    /// Suspend the CPU until an interrupt is requested.
    Halt,
    /// Copy the operand into temp8.
    ReadOperand(Register),
    /// Copy temp8 into the operand.
    WriteOperand(Register),
    /// Apply the operation to A and temp8.
    Arithmetic(ArithmeticOp),
    /// Apply the operation to A and operand8.
    ArithmeticImmediate(ArithmeticOp),
    /// Pop a byte from the stack into temp16, as its low byte.
    PopTemp16Low,
    /// Pop a byte from the stack into the high byte of temp16.
    PopTemp16High,
    /// Set PC to temp16.
    Return,
    /// Set PC to temp16 and enable interrupts.
    ReturnEnable,
    /// Write A at 0xFF00 + operand8.
    StoreAHigh,
    /// Read A from 0xFF00 + operand8.
    LoadAHigh,
    /// Add operand8, read as a signed offset, to SP.
    AddSpImmediate,
    /// Set HL to SP plus operand8, read as a signed offset.
    LoadHlSpImmediate,
    /// Pop a byte from the stack into the low half of the pair.
    PopLow(RegisterPair2),
    /// Pop a byte from the stack into the high half of the pair.
    PopHigh(RegisterPair2),
    /// Push the high half of the pair onto the stack.
    PushHigh(RegisterPair2),
    /// Push the low half of the pair onto the stack.
    PushLow(RegisterPair2),
    /// Set PC to HL.
    JumpHl,
    /// Set SP to HL.
    LoadSpHl,
    /// Set PC to operand16.
    Jump,
    /// Write A at 0xFF00 + C.
    StoreAHighC,
    /// Read A from 0xFF00 + C.
    LoadAHighC,
    /// Write A at the address in operand16.
    StoreAAtOperand16,
    /// Read A from the address in operand16.
    LoadAAtOperand16,
    /// Disable interrupts at once.
    Di,
    /// Enable interrupts once the following instruction has been fetched.
    Ei,
    /// Push the high byte of PC onto the stack.
    PushPcHigh,
    /// Push the low byte of PC onto the stack.
    PushPcLow,
    /// Set PC to the given vector.
    Restart(u8),
    /// Apply a prefixed operation; for the byte at HL, the result goes to temp8.
    Prefixed(PrefixedOp, Register),
    /// Push the high byte of PC and latch the interrupt-enable mask.
    PushPcHighLatchEnable,
    /// Push the low byte of PC and latch the interrupt-request flags.
    PushPcLowLatchFlags,
    /// Jump to the vector of the interrupt that both latches agree on.
    Dispatch,
}

/// One entry of an instruction's step queue.
#[derive(Clone, Copy, PartialEq, Eq, Structural, Debug)]
pub enum InstructionStep {
    /// Costs nothing; drops the rest of the queue when the condition fails.
    InstantConditional(ConditionCode),
    /// Takes one machine cycle.
    Standard(MicroOp),
    /// Costs nothing.
    Instant(MicroOp),
}

/// A decoded instruction: its opcode, its length in bytes, and the steps that
/// are still to run.
#[derive(Debug)]
pub struct Instruction {
    pub opcode_val: u8,
    pub length: u8,
    pub steps: Vec<InstructionStep>,
}

/// The mathematical content of an [`Instruction`].
#[verifier::ext_equal]
pub struct InstructionView {
    pub opcode_val: u8,
    pub length: u8,
    pub steps: Seq<InstructionStep>,
}

impl View for Instruction {
    type V = InstructionView;

    open spec fn view(&self) -> InstructionView {
        InstructionView { opcode_val: self.opcode_val, length: self.length, steps: self.steps@ }
    }
}

pub open spec fn standard(op: MicroOp) -> InstructionStep {
    InstructionStep::Standard(op)
}

pub open spec fn instant(op: MicroOp) -> InstructionStep {
    InstructionStep::Instant(op)
}

pub open spec fn conditional(code: ConditionCode) -> InstructionStep {
    InstructionStep::InstantConditional(code)
}

/// A step that touches the operand: a machine cycle for the byte at HL, free
/// for a register.
pub open spec fn operand_step(register: Register, op: MicroOp) -> InstructionStep {
    if register.in_memory() {
        standard(op)
    } else {
        instant(op)
    }
}

/// The number of `Standard` steps in a queue.
pub open spec fn standard_steps(steps: Seq<InstructionStep>) -> nat
    decreases steps.len(),
{
    if steps.len() == 0 {
        0
    } else {
        standard_steps(steps.drop_last()) + if steps.last() is Standard {
            1nat
        } else {
            0nat
        }
    }
}

/// Whether a queue holds a condition.
pub open spec fn has_condition(steps: Seq<InstructionStep>) -> bool
    decreases steps.len(),
{
    if steps.len() == 0 {
        false
    } else {
        steps.last() is InstantConditional || has_condition(steps.drop_last())
    }
}

/// The number of `Standard` steps ahead of the first condition: the machine
/// cycles that run when that condition fails.
pub open spec fn standard_steps_before_condition(steps: Seq<InstructionStep>) -> nat
    decreases steps.len(),
{
    if steps.len() == 0 {
        0
    } else if has_condition(steps.drop_last()) {
        standard_steps_before_condition(steps.drop_last())
    } else {
        standard_steps_before_condition(steps.drop_last()) + if steps.last() is Standard {
            1nat
        } else {
            0nat
        }
    }
}

/// Master clocks of an instruction that runs to its end, four per machine cycle.
pub open spec fn clocks(steps: Seq<InstructionStep>) -> nat {
    4 * standard_steps(steps)
}

/// Master clocks of an instruction whose condition fails.
pub open spec fn clocks_untaken(steps: Seq<InstructionStep>) -> nat {
    4 * standard_steps_before_condition(steps)
}

/// The published duration, in master clocks, of each unprefixed opcode, laid
/// out by the rows and columns of the opcode chart. For a conditional opcode
/// this is the duration when the branch is taken.
pub open spec fn published_clocks(opcode: u8) -> nat {
    let row = opcode / 16;
    let col = opcode % 16;
    if row < 4 {
        if col == 0x0 {
            if row < 2 {
                4
            } else {
                12
            }
        } else if col == 0x1 {
            12
        } else if col == 0x4 || col == 0x5 {
            if row == 3 {
                12
            } else {
                4
            }
        } else if col == 0x6 {
            if row == 3 {
                12
            } else {
                8
            }
        } else if col == 0x7 || col == 0xF || col == 0xC || col == 0xD {
            4
        } else if col == 0x8 {
            if row == 0 {
                20
            } else {
                12
            }
        } else {
            8
        }
    } else if row < 8 {
        if opcode == 0x76 {
            4
        } else if row == 7 && col < 8 || col == 0x6 || col == 0xE {
            8
        } else {
            4
        }
    } else if row < 12 {
        if col == 0x6 || col == 0xE {
            8
        } else {
            4
        }
    } else if col == 0x0 {
        if row < 14 {
            20
        } else {
            12
        }
    } else if col == 0x1 {
        12
    } else if col == 0x2 {
        if row < 14 {
            16
        } else {
            8
        }
    } else if col == 0x3 {
        if row == 12 {
            16
        } else {
            4
        }
    } else if col == 0x4 || col == 0xC {
        24
    } else if col == 0x5 || col == 0x7 || col == 0xF {
        16
    } else if col == 0x6 || col == 0xE {
        8
    } else if col == 0x8 {
        if row < 14 {
            20
        } else if row == 14 {
            16
        } else {
            12
        }
    } else if col == 0x9 {
        if row < 14 {
            16
        } else if row == 14 {
            4
        } else {
            8
        }
    } else if col == 0xA {
        16
    } else if col == 0xB {
        4
    } else {
        24
    }
}

/// The published duration of a conditional opcode whose branch is not taken.
pub open spec fn published_clocks_untaken(opcode: u8) -> nat {
    let col = opcode % 16;
    if opcode < 0x40 {
        8
    } else if col == 0x0 || col == 0x8 {
        8
    } else {
        12
    }
}

/// The published duration of each prefixed opcode, prefix byte included.
pub open spec fn published_prefixed_clocks(opcode: u8) -> nat {
    if opcode % 8 != 6 {
        8
    } else if opcode / 64 == 1 {
        12
    } else {
        16
    }
}

/// The steps that follow the opcode fetch, for opcodes whose x field is 0.
pub open spec fn x0_steps(y: u8, z: u8, p: u8, q: u8) -> Seq<InstructionStep> {
    if z == 0 {
        if y == 0 {
            Seq::<InstructionStep>::empty()
                .push(instant(MicroOp::Idle))
        } else if y == 1 {
            Seq::<InstructionStep>::empty()
                .push(standard(MicroOp::FetchOperand8))
                .push(standard(MicroOp::FetchOperand16))
                .push(standard(MicroOp::StoreSpLowAtOperand16))
                .push(standard(MicroOp::StoreSpHighAtOperand16))
        } else if y == 2 {
            Seq::<InstructionStep>::empty()
                .push(instant(MicroOp::Stop))
        } else if y == 3 {
            Seq::<InstructionStep>::empty()
                .push(standard(MicroOp::FetchOperand8))
                .push(standard(MicroOp::JumpRelative))
        } else {
            Seq::<InstructionStep>::empty()
                .push(standard(MicroOp::FetchOperand8))
                .push(conditional(ConditionCode::of((y - 4) as u8)))
                .push(standard(MicroOp::JumpRelative))
        }
    } else if z == 1 {
        if q == 0 {
            Seq::<InstructionStep>::empty()
                .push(standard(MicroOp::FetchPairLow(RegisterPair1::of(p))))
                .push(standard(MicroOp::FetchPairHigh(RegisterPair1::of(p))))
        } else {
            Seq::<InstructionStep>::empty()
                .push(standard(MicroOp::AddToHl(RegisterPair1::of(p))))
        }
    } else if z == 2 {
        if q == 0 {
            Seq::<InstructionStep>::empty()
                .push(standard(MicroOp::StoreA(Pointer::of(p))))
        } else {
            Seq::<InstructionStep>::empty()
                .push(standard(MicroOp::LoadA(Pointer::of(p))))
        }
    } else if z == 3 {
        if q == 0 {
            Seq::<InstructionStep>::empty()
                .push(standard(MicroOp::IncPair(RegisterPair1::of(p))))
        } else {
            Seq::<InstructionStep>::empty()
                .push(standard(MicroOp::DecPair(RegisterPair1::of(p))))
        }
    } else if z == 4 {
        if y == 6 {
            Seq::<InstructionStep>::empty()
                .push(standard(MicroOp::Inc(Register::HLMem)))
                .push(standard(MicroOp::StoreTemp8AtHl))
        } else {
            Seq::<InstructionStep>::empty()
                .push(instant(MicroOp::Inc(Register::of(y))))
        }
    } else if z == 5 {
        if y == 6 {
            Seq::<InstructionStep>::empty()
                .push(standard(MicroOp::Dec(Register::HLMem)))
                .push(standard(MicroOp::StoreTemp8AtHl))
        } else {
            Seq::<InstructionStep>::empty()
                .push(instant(MicroOp::Dec(Register::of(y))))
        }
    } else if z == 6 {
        Seq::<InstructionStep>::empty()
            .push(standard(MicroOp::FetchOperand8))
            .push(operand_step(Register::of(y), MicroOp::LoadImmediate(Register::of(y))))
    } else if y == 0 {
        Seq::<InstructionStep>::empty()
            .push(instant(MicroOp::Rlca))
    } else if y == 1 {
        Seq::<InstructionStep>::empty()
            .push(instant(MicroOp::Rrca))
    } else if y == 2 {
        Seq::<InstructionStep>::empty()
            .push(instant(MicroOp::Rla))
    } else if y == 3 {
        Seq::<InstructionStep>::empty()
            .push(instant(MicroOp::Rra))
    } else if y == 4 {
        Seq::<InstructionStep>::empty()
            .push(instant(MicroOp::Daa))
    } else if y == 5 {
        Seq::<InstructionStep>::empty()
            .push(instant(MicroOp::Cpl))
    } else if y == 6 {
        Seq::<InstructionStep>::empty()
            .push(instant(MicroOp::Scf))
    } else {
        Seq::<InstructionStep>::empty()
            .push(instant(MicroOp::Ccf))
    }
}

/// The length in bytes of the opcodes whose x field is 0.
pub open spec fn x0_length(y: u8, z: u8, q: u8) -> u8 {
    if z == 0 {
        if y == 0 || y == 2 {
            1
        } else if y == 1 {
            3
        } else {
            2
        }
    } else if z == 1 {
        if q == 0 {
            3
        } else {
            1
        }
    } else if z == 6 {
        2
    } else {
        1
    }
}

/// The steps that follow the opcode fetch, for opcodes whose x field is 1:
/// the register-to-register loads, and HALT in the place of a load from the
/// byte at HL to itself.
pub open spec fn x1_steps(y: u8, z: u8) -> Seq<InstructionStep> {
    if y == 6 && z == 6 {
        Seq::<InstructionStep>::empty()
            .push(instant(MicroOp::Halt))
    } else {
        Seq::<InstructionStep>::empty()
            .push(operand_step(Register::of(z), MicroOp::ReadOperand(Register::of(z))))
            .push(operand_step(Register::of(y), MicroOp::WriteOperand(Register::of(y))))
    }
}

/// The steps that follow the opcode fetch, for opcodes whose x field is 2:
/// accumulator arithmetic on a register or on the byte at HL.
pub open spec fn x2_steps(y: u8, z: u8) -> Seq<InstructionStep> {
    Seq::<InstructionStep>::empty()
        .push(operand_step(Register::of(z), MicroOp::ReadOperand(Register::of(z))))
        .push(instant(MicroOp::Arithmetic(ArithmeticOp::of(y))))
}

/// Which opcodes with an x field of 3 name an instruction. The prefix byte
/// itself names none: the byte after it does.
pub open spec fn x3_documented(y: u8, z: u8) -> bool {
    &&& !(z == 3 && 1 <= y <= 5)
    &&& !(z == 4 && y >= 4)
    &&& !(z == 5 && y % 2 == 1 && y != 1)
}

/// The steps that follow the opcode fetch, for the documented opcodes whose
/// x field is 3.
pub open spec fn x3_steps(y: u8, z: u8, p: u8, q: u8) -> Seq<InstructionStep> {
    if z == 0 {
        if y < 4 {
            Seq::<InstructionStep>::empty()
                .push(standard(MicroOp::Idle))
                .push(conditional(ConditionCode::of(y)))
                .push(standard(MicroOp::PopTemp16Low))
                .push(standard(MicroOp::PopTemp16High))
                .push(standard(MicroOp::Return))
        } else if y == 4 {
            Seq::<InstructionStep>::empty()
                .push(standard(MicroOp::FetchOperand8))
                .push(standard(MicroOp::StoreAHigh))
        } else if y == 5 {
            Seq::<InstructionStep>::empty()
                .push(standard(MicroOp::FetchOperand8))
                .push(standard(MicroOp::Idle))
                .push(standard(MicroOp::AddSpImmediate))
        } else if y == 6 {
            Seq::<InstructionStep>::empty()
                .push(standard(MicroOp::FetchOperand8))
                .push(standard(MicroOp::LoadAHigh))
        } else {
            Seq::<InstructionStep>::empty()
                .push(standard(MicroOp::FetchOperand8))
                .push(standard(MicroOp::LoadHlSpImmediate))
        }
    } else if z == 1 {
        if q == 0 {
            Seq::<InstructionStep>::empty()
                .push(standard(MicroOp::PopLow(RegisterPair2::of(p))))
                .push(standard(MicroOp::PopHigh(RegisterPair2::of(p))))
        } else if p == 0 {
            Seq::<InstructionStep>::empty()
                .push(standard(MicroOp::PopTemp16Low))
                .push(standard(MicroOp::PopTemp16High))
                .push(standard(MicroOp::Return))
        } else if p == 1 {
            Seq::<InstructionStep>::empty()
                .push(standard(MicroOp::PopTemp16Low))
                .push(standard(MicroOp::PopTemp16High))
                .push(standard(MicroOp::ReturnEnable))
        } else if p == 2 {
            Seq::<InstructionStep>::empty()
                .push(instant(MicroOp::JumpHl))
        } else {
            Seq::<InstructionStep>::empty()
                .push(standard(MicroOp::LoadSpHl))
        }
    } else if z == 2 {
        if y < 4 {
            Seq::<InstructionStep>::empty()
                .push(standard(MicroOp::FetchOperand8))
                .push(standard(MicroOp::FetchOperand16))
                .push(conditional(ConditionCode::of(y)))
                .push(standard(MicroOp::Jump))
        } else if y == 4 {
            Seq::<InstructionStep>::empty()
                .push(standard(MicroOp::StoreAHighC))
        } else if y == 5 {
            Seq::<InstructionStep>::empty()
                .push(standard(MicroOp::FetchOperand8))
                .push(standard(MicroOp::FetchOperand16))
                .push(standard(MicroOp::StoreAAtOperand16))
        } else if y == 6 {
            Seq::<InstructionStep>::empty()
                .push(standard(MicroOp::LoadAHighC))
        } else {
            Seq::<InstructionStep>::empty()
                .push(standard(MicroOp::FetchOperand8))
                .push(standard(MicroOp::FetchOperand16))
                .push(standard(MicroOp::LoadAAtOperand16))
        }
    } else if z == 3 {
        if y == 0 {
            Seq::<InstructionStep>::empty()
                .push(standard(MicroOp::FetchOperand8))
                .push(standard(MicroOp::FetchOperand16))
                .push(standard(MicroOp::Jump))
        } else if y == 6 {
            Seq::<InstructionStep>::empty()
                .push(instant(MicroOp::Di))
        } else {
            Seq::<InstructionStep>::empty()
                .push(instant(MicroOp::Ei))
        }
    } else if z == 4 {
        Seq::<InstructionStep>::empty()
            .push(standard(MicroOp::FetchOperand8))
            .push(standard(MicroOp::FetchOperand16))
            .push(conditional(ConditionCode::of(y)))
            .push(standard(MicroOp::Idle))
            .push(standard(MicroOp::PushPcHigh))
            .push(standard(MicroOp::PushPcLow))
            .push(instant(MicroOp::Jump))
    } else if z == 5 {
        if q == 0 {
            Seq::<InstructionStep>::empty()
                .push(standard(MicroOp::Idle))
                .push(standard(MicroOp::PushHigh(RegisterPair2::of(p))))
                .push(standard(MicroOp::PushLow(RegisterPair2::of(p))))
        } else {
            Seq::<InstructionStep>::empty()
                .push(standard(MicroOp::FetchOperand8))
                .push(standard(MicroOp::FetchOperand16))
                .push(standard(MicroOp::Idle))
                .push(standard(MicroOp::PushPcHigh))
                .push(standard(MicroOp::PushPcLow))
                .push(instant(MicroOp::Jump))
        }
    } else if z == 6 {
        Seq::<InstructionStep>::empty()
            .push(standard(MicroOp::FetchOperand8))
            .push(instant(MicroOp::ArithmeticImmediate(ArithmeticOp::of(y))))
    } else {
        Seq::<InstructionStep>::empty()
            .push(standard(MicroOp::Idle))
            .push(standard(MicroOp::PushPcHigh))
            .push(standard(MicroOp::PushPcLow))
            .push(instant(MicroOp::Restart((y * 8) as u8)))
    }
}

/// The length in bytes of the documented opcodes whose x field is 3.
pub open spec fn x3_length(y: u8, z: u8, q: u8) -> u8 {
    if z == 0 {
        if y < 4 {
            1
        } else {
            2
        }
    } else if z == 2 {
        if y == 4 || y == 6 {
            1
        } else {
            3
        }
    } else if z == 3 {
        if y == 0 {
            3
        } else {
            1
        }
    } else if z == 4 {
        3
    } else if z == 5 {
        if q == 0 {
            1
        } else {
            3
        }
    } else if z == 6 {
        2
    } else {
        1
    }
}

/// Whether an unprefixed opcode names an instruction.
pub open spec fn documented(opcode: u8) -> bool {
    opcode / 64 == 3 ==> x3_documented(opcode / 8 % 8, opcode % 8)
}

/// Whether an unprefixed opcode branches on a condition.
pub open spec fn conditional_opcode(opcode: u8) -> bool {
    let y = opcode / 8 % 8;
    let z = opcode % 8;
    ||| opcode / 64 == 0 && z == 0 && y >= 4
    ||| opcode / 64 == 3 && y < 4 && (z == 0 || z == 2 || z == 4)
}

/// The steps that follow the opcode fetch of a documented opcode.
pub open spec fn body_steps(opcode: u8) -> Seq<InstructionStep> {
    let x = opcode / 64;
    let y = opcode / 8 % 8;
    let z = opcode % 8;
    let p = y / 2;
    let q = y % 2;
    if x == 0 {
        x0_steps(y, z, p, q)
    } else if x == 1 {
        x1_steps(y, z)
    } else if x == 2 {
        x2_steps(y, z)
    } else {
        x3_steps(y, z, p, q)
    }
}

/// The whole step queue of a documented opcode. It opens with the machine
/// cycle that the opcode fetch took.
#[verifier::opaque]
pub open spec fn steps_of(opcode: u8) -> Seq<InstructionStep> {
    body_steps(opcode).insert(0, standard(MicroOp::Idle))
}

/// The length in bytes of a documented opcode.
pub open spec fn length_of(opcode: u8) -> u8 {
    let x = opcode / 64;
    let y = opcode / 8 % 8;
    let z = opcode % 8;
    if x == 0 {
        x0_length(y, z, y % 2)
    } else if x == 3 {
        x3_length(y, z, y % 2)
    } else {
        1
    }
}

/// The whole step queue of a prefixed opcode: one machine cycle for the
/// prefix, one for the opcode, then the operation.
#[verifier::opaque]
pub open spec fn prefixed_steps_of(opcode: u8) -> Seq<InstructionStep> {
    let x = opcode / 64;
    let y = opcode / 8 % 8;
    let z = opcode % 8;
    let op = PrefixedOp::of(x, y);
    if z != 6 {
        Seq::<InstructionStep>::empty()
            .push(standard(MicroOp::Idle))
            .push(standard(MicroOp::Idle))
            .push(instant(MicroOp::Prefixed(op, Register::of(z))))
    } else if x == 1 {
        Seq::<InstructionStep>::empty()
            .push(standard(MicroOp::Idle))
            .push(standard(MicroOp::Idle))
            .push(standard(MicroOp::Prefixed(op, Register::HLMem)))
    } else {
        Seq::<InstructionStep>::empty()
            .push(standard(MicroOp::Idle))
            .push(standard(MicroOp::Idle))
            .push(standard(MicroOp::Prefixed(op, Register::HLMem)))
            .push(standard(MicroOp::StoreTemp8AtHl))
    }
}

/// The five machine cycles that service an interrupt: two internal cycles,
/// the two halves of PC pushed while the enable mask and the request flags
/// are latched, and the jump to the vector.
pub open spec fn interrupt_steps() -> Seq<InstructionStep> {
    Seq::<InstructionStep>::empty()
        .push(standard(MicroOp::Idle))
        .push(standard(MicroOp::Idle))
        .push(standard(MicroOp::PushPcHighLatchEnable))
        .push(standard(MicroOp::PushPcLowLatchFlags))
        .push(standard(MicroOp::Dispatch))
}

/// Putting a `Standard` step that is no condition in front of a queue adds
/// one machine cycle, whether or not a later condition holds.
pub proof fn lemma_front_standard(steps: Seq<InstructionStep>, op: MicroOp)
    ensures
        standard_steps(steps.insert(0, standard(op))) == standard_steps(steps) + 1,
        has_condition(steps.insert(0, standard(op))) == has_condition(steps),
        standard_steps_before_condition(steps.insert(0, standard(op)))
            == standard_steps_before_condition(steps) + 1,
    decreases steps.len(),
{
    let longer = steps.insert(0, standard(op));
    reveal_with_fuel(standard_steps, 2);
    reveal_with_fuel(has_condition, 2);
    reveal_with_fuel(standard_steps_before_condition, 2);
    if steps.len() == 0 {
        assert(longer.drop_last() =~= steps);
    } else {
        lemma_front_standard(steps.drop_last(), op);
        assert(longer.drop_last() =~= steps.drop_last().insert(0, standard(op)));
        assert(longer.last() == steps.last());
    }
}

fn push_standard(steps: &mut Vec<InstructionStep>, op: MicroOp)
    ensures
        final(steps)@ == old(steps)@.push(standard(op)),
        standard_steps(final(steps)@) == standard_steps(old(steps)@) + 1,
        has_condition(final(steps)@) == has_condition(old(steps)@),
        standard_steps_before_condition(final(steps)@) == standard_steps_before_condition(
            old(steps)@,
        ) + if has_condition(old(steps)@) {
            0nat
        } else {
            1nat
        },
{
    steps.push(InstructionStep::Standard(op));
    assert(steps@.drop_last() =~= old(steps)@);
}

fn push_instant(steps: &mut Vec<InstructionStep>, op: MicroOp)
    ensures
        final(steps)@ == old(steps)@.push(instant(op)),
        standard_steps(final(steps)@) == standard_steps(old(steps)@),
        has_condition(final(steps)@) == has_condition(old(steps)@),
        standard_steps_before_condition(final(steps)@) == standard_steps_before_condition(
            old(steps)@,
        ),
{
    steps.push(InstructionStep::Instant(op));
    assert(steps@.drop_last() =~= old(steps)@);
}

fn push_conditional(steps: &mut Vec<InstructionStep>, code: ConditionCode)
    ensures
        final(steps)@ == old(steps)@.push(conditional(code)),
        standard_steps(final(steps)@) == standard_steps(old(steps)@),
        has_condition(final(steps)@),
        standard_steps_before_condition(final(steps)@) == standard_steps_before_condition(
            old(steps)@,
        ),
{
    steps.push(InstructionStep::InstantConditional(code));
    assert(steps@.drop_last() =~= old(steps)@);
}

fn push_operand_step(steps: &mut Vec<InstructionStep>, register: Register, op: MicroOp)
    ensures
        final(steps)@ == old(steps)@.push(operand_step(register, op)),
        standard_steps(final(steps)@) == standard_steps(old(steps)@) + if register.in_memory() {
            1nat
        } else {
            0nat
        },
        has_condition(final(steps)@) == has_condition(old(steps)@),
        standard_steps_before_condition(final(steps)@) == standard_steps_before_condition(
            old(steps)@,
        ) + if register.in_memory() && !has_condition(old(steps)@) {
            1nat
        } else {
            0nat
        },
{
    if register.is_memory() {
        push_standard(steps, op);
    } else {
        push_instant(steps, op);
    }
}

/// Queues the machine cycle that reads an 8-bit immediate operand.
pub fn push_fetch_operand8_closure(queue: &mut Vec<InstructionStep>)
    ensures
        final(queue)@ == old(queue)@.push(standard(MicroOp::FetchOperand8)),
        standard_steps(final(queue)@) == standard_steps(old(queue)@) + 1,
        has_condition(final(queue)@) == has_condition(old(queue)@),
        standard_steps_before_condition(final(queue)@) == standard_steps_before_condition(
            old(queue)@,
        ) + if has_condition(old(queue)@) {
            0nat
        } else {
            1nat
        },
{
    push_standard(queue, MicroOp::FetchOperand8);
}

/// Queues the two machine cycles that read a 16-bit immediate operand, low
/// byte first.
pub fn push_fetch_operand16_closures(queue: &mut Vec<InstructionStep>)
    ensures
        final(queue)@ == old(queue)@.push(standard(MicroOp::FetchOperand8)).push(
            standard(MicroOp::FetchOperand16),
        ),
        standard_steps(final(queue)@) == standard_steps(old(queue)@) + 2,
        has_condition(final(queue)@) == has_condition(old(queue)@),
        standard_steps_before_condition(final(queue)@) == standard_steps_before_condition(
            old(queue)@,
        ) + if has_condition(old(queue)@) {
            0nat
        } else {
            2nat
        },
{
    push_fetch_operand8_closure(queue);
    push_standard(queue, MicroOp::FetchOperand16);
}

/// Decodes an opcode whose x field is 0: 16-bit loads and arithmetic, loads
/// through register pairs, 8-bit increments and immediates, the accumulator
/// rotates and flag operations, the relative jumps, STOP and NOP.
#[verifier::rlimit(100)]
pub fn dissassemble_x_0(y: u8, z: u8, p: u8, q: u8, opcode: u8) -> (instruction: Instruction)
    requires
        y < 8,
        z < 8,
        p == y / 2,
        q == y % 2,
        opcode == 8 * y + z,
    ensures
        instruction@ == (InstructionView {
            opcode_val: opcode,
            length: x0_length(y, z, q),
            steps: x0_steps(y, z, p, q),
        }),
        4 + clocks(instruction.steps@) == published_clocks(opcode),
        has_condition(instruction.steps@) == conditional_opcode(opcode),
        conditional_opcode(opcode) ==> 4 + clocks_untaken(instruction.steps@)
            == published_clocks_untaken(opcode),
{
    let mut steps: Vec<InstructionStep> = Vec::new();
    let mut length: u8 = 1;
    if z == 0 {
        if y == 0 {
            push_instant(&mut steps, MicroOp::Idle);
        } else if y == 1 {
            push_fetch_operand16_closures(&mut steps);
            push_standard(&mut steps, MicroOp::StoreSpLowAtOperand16);
            push_standard(&mut steps, MicroOp::StoreSpHighAtOperand16);
            length = 3;
        } else if y == 2 {
            push_instant(&mut steps, MicroOp::Stop);
        } else if y == 3 {
            push_fetch_operand8_closure(&mut steps);
            push_standard(&mut steps, MicroOp::JumpRelative);
            length = 2;
        } else {
            push_fetch_operand8_closure(&mut steps);
            push_conditional(&mut steps, ConditionCode::from_u8(y - 4));
            push_standard(&mut steps, MicroOp::JumpRelative);
            length = 2;
        }
    } else if z == 1 {
        let pair = RegisterPair1::from_u8(p);
        if q == 0 {
            push_standard(&mut steps, MicroOp::FetchPairLow(pair));
            push_standard(&mut steps, MicroOp::FetchPairHigh(pair));
            length = 3;
        } else {
            push_standard(&mut steps, MicroOp::AddToHl(pair));
        }
    } else if z == 2 {
        let pointer = Pointer::from_u8(p);
        if q == 0 {
            push_standard(&mut steps, MicroOp::StoreA(pointer));
        } else {
            push_standard(&mut steps, MicroOp::LoadA(pointer));
        }
    } else if z == 3 {
        let pair = RegisterPair1::from_u8(p);
        if q == 0 {
            push_standard(&mut steps, MicroOp::IncPair(pair));
        } else {
            push_standard(&mut steps, MicroOp::DecPair(pair));
        }
    } else if z == 4 || z == 5 {
        let register = Register::from_u8(y);
        let op = if z == 4 {
            MicroOp::Inc(register)
        } else {
            MicroOp::Dec(register)
        };
        if register.is_memory() {
            push_standard(&mut steps, op);
            push_standard(&mut steps, MicroOp::StoreTemp8AtHl);
        } else {
            push_instant(&mut steps, op);
        }
    } else if z == 6 {
        let register = Register::from_u8(y);
        push_fetch_operand8_closure(&mut steps);
        push_operand_step(&mut steps, register, MicroOp::LoadImmediate(register));
        length = 2;
    } else {
        let op = if y == 0 {
            MicroOp::Rlca
        } else if y == 1 {
            MicroOp::Rrca
        } else if y == 2 {
            MicroOp::Rla
        } else if y == 3 {
            MicroOp::Rra
        } else if y == 4 {
            MicroOp::Daa
        } else if y == 5 {
            MicroOp::Cpl
        } else if y == 6 {
            MicroOp::Scf
        } else {
            MicroOp::Ccf
        };
        push_instant(&mut steps, op);
    }
    Instruction { opcode_val: opcode, length, steps }
}

/// Decodes an opcode whose x field is 1: a load between two 8-bit operands,
/// or HALT.
pub fn dissassemble_x_1(y: u8, z: u8, _p: u8, _q: u8, opcode: u8) -> (instruction: Instruction)
    requires
        y < 8,
        z < 8,
        opcode == 64 + 8 * y + z,
    ensures
        instruction@ == (InstructionView { opcode_val: opcode, length: 1, steps: x1_steps(y, z) }),
        4 + clocks(instruction.steps@) == published_clocks(opcode),
        !has_condition(instruction.steps@),
{
    let mut steps: Vec<InstructionStep> = Vec::new();
    if opcode == 0x76 {
        push_instant(&mut steps, MicroOp::Halt);
    } else {
        let destination = Register::from_u8(y);
        let source = Register::from_u8(z);
        push_operand_step(&mut steps, source, MicroOp::ReadOperand(source));
        push_operand_step(&mut steps, destination, MicroOp::WriteOperand(destination));
    }
    Instruction { opcode_val: opcode, length: 1, steps }
}

/// Decodes an opcode whose x field is 2: accumulator arithmetic on an 8-bit
/// operand.
pub fn dissassemble_x_2(y: u8, z: u8, _p: u8, _q: u8, opcode: u8) -> (instruction: Instruction)
    requires
        y < 8,
        z < 8,
        opcode == 128 + 8 * y + z,
    ensures
        instruction@ == (InstructionView { opcode_val: opcode, length: 1, steps: x2_steps(y, z) }),
        4 + clocks(instruction.steps@) == published_clocks(opcode),
        !has_condition(instruction.steps@),
{
    let mut steps: Vec<InstructionStep> = Vec::new();
    let operation = ArithmeticOp::from_u8(y);
    let operand = Register::from_u8(z);
    push_operand_step(&mut steps, operand, MicroOp::ReadOperand(operand));
    push_instant(&mut steps, MicroOp::Arithmetic(operation));
    Instruction { opcode_val: opcode, length: 1, steps }
}

/// Decodes an opcode whose x field is 3: returns, jumps and calls, the stack
/// group, the high-page loads, SP arithmetic, DI and EI, restarts and
/// arithmetic on an immediate. Gives `None` for the opcodes that name no
/// instruction.
#[verifier::rlimit(100)]
pub fn dissassemble_x_3(y: u8, z: u8, p: u8, q: u8, opcode: u8) -> (decoded: Option<Instruction>)
    requires
        y < 8,
        z < 8,
        p == y / 2,
        q == y % 2,
        opcode == 192 + 8 * y + z,
    ensures
        decoded is Some <==> x3_documented(y, z),
        decoded matches Some(instruction) ==> {
            &&& instruction@ == (InstructionView {
                opcode_val: opcode,
                length: x3_length(y, z, q),
                steps: x3_steps(y, z, p, q),
            })
            &&& 4 + clocks(instruction.steps@) == published_clocks(opcode)
            &&& has_condition(instruction.steps@) == conditional_opcode(opcode)
            &&& conditional_opcode(opcode) ==> 4 + clocks_untaken(instruction.steps@)
                == published_clocks_untaken(opcode)
        },
{
    let mut steps: Vec<InstructionStep> = Vec::new();
    let mut length: u8 = 1;
    if z == 0 {
        if y < 4 {
            push_standard(&mut steps, MicroOp::Idle);
            push_conditional(&mut steps, ConditionCode::from_u8(y));
            push_standard(&mut steps, MicroOp::PopTemp16Low);
            push_standard(&mut steps, MicroOp::PopTemp16High);
            push_standard(&mut steps, MicroOp::Return);
        } else if y == 4 {
            push_fetch_operand8_closure(&mut steps);
            push_standard(&mut steps, MicroOp::StoreAHigh);
            length = 2;
        } else if y == 5 {
            push_fetch_operand8_closure(&mut steps);
            push_standard(&mut steps, MicroOp::Idle);
            push_standard(&mut steps, MicroOp::AddSpImmediate);
            length = 2;
        } else if y == 6 {
            push_fetch_operand8_closure(&mut steps);
            push_standard(&mut steps, MicroOp::LoadAHigh);
            length = 2;
        } else {
            push_fetch_operand8_closure(&mut steps);
            push_standard(&mut steps, MicroOp::LoadHlSpImmediate);
            length = 2;
        }
    } else if z == 1 {
        if q == 0 {
            let pair = RegisterPair2::from_u8(p);
            push_standard(&mut steps, MicroOp::PopLow(pair));
            push_standard(&mut steps, MicroOp::PopHigh(pair));
        } else if p == 0 {
            push_standard(&mut steps, MicroOp::PopTemp16Low);
            push_standard(&mut steps, MicroOp::PopTemp16High);
            push_standard(&mut steps, MicroOp::Return);
        } else if p == 1 {
            push_standard(&mut steps, MicroOp::PopTemp16Low);
            push_standard(&mut steps, MicroOp::PopTemp16High);
            push_standard(&mut steps, MicroOp::ReturnEnable);
        } else if p == 2 {
            push_instant(&mut steps, MicroOp::JumpHl);
        } else {
            push_standard(&mut steps, MicroOp::LoadSpHl);
        }
    } else if z == 2 {
        if y < 4 {
            push_fetch_operand16_closures(&mut steps);
            push_conditional(&mut steps, ConditionCode::from_u8(y));
            push_standard(&mut steps, MicroOp::Jump);
            length = 3;
        } else if y == 4 {
            push_standard(&mut steps, MicroOp::StoreAHighC);
        } else if y == 5 {
            push_fetch_operand16_closures(&mut steps);
            push_standard(&mut steps, MicroOp::StoreAAtOperand16);
            length = 3;
        } else if y == 6 {
            push_standard(&mut steps, MicroOp::LoadAHighC);
        } else {
            push_fetch_operand16_closures(&mut steps);
            push_standard(&mut steps, MicroOp::LoadAAtOperand16);
            length = 3;
        }
    } else if z == 3 {
        if y == 0 {
            push_fetch_operand16_closures(&mut steps);
            push_standard(&mut steps, MicroOp::Jump);
            length = 3;
        } else if y == 6 {
            push_instant(&mut steps, MicroOp::Di);
        } else if y == 7 {
            push_instant(&mut steps, MicroOp::Ei);
        } else {
            return None;
        }
    } else if z == 4 {
        if y < 4 {
            push_fetch_operand16_closures(&mut steps);
            push_conditional(&mut steps, ConditionCode::from_u8(y));
            push_standard(&mut steps, MicroOp::Idle);
            push_standard(&mut steps, MicroOp::PushPcHigh);
            push_standard(&mut steps, MicroOp::PushPcLow);
            push_instant(&mut steps, MicroOp::Jump);
            length = 3;
        } else {
            return None;
        }
    } else if z == 5 {
        if q == 0 {
            let pair = RegisterPair2::from_u8(p);
            push_standard(&mut steps, MicroOp::Idle);
            push_standard(&mut steps, MicroOp::PushHigh(pair));
            push_standard(&mut steps, MicroOp::PushLow(pair));
        } else if p == 0 {
            push_fetch_operand16_closures(&mut steps);
            push_standard(&mut steps, MicroOp::Idle);
            push_standard(&mut steps, MicroOp::PushPcHigh);
            push_standard(&mut steps, MicroOp::PushPcLow);
            push_instant(&mut steps, MicroOp::Jump);
            length = 3;
        } else {
            return None;
        }
    } else if z == 6 {
        push_fetch_operand8_closure(&mut steps);
        push_instant(&mut steps, MicroOp::ArithmeticImmediate(ArithmeticOp::from_u8(y)));
        length = 2;
    } else {
        push_standard(&mut steps, MicroOp::Idle);
        push_standard(&mut steps, MicroOp::PushPcHigh);
        push_standard(&mut steps, MicroOp::PushPcLow);
        push_instant(&mut steps, MicroOp::Restart(y * 8));
    }
    Some(Instruction { opcode_val: opcode, length, steps })
}

/// Decodes an unprefixed opcode into its step queue, or gives `None` for an
/// opcode that names no instruction.
///
/// The queue always opens with the machine cycle that the opcode fetch took,
/// and its `Standard` steps add up to the published duration of the opcode:
/// to the taken duration over the whole queue, and, for a conditional opcode,
/// to the untaken duration over the steps ahead of the condition.
#[verifier::rlimit(100)]
pub fn disassemble(opcode: u8) -> (decoded: Option<Instruction>)
    ensures
        decoded is Some <==> documented(opcode),
        decoded matches Some(instruction) ==> {
            &&& instruction@ == (InstructionView {
                opcode_val: opcode,
                length: length_of(opcode),
                steps: steps_of(opcode),
            })
            &&& instruction.steps@.len() >= 2
            &&& instruction.steps@[0] == standard(MicroOp::Idle)
            &&& clocks(instruction.steps@) == published_clocks(opcode)
            &&& has_condition(instruction.steps@) == conditional_opcode(opcode)
            &&& conditional_opcode(opcode) ==> clocks_untaken(instruction.steps@)
                == published_clocks_untaken(opcode)
        },
{
    proof {
        reveal(steps_of);
    }
    let x = opcode / 64;
    let y = opcode / 8 % 8;
    let z = opcode % 8;
    let p = y / 2;
    let q = y % 2;
    let decoded = if x == 0 {
        Some(dissassemble_x_0(y, z, p, q, opcode))
    } else if x == 1 {
        Some(dissassemble_x_1(y, z, p, q, opcode))
    } else if x == 2 {
        Some(dissassemble_x_2(y, z, p, q, opcode))
    } else {
        dissassemble_x_3(y, z, p, q, opcode)
    };
    match decoded {
        Some(mut instruction) => {
            proof {
                lemma_front_standard(instruction.steps@, MicroOp::Idle);
            }
            instruction.steps.insert(0, InstructionStep::Standard(MicroOp::Idle));
            Some(instruction)
        },
        None => None,
    }
}

/// Decodes the byte that follows the prefix byte: rotates, shifts and swaps,
/// and the bit tests, resets and sets, each on a register or on the byte at
/// HL. Every prefixed opcode names an instruction.
pub fn disassemble_cb_prefix_op(opcode: u8) -> (instruction: Instruction)
    ensures
        instruction@ == (InstructionView {
            opcode_val: opcode,
            length: 2,
            steps: prefixed_steps_of(opcode),
        }),
        instruction.steps@[0] == standard(MicroOp::Idle),
        clocks(instruction.steps@) == published_prefixed_clocks(opcode),
        !has_condition(instruction.steps@),
{
    proof {
        reveal(prefixed_steps_of);
    }
    let x = opcode / 64;
    let y = opcode / 8 % 8;
    let z = opcode % 8;
    let mut steps: Vec<InstructionStep> = Vec::new();
    let register = Register::from_u8(z);
    push_standard(&mut steps, MicroOp::Idle);
    push_standard(&mut steps, MicroOp::Idle);
    if register.is_memory() {
        return disassemble_cb_prefix_op_hl(opcode, x, y, z, steps);
    }
    push_instant(&mut steps, MicroOp::Prefixed(PrefixedOp::from_fields(x, y), register));
    Instruction { opcode_val: opcode, length: 2, steps }
}

/// Completes the queue of a prefixed opcode that works on the byte at HL: one
/// machine cycle to read and compute, and, unless the opcode only tests a
/// bit, one more to write the result back.
pub fn disassemble_cb_prefix_op_hl(
    opcode: u8,
    x: u8,
    y: u8,
    z: u8,
    steps: Vec<InstructionStep>,
) -> (instruction: Instruction)
    requires
        x == opcode / 64,
        y == opcode / 8 % 8,
        z == opcode % 8,
        z == 6,
        steps@ =~= Seq::<InstructionStep>::empty()
            .push(standard(MicroOp::Idle))
            .push(standard(MicroOp::Idle)),
        standard_steps(steps@) == 2,
        !has_condition(steps@),
    ensures
        instruction@ == (InstructionView {
            opcode_val: opcode,
            length: 2,
            steps: prefixed_steps_of(opcode),
        }),
        clocks(instruction.steps@) == published_prefixed_clocks(opcode),
        !has_condition(instruction.steps@),
{
    proof {
        reveal(prefixed_steps_of);
    }
    let mut steps = steps;
    push_standard(&mut steps, MicroOp::Prefixed(PrefixedOp::from_fields(x, y), Register::HLMem));
    if x != 1 {
        push_standard(&mut steps, MicroOp::StoreTemp8AtHl);
    }
    Instruction { opcode_val: opcode, length: 2, steps }
}

/// Builds the instruction that services an interrupt: five machine cycles,
/// twenty master clocks.
pub fn create_interupt_instruction() -> (instruction: Instruction)
    ensures
        instruction@ == (InstructionView { opcode_val: 0, length: 0, steps: interrupt_steps() }),
        clocks(instruction.steps@) == 20,
        !has_condition(instruction.steps@),
{
    let mut steps: Vec<InstructionStep> = Vec::new();
    push_standard(&mut steps, MicroOp::Idle);
    push_standard(&mut steps, MicroOp::Idle);
    push_standard(&mut steps, MicroOp::PushPcHighLatchEnable);
    push_standard(&mut steps, MicroOp::PushPcLowLatchFlags);
    push_standard(&mut steps, MicroOp::Dispatch);
    Instruction { opcode_val: 0, length: 0, steps }
}

/// Appending a step to a queue adds a machine cycle if the step is a
/// `Standard` one; it counts towards the clocks of an untaken branch only if
/// no condition comes before it.
pub proof fn lemma_appended_step()
    ensures
        standard_steps(Seq::<InstructionStep>::empty()) == 0,
        !has_condition(Seq::<InstructionStep>::empty()),
        standard_steps_before_condition(Seq::<InstructionStep>::empty()) == 0,
        forall|steps: Seq<InstructionStep>, step: InstructionStep|
            #[trigger] standard_steps(steps.push(step)) == standard_steps(steps) + if step
                is Standard {
                1nat
            } else {
                0nat
            },
        forall|steps: Seq<InstructionStep>, step: InstructionStep|
            #[trigger] has_condition(steps.push(step)) == (has_condition(steps) || step
                is InstantConditional),
        forall|steps: Seq<InstructionStep>, step: InstructionStep|
            #[trigger] standard_steps_before_condition(steps.push(step))
                == standard_steps_before_condition(steps) + if step is Standard && !has_condition(
                steps,
            ) {
                1nat
            } else {
                0nat
            },
{
    assert forall|steps: Seq<InstructionStep>, step: InstructionStep|
        #[trigger] standard_steps(steps.push(step)) == standard_steps(steps) + if step
            is Standard {
            1nat
        } else {
            0nat
        } by {
        assert(steps.push(step).drop_last() =~= steps);
    }
    assert forall|steps: Seq<InstructionStep>, step: InstructionStep|
        #[trigger] has_condition(steps.push(step)) == (has_condition(steps) || step
            is InstantConditional) by {
        assert(steps.push(step).drop_last() =~= steps);
    }
    assert forall|steps: Seq<InstructionStep>, step: InstructionStep|
        #[trigger] standard_steps_before_condition(steps.push(step))
            == standard_steps_before_condition(steps) + if step is Standard && !has_condition(
            steps,
        ) {
            1nat
        } else {
            0nat
        } by {
        assert(steps.push(step).drop_last() =~= steps);
    }
}

/// The statement of the cycle budget for the steps behind the opcode fetch.
spec fn body_on_budget(opcode: u8) -> bool {
    &&& 4 + clocks(body_steps(opcode)) == published_clocks(opcode)
    &&& has_condition(body_steps(opcode)) == conditional_opcode(opcode)
    &&& conditional_opcode(opcode) ==> 4 + clocks_untaken(body_steps(opcode))
        == published_clocks_untaken(opcode)
}

#[verifier::rlimit(100)]
proof fn lemma_budget_x0(opcode: u8)
    requires
        opcode / 64 == 0,
    ensures
        body_on_budget(opcode),
{
    lemma_appended_step();
}

#[verifier::rlimit(100)]
proof fn lemma_budget_x1(opcode: u8)
    requires
        opcode / 64 == 1,
    ensures
        body_on_budget(opcode),
{
    lemma_appended_step();
}

#[verifier::rlimit(100)]
proof fn lemma_budget_x2(opcode: u8)
    requires
        opcode / 64 == 2,
    ensures
        body_on_budget(opcode),
{
    lemma_appended_step();
}

#[verifier::rlimit(100)]
proof fn lemma_budget_x3(opcode: u8)
    requires
        opcode / 64 == 3,
        documented(opcode),
    ensures
        body_on_budget(opcode),
{
    lemma_appended_step();
}

/// The cycle budget. The `Standard` steps of the queue of every documented
/// opcode add up to the published duration of the opcode, at four master
/// clocks each: over the whole queue to the duration of the instruction when
/// it runs to its end, and, for an opcode that branches on a condition, over
/// the steps ahead of the condition to the duration when the branch is not
/// taken. The same holds of the prefixed opcodes, none of which branches, and
/// the interrupt service routine takes twenty clocks.
pub proof fn lemma_cycle_budget(opcode: u8)
    ensures
        documented(opcode) ==> clocks(steps_of(opcode)) == published_clocks(opcode),
        documented(opcode) ==> has_condition(steps_of(opcode)) == conditional_opcode(opcode),
        documented(opcode) && conditional_opcode(opcode) ==> clocks_untaken(steps_of(opcode))
            == published_clocks_untaken(opcode),
        clocks(prefixed_steps_of(opcode)) == published_prefixed_clocks(opcode),
        !has_condition(prefixed_steps_of(opcode)),
        clocks(interrupt_steps()) == 20,
        !has_condition(interrupt_steps()),
{
    reveal(steps_of);
    reveal(prefixed_steps_of);
    lemma_appended_step();
    if documented(opcode) {
        if opcode / 64 == 0 {
            lemma_budget_x0(opcode);
        } else if opcode / 64 == 1 {
            lemma_budget_x1(opcode);
        } else if opcode / 64 == 2 {
            lemma_budget_x2(opcode);
        } else {
            lemma_budget_x3(opcode);
        }
        assert(body_on_budget(opcode));
        lemma_front_standard(body_steps(opcode), MicroOp::Idle);
    }
}

} // verus!
