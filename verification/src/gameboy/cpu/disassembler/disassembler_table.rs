//! The operand tables that opcode fields index into.
use vstd::prelude::*;

verus! {

/// A branch condition, selected by two opcode bits.
#[derive(Clone, Copy, PartialEq, Eq, Structural, Debug)]
pub enum ConditionCode {
    NotZero,
    Zero,
    NotCarry,
    Carry,
}

impl ConditionCode {
    /// The condition that a two-bit field selects.
    pub open spec fn of(index: u8) -> ConditionCode {
        if index == 0 {
            ConditionCode::NotZero
        } else if index == 1 {
            ConditionCode::Zero
        } else if index == 2 {
            ConditionCode::NotCarry
        } else {
            ConditionCode::Carry
        }
    }

    pub fn from_u8(index: u8) -> (code: Self)
        requires
            index < 4,
        ensures
            code == Self::of(index),
    {
        if index == 0 {
            ConditionCode::NotZero
        } else if index == 1 {
            ConditionCode::Zero
        } else if index == 2 {
            ConditionCode::NotCarry
        } else {
            ConditionCode::Carry
        }
    }

    /// Whether the condition is met under the given zero and carry flags.
    pub open spec fn holds(self, zero: bool, carry: bool) -> bool {
        match self {
            ConditionCode::NotZero => !zero,
            ConditionCode::Zero => zero,
            ConditionCode::NotCarry => !carry,
            ConditionCode::Carry => carry,
        }
    }

    /// Evaluates the condition under the given zero and carry flags.
    pub fn is_met(self, zero: bool, carry: bool) -> (met: bool)
        ensures
            met == self.holds(zero, carry),
    {
        match self {
            ConditionCode::NotZero => !zero,
            ConditionCode::Zero => zero,
            ConditionCode::NotCarry => !carry,
            ConditionCode::Carry => carry,
        }
    }
}

/// The register pairs of the 16-bit load and arithmetic group.
#[derive(Clone, Copy, PartialEq, Eq, Structural, Debug)]
pub enum RegisterPair1 {
    BC,
    DE,
    HL,
    SP,
}

impl RegisterPair1 {
    /// The pair that a two-bit field selects.
    pub open spec fn of(index: u8) -> RegisterPair1 {
        if index == 0 {
            RegisterPair1::BC
        } else if index == 1 {
            RegisterPair1::DE
        } else if index == 2 {
            RegisterPair1::HL
        } else {
            RegisterPair1::SP
        }
    }

    pub fn from_u8(index: u8) -> (pair: Self)
        requires
            index < 4,
        ensures
            pair == Self::of(index),
    {
        if index == 0 {
            RegisterPair1::BC
        } else if index == 1 {
            RegisterPair1::DE
        } else if index == 2 {
            RegisterPair1::HL
        } else {
            RegisterPair1::SP
        }
    }
}

/// The register pairs of the stack group.
#[derive(Clone, Copy, PartialEq, Eq, Structural, Debug)]
pub enum RegisterPair2 {
    BC,
    DE,
    HL,
    AF,
}

impl RegisterPair2 {
    /// The pair that a two-bit field selects.
    pub open spec fn of(index: u8) -> RegisterPair2 {
        if index == 0 {
            RegisterPair2::BC
        } else if index == 1 {
            RegisterPair2::DE
        } else if index == 2 {
            RegisterPair2::HL
        } else {
            RegisterPair2::AF
        }
    }

    pub fn from_u8(index: u8) -> (pair: Self)
        requires
            index < 4,
        ensures
            pair == Self::of(index),
    {
        if index == 0 {
            RegisterPair2::BC
        } else if index == 1 {
            RegisterPair2::DE
        } else if index == 2 {
            RegisterPair2::HL
        } else {
            RegisterPair2::AF
        }
    }
}

/// An 8-bit operand: a register, or the byte that HL points at.
#[derive(Clone, Copy, PartialEq, Eq, Structural, Debug)]
pub enum Register {
    B,
    C,
    D,
    E,
    H,
    L,
    HLMem,
    A,
}

impl Register {
    /// The operand that a three-bit field selects.
    pub open spec fn of(index: u8) -> Register {
        if index == 0 {
            Register::B
        } else if index == 1 {
            Register::C
        } else if index == 2 {
            Register::D
        } else if index == 3 {
            Register::E
        } else if index == 4 {
            Register::H
        } else if index == 5 {
            Register::L
        } else if index == 6 {
            Register::HLMem
        } else {
            Register::A
        }
    }

    pub fn from_u8(index: u8) -> (register: Self)
        requires
            index < 8,
        ensures
            register == Self::of(index),
    {
        if index == 0 {
            Register::B
        } else if index == 1 {
            Register::C
        } else if index == 2 {
            Register::D
        } else if index == 3 {
            Register::E
        } else if index == 4 {
            Register::H
        } else if index == 5 {
            Register::L
        } else if index == 6 {
            Register::HLMem
        } else {
            Register::A
        }
    }

    /// Whether the operand lives in memory, so that touching it costs a bus cycle.
    pub open spec fn in_memory(self) -> bool {
        self == Register::HLMem
    }

    pub fn is_memory(self) -> (memory: bool)
        ensures
            memory == self.in_memory(),
    {
        match self {
            Register::HLMem => true,
            _ => false,
        }
    }
}

/// The eight accumulator operations.
#[derive(Clone, Copy, PartialEq, Eq, Structural, Debug)]
pub enum ArithmeticOp {
    ADD,
    ADC,
    SUB,
    SBC,
    AND,
    XOR,
    OR,
    CP,
}

impl ArithmeticOp {
    /// The operation that a three-bit field selects.
    pub open spec fn of(index: u8) -> ArithmeticOp {
        if index == 0 {
            ArithmeticOp::ADD
        } else if index == 1 {
            ArithmeticOp::ADC
        } else if index == 2 {
            ArithmeticOp::SUB
        } else if index == 3 {
            ArithmeticOp::SBC
        } else if index == 4 {
            ArithmeticOp::AND
        } else if index == 5 {
            ArithmeticOp::XOR
        } else if index == 6 {
            ArithmeticOp::OR
        } else {
            ArithmeticOp::CP
        }
    }

    pub fn from_u8(index: u8) -> (op: Self)
        requires
            index < 8,
        ensures
            op == Self::of(index),
    {
        if index == 0 {
            ArithmeticOp::ADD
        } else if index == 1 {
            ArithmeticOp::ADC
        } else if index == 2 {
            ArithmeticOp::SUB
        } else if index == 3 {
            ArithmeticOp::SBC
        } else if index == 4 {
            ArithmeticOp::AND
        } else if index == 5 {
            ArithmeticOp::XOR
        } else if index == 6 {
            ArithmeticOp::OR
        } else {
            ArithmeticOp::CP
        }
    }
}

/// The eight rotate and shift operations behind the prefix byte.
#[derive(Clone, Copy, PartialEq, Eq, Structural, Debug)]
pub enum CBOp {
    RLC,
    RRC,
    RL,
    RR,
    SLA,
    SRA,
    SWAP,
    SRL,
}

impl CBOp {
    /// The operation that a three-bit field selects.
    pub open spec fn of(index: u8) -> CBOp {
        if index == 0 {
            CBOp::RLC
        } else if index == 1 {
            CBOp::RRC
        } else if index == 2 {
            CBOp::RL
        } else if index == 3 {
            CBOp::RR
        } else if index == 4 {
            CBOp::SLA
        } else if index == 5 {
            CBOp::SRA
        } else if index == 6 {
            CBOp::SWAP
        } else {
            CBOp::SRL
        }
    }

    pub fn from_u8(index: u8) -> (op: Self)
        requires
            index < 8,
        ensures
            op == Self::of(index),
    {
        if index == 0 {
            CBOp::RLC
        } else if index == 1 {
            CBOp::RRC
        } else if index == 2 {
            CBOp::RL
        } else if index == 3 {
            CBOp::RR
        } else if index == 4 {
            CBOp::SLA
        } else if index == 5 {
            CBOp::SRA
        } else if index == 6 {
            CBOp::SWAP
        } else {
            CBOp::SRL
        }
    }
}

} // verus!
